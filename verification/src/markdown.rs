//! The textual form of a note that is handed to an editor, and reading it back.
//!
//! The first line is the name. The second line underlines it with `=`, one for
//! each byte of the name. The content follows, and a line feed ends the text.
//! Reading takes the first line as the name, passes over the second, and takes
//! every further line, each with a line feed after it, as the content.

use vstd::prelude::*;
use vstd::string::*;
use vstd::utf8::encode_utf8;
use crate::lines::{lines_of, scan, split_lines, strip_cr, texts};
use crate::note::Note;

verus! {

/// A run of `n` equals signs.
pub open spec fn underline(n: nat) -> Seq<char> {
    Seq::new(n, |i: int| '=')
}

/// The textual form of a note with this name and content.
pub open spec fn markdown_of(name: Seq<char>, content: Seq<char>) -> Seq<char> {
    name.push('\n') + underline(encode_utf8(name).len()).push('\n') + content.push('\n')
}

/// The lines `ls` one after the other, each followed by a line feed.
pub open spec fn joined(ls: Seq<Seq<char>>) -> Seq<char>
    decreases ls.len(),
{
    if ls.len() == 0 {
        Seq::empty()
    } else {
        joined(ls.drop_last()) + ls.last().push('\n')
    }
}

/// The name and the content that `text` is read as, if it has a first line.
pub open spec fn parsed(text: Seq<char>) -> Option<(Seq<char>, Seq<char>)> {
    let ls = lines_of(text);
    if ls.len() == 0 {
        None
    } else if ls.len() <= 2 {
        Some((ls[0], Seq::empty()))
    } else {
        Some((ls[0], joined(ls.subrange(2, ls.len() as int))))
    }
}

/// No carriage return in `s` stands directly before a line feed.
pub open spec fn no_cr_before_lf(s: Seq<char>) -> bool {
    forall|i: int| 0 <= i < s.len() - 1 && #[trigger] s[i] == '\r' ==> s[i + 1] != '\n'
}

/// Writes the textual form of a note with this name and content.
pub fn to_markdown(name: &str, content: &str) -> (text: String)
    ensures
        text@ == markdown_of(name@, content@),
{
    let mut ret = String::new();
    ret.append(name);
    ret.push('\n');
    let n = name.as_bytes().len();
    let ghost head = ret@;
    let mut i: usize = 0;
    while i < n
        invariant
            i <= n,
            ret@ == head + underline(i as nat),
        decreases n - i,
    {
        ret.push('=');
        i = i + 1;
        assert(ret@ == head + underline(i as nat));
    }
    ret.push('\n');
    ret.append(content);
    ret.push('\n');
    assert(ret@ == markdown_of(name@, content@));
    ret
}

/// Reads a note from its textual form. The note has no id. Only the empty text
/// has no first line and is not a note.
pub fn parse_note(text: &str) -> (r: Option<Note>)
    ensures
        r is Some <==> text@.len() > 0,
        match parsed(text@) {
            Some((name, content)) => r matches Some(note) && note.id is None && note.name@ == name
                && note.content@ == content,
            None => r is None,
        },
{
    proof {
        lemma_lines_empty(text@);
    }
    let lines = split_lines(text);
    let n = lines.len();
    if n == 0 {
        return None;
    }
    let ghost ls = texts(lines@);
    let mut content = String::new();
    if n > 2 {
        let mut i: usize = 2;
        while i < n
            invariant
                2 <= i <= n,
                n == lines.len(),
                ls == texts(lines@),
                content@ == joined(ls.subrange(2, i as int)),
            decreases n - i,
        {
            proof {
                let upto = ls.subrange(2, i + 1);
                assert(upto.drop_last() == ls.subrange(2, i as int));
                assert(upto.last() == lines[i as int]@);
                assert(content@ + lines[i as int]@ + seq!['\n'] == content@ + lines[i as int]@.push(
                    '\n',
                ));
            }
            content.append(lines[i].as_str());
            content.push('\n');
            i = i + 1;
        }
    }
    Some(Note::new(None, lines[0].as_str(), content.as_str()))
}

/// Only the empty text has no lines.
pub proof fn lemma_lines_empty(s: Seq<char>)
    ensures
        lines_of(s).len() == 0 <==> s.len() == 0,
{
}

/// Text without a line feed only extends the unfinished line.
pub proof fn lemma_scan_plain(p: Seq<char>, t: Seq<char>)
    requires
        !t.contains('\n'),
    ensures
        scan(p + t) == (scan(p).0, scan(p).1 + t),
    decreases t.len(),
{
    if t.len() == 0 {
        assert(p + t == p);
        assert(scan(p).1 + t == scan(p).1);
    } else {
        let init = t.drop_last();
        assert(t.contains(t.last()));
        assert forall|i: int| 0 <= i < init.len() implies init[i] != '\n' by {
            assert(t.contains(t[i]));
        }
        lemma_scan_plain(p, init);
        assert((p + t).drop_last() == p + init);
        assert((scan(p).1 + init).push(t.last()) == scan(p).1 + t);
    }
}

/// A line feed completes the unfinished line.
pub proof fn lemma_scan_line_feed(p: Seq<char>)
    ensures
        scan(p.push('\n')) == (scan(p).0.push(strip_cr(scan(p).1)), Seq::<char>::empty()),
{
    assert(p.push('\n').drop_last() == p);
}

/// After a line feed, what follows is split on its own.
pub proof fn lemma_scan_after_line_feed(a: Seq<char>, b: Seq<char>)
    requires
        scan(a).1.len() == 0,
    ensures
        scan(a + b) == (scan(a).0 + scan(b).0, scan(b).1),
    decreases b.len(),
{
    if b.len() == 0 {
        assert(a + b == a);
        assert(scan(a).0 + scan(b).0 == scan(a).0);
        assert(scan(a).1 == scan(b).1);
    } else {
        let init = b.drop_last();
        lemma_scan_after_line_feed(a, init);
        assert((a + b).drop_last() == a + init);
        if b.last() == '\n' {
            assert((scan(a).0 + scan(init).0).push(strip_cr(scan(init).1)) == scan(a).0 + scan(
                init,
            ).0.push(strip_cr(scan(init).1)));
        }
    }
}

/// Where no carriage return stands before a line feed, the completed lines,
/// each with its line feed, and the unfinished line make up the text again.
pub proof fn lemma_joined_scan(s: Seq<char>)
    requires
        no_cr_before_lf(s),
    ensures
        joined(scan(s).0) + scan(s).1 == s,
    decreases s.len(),
{
    if s.len() == 0 {
    } else {
        let init = s.drop_last();
        assert(no_cr_before_lf(init)) by {
            assert forall|i: int| 0 <= i < init.len() - 1 && #[trigger] init[i] == '\r' implies init[i
                + 1] != '\n' by {
                assert(s[i] == '\r');
            }
        }
        lemma_joined_scan(init);
        let (done, rest) = scan(init);
        if s.last() == '\n' {
            if rest.len() > 0 {
                assert(rest.last() == init.last());
                assert(s[s.len() - 2] == init.last());
            }
            assert(strip_cr(rest) == rest);
            assert(done.push(rest).drop_last() == done);
            assert(joined(done) + rest.push('\n') + Seq::<char>::empty() == (joined(done) + rest).push(
                '\n',
            ));
            assert(init.push('\n') == s);
        } else {
            assert(joined(done) + rest.push(s.last()) == (joined(done) + rest).push(s.last()));
            assert(init.push(s.last()) == s);
        }
    }
}

/// Reading the textual form of a note gives the name back, and the content
/// with the line feed that ends the text. This holds where the name is one
/// line (it has no line feed and no carriage return at its end) and where no
/// carriage return in the content stands before a line feed or at its end.
pub proof fn lemma_parse_markdown(name: Seq<char>, content: Seq<char>)
    requires
        !name.contains('\n'),
        strip_cr(name) == name,
        no_cr_before_lf(content.push('\n')),
    ensures
        parsed(markdown_of(name, content)) == Some((name, content.push('\n'))),
{
    let empty = Seq::<char>::empty();
    let ul = underline(encode_utf8(name).len());
    let body = content.push('\n');
    // The name, up to its line feed.
    lemma_scan_plain(empty, name);
    assert(empty + name == name);
    assert(scan(empty).1 + name == name);
    lemma_scan_line_feed(name);
    let a2 = name.push('\n');
    assert(scan(a2) == (seq![name], empty));
    // The underline, up to its line feed.
    assert(!ul.contains('\n'));
    lemma_scan_plain(a2, ul);
    assert(empty + ul == ul);
    lemma_scan_line_feed(a2 + ul);
    let a4 = (a2 + ul).push('\n');
    assert(strip_cr(ul) == ul);
    assert(scan(a4) == (seq![name, ul], empty)) by {
        assert(seq![name].push(ul) == seq![name, ul]);
    }
    // The content, up to the line feed that ends the text.
    lemma_scan_line_feed(content);
    lemma_scan_after_line_feed(a4, body);
    lemma_joined_scan(body);
    assert(joined(scan(body).0) + empty == joined(scan(body).0));
    let text = markdown_of(name, content);
    assert(text == a4 + body);
    let ls = lines_of(text);
    assert(ls == seq![name, ul] + scan(body).0);
    assert(ls.subrange(2, ls.len() as int) == scan(body).0);
}

} // verus!
