//! Splitting text into lines.
//!
//! A line ends at a line feed. A carriage return directly before that line feed
//! is not part of the line. Text after the last line feed is a line of its own
//! if it is not empty, and keeps a carriage return at its end.

use vstd::prelude::*;

verus! {

/// `String::push` appends one character.
pub assume_specification[ String::push ](s: &mut String, c: char)
    ensures
        final(s)@ == old(s)@.push(c),
;

/// `line` without the carriage return at its end, if it has one.
pub open spec fn strip_cr(line: Seq<char>) -> Seq<char> {
    if line.len() > 0 && line.last() == '\r' {
        line.drop_last()
    } else {
        line
    }
}

/// The lines that `s` has completed with a line feed, and the text after the
/// last line feed.
pub open spec fn scan(s: Seq<char>) -> (Seq<Seq<char>>, Seq<char>)
    decreases s.len(),
{
    if s.len() == 0 {
        (Seq::empty(), Seq::empty())
    } else {
        let (done, rest) = scan(s.drop_last());
        if s.last() == '\n' {
            (done.push(strip_cr(rest)), Seq::empty())
        } else {
            (done, rest.push(s.last()))
        }
    }
}

/// The lines of `s`.
pub open spec fn lines_of(s: Seq<char>) -> Seq<Seq<char>> {
    let (done, rest) = scan(s);
    if rest.len() > 0 {
        done.push(rest)
    } else {
        done
    }
}

/// The texts that a sequence of strings holds.
pub open spec fn texts(v: Seq<String>) -> Seq<Seq<char>> {
    Seq::new(v.len(), |i: int| v[i]@)
}

/// Splits `text` into its lines.
pub fn split_lines(text: &str) -> (lines: Vec<String>)
    ensures
        texts(lines@) == lines_of(text@),
{
    broadcast use vstd::string::axiom_spec_iter;

    let mut done: Vec<String> = Vec::new();
    let mut cur = String::new();
    let mut pending_cr = false;
    let ghost mut seen: Seq<char> = Seq::empty();
    for c in it: text.chars()
        invariant
            it.seq() == text@,
            seen == text@.take(it.index() as int),
            texts(done@) == scan(seen).0,
            scan(seen).1 == (if pending_cr { cur@.push('\r') } else { cur@ }),
            !pending_cr ==> strip_cr(cur@) == cur@,
    {
        proof {
            let next = text@.take(it.index() + 1);
            assert(next.drop_last() == seen);
            assert(next.last() == c);
            seen = next;
        }
        if c == '\n' {
            proof {
                assert(cur@.push('\r').drop_last() == cur@);
                assert(texts(done@).push(cur@) == texts(done@.push(cur)));
            }
            done.push(cur);
            cur = String::new();
            pending_cr = false;
        } else {
            if pending_cr {
                cur.push('\r');
            }
            if c == '\r' {
                pending_cr = true;
            } else {
                pending_cr = false;
                cur.push(c);
            }
        }
    }
    assert(seen == text@);
    if pending_cr {
        cur.push('\r');
    }
    if !cur.as_str().is_empty() {
        proof {
            assert(texts(done@).push(cur@) == texts(done@.push(cur)));
        }
        done.push(cur);
    }
    done
}

} // verus!
