use nt::note::Note;
use nt::rows::{
    advance, can_bind, id_args, insert_args, inserted_id, like_pattern, note_from_row,
    note_with_id, row_id, search_args, update_args, wrote_one_row, Advance, BindArg, Column,
    Fetched, RowGetter, WriteReport, MAX_TEXT_BYTES,
};
use nt::sqlite::{
    all_request, del_request, get_request, put_request, search_request, ALL_NOTES_SQL,
    NOTE_BY_ID_SQL, NOTE_DELETE_SQL, NOTE_INSERT_SQL, NOTE_SEARCH_SQL, NOTE_UPDATE_SQL,
};

fn note_row(id: i64, name: &str, content: &str) -> Vec<Column> {
    vec![
        Column::Integer(id),
        Column::Text(name.to_string()),
        Column::Text(content.to_string()),
        Column::Text("2024-01-01 00:00:00".to_string()),
        Column::Text("2024-01-01 00:00:00".to_string()),
    ]
}

#[test]
fn getter_reads_by_position_and_kind() {
    let getter = RowGetter::new(vec![
        Column::Integer(5),
        Column::Text("t".to_string()),
        Column::Blob(vec![1, 2, 3]),
        Column::Null,
        Column::Real,
    ]);
    assert_eq!(getter.get_int(0), Some(5));
    assert_eq!(getter.get_text(1), Some("t".to_string()));
    assert_eq!(getter.get_blob(2), Some(vec![1, 2, 3]));
    assert_eq!(getter.get_int(1), None);
    assert_eq!(getter.get_text(0), None);
    assert_eq!(getter.get_blob(1), None);
    assert_eq!(getter.get_int(3), None);
    assert_eq!(getter.get_text(3), None);
    assert_eq!(getter.get_int(4), None);
    assert_eq!(getter.get_int(5), None);
    assert_eq!(getter.get_text(5), None);
    assert_eq!(getter.get_blob(99), None);
}

#[test]
fn row_id_takes_what_an_id_can_hold() {
    assert_eq!(row_id(0), Some(0));
    assert_eq!(row_id(1), Some(1));
    assert_eq!(row_id(-1), Some(-1));
    assert_eq!(row_id(isize::MAX as i64), Some(isize::MAX));
    assert_eq!(row_id(isize::MIN as i64), Some(isize::MIN));
}

#[test]
fn note_from_a_full_row() {
    let note = note_from_row(note_row(4, "Shopping", "milk")).unwrap();
    assert_eq!(note.id, Some(4));
    assert_eq!(note.name, "Shopping");
    assert_eq!(note.content, "milk");
}

#[test]
fn note_from_a_row_of_three_columns() {
    let row = vec![
        Column::Integer(1),
        Column::Text("n".to_string()),
        Column::Text(String::new()),
    ];
    let note = note_from_row(row).unwrap();
    assert_eq!(note.id, Some(1));
    assert_eq!(note.name, "n");
    assert_eq!(note.content, "");
}

#[test]
fn malformed_rows_hold_no_note() {
    assert!(note_from_row(vec![]).is_none());
    assert!(note_from_row(vec![Column::Integer(1)]).is_none());
    assert!(note_from_row(vec![Column::Integer(1), Column::Text("n".to_string())]).is_none());
    assert!(note_from_row(vec![
        Column::Null,
        Column::Text("n".to_string()),
        Column::Text("c".to_string()),
    ]).is_none());
    assert!(note_from_row(vec![
        Column::Text("1".to_string()),
        Column::Text("n".to_string()),
        Column::Text("c".to_string()),
    ]).is_none());
    assert!(note_from_row(vec![
        Column::Integer(1),
        Column::Null,
        Column::Text("c".to_string()),
    ]).is_none());
    assert!(note_from_row(vec![
        Column::Integer(1),
        Column::Text("n".to_string()),
        Column::Blob(vec![99]),
    ]).is_none());
    assert!(note_from_row(vec![
        Column::Real,
        Column::Text("n".to_string()),
        Column::Text("c".to_string()),
    ]).is_none());
}

#[test]
fn note_with_id_wants_the_id_that_was_asked_for() {
    let note = note_with_id(4, note_row(4, "n", "c")).unwrap();
    assert_eq!(note.id, Some(4));
    assert_eq!(note.name, "n");
    assert_eq!(note.content, "c");
    assert!(note_with_id(5, note_row(4, "n", "c")).is_none());
    assert!(note_with_id(4, vec![Column::Integer(4)]).is_none());
}

#[test]
fn a_write_succeeds_if_it_changed_one_row() {
    assert!(wrote_one_row(WriteReport::Changed(1)));
    assert!(!wrote_one_row(WriteReport::Changed(0)));
    assert!(!wrote_one_row(WriteReport::Changed(2)));
    assert!(!wrote_one_row(WriteReport::Changed(-1)));
    assert!(!wrote_one_row(WriteReport::Fault));
}

#[test]
fn an_insert_gives_the_row_id_as_id() {
    assert_eq!(inserted_id(WriteReport::Changed(1), Some(17)), Some(17));
    assert_eq!(inserted_id(WriteReport::Changed(1), None), None);
    assert_eq!(inserted_id(WriteReport::Changed(0), Some(17)), None);
    assert_eq!(inserted_id(WriteReport::Changed(2), Some(17)), None);
    assert_eq!(inserted_id(WriteReport::Fault, Some(17)), None);
    assert_eq!(inserted_id(WriteReport::Fault, None), None);
}

#[test]
fn like_pattern_wraps_in_percent_signs() {
    assert_eq!(like_pattern("shop"), "%shop%");
    assert_eq!(like_pattern(""), "%%");
    assert_eq!(like_pattern("50%"), "%50%%");
    assert_eq!(like_pattern("h\u{e9}"), "%h\u{e9}%");
}

#[test]
fn ordinary_values_can_be_bound() {
    assert_eq!(MAX_TEXT_BYTES, 2147483647);
    assert!(can_bind(&vec![]));
    assert!(can_bind(&vec![BindArg::Integer(i64::MIN), BindArg::Integer(i64::MAX)]));
    assert!(can_bind(&vec![
        BindArg::Text(String::new()),
        BindArg::Text("h\u{e9}".repeat(1000)),
        BindArg::Integer(1),
    ]));
}

fn integer(arg: &BindArg) -> i64 {
    match arg {
        BindArg::Integer(value) => *value,
        other => panic!("expected an integer, got {:?}", other),
    }
}

fn text(arg: &BindArg) -> &str {
    match arg {
        BindArg::Text(value) => value,
        other => panic!("expected a text, got {:?}", other),
    }
}

#[test]
fn id_args_hold_the_id() {
    let args = id_args(42);
    assert_eq!(args.len(), 1);
    assert_eq!(integer(&args[0]), 42);
    assert_eq!(integer(&id_args(-3)[0]), -3);
    assert_eq!(integer(&id_args(isize::MAX)[0]), isize::MAX as i64);
}

#[test]
fn insert_args_hold_name_then_content() {
    let args = insert_args("Title", "Body");
    assert_eq!(args.len(), 2);
    assert_eq!(text(&args[0]), "Title");
    assert_eq!(text(&args[1]), "Body");
}

#[test]
fn update_args_hold_name_content_and_id() {
    let args = update_args("Title", "Body", 7);
    assert_eq!(args.len(), 3);
    assert_eq!(text(&args[0]), "Title");
    assert_eq!(text(&args[1]), "Body");
    assert_eq!(integer(&args[2]), 7);
}

#[test]
fn search_args_hold_the_wrapped_pattern_twice() {
    let args = search_args("shop");
    assert_eq!(args.len(), 2);
    assert_eq!(text(&args[0]), "%shop%");
    assert_eq!(text(&args[1]), "%shop%");
}

#[test]
fn a_note_without_id_is_inserted() {
    let request = put_request(&Note::new(None, "Title", "Body"));
    assert_eq!(request.sql, NOTE_INSERT_SQL);
    assert_eq!(request.sql, "INSERT INTO notes(name, content) VALUES(?, ?);");
    assert_eq!(request.args.len(), 2);
    assert_eq!(text(&request.args[0]), "Title");
    assert_eq!(text(&request.args[1]), "Body");
}

#[test]
fn a_note_with_id_is_updated_under_its_id() {
    let request = put_request(&Note::new(Some(7), "Title", "Body"));
    assert_eq!(request.sql, NOTE_UPDATE_SQL);
    assert_eq!(request.sql, "UPDATE notes SET name=?, content=? WHERE id=?;");
    assert_eq!(request.args.len(), 3);
    assert_eq!(text(&request.args[0]), "Title");
    assert_eq!(text(&request.args[1]), "Body");
    assert_eq!(integer(&request.args[2]), 7);
}

#[test]
fn get_and_del_ask_by_id() {
    let get = get_request(5);
    assert_eq!(get.sql, NOTE_BY_ID_SQL);
    assert_eq!(get.args.len(), 1);
    assert_eq!(integer(&get.args[0]), 5);
    let del = del_request(5);
    assert_eq!(del.sql, NOTE_DELETE_SQL);
    assert_eq!(del.sql, "DELETE FROM notes WHERE id = ?;");
    assert_eq!(del.args.len(), 1);
    assert_eq!(integer(&del.args[0]), 5);
    assert_ne!(get.sql, del.sql);
}

#[test]
fn search_and_all_ask_in_id_order() {
    let search = search_request("milk");
    assert_eq!(search.sql, NOTE_SEARCH_SQL);
    assert!(search.sql.ends_with("ORDER BY id;"));
    assert_eq!(search.args.len(), 2);
    assert_eq!(text(&search.args[0]), "%milk%");
    assert_eq!(text(&search.args[1]), "%milk%");
    let all = all_request();
    assert_eq!(all.sql, ALL_NOTES_SQL);
    assert!(all.sql.ends_with("ORDER BY id;"));
    assert!(all.args.is_empty());
}

#[test]
fn the_statements_are_all_different() {
    let statements = [
        ALL_NOTES_SQL, NOTE_INSERT_SQL, NOTE_UPDATE_SQL, NOTE_BY_ID_SQL, NOTE_DELETE_SQL,
        NOTE_SEARCH_SQL,
    ];
    for (i, first) in statements.iter().enumerate() {
        for second in statements.iter().skip(i + 1) {
            assert_ne!(first, second);
        }
    }
}

#[test]
fn a_row_with_a_note_is_yielded() {
    match advance(Fetched::Row(note_row(4, "Shopping", "milk"))) {
        Advance::Yield(note) => {
            assert_eq!(note.id, Some(4));
            assert_eq!(note.name, "Shopping");
            assert_eq!(note.content, "milk");
        },
        other => panic!("expected the note, got {:?}", other),
    }
}

#[test]
fn a_row_without_a_note_is_passed_over() {
    assert!(matches!(advance(Fetched::Row(vec![])), Advance::Skip));
    assert!(matches!(
        advance(Fetched::Row(vec![
            Column::Integer(1),
            Column::Null,
            Column::Text("c".to_string()),
        ])),
        Advance::Skip
    ));
    assert!(matches!(
        advance(Fetched::Row(vec![
            Column::Null,
            Column::Text("n".to_string()),
            Column::Text("c".to_string()),
        ])),
        Advance::Skip
    ));
}

#[test]
fn the_end_and_a_fault_stop_the_notes() {
    assert!(matches!(advance(Fetched::End), Advance::Stop));
    assert!(matches!(advance(Fetched::Fault), Advance::Stop));
}
