use backend::query::{Bind, QueryParams, Statement, UpdateTopic};

fn params(subject_id: Option<i64>, book_id: Option<i64>, section_id: Option<i64>) -> QueryParams {
    QueryParams { subject_id, book_id, section_id }
}

fn ints(binds: Vec<Bind>) -> Vec<Option<i64>> {
    binds
        .into_iter()
        .map(|b| match b {
            Bind::Int(v) => v,
            Bind::Text(_) => panic!("text bound where an integer was expected"),
        })
        .collect()
}

#[test]
fn subjects_listed_in_id_order() {
    let st = Statement::subjects();
    assert_eq!(st.sql(), "SELECT id, name FROM subjects ORDER BY id");
    assert!(st.into_binds().is_empty());
}

#[test]
fn books_filtered_by_subject() {
    let st = Statement::books(&params(Some(3), Some(9), None));
    assert_eq!(st.sql(), "SELECT id, name FROM books WHERE subject_id = ? ORDER BY id");
    assert_eq!(ints(st.into_binds()), vec![Some(3)]);
}

#[test]
fn books_without_subject_bind_null() {
    let st = Statement::books(&params(None, Some(2), None));
    assert_eq!(ints(st.into_binds()), vec![None]);
}

#[test]
fn sections_filtered_by_book() {
    let st = Statement::sections(&params(Some(1), Some(7), None));
    assert_eq!(st.sql(), "SELECT id, name FROM sections WHERE book_id = ? ORDER BY id");
    assert_eq!(ints(st.into_binds()), vec![Some(7)]);
}

#[test]
fn topics_with_section_use_all_three_ids() {
    let st = Statement::topics(&params(Some(1), Some(2), Some(3)));
    assert_eq!(
        st.sql(),
        "SELECT id, name, markdown FROM topics WHERE subject_id = ? AND book_id = ? AND section_id = ? ORDER BY id"
    );
    assert_eq!(ints(st.into_binds()), vec![Some(1), Some(2), Some(3)]);
}

#[test]
fn topics_without_section_ignore_book() {
    let st = Statement::topics(&params(Some(4), Some(5), None));
    assert_eq!(st.sql(), "SELECT id, name, markdown FROM topics WHERE subject_id = ? ORDER BY id");
    assert_eq!(ints(st.into_binds()), vec![Some(4)]);
}

#[test]
fn topics_with_section_and_no_subject_bind_null() {
    let st = Statement::topics(&params(None, None, Some(8)));
    assert_eq!(ints(st.into_binds()), vec![None, None, Some(8)]);
}

#[test]
fn update_binds_markdown_then_id() {
    let st = Statement::update(UpdateTopic { markdown: "# Title".to_string(), topic_id: 12 });
    assert_eq!(st.sql(), "UPDATE topics SET markdown = ? WHERE id = ?");
    let binds = st.into_binds();
    assert_eq!(binds.len(), 2);
    assert!(matches!(&binds[0], Bind::Text(s) if s == "# Title"));
    assert!(matches!(&binds[1], Bind::Int(Some(12))));
}

#[test]
fn todos_listed_in_id_order() {
    let st = Statement::todos();
    assert_eq!(st.sql(), "SELECT id, description, done FROM todos ORDER BY id");
    assert!(st.into_binds().is_empty());
}

#[test]
fn create_binds_description_verbatim() {
    let st = Statement::create_todo("foo".to_string());
    assert_eq!(st.sql(), "INSERT INTO todos (description, done) VALUES (?, 0)");
    let binds = st.into_binds();
    assert_eq!(binds.len(), 1);
    assert!(matches!(&binds[0], Bind::Text(s) if s == "foo"));
}

#[test]
fn create_keeps_empty_description() {
    let binds = Statement::create_todo(String::new()).into_binds();
    assert_eq!(binds.len(), 1);
    assert!(matches!(&binds[0], Bind::Text(s) if s.is_empty()));
}

#[test]
fn delete_binds_id() {
    let st = Statement::delete_todo(-5);
    assert_eq!(st.sql(), "DELETE FROM todos WHERE id = ?");
    assert_eq!(ints(st.into_binds()), vec![Some(-5)]);
}
