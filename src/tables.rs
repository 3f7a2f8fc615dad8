use vstd::prelude::*;

verus! {

/// A row of `subjects`.
pub struct SubjectRow {
    pub id: i64,
    pub name: Seq<char>,
}

/// A row of `books`.
pub struct BookRow {
    pub id: i64,
    pub name: Seq<char>,
    pub subject_id: i64,
}

/// A row of `sections`.
pub struct SectionRow {
    pub id: i64,
    pub name: Seq<char>,
    pub book_id: i64,
}

/// A row of `topics`; `section_id` is absent for a topic outside any section.
pub struct TopicRow {
    pub id: i64,
    pub name: Seq<char>,
    pub markdown: Seq<char>,
    pub subject_id: i64,
    pub book_id: i64,
    pub section_id: Option<i64>,
}

/// A row of `todos`.
pub struct TodoRow {
    pub id: i64,
    pub description: Seq<char>,
    pub done: bool,
}

/// `column = ?` with the parameter bound: an absent parameter binds NULL, and
/// an equality against NULL holds of no row.
pub open spec fn bound_eq(column: i64, param: Option<i64>) -> bool {
    param == Some(column)
}

/// The keys of `s` strictly increase: a table read in primary-key order.
pub open spec fn ascending<A>(s: Seq<A>, key: spec_fn(A) -> i64) -> bool {
    forall|i: int, j: int| 0 <= i < j < s.len() ==> key(s[i]) < key(s[j])
}

/// A `books` table read in primary-key order.
pub open spec fn books_in_id_order(books: Seq<BookRow>) -> bool {
    ascending(books, |b: BookRow| b.id)
}

/// A `topics` table read in primary-key order.
pub open spec fn topics_in_id_order(topics: Seq<TopicRow>) -> bool {
    ascending(topics, |t: TopicRow| t.id)
}

/// A `todos` table read in primary-key order.
pub open spec fn todos_in_id_order(todos: Seq<TodoRow>) -> bool {
    ascending(todos, |t: TodoRow| t.id)
}

/// The topics after `UPDATE topics SET markdown = ? WHERE id = ?`.
pub open spec fn markdown_updated(topics: Seq<TopicRow>, markdown: Seq<char>, id: i64) -> Seq<
    TopicRow,
> {
    topics.map_values(
        |t: TopicRow|
            if t.id == id {
                TopicRow { markdown, ..t }
            } else {
                t
            },
    )
}

/// How many rows carry the key `id`: the rows an update or delete by id affects.
pub open spec fn rows_with_topic_id(topics: Seq<TopicRow>, id: i64) -> nat {
    topics.filter(|t: TopicRow| t.id == id).len()
}

/// The to-do items after an insert that the store numbered `id`.
pub open spec fn todo_inserted(todos: Seq<TodoRow>, description: Seq<char>, id: i64) -> Seq<
    TodoRow,
> {
    todos.push(TodoRow { id, description, done: false })
}

/// The to-do items after `DELETE FROM todos WHERE id = ?`.
pub open spec fn todo_deleted(todos: Seq<TodoRow>, id: i64) -> Seq<TodoRow> {
    todos.filter(|t: TodoRow| t.id != id)
}

/// The open to-do items with the given description.
pub open spec fn open_todos_described(todos: Seq<TodoRow>, description: Seq<char>) -> Seq<
    TodoRow,
> {
    todos.filter(|t: TodoRow| t.description == description && !t.done)
}

/// Filtering keeps only elements of the sequence and keeps an ascending key order.
pub proof fn lemma_filter_ascending<A>(s: Seq<A>, pred: spec_fn(A) -> bool, key: spec_fn(A) -> i64)
    requires
        ascending(s, key),
    ensures
        ascending(s.filter(pred), key),
        forall|i: int| 0 <= i < s.filter(pred).len() ==> s.contains(#[trigger] s.filter(pred)[i]),
    decreases s.len(),
{
    reveal(Seq::filter);
    if s.len() > 0 {
        let init = s.drop_last();
        assert(ascending(init, key));
        lemma_filter_ascending(init, pred, key);
        let sub = init.filter(pred);
        assert forall|i: int| 0 <= i < sub.len() implies key(#[trigger] sub[i]) < key(s.last()) by {
            assert(init.contains(sub[i]));
            let j = choose|j: int| 0 <= j < init.len() && init[j] == sub[i];
            assert(s[j] == init[j]);
        }
        let out = s.filter(pred);
        assert forall|i: int| 0 <= i < out.len() implies s.contains(#[trigger] out[i]) by {
            if i < sub.len() {
                assert(out[i] == sub[i]);
                assert(init.contains(sub[i]));
                let j = choose|j: int| 0 <= j < init.len() && init[j] == sub[i];
                assert(s[j] == init[j]);
            } else {
                assert(out[i] == s[s.len() - 1]);
            }
        }
    }
}

} // verus!
