use crate::query::{QueryParams, Statement, UpdateTopic};
use crate::reply::{NOT_FOUND, OK, update_status};
use crate::tables::{
    BookRow,
    TodoRow,
    TopicRow,
    books_in_id_order,
    lemma_filter_ascending,
    markdown_updated,
    open_todos_described,
    rows_with_topic_id,
    todo_inserted,
    todos_in_id_order,
    topics_in_id_order,
};
use vstd::prelude::*;

verus! {

/// A filter whose predicate holds of every element keeps the whole sequence.
pub proof fn lemma_filter_keeps_all<A>(s: Seq<A>, pred: spec_fn(A) -> bool)
    requires
        forall|i: int| 0 <= i < s.len() ==> pred(#[trigger] s[i]),
    ensures
        s.filter(pred) == s,
    decreases s.len(),
{
    reveal(Seq::filter);
    if s.len() > 0 {
        lemma_filter_keeps_all(s.drop_last(), pred);
        assert(s.drop_last().push(s.last()) =~= s);
    }
}

/// In a table read in id order, exactly one row carries an id that occurs in it,
/// and none carries an id that does not.
pub proof fn lemma_rows_with_topic_id(topics: Seq<TopicRow>, id: i64)
    requires
        topics_in_id_order(topics),
    ensures
        (exists|i: int| 0 <= i < topics.len() && topics[i].id == id) ==> rows_with_topic_id(
            topics,
            id,
        ) == 1,
        (forall|i: int| 0 <= i < topics.len() ==> topics[i].id != id) ==> rows_with_topic_id(
            topics,
            id,
        ) == 0,
{
    let pred = |t: TopicRow| t.id == id;
    let out = topics.filter(pred);
    lemma_filter_ascending(topics, pred, |t: TopicRow| t.id);
    if out.len() > 0 {
        topics.lemma_filter_pred(pred, 0);
        assert(topics.contains(out[0]));
    }
    if out.len() > 1 {
        topics.lemma_filter_pred(pred, 1);
        assert(out[0].id < out[1].id);
    }
    if exists|i: int| 0 <= i < topics.len() && topics[i].id == id {
        let i = choose|i: int| 0 <= i < topics.len() && topics[i].id == id;
        topics.lemma_filter_contains(pred, i);
    }
}

/// A listing of the books of subject `x` returns only books of subject `x`, in
/// ascending id order, and leaves none of them out.
pub proof fn lemma_books_of_subject(books: Seq<BookRow>, q: QueryParams, x: i64)
    requires
        books_in_id_order(books),
        q.subject_id == Some(x),
    ensures
        ({
            let out = (Statement::ListBooks { subject_id: q.subject_id }).book_listing(books);
            &&& forall|i: int| 0 <= i < out.len() ==> (#[trigger] out[i]).subject_id == x
            &&& books_in_id_order(out)
            &&& forall|i: int|
                0 <= i < books.len() && books[i].subject_id == x ==> out.contains(
                    #[trigger] books[i],
                )
        }),
{
    let st = Statement::ListBooks { subject_id: q.subject_id };
    let pred = |b: BookRow| st.selects_book(b);
    let out = st.book_listing(books);
    assert(out == books.filter(pred));
    lemma_filter_ascending(books, pred, |b: BookRow| b.id);
    assert forall|i: int| 0 <= i < out.len() implies (#[trigger] out[i]).subject_id == x by {
        books.lemma_filter_pred(pred, i);
    }
    assert forall|i: int| 0 <= i < books.len() && books[i].subject_id == x implies out.contains(
        #[trigger] books[i],
    ) by {
        books.lemma_filter_contains(pred, i);
    }
}

/// Updating an existing topic changes exactly one row, so the reply is success,
/// and a read of that topic afterwards gives the new markdown; every other topic
/// is left as it was.
pub proof fn lemma_update_then_read(topics: Seq<TopicRow>, u: UpdateTopic)
    requires
        topics_in_id_order(topics),
        exists|i: int| 0 <= i < topics.len() && topics[i].id == u.topic_id,
    ensures
        ({
            let st = Statement::UpdateMarkdown { markdown: u.markdown, topic_id: u.topic_id };
            let after = st.topics_after(topics);
            &&& st.topics_affected(topics) == 1
            &&& update_status(1) == OK
            &&& after.len() == topics.len()
            &&& topics_in_id_order(after)
            &&& exists|i: int| 0 <= i < after.len() && (#[trigger] after[i]).id == u.topic_id
            &&& forall|i: int|
                0 <= i < after.len() && (#[trigger] after[i]).id == u.topic_id ==> after[i].markdown
                    == u.markdown@
            &&& forall|i: int|
                0 <= i < after.len() && topics[i].id != u.topic_id ==> #[trigger] after[i]
                    == topics[i]
        }),
{
    lemma_rows_with_topic_id(topics, u.topic_id);
    let after = markdown_updated(topics, u.markdown@, u.topic_id);
    let i = choose|i: int| 0 <= i < topics.len() && topics[i].id == u.topic_id;
    assert(after[i].id == u.topic_id);
}

/// Updating a topic id that no row carries changes no row and gets the
/// not-found reply.
pub proof fn lemma_update_missing(topics: Seq<TopicRow>, u: UpdateTopic)
    requires
        topics_in_id_order(topics),
        forall|i: int| 0 <= i < topics.len() ==> topics[i].id != u.topic_id,
    ensures
        ({
            let st = Statement::UpdateMarkdown { markdown: u.markdown, topic_id: u.topic_id };
            &&& st.topics_affected(topics) == 0
            &&& update_status(0) == NOT_FOUND
            &&& st.topics_after(topics) == topics
        }),
{
    lemma_rows_with_topic_id(topics, u.topic_id);
    assert(markdown_updated(topics, u.markdown@, u.topic_id) =~= topics);
}

/// Creating a to-do item with a description adds exactly one open item with that
/// description to the to-do listing, at its end; the items before it are unchanged.
/// `id` is the id the store gives the new row, above every id in use.
pub proof fn lemma_create_then_list(todos: Seq<TodoRow>, description: String, id: i64)
    requires
        todos_in_id_order(todos),
        forall|i: int| 0 <= i < todos.len() ==> todos[i].id < id,
    ensures
        ({
            let d = description@;
            let after = (Statement::CreateTodo { description }).todos_after(todos, id);
            let listed = Statement::ListTodos.todo_listing(after);
            &&& listed == after
            &&& todos_in_id_order(listed)
            &&& listed.len() == todos.len() + 1
            &&& after.drop_last() == todos
            &&& after.last() == (TodoRow { id, description: d, done: false })
            &&& open_todos_described(listed, d).len() == open_todos_described(todos, d).len() + 1
        }),
{
    let after = todo_inserted(todos, description@, id);
    assert(after.drop_last() =~= todos);
    reveal(Seq::filter);
}

/// Deleting a to-do id that no row carries leaves the items as they were.
pub proof fn lemma_delete_missing(todos: Seq<TodoRow>, id: i64, new_id: i64)
    requires
        forall|i: int| 0 <= i < todos.len() ==> todos[i].id != id,
    ensures
        (Statement::DeleteTodo { id }).todos_after(todos, new_id) == todos,
{
    lemma_filter_keeps_all(todos, |t: TodoRow| t.id != id);
}

} // verus!
