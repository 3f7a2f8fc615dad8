use crate::tables::{
    BookRow,
    SectionRow,
    SubjectRow,
    TodoRow,
    TopicRow,
    bound_eq,
    markdown_updated,
    rows_with_topic_id,
    todo_deleted,
    todo_inserted,
};
use vstd::prelude::*;

verus! {

/// The optional filter fields that the listing endpoints read from the query string.
pub struct QueryParams {
    pub subject_id: Option<i64>,
    pub book_id: Option<i64>,
    pub section_id: Option<i64>,
}

/// The body of a topic update: the new markdown and the topic it goes to.
pub struct UpdateTopic {
    pub markdown: String,
    pub topic_id: i64,
}

/// A value bound to a `?` placeholder; `Int(None)` binds NULL.
pub enum Bind {
    Int(Option<i64>),
    Text(String),
}

/// The one statement that a request issues against the store.
pub enum Statement {
    ListSubjects,
    ListBooks { subject_id: Option<i64> },
    ListSections { book_id: Option<i64> },
    ListSubjectTopics { subject_id: Option<i64> },
    ListSectionTopics { subject_id: Option<i64>, book_id: Option<i64>, section_id: i64 },
    UpdateMarkdown { markdown: String, topic_id: i64 },
    ListTodos,
    CreateTodo { description: String },
    DeleteTodo { id: i64 },
}

impl Statement {
    /// The SQL text of the statement, with one `?` per bound value.
    pub open spec fn sql_text(&self) -> Seq<char> {
        match self {
            Statement::ListSubjects => "SELECT id, name FROM subjects ORDER BY id"@,
            Statement::ListBooks { .. } => "SELECT id, name FROM books WHERE subject_id = ? ORDER BY id"@,
            Statement::ListSections { .. } => "SELECT id, name FROM sections WHERE book_id = ? ORDER BY id"@,
            Statement::ListSubjectTopics { .. } => "SELECT id, name, markdown FROM topics WHERE subject_id = ? ORDER BY id"@,
            Statement::ListSectionTopics { .. } => "SELECT id, name, markdown FROM topics WHERE subject_id = ? AND book_id = ? AND section_id = ? ORDER BY id"@,
            Statement::UpdateMarkdown { .. } => "UPDATE topics SET markdown = ? WHERE id = ?"@,
            Statement::ListTodos => "SELECT id, description, done FROM todos ORDER BY id"@,
            Statement::CreateTodo { .. } => "INSERT INTO todos (description, done) VALUES (?, 0)"@,
            Statement::DeleteTodo { .. } => "DELETE FROM todos WHERE id = ?"@,
        }
    }

    /// The values bound to the placeholders, in order.
    pub open spec fn bound_values(self) -> Seq<Bind> {
        match self {
            Statement::ListSubjects => seq![],
            Statement::ListBooks { subject_id } => seq![Bind::Int(subject_id)],
            Statement::ListSections { book_id } => seq![Bind::Int(book_id)],
            Statement::ListSubjectTopics { subject_id } => seq![Bind::Int(subject_id)],
            Statement::ListSectionTopics { subject_id, book_id, section_id } => seq![
                Bind::Int(subject_id),
                Bind::Int(book_id),
                Bind::Int(Some(section_id)),
            ],
            Statement::UpdateMarkdown { markdown, topic_id } => seq![
                Bind::Text(markdown),
                Bind::Int(Some(topic_id)),
            ],
            Statement::ListTodos => seq![],
            Statement::CreateTodo { description } => seq![Bind::Text(description)],
            Statement::DeleteTodo { id } => seq![Bind::Int(Some(id))],
        }
    }

    /// Whether the statement lists `row` of `books`.
    pub open spec fn selects_book(&self, row: BookRow) -> bool {
        match self {
            Statement::ListBooks { subject_id } => bound_eq(row.subject_id, *subject_id),
            _ => false,
        }
    }

    /// Whether the statement lists `row` of `sections`.
    pub open spec fn selects_section(&self, row: SectionRow) -> bool {
        match self {
            Statement::ListSections { book_id } => bound_eq(row.book_id, *book_id),
            _ => false,
        }
    }

    /// Whether the statement lists `row` of `topics`.
    pub open spec fn selects_topic(&self, row: TopicRow) -> bool {
        match self {
            Statement::ListSubjectTopics { subject_id } => bound_eq(row.subject_id, *subject_id),
            Statement::ListSectionTopics { subject_id, book_id, section_id } => bound_eq(
                row.subject_id,
                *subject_id,
            ) && bound_eq(row.book_id, *book_id) && row.section_id == Some(*section_id),
            _ => false,
        }
    }

    /// The rows of `subjects` the statement returns: every subject, in ascending
    /// id order, for a listing of subjects, and none for any other statement.
    pub open spec fn subject_listing(&self, subjects: Seq<SubjectRow>) -> Seq<SubjectRow> {
        match self {
            Statement::ListSubjects => subjects,
            _ => seq![],
        }
    }

    /// The rows of `todos` the statement returns: every item, in ascending id
    /// order, for a listing of to-do items, and none for any other statement.
    pub open spec fn todo_listing(&self, todos: Seq<TodoRow>) -> Seq<TodoRow> {
        match self {
            Statement::ListTodos => todos,
            _ => seq![],
        }
    }

    /// The rows of `books` the statement returns, in ascending id order.
    pub open spec fn book_listing(&self, books: Seq<BookRow>) -> Seq<BookRow> {
        books.filter(|b: BookRow| self.selects_book(b))
    }

    /// The rows of `sections` the statement returns, in ascending id order.
    pub open spec fn section_listing(&self, sections: Seq<SectionRow>) -> Seq<SectionRow> {
        sections.filter(|s: SectionRow| self.selects_section(s))
    }

    /// The rows of `topics` the statement returns, in ascending id order.
    pub open spec fn topic_listing(&self, topics: Seq<TopicRow>) -> Seq<TopicRow> {
        topics.filter(|t: TopicRow| self.selects_topic(t))
    }

    /// The `topics` table after the statement; only an update changes it.
    pub open spec fn topics_after(&self, topics: Seq<TopicRow>) -> Seq<TopicRow> {
        match self {
            Statement::UpdateMarkdown { markdown, topic_id } => markdown_updated(
                topics,
                markdown@,
                *topic_id,
            ),
            _ => topics,
        }
    }

    /// The rows of `topics` that the statement changes.
    pub open spec fn topics_affected(&self, topics: Seq<TopicRow>) -> nat {
        match self {
            Statement::UpdateMarkdown { topic_id, .. } => rows_with_topic_id(topics, *topic_id),
            _ => 0,
        }
    }

    /// The `todos` table after the statement, where `new_id` is the id that the
    /// store gives an inserted row.
    pub open spec fn todos_after(&self, todos: Seq<TodoRow>, new_id: i64) -> Seq<TodoRow> {
        match self {
            Statement::CreateTodo { description } => todo_inserted(todos, description@, new_id),
            Statement::DeleteTodo { id } => todo_deleted(todos, *id),
            _ => todos,
        }
    }

    /// All subjects.
    pub fn subjects() -> (r: Statement)
        ensures
            r is ListSubjects,
            forall|subjects: Seq<SubjectRow>| #[trigger] r.subject_listing(subjects) == subjects,
    {
        Statement::ListSubjects
    }

    /// The books of `q.subject_id`; an absent id binds NULL and so lists none.
    pub fn books(q: &QueryParams) -> (r: Statement)
        ensures
            r == (Statement::ListBooks { subject_id: q.subject_id }),
    {
        Statement::ListBooks { subject_id: q.subject_id }
    }

    /// The sections of `q.book_id`; an absent id binds NULL and so lists none.
    pub fn sections(q: &QueryParams) -> (r: Statement)
        ensures
            r == (Statement::ListSections { book_id: q.book_id }),
    {
        Statement::ListSections { book_id: q.book_id }
    }

    /// The topics that `q` asks for. With a section id, all three ids must match;
    /// without one, only the subject id is compared and `q.book_id` is not read.
    pub fn topics(q: &QueryParams) -> (r: Statement)
        ensures
            q.section_id is Some ==> r == (Statement::ListSectionTopics {
                subject_id: q.subject_id,
                book_id: q.book_id,
                section_id: q.section_id->Some_0,
            }),
            q.section_id is None ==> r == (Statement::ListSubjectTopics {
                subject_id: q.subject_id,
            }),
    {
        match q.section_id {
            Some(section_id) => Statement::ListSectionTopics {
                subject_id: q.subject_id,
                book_id: q.book_id,
                section_id,
            },
            None => Statement::ListSubjectTopics { subject_id: q.subject_id },
        }
    }

    /// Overwrite the markdown of the topic `u.topic_id`.
    pub fn update(u: UpdateTopic) -> (r: Statement)
        ensures
            r == (Statement::UpdateMarkdown { markdown: u.markdown, topic_id: u.topic_id }),
    {
        Statement::UpdateMarkdown { markdown: u.markdown, topic_id: u.topic_id }
    }

    /// All to-do items.
    pub fn todos() -> (r: Statement)
        ensures
            r is ListTodos,
            forall|todos: Seq<TodoRow>| #[trigger] r.todo_listing(todos) == todos,
    {
        Statement::ListTodos
    }

    /// Insert an open to-do item whose description is `description`, as given.
    pub fn create_todo(description: String) -> (r: Statement)
        ensures
            r == (Statement::CreateTodo { description }),
    {
        Statement::CreateTodo { description }
    }

    /// Delete the to-do item `id`.
    pub fn delete_todo(id: i64) -> (r: Statement)
        ensures
            r == (Statement::DeleteTodo { id }),
    {
        Statement::DeleteTodo { id }
    }

    /// The SQL text to prepare.
    pub fn sql(&self) -> (r: &'static str)
        ensures
            r@ == self.sql_text(),
    {
        match self {
            Statement::ListSubjects => "SELECT id, name FROM subjects ORDER BY id",
            Statement::ListBooks { .. } => "SELECT id, name FROM books WHERE subject_id = ? ORDER BY id",
            Statement::ListSections { .. } => "SELECT id, name FROM sections WHERE book_id = ? ORDER BY id",
            Statement::ListSubjectTopics { .. } => "SELECT id, name, markdown FROM topics WHERE subject_id = ? ORDER BY id",
            Statement::ListSectionTopics { .. } => "SELECT id, name, markdown FROM topics WHERE subject_id = ? AND book_id = ? AND section_id = ? ORDER BY id",
            Statement::UpdateMarkdown { .. } => "UPDATE topics SET markdown = ? WHERE id = ?",
            Statement::ListTodos => "SELECT id, description, done FROM todos ORDER BY id",
            Statement::CreateTodo { .. } => "INSERT INTO todos (description, done) VALUES (?, 0)",
            Statement::DeleteTodo { .. } => "DELETE FROM todos WHERE id = ?",
        }
    }

    /// The values to bind, in placeholder order.
    pub fn into_binds(self) -> (r: Vec<Bind>)
        ensures
            r@ == self.bound_values(),
    {
        let mut r: Vec<Bind> = Vec::new();
        match self {
            Statement::ListSubjects => {},
            Statement::ListBooks { subject_id } => r.push(Bind::Int(subject_id)),
            Statement::ListSections { book_id } => r.push(Bind::Int(book_id)),
            Statement::ListSubjectTopics { subject_id } => r.push(Bind::Int(subject_id)),
            Statement::ListSectionTopics { subject_id, book_id, section_id } => {
                r.push(Bind::Int(subject_id));
                r.push(Bind::Int(book_id));
                r.push(Bind::Int(Some(section_id)));
            },
            Statement::UpdateMarkdown { markdown, topic_id } => {
                r.push(Bind::Text(markdown));
                r.push(Bind::Int(Some(topic_id)));
            },
            Statement::ListTodos => {},
            Statement::CreateTodo { description } => r.push(Bind::Text(description)),
            Statement::DeleteTodo { id } => r.push(Bind::Int(Some(id))),
        }
        assert(r@ =~= self.bound_values());
        r
    }
}

} // verus!
