use vstd::prelude::*;

verus! {

/// A failed store call; its cause is reported by whoever ran the statement.
pub struct StoreError;

/// The endpoints, each with its own failure message.
#[derive(Clone, Copy, PartialEq, Eq, Structural)]
pub enum Endpoint {
    Subjects,
    Books,
    Sections,
    Topics,
    Update,
    Todos,
    Create,
    Delete,
}

pub const OK: u16 = 200;

pub const NOT_FOUND: u16 = 404;

pub const INTERNAL_ERROR: u16 = 500;

/// A plain-text reply: an HTTP status and its body.
pub struct Reply {
    pub status: u16,
    pub message: &'static str,
}

/// The generic message returned, with status 500, when the store call of `e` fails.
/// A failed topic listing reports "Error fetching sections", the same text as a
/// failed section listing; the text is kept as it has always been sent, though it
/// names the wrong table.
pub open spec fn failure_text(e: Endpoint) -> Seq<char> {
    match e {
        Endpoint::Subjects => "Error fetching subjects"@,
        Endpoint::Books => "Error fetching books"@,
        Endpoint::Sections => "Error fetching sections"@,
        Endpoint::Topics => "Error fetching sections"@,
        Endpoint::Update => "Error updating topic"@,
        Endpoint::Todos => "Error fetching todos"@,
        Endpoint::Create => "Error creating todo"@,
        Endpoint::Delete => "Error deleting todo"@,
    }
}

/// The reply to a topic update that changed `rows_affected` rows.
pub open spec fn update_text(rows_affected: u64) -> Seq<char> {
    if rows_affected > 0 {
        "Topic successfully updated!"@
    } else {
        "No topic found with the given ID"@
    }
}

pub open spec fn update_status(rows_affected: u64) -> u16 {
    if rows_affected > 0 {
        OK
    } else {
        NOT_FOUND
    }
}

pub open spec fn created_text() -> Seq<char> {
    "Todo created"@
}

pub open spec fn deleted_text() -> Seq<char> {
    "Todo deleted"@
}

impl Reply {
    pub fn status(&self) -> (r: u16)
        ensures
            r == self.status,
    {
        self.status
    }

    pub fn message(&self) -> (r: &'static str)
        ensures
            r@ == self.message@,
    {
        self.message
    }
}

/// The 500 reply of endpoint `e`.
pub fn failure(e: Endpoint) -> (r: Reply)
    ensures
        r.status == INTERNAL_ERROR,
        r.message@ == failure_text(e),
{
    let message = match e {
        Endpoint::Subjects => "Error fetching subjects",
        Endpoint::Books => "Error fetching books",
        Endpoint::Sections => "Error fetching sections",
        Endpoint::Topics => "Error fetching sections",
        Endpoint::Update => "Error updating topic",
        Endpoint::Todos => "Error fetching todos",
        Endpoint::Create => "Error creating todo",
        Endpoint::Delete => "Error deleting todo",
    };
    Reply { status: INTERNAL_ERROR, message }
}

/// A listing hands back every fetched row, or the failure reply of `e`: never a
/// part of the rows.
pub fn listing<T>(fetched: Result<Vec<T>, StoreError>, e: Endpoint) -> (r: Result<Vec<T>, Reply>)
    ensures
        fetched is Ok <==> r is Ok,
        fetched is Ok ==> r->Ok_0@ == fetched->Ok_0@,
        fetched is Err ==> r->Err_0.status == INTERNAL_ERROR && r->Err_0.message@ == failure_text(
            e,
        ),
{
    match fetched {
        Ok(rows) => Ok(rows),
        Err(_) => Err(failure(e)),
    }
}

/// The reply to a topic update: 200 when a row changed, 404 when none matched,
/// 500 when the store failed.
pub fn update_outcome(executed: Result<u64, StoreError>) -> (r: Reply)
    ensures
        executed is Ok ==> r.status == update_status(executed->Ok_0) && r.message@ == update_text(
            executed->Ok_0,
        ),
        executed is Err ==> r.status == INTERNAL_ERROR && r.message@ == failure_text(
            Endpoint::Update,
        ),
{
    match executed {
        Ok(rows_affected) => {
            if rows_affected > 0 {
                Reply { status: OK, message: "Topic successfully updated!" }
            } else {
                Reply { status: NOT_FOUND, message: "No topic found with the given ID" }
            }
        },
        Err(_) => failure(Endpoint::Update),
    }
}

/// The reply to a to-do insert; the new row's id is not echoed.
pub fn create_outcome(executed: Result<u64, StoreError>) -> (r: Reply)
    ensures
        executed is Ok ==> r.status == OK && r.message@ == created_text(),
        executed is Err ==> r.status == INTERNAL_ERROR && r.message@ == failure_text(
            Endpoint::Create,
        ),
{
    match executed {
        Ok(_) => Reply { status: OK, message: "Todo created" },
        Err(_) => failure(Endpoint::Create),
    }
}

/// The reply to a to-do delete: success whether or not a row matched the id.
pub fn delete_outcome(executed: Result<u64, StoreError>) -> (r: Reply)
    ensures
        executed is Ok ==> r.status == OK && r.message@ == deleted_text(),
        executed is Err ==> r.status == INTERNAL_ERROR && r.message@ == failure_text(
            Endpoint::Delete,
        ),
{
    match executed {
        Ok(_) => Reply { status: OK, message: "Todo deleted" },
        Err(_) => failure(Endpoint::Delete),
    }
}

} // verus!
