use backend::reply::{
    create_outcome, delete_outcome, failure, listing, update_outcome, Endpoint, StoreError,
    INTERNAL_ERROR, NOT_FOUND, OK,
};

#[test]
fn update_of_existing_topic_succeeds() {
    let r = update_outcome(Ok(1));
    assert_eq!(r.status(), 200);
    assert_eq!(r.message(), "Topic successfully updated!");
}

#[test]
fn update_of_several_rows_succeeds() {
    assert_eq!(update_outcome(Ok(3)).status(), OK);
}

#[test]
fn update_of_missing_topic_is_not_found() {
    let r = update_outcome(Ok(0));
    assert_eq!(r.status(), 404);
    assert_eq!(r.status(), NOT_FOUND);
    assert_eq!(r.message(), "No topic found with the given ID");
}

#[test]
fn update_store_failure_is_internal_error() {
    let r = update_outcome(Err(StoreError));
    assert_eq!(r.status(), 500);
    assert_eq!(r.message(), "Error updating topic");
}

#[test]
fn delete_of_missing_row_still_succeeds() {
    let r = delete_outcome(Ok(0));
    assert_eq!(r.status(), 200);
    assert_eq!(r.message(), "Todo deleted");
    assert_eq!(delete_outcome(Ok(1)).status(), 200);
}

#[test]
fn delete_store_failure_is_internal_error() {
    let r = delete_outcome(Err(StoreError));
    assert_eq!(r.status(), INTERNAL_ERROR);
    assert_eq!(r.message(), "Error deleting todo");
}

#[test]
fn create_acknowledges_without_id() {
    let r = create_outcome(Ok(1));
    assert_eq!(r.status(), 200);
    assert_eq!(r.message(), "Todo created");
    let e = create_outcome(Err(StoreError));
    assert_eq!(e.status(), 500);
    assert_eq!(e.message(), "Error creating todo");
}

#[test]
fn failure_messages_per_endpoint() {
    let cases = [
        (Endpoint::Subjects, "Error fetching subjects"),
        (Endpoint::Books, "Error fetching books"),
        (Endpoint::Sections, "Error fetching sections"),
        (Endpoint::Topics, "Error fetching sections"),
        (Endpoint::Update, "Error updating topic"),
        (Endpoint::Todos, "Error fetching todos"),
        (Endpoint::Create, "Error creating todo"),
        (Endpoint::Delete, "Error deleting todo"),
    ];
    for (e, text) in cases {
        let r = failure(e);
        assert_eq!(r.status(), 500);
        assert_eq!(r.message(), text);
    }
}

#[test]
fn listing_returns_every_row() {
    let r = listing(Ok(vec![(1, "Maths"), (2, "Physics")]), Endpoint::Subjects);
    match r {
        Ok(rows) => assert_eq!(rows, vec![(1, "Maths"), (2, "Physics")]),
        Err(_) => panic!("listing failed"),
    }
}

#[test]
fn listing_of_empty_result_is_success() {
    let r: Result<Vec<i64>, _> = listing(Ok(Vec::new()), Endpoint::Books);
    assert!(matches!(r, Ok(rows) if rows.is_empty()));
}

#[test]
fn listing_failure_returns_no_rows() {
    let r: Result<Vec<i64>, _> = listing(Err(StoreError), Endpoint::Sections);
    match r {
        Ok(_) => panic!("a failed fetch must not list rows"),
        Err(reply) => {
            assert_eq!(reply.status(), 500);
            assert_eq!(reply.message(), "Error fetching sections");
        }
    }
}
