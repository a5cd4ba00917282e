use threads_api::{Operation, Threads, APP_ID, APP_ID_HEADER, DOC_ID_FIELD, ENDPOINT, USER_AGENT, VARIABLES_FIELD};

#[test]
fn every_request_goes_to_the_one_endpoint() {
    let threads = Threads::new();
    for operation in [
        Operation::Profile,
        Operation::Posts,
        Operation::Replies,
        Operation::Post,
        Operation::Likes,
    ] {
        let request = threads.request(operation, "1");
        assert_eq!(request.url, "https://www.threads.net/api/graphql");
        assert_eq!(request.app_id, "238260118697367");
        assert_eq!(request.doc_id, operation.doc_id());
    }
    assert_eq!(ENDPOINT, "https://www.threads.net/api/graphql");
    assert_eq!(APP_ID_HEADER, "x-ig-app-id");
    assert_eq!(APP_ID, "238260118697367");
    assert_eq!(DOC_ID_FIELD, "doc_id");
    assert_eq!(VARIABLES_FIELD, "variables");
}

#[test]
fn each_operation_has_its_document() {
    assert_eq!(Operation::Profile.doc_id(), "23996318473300828");
    assert_eq!(Operation::Posts.doc_id(), "6232751443445612");
    assert_eq!(Operation::Replies.doc_id(), "6307072669391286");
    assert_eq!(Operation::Post.doc_id(), "5587632691339264");
    assert_eq!(Operation::Likes.doc_id(), "9360915773983802");
}

#[test]
fn each_operation_has_its_variable() {
    assert_eq!(Operation::Profile.variable(), "userID");
    assert_eq!(Operation::Posts.variable(), "userID");
    assert_eq!(Operation::Replies.variable(), "userID");
    assert_eq!(Operation::Post.variable(), "postID");
    assert_eq!(Operation::Likes.variable(), "mediaID");
}

#[test]
fn variables_are_a_json_object_of_one_string() {
    let threads = Threads::new();
    assert_eq!(threads.request(Operation::Profile, "314216").variables, r#"{"userID":"314216"}"#);
    assert_eq!(threads.request(Operation::Posts, "").variables, r#"{"userID":""}"#);
    assert_eq!(threads.request(Operation::Replies, "7").variables, r#"{"userID":"7"}"#);
    assert_eq!(threads.request(Operation::Post, "42").variables, r#"{"postID":"42"}"#);
    assert_eq!(threads.request(Operation::Likes, "42").variables, r#"{"mediaID":"42"}"#);
}

#[test]
fn variables_escape_what_json_escapes() {
    let threads = Threads::new();
    let request = threads.request(Operation::Post, "a\"b\\c\nd");
    assert_eq!(request.variables, r#"{"postID":"a\"b\\c\nd"}"#);
    let request = threads.request(Operation::Likes, "\u{1}\u{e9}");
    assert_eq!(request.variables, "{\"mediaID\":\"\\u0001\u{e9}\"}");
}

#[test]
fn client_introduces_itself() {
    assert_eq!(Threads::new().user_agent(), "threads-api");
    assert_eq!(Threads::default().user_agent(), USER_AGENT);
}
