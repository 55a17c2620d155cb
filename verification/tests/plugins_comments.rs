use colophon::modules::comment::{CommentEventData, CommentQuery, CreateCommentRequest, PaginationQuery};
use colophon::plugins::hello_world::{hello_world, HelloWorldPlugin};

#[test]
fn hello_world_plugin_identity() {
    let p = HelloWorldPlugin::new();
    assert_eq!(p.name(), "hello-world-a3f9b2c1");
    assert_eq!(p.version(), "0.1.0");
    let d = HelloWorldPlugin::default();
    assert_eq!(d.name(), p.name());
}

#[test]
fn hello_world_greets() {
    assert_eq!(hello_world(None), "Hello, World!");
    assert_eq!(hello_world(Some("Ada".to_string())), "Hello, Ada!");
}

#[test]
fn comment_shapes_hold_their_fields() {
    let req = CreateCommentRequest { content: "hi".to_string(), parent_id: Some("c0".to_string()) };
    assert_eq!(req.parent_id.as_deref(), Some("c0"));
    let q = CommentQuery { pagination: PaginationQuery { page: Some(2), page_size: None }, status: None };
    assert_eq!(q.pagination.page, Some(2));
    let e = CommentEventData {
        id: "c1".to_string(),
        post_id: "p1".to_string(),
        author_name: "alice".to_string(),
        content: "hi".to_string(),
        status: "pending".to_string(),
        created_at: "2025-01-01T00:00:00Z".to_string(),
    };
    assert_eq!(e.clone().author_name, "alice");
}
