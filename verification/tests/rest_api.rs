use legend::config::Config;
use legend::error::Error;
use legend::http::HttpStatus;
use legend::post::{NewPost, PostUpdate};
use legend::rest::{create_post, dec_string, delete_post, get_post, list_posts, update_post};
use legend::store::PostStore;

fn new_post(title: &str, body: &str) -> NewPost {
    NewPost { title: title.to_string(), body: body.to_string() }
}

fn no_update() -> PostUpdate {
    PostUpdate { title: None, body: None, published: None }
}

#[test]
fn health() {
    let response = legend::rest::health();
    assert_eq!(response, HttpStatus::NoContent);
    assert_eq!(response.code(), 204);
}

#[test]
fn create_then_fetch_same_fields() {
    let mut store = PostStore::new();
    let created = create_post(&mut store, new_post("First post", "Hello, world"));
    let fetched = get_post(&store, created.post.id).expect("created post must be found");
    assert_eq!(fetched.title, "First post");
    assert_eq!(fetched.body, "Hello, world");
    assert!(!fetched.published);
}

#[test]
fn create_reports_location() {
    let mut store = PostStore::new();
    let created = create_post(&mut store, new_post("a", "b"));
    assert_eq!(created.post.id, 1);
    assert_eq!(created.location, "/api/posts/1");
    let created = create_post(&mut store, new_post("c", "d"));
    assert_eq!(created.post.id, 2);
    assert_eq!(created.location, "/api/posts/2");
}

#[test]
fn update_title_keeps_body_and_published() {
    let mut store = PostStore::new();
    let created = create_post(&mut store, new_post("Old title", "The body"));
    let publish = PostUpdate { title: None, body: None, published: Some(true) };
    update_post(&mut store, created.post.id, publish).expect("post must be found");
    let touched = PostUpdate { title: Some("New title".to_string()), ..no_update() };
    let updated = update_post(&mut store, created.post.id, touched).expect("post must be found");
    assert_eq!(updated.title, "New title");
    assert_eq!(updated.body, "The body");
    assert!(updated.published);
}

#[test]
fn update_missing_id_is_none() {
    let mut store = PostStore::new();
    let r = update_post(&mut store, 7, no_update());
    assert!(r.is_none());
}

#[test]
fn delete_missing_id_is_not_found() {
    let mut store = PostStore::new();
    create_post(&mut store, new_post("kept", "kept"));
    let r = delete_post(&mut store, 42);
    assert!(r.is_none());
    assert!(get_post(&store, 1).is_some());
}

#[test]
fn delete_existing_id_is_no_content() {
    let mut store = PostStore::new();
    let created = create_post(&mut store, new_post("gone", "soon"));
    let r = delete_post(&mut store, created.post.id);
    assert_eq!(r, Some(HttpStatus::NoContent));
    assert!(get_post(&store, created.post.id).is_none());
}

#[test]
fn list_returns_only_published_in_id_order() {
    let mut store = PostStore::new();
    for i in 0..4 {
        create_post(&mut store, new_post(&format!("t{}", i), "body"));
    }
    let publish = |store: &mut PostStore, id: i32| {
        let u = PostUpdate { title: None, body: None, published: Some(true) };
        update_post(store, id, u).expect("post must be found");
    };
    publish(&mut store, 4);
    publish(&mut store, 2);
    let listed = list_posts(&store);
    assert_eq!(listed.len(), 2);
    assert_eq!(listed[0].id, 2);
    assert_eq!(listed[1].id, 4);
    assert!(listed.iter().all(|p| p.published));
}

#[test]
fn list_on_empty_store_is_empty() {
    let store = PostStore::new();
    assert!(list_posts(&store).is_empty());
}

#[test]
fn get_missing_id_is_none() {
    let store = PostStore::new();
    assert!(get_post(&store, 1).is_none());
}

#[test]
fn decimal_rendering() {
    assert_eq!(dec_string(0), "0");
    assert_eq!(dec_string(7), "7");
    assert_eq!(dec_string(10), "10");
    assert_eq!(dec_string(90210), "90210");
    assert_eq!(dec_string(u32::MAX), "4294967295");
}

#[test]
fn config_defaults() {
    let c = Config::from("postgres://localhost/legend".to_string(), None, None, 16);
    assert_eq!(c.url, "postgres://localhost/legend");
    assert_eq!(c.pool_size, 32);
    assert_eq!(c.timeout, 5);
}

#[test]
fn config_keeps_provided_values() {
    let c = Config::from("postgres://db/x".to_string(), Some(3), Some(9), 16);
    assert_eq!(c.pool_size, 3);
    assert_eq!(c.timeout, 9);
}

#[test]
fn database_error_is_service_unavailable() {
    let e = Error::Database("connection reset".to_string());
    assert_eq!(e.respond_to(), HttpStatus::ServiceUnavailable);
    assert_eq!(e.respond_to().code(), 503);
    assert_eq!(e.message().as_str(), "connection reset");
}
