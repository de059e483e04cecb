use legend::graphql::{
    status_for_parse_error, BatchRequest, MutationRoot, ParseRequestError, Query, QueryRoot,
    Request, Response,
};
use legend::http::Header;
use legend::post::{NewPost, PostUpdate};
use legend::store::PostStore;

fn query(q: &str, operation_name: Option<&str>, variables: Option<&str>) -> Query {
    Query {
        query: q.to_string(),
        operation_name: operation_name.map(|s| s.to_string()),
        variables: variables.map(|s| s.to_string()),
    }
}

#[test]
fn hello_greets_by_name() {
    assert_eq!(QueryRoot.hello("Bob".to_string()), "Hello Bob! o/");
    assert_eq!(QueryRoot.hello("".to_string()), "Hello ! o/");
}

#[test]
fn request_from_query_carries_fields() {
    let r = Request::from(query("{ posts { id } }", Some("Posts"), None));
    assert_eq!(r.query, "{ posts { id } }");
    assert_eq!(r.operation_name.as_deref(), Some("Posts"));
    assert!(r.variables.is_none());
}

#[test]
fn request_from_query_parses_variables() {
    let r = Request::from(query("q", None, Some("{\"id\": 3}")));
    let vars = r.variables.expect("variables were given");
    assert!(vars.is_object());
    assert_eq!(vars.get("id").and_then(|v| v.as_i64()), Some(3));
}

#[test]
fn request_from_query_defaults_bad_variables_to_null() {
    let r = Request::from(query("q", None, Some("this is not json")));
    assert_eq!(r.variables, Some(serde_json::Value::Null));
}

#[test]
fn single_request_passes_through() {
    let b = BatchRequest::Single(Request {
        query: "{ hello }".to_string(),
        operation_name: None,
        variables: None,
    });
    let r = b.into_single().expect("a single request is accepted");
    assert_eq!(r.query, "{ hello }");
}

#[test]
fn batch_request_is_unsupported_on_single_route() {
    let b = BatchRequest::Batch(vec![]);
    match b.into_single() {
        Err(ParseRequestError::UnsupportedBatch) => {}
        _ => panic!("a batch must be refused as unsupported"),
    }
}

#[test]
fn parse_error_statuses() {
    assert_eq!(status_for_parse_error(&ParseRequestError::PayloadTooLarge).code(), 413);
    assert_eq!(status_for_parse_error(&ParseRequestError::UnsupportedBatch).code(), 400);
    assert_eq!(
        status_for_parse_error(&ParseRequestError::InvalidRequest("bad".to_string())).code(),
        400
    );
    assert_eq!(status_for_parse_error(&ParseRequestError::Io("eof".to_string())).code(), 400);
}

#[test]
fn ok_response_headers_carry_cache_control_and_extras() {
    let response = Response {
        body: "{}".to_string(),
        is_ok: true,
        cache_control: Some("max-age=60".to_string()),
        http_headers: vec![Header { name: "x-trace".to_string(), value: "abc".to_string() }],
    };
    let headers = response.respond_headers();
    let pairs: Vec<(&str, &str)> =
        headers.iter().map(|h| (h.name.as_str(), h.value.as_str())).collect();
    assert_eq!(
        pairs,
        vec![
            ("Content-Type", "application/json"),
            ("cache-control", "max-age=60"),
            ("x-trace", "abc"),
        ]
    );
}

#[test]
fn failed_response_headers_are_json_only() {
    let response = Response {
        body: "{}".to_string(),
        is_ok: false,
        cache_control: Some("max-age=60".to_string()),
        http_headers: vec![Header { name: "x-trace".to_string(), value: "abc".to_string() }],
    };
    let headers = response.respond_headers();
    assert_eq!(headers.len(), 1);
    assert_eq!(headers[0].name, "Content-Type");
    assert_eq!(headers[0].value, "application/json");
}

#[test]
fn resolvers_mirror_rest_semantics() {
    let mut store = PostStore::new();
    let created = MutationRoot.create_post(
        &mut store,
        NewPost { title: "Graph".to_string(), body: "QL".to_string() },
    );
    assert_eq!(created.id, 1);
    assert!(!created.published);

    let fetched = QueryRoot.post(&store, 1).expect("created post must be found");
    assert_eq!(fetched.title, "Graph");
    assert!(QueryRoot.post(&store, 2).is_none());

    let publish = PostUpdate { title: None, body: None, published: Some(true) };
    let updated = MutationRoot.update_post(&mut store, 1, publish).expect("post must be found");
    assert!(updated.published);
    assert_eq!(updated.body, "QL");

    let listed = QueryRoot.posts(&store);
    assert_eq!(listed.len(), 1);
    assert_eq!(listed[0].id, 1);

    assert!(!MutationRoot.delete_post(&mut store, 9));
    assert!(MutationRoot.delete_post(&mut store, 1));
    assert!(QueryRoot.posts(&store).is_empty());
}
