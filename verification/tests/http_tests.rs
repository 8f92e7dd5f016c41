use lyserver::http::{LYServerHTTPRequest, LYServerHTTPResponseBuilder};
use lyserver::router::{LYServerHTTPRoute, LYServerHTTPRouter};
use lyserver::string_map::LYServerStringMap;

fn request(method: &str, uri: &str) -> LYServerHTTPRequest {
    let mut headers = LYServerStringMap::new();
    headers.insert("host".to_string(), "localhost".to_string());
    LYServerHTTPRequest::new(
        method.to_string(),
        uri.to_string(),
        "HTTP/1.1".to_string(),
        headers,
        Some(b"body".to_vec()),
    )
}

fn failed_encoding() -> serde_json::Error {
    serde_json::from_str::<u8>("not json").unwrap_err()
}

#[test]
fn request_starts_without_params() {
    let r = request("GET", "/x");
    assert_eq!(r.method, "GET");
    assert_eq!(r.uri, "/x");
    assert_eq!(r.version, "HTTP/1.1");
    assert_eq!(r.params.len(), 0);
    assert_eq!(r.headers.get("host"), Some("localhost".to_string()));
    assert_eq!(r.body().map(|b| b.to_vec()), Some(b"body".to_vec()));
    let empty = LYServerHTTPRequest::new(
        "GET".to_string(),
        "/".to_string(),
        "HTTP/1.1".to_string(),
        LYServerStringMap::new(),
        None,
    );
    assert!(empty.body().is_none());
}

#[test]
fn builder_defaults() {
    let response = LYServerHTTPResponseBuilder::new(request("GET", "/")).build();
    assert_eq!(response.status_code, 200);
    assert_eq!(response.body, Vec::<u8>::new());
    assert_eq!(response.headers.entries(), vec![("content-length".to_string(), "0".to_string())]);
    assert_eq!(response.request, request("GET", "/"));
}

#[test]
fn builder_sets_fields_and_content_length() {
    let response = request("GET", "/")
        .build_response()
        .status_code(418)
        .header("x-a".to_string(), "1".to_string())
        .header("x-a".to_string(), "2".to_string())
        .body(b"hello world!".to_vec())
        .build();
    assert_eq!(response.status_code, 418);
    assert_eq!(response.body, b"hello world!".to_vec());
    assert_eq!(
        response.headers.entries(),
        vec![
            ("x-a".to_string(), "2".to_string()),
            ("content-length".to_string(), "12".to_string())
        ]
    );
}

#[test]
fn content_length_replaces_a_header_of_that_name() {
    let response = request("GET", "/")
        .build_response()
        .header("content-length".to_string(), "999".to_string())
        .body(vec![0; 100])
        .build();
    assert_eq!(response.headers.entries(), vec![("content-length".to_string(), "100".to_string())]);
}

#[test]
fn json_body() {
    let response = request("GET", "/")
        .build_response()
        .json(Ok("{\"a\":1}".to_string()))
        .build();
    assert_eq!(response.status_code, 200);
    assert_eq!(response.body, b"{\"a\":1}".to_vec());
    assert_eq!(response.headers.get("content-type"), Some("application/json".to_string()));
    assert_eq!(response.headers.get("content-length"), Some("7".to_string()));
}

#[test]
fn json_body_that_failed_to_encode() {
    let response = request("GET", "/").build_response().json(Err(failed_encoding())).build();
    assert_eq!(response.status_code, 500);
    assert_eq!(response.body, b"Failed to serialize JSON".to_vec());
    assert_eq!(response.headers.get("content-type"), None);
    assert_eq!(response.headers.get("content-length"), Some("24".to_string()));
}

#[test]
fn error_response_is_what_serde_json_writes() {
    let response = request("GET", "/").build_error_response(400, "bad \"thing\"\n").build();
    assert_eq!(response.status_code, 400);
    let mut map = serde_json::Map::new();
    map.insert("ok".to_string(), serde_json::Value::Bool(false));
    map.insert("error".to_string(), serde_json::Value::String("bad \"thing\"\n".to_string()));
    map.insert("code".to_string(), serde_json::Value::from(400u16));
    let expected = serde_json::to_string(&serde_json::Value::Object(map)).unwrap();
    assert_eq!(String::from_utf8(response.body.clone()).unwrap(), expected);
    assert_eq!(expected, "{\"code\":400,\"error\":\"bad \\\"thing\\\"\\n\",\"ok\":false}");
    assert_eq!(response.headers.get("content-type"), Some("application/json".to_string()));
    assert_eq!(response.headers.get("content-length"), Some(expected.len().to_string()));
}

#[test]
fn not_found_response() {
    let response = request("GET", "/nothing").not_found_response();
    assert_eq!(response.status_code, 404);
    assert_eq!(
        String::from_utf8(response.body).unwrap(),
        "{\"code\":404,\"error\":\"Page or resource not found\",\"ok\":false}"
    );
}

#[test]
fn match_request_on_method_and_pattern() {
    let r = request("get", "/preferences/theme");
    let route = r.match_request("GET", "/preferences/:key").unwrap();
    assert_eq!(route.method, "get");
    assert_eq!(route.uri, "/preferences/:key");
    assert_eq!(route.requested_uri, "/preferences/theme");
    assert_eq!(route.params.entries(), vec![("key".to_string(), "theme".to_string())]);
    assert_eq!(route.request, r);
    assert!(r.match_request("PUT", "/preferences/:key").is_none());
    assert!(r.match_request("GET", "/preferences").is_none());
    assert!(r.match_request("GET", "/other/:key").is_none());
}

#[test]
fn match_request_without_placeholders() {
    let r = request("GET", "/hello");
    let route = r.match_request("GET", "/hello").unwrap();
    assert_eq!(route.params.len(), 0);
    assert!(r.match_request("GET", "/hell").is_none());
    assert!(r.match_request("GET", "/hello/").is_none());
    assert!(LYServerHTTPRequest::static_match_request(request("GET", "/"), "GET", "/").is_some());
}

#[test]
fn match_request_with_several_placeholders() {
    let r = request("GET", "/a/1/b/2");
    let route = r.match_request("GET", "/a/:x/b/:y").unwrap();
    assert_eq!(
        route.params.entries(),
        vec![("x".to_string(), "1".to_string()), ("y".to_string(), "2".to_string())]
    );
}

#[test]
fn route_from_match_keeps_the_later_of_two_values() {
    let params = vec![
        ("k".to_string(), "1".to_string()),
        ("k".to_string(), "2".to_string()),
    ];
    let route = LYServerHTTPRoute::from_match(request("GET", "/x"), "/:k", &params);
    assert_eq!(route.params.entries(), vec![("k".to_string(), "2".to_string())]);
    assert_eq!(route.uri, "/:k");
    assert_eq!(route.requested_uri, "/x");
}

type Handler = fn(LYServerHTTPRoute) -> Result<lyserver::http::LYServerHTTPResponse, String>;

fn answer_a(route: LYServerHTTPRoute) -> Result<lyserver::http::LYServerHTTPResponse, String> {
    Ok(route.request.build_response().body(b"a".to_vec()).build())
}

fn answer_b(route: LYServerHTTPRoute) -> Result<lyserver::http::LYServerHTTPResponse, String> {
    Ok(route.request.build_response().body(b"b".to_vec()).build())
}

fn refuse(_route: LYServerHTTPRoute) -> Result<lyserver::http::LYServerHTTPResponse, String> {
    Err("no such key".to_string())
}

#[test]
fn router_takes_the_first_match_in_insertion_order() {
    let mut router: LYServerHTTPRouter<Handler> = LYServerHTTPRouter::new();
    assert_eq!(router.len(), 0);
    router.add_matcher("GET", "/x/:id", answer_a);
    router.add_matcher("GET", "/x/1", answer_b);
    router.add_matcher("PUT", "/x/1", refuse);
    assert_eq!(router.len(), 3);
    let (place, route) = router.select(&request("GET", "/x/1")).unwrap();
    assert_eq!(place, 0);
    assert_eq!(route.uri, "/x/:id");
    let response = router.respond(request("GET", "/x/1")).unwrap();
    assert_eq!(response.body, b"a".to_vec());
    let (place, _) = router.select(&request("put", "/x/1")).unwrap();
    assert_eq!(place, 2);
    assert!(router.select(&request("GET", "/y")).is_none());
    assert!(router.respond(request("GET", "/y")).is_none());
    assert!(router.match_request(request("GET", "/x/1"), "GET", "/x/1").is_some());
}

#[test]
fn router_turns_a_failed_handler_into_a_400() {
    let mut router: LYServerHTTPRouter<Handler> = LYServerHTTPRouter::new();
    router.add_matcher("DELETE", "/x", refuse);
    let response = router.respond(request("DELETE", "/x")).unwrap();
    assert_eq!(response.status_code, 400);
    assert_eq!(
        String::from_utf8(response.body).unwrap(),
        "{\"code\":400,\"error\":\"no such key\",\"ok\":false}"
    );
    let finished = LYServerHTTPRouter::<Handler>::finish(&request("GET", "/"), Err("x".to_string()));
    assert_eq!(finished.status_code, 400);
    let kept = LYServerHTTPRouter::<Handler>::finish(&request("GET", "/"), answer_b(
        LYServerHTTPRoute::from_match(request("GET", "/"), "/", &vec![]),
    ));
    assert_eq!(kept.body, b"b".to_vec());
}

#[test]
fn matching_odd_patterns_and_paths_gives_an_answer() {
    let patterns = [
        "", "/", ":", "*", "+", "?", "\\", "\\\\", "\\:", ":a", ":a?", "/:a?", "/:a?/", "/*", "/*/", "/+",
        "/:a/:b", "/:a:b", "/:a-:b", "/:a.:b", "/x/*y", "/x/+y", "a\\:b", "/\u{e9}/:k", "::", "/:a*", "//",
        "/:\u{e9}", "/a/:b/c", ":a/:a",
    ];
    let paths = [
        "", "/", "//", "/a", "/a/", "/a/b", "/a/b/c", "a", ":", "*", "/\u{e9}/x", "/x/y/z", "/a-b", "/a.b",
        "/\u{1f600}", "/a:b", "?", "/a?b=c", "\\",
    ];
    let mut matches = 0;
    for pattern in patterns {
        for path in paths {
            if request("GET", path).match_request("GET", pattern).is_some() {
                matches += 1;
            }
        }
    }
    assert!(matches > 0);
    assert!(request("GET", "/a/b").match_request("GET", "/:x/:y").is_some());
    assert!(request("GET", "/").match_request("GET", "").is_none());
}
