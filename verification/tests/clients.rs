use glazed::address::PathError;
use glazed::clients::{
    classify, columns_query, copied, insert, interpret, read_answer, ClientError, ReadError,
    Status, TiledClient,
};
use glazed::model::app::AppMetadata;
use glazed::model::node::{Metadata, Root};
use url::Url;

fn client_at(address: &str) -> TiledClient {
    TiledClient::new(Url::parse(address).unwrap())
}

fn pair(name: &str, value: &str) -> (String, String) {
    (name.to_string(), value.to_string())
}

#[test]
fn request() {
    let client = client_at("http://tiled.example.com/");
    let request = client.request("/demo/api", None, None).unwrap();
    assert_eq!(request.url.as_str(), "http://tiled.example.com/demo/api");
    assert!(request.headers.is_none());
    assert!(request.query.is_none());
    let answer: Vec<u8> = interpret(200, "[1,2,3]".to_string()).unwrap();
    assert_eq!(answer, vec![1, 2, 3]);
}

#[test]
fn request_with_headers() {
    let client = client_at("http://tiled.example.com/");
    let headers = vec![pair("api-key", "foo")];
    let request = client.request("/demo/api", Some(headers), None).unwrap();
    assert_eq!(request.url.as_str(), "http://tiled.example.com/demo/api");
    assert_eq!(request.headers, Some(vec![pair("api-key", "foo")]));
    let answer: Vec<u8> = interpret(200, "[1,2,3]".to_string()).unwrap();
    assert_eq!(answer, vec![1, 2, 3]);
}

#[test]
fn request_app_metadata() {
    let client = client_at("http://tiled.example.com/");
    let request = client.app_metadata().unwrap();
    assert_eq!(request.url.as_str(), "http://tiled.example.com/api/v1/");
    let body = r#"{"api_version": 0, "library_version": "0.1.0", "queries": ["eq"]}"#;
    let response: AppMetadata = interpret(200, body.to_string()).unwrap();
    assert_eq!(response.api_version, 0);
    assert_eq!(response.document["library_version"], "0.1.0");
}

#[test]
fn internal_tiled_error() {
    let response = interpret::<AppMetadata>(503, "Tiled is broken inside".to_string());
    let Err(ClientError::TiledInternal(503, err)) = response else {
        panic!("Expected ServerError but got {response:?}");
    };
    assert_eq!(err, "Tiled is broken inside");
}

#[test]
fn invalid_server_response() {
    let response = interpret::<AppMetadata>(200, "{}".to_string());
    let Err(ClientError::InvalidResponse(err, _)) = response else {
        panic!("Expected InvalidResponse but got {response:?}");
    };
    assert!(err.is_data());
}

#[test]
fn unreadable_body_is_kept_as_it_came() {
    let body = "{\"api_version\": 0,, }  \n";
    let response = interpret::<AppMetadata>(200, body.to_string());
    let Err(ClientError::InvalidResponse(err, kept)) = response else {
        panic!("Expected InvalidResponse but got {response:?}");
    };
    assert!(err.is_syntax());
    assert!(!err.is_data());
    assert_eq!(kept, body);

    let body = r#"{"api_version": "zero"}"#;
    let response = interpret::<AppMetadata>(201, body.to_string());
    let Err(ClientError::InvalidResponse(ReadError::Data, kept)) = response else {
        panic!("Expected InvalidResponse but got {response:?}");
    };
    assert_eq!(kept, body);
}

#[test]
fn status_decides_before_the_body() {
    let response = interpret::<AppMetadata>(404, "not json at all".to_string());
    assert!(matches!(response, Err(ClientError::TiledRequest(404, ref body)) if body == "not json at all"));
    let response = interpret::<AppMetadata>(404, r#"{"api_version": 0}"#.to_string());
    assert!(matches!(response, Err(ClientError::TiledRequest(404, _))));
    let response = interpret::<AppMetadata>(500, r#"{"api_version": 0}"#.to_string());
    assert!(matches!(response, Err(ClientError::TiledInternal(500, _))));
    let response = interpret::<AppMetadata>(200, "{".to_string());
    assert!(matches!(response, Err(ClientError::InvalidResponse(ReadError::Syntax(_), _))));
    let response = interpret::<AppMetadata>(302, r#"{"api_version": 3}"#.to_string());
    assert_eq!(response.unwrap().api_version, 3);
}

#[test]
fn status_classes_by_their_bounds() {
    assert_eq!(classify(399), Status::Answered);
    assert_eq!(classify(400), Status::Refused);
    assert_eq!(classify(499), Status::Refused);
    assert_eq!(classify(500), Status::Failed);
    assert_eq!(classify(599), Status::Failed);
    assert_eq!(classify(600), Status::Answered);
    assert_eq!(classify(200), Status::Answered);
    assert_eq!(classify(0), Status::Answered);
    assert_eq!(classify(u16::MAX), Status::Answered);
}

#[test]
fn read_answer_takes_the_outcome_of_parsing() {
    let value = serde_json::from_str::<serde_json::Value>("[1, 2]").unwrap();
    let answer: Vec<u8> = read_answer("[1, 2]".to_string(), Ok(value)).unwrap();
    assert_eq!(answer, vec![1, 2]);
    let value = serde_json::from_str::<serde_json::Value>("[1, 256]").unwrap();
    let answer = read_answer::<Vec<u8>>("[1, 256]".to_string(), Ok(value));
    assert!(matches!(answer, Err(ClientError::InvalidResponse(ReadError::Data, ref b)) if b == "[1, 256]"));
    let error = serde_json::from_str::<serde_json::Value>("[1,").unwrap_err();
    let answer = read_answer::<Vec<u8>>("[1,".to_string(), Err(error));
    assert!(matches!(answer, Err(ClientError::InvalidResponse(ReadError::Syntax(_), ref b)) if b == "[1,"));
}

#[test]
fn search_resolves_the_path_and_keeps_the_query() {
    let client = client_at("http://tiled.example.com/tiled/");
    let query = vec![pair("include_data_sources", "true")];
    let request = client.search("run/primary", None, query).unwrap();
    assert_eq!(request.url.as_str(), "http://tiled.example.com/tiled/api/v1/search/run/primary");
    assert_eq!(request.query, Some(vec![pair("include_data_sources", "true")]));
    assert_eq!(request.headers, None);
    let request = client.search("", Some(vec![pair("authorization", "x")]), Vec::new()).unwrap();
    assert_eq!(request.url.as_str(), "http://tiled.example.com/tiled/api/v1/search/");
    assert_eq!(request.headers, Some(vec![pair("authorization", "x")]));
    assert_eq!(request.query, Some(Vec::new()));
}

#[test]
fn metadata_asks_for_the_node_of_an_id() {
    let client = client_at("http://tiled.example.com/");
    let request = client.metadata("abc".to_string(), None).unwrap();
    assert_eq!(request.url.as_str(), "http://tiled.example.com/api/v1/metadata/abc");
    assert!(request.query.is_none());
    assert!(request.headers.is_none());
}

#[test]
fn table_full_accepts_json_and_names_each_column() {
    let client = client_at("http://tiled.example.com/");
    let columns = Some(vec!["x".to_string(), "y".to_string()]);
    let request = client.table_full("a/b/c", columns, None).unwrap();
    assert_eq!(request.url.as_str(), "http://tiled.example.com/api/v1/table/full/a/b/c");
    assert_eq!(request.headers, Some(vec![pair("accept", "application/json")]));
    assert_eq!(request.query, Some(vec![pair("column", "x"), pair("column", "y")]));

    let headers = Some(vec![pair("accept", "text/csv"), pair("authorization", "token")]);
    let request = client.table_full("t", None, headers).unwrap();
    assert_eq!(
        request.headers,
        Some(vec![pair("authorization", "token"), pair("accept", "application/json")])
    );
    assert_eq!(request.query, None);
}

#[test]
fn download_appends_three_segments_and_the_id() {
    let client = client_at("http://tiled.example.com/");
    let request = client
        .download("run 1".to_string(), "primary".to_string(), "det/1".to_string(), 42, None)
        .unwrap();
    assert_eq!(
        request.url.as_str(),
        "http://tiled.example.com/api/v1/asset/bytes/run%201/primary/det%2F1"
    );
    assert_eq!(request.headers, Some(Vec::new()));
    assert_eq!(request.query, Some(vec![pair("id", "42")]));
    let headers = Some(vec![pair("authorization", "token")]);
    let request = client
        .download("r".to_string(), "s".to_string(), "d".to_string(), u32::MAX, headers)
        .unwrap();
    assert_eq!(request.url.as_str(), "http://tiled.example.com/api/v1/asset/bytes/r/s/d");
    assert_eq!(request.headers, Some(vec![pair("authorization", "token")]));
    assert_eq!(request.query, Some(vec![pair("id", "4294967295")]));
}

#[test]
fn request_reports_a_path_that_cannot_be_resolved() {
    let client = client_at("http://tiled.example.com/");
    let response = client.request("http://[::1", None, None);
    let Err(ClientError::InvalidPath(PathError::Unresolved(cause))) = response else {
        panic!("Expected InvalidPath but got {response:?}");
    };
    assert_eq!(cause, url::ParseError::InvalidIpv6Address);
}

#[test]
fn client_keeps_its_address() {
    let client = client_at("http://tiled.example.com:8000/base/");
    assert_eq!(client.address().as_str(), "http://tiled.example.com:8000/base/");
    assert!(!client.address().cannot_be_a_base());
}

#[test]
fn insert_replaces_what_the_name_had() {
    let list = vec![pair("a", "1"), pair("b", "2"), pair("a", "3")];
    assert_eq!(insert(list, "a", "4"), vec![pair("b", "2"), pair("a", "4")]);
    assert_eq!(insert(Vec::new(), "a", "4"), vec![pair("a", "4")]);
    let list = vec![pair("Accept", "1")];
    assert_eq!(insert(list, "accept", "2"), vec![pair("Accept", "1"), pair("accept", "2")]);
}

#[test]
fn columns_query_and_copies() {
    assert_eq!(columns_query(Vec::new()), Vec::new());
    assert_eq!(columns_query(vec!["x".to_string()]), vec![pair("column", "x")]);
    assert_eq!(copied(&None), None);
    assert_eq!(copied(&Some(vec![pair("a", "b")])), Some(vec![pair("a", "b")]));
}

#[test]
fn messages_name_the_kind_and_what_it_holds() {
    let error = ClientError::TiledInternal(503, "down".to_string());
    assert_eq!(error.message(), "Internal tiled error: 503 - down");
    let error = ClientError::TiledRequest(404, "missing".to_string());
    assert_eq!(error.message(), "Request Error: 404 - missing");
    let error = ClientError::ServerError("connection refused".to_string());
    assert_eq!(error.message(), "Tiled server error: connection refused");
    let error = ClientError::InvalidPath(PathError::Unresolved(url::ParseError::EmptyHost));
    assert_eq!(error.message(), "Invalid URL path: empty host");
    let error = ClientError::InvalidPath(PathError::CannotBeABase);
    assert_eq!(error.message(), "Invalid URL path: the address cannot be a base");
    let cause = serde_json::from_str::<serde_json::Value>("{").unwrap_err();
    let expected = format!("Invalid response: {}, response: {}", cause, "{");
    let error = ClientError::InvalidResponse(ReadError::Syntax(cause), "{".to_string());
    assert_eq!(error.message(), expected);
    let error = ClientError::InvalidResponse(ReadError::Data, "{}".to_string());
    assert_eq!(
        error.message(),
        "Invalid response: the document has another shape than was asked for, response: {}"
    );
}

#[test]
fn envelopes_need_their_members() {
    let node = r#"{"id": "n", "attributes": {"structure_family": "array", "ancestors": [],
        "specs": [], "metadata": {}, "structure": {}, "access_blob": null},
        "links": {"self": "s"}, "meta": null}"#;
    let body = format!(r#"{{"data": {node}, "error": null, "links": null, "meta": {{}}}}"#);
    let response: Metadata = interpret(200, body).unwrap();
    assert_eq!(response.links, None);
    assert_eq!(response.into_data().id, "n");
    let body = format!(r#"{{"data": {node}, "links": null, "meta": {{}}}}"#);
    assert!(matches!(
        interpret::<Metadata>(200, body),
        Err(ClientError::InvalidResponse(ReadError::Data, _))
    ));
    let body = r#"{"data": {}, "error": null, "meta": {}}"#.to_string();
    assert!(matches!(
        interpret::<Root>(200, body),
        Err(ClientError::InvalidResponse(ReadError::Data, _))
    ));
}

#[test]
fn a_client_needs_an_address_that_can_be_a_base() {
    let client = TiledClient::try_new(Url::parse("http://tiled.example.com/").unwrap()).unwrap();
    assert_eq!(client.address().as_str(), "http://tiled.example.com/");
    assert!(TiledClient::try_new(Url::parse("mailto:tiled@example.com").unwrap()).is_none());
    assert!(TiledClient::try_new(Url::parse("data:text/plain,x").unwrap()).is_none());
    assert!(TiledClient::try_new(Url::parse("file:///tmp/tiled").unwrap()).is_some());
}
