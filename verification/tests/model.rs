use glazed::address::RootAddress;
use glazed::clients::{interpret, ClientError, TiledClient};
use glazed::decode::Decode;
use glazed::handlers::{headers_for, AuthHeader};
use glazed::model::app::AppMetadata;
use glazed::model::node::{Data, NodeAttributes, Root};
use glazed::model::{
    collect, session_query, sources_query, ArrayData, Asset, InstrumentSession, Resolution, Run,
    RunData, Step, TableData, TiledQuery,
};
use url::Url;

fn client() -> TiledClient {
    TiledClient::new(Url::parse("http://tiled.example.com/").unwrap())
}

fn pair(name: &str, value: &str) -> (String, String) {
    (name.to_string(), value.to_string())
}

fn asset_text(id: Option<i64>, uri: &str) -> String {
    let id = match id {
        Some(id) => id.to_string(),
        None => "null".to_string(),
    };
    format!(r#"{{"data_uri": "{uri}", "is_directory": false, "parameter": null, "num": 0, "id": {id}}}"#)
}

fn source_text(assets: &[String]) -> String {
    format!(
        r#"{{"structure": {{"columns": []}}, "id": 1, "mimetype": "image/tiff", "parameters": {{}},
        "assets": [{}], "management": "external"}}"#,
        assets.join(", ")
    )
}

fn node_text(id: &str, family: &str, ancestors: &[&str], sources: Option<&[String]>) -> String {
    let ancestors: Vec<String> = ancestors.iter().map(|a| format!("\"{a}\"")).collect();
    let sources = match sources {
        Some(list) => format!("[{}]", list.join(", ")),
        None => "null".to_string(),
    };
    format!(
        r#"{{"id": "{id}", "attributes": {{"ancestors": [{}], "structure_family": "{family}",
        "specs": [], "metadata": {{"start": {{"scan_id": 7}}}},
        "structure": {{"columns": ["x", "y"]}}, "access_blob": {{}}, "sorting": null,
        "data_sources": {sources}}},
        "links": {{"self": "http://tiled/{id}"}}, "meta": {{}}}}"#,
        ancestors.join(", ")
    )
}

fn collection_text(entries: &[String]) -> String {
    format!(
        r#"{{"data": [{}], "error": null, "links": {{"self": ""}}, "meta": {{}}}}"#,
        entries.join(", ")
    )
}

fn root_of(entries: &[String]) -> Root {
    interpret(200, collection_text(entries)).unwrap()
}

fn node_of(text: &str) -> Data {
    Data::decode(&serde_json::from_str(text).unwrap()).unwrap()
}

fn array_data(run: &str, stream: &str, id: &str, sources: Option<&[String]>) -> ArrayData {
    let node = node_of(&node_text(id, "array", &[run, stream], sources));
    let NodeAttributes::Array(attrs) = *node.attributes else {
        panic!("expected an array");
    };
    ArrayData { run: run.to_string(), id: node.id, stream: stream.to_string(), attrs }
}

fn segments(address: &str) -> Vec<String> {
    let url = Url::parse(address).unwrap();
    url.path_segments().unwrap().map(|s| s.to_string()).collect()
}

#[test]
fn app_metadata() {
    let request = TiledQuery.app_metadata(&client()).unwrap();
    assert_eq!(request.url.as_str(), "http://tiled.example.com/api/v1/");
    assert_eq!(request.headers, None);
    assert_eq!(request.query, None);
    let body = r#"{"api_version": 0, "library_version": "0.1.0"}"#.to_string();
    let response: AppMetadata = interpret(200, body).unwrap();
    assert_eq!(response.api_version, 0);
}

#[test]
fn invalid_runs() {
    let session = TiledQuery.instrument_session("cm12345-2".to_string());
    assert_eq!(session.name(), "cm12345-2");
    let request = session.runs(&client(), &None).unwrap();
    assert_eq!(request.url.as_str(), "http://tiled.example.com/api/v1/search/");
    assert_eq!(request.headers, None);
    let good = node_text("1e37c0ed-e87e-470d-be18-9d7f62f69127", "container", &[], None);
    let bad = r#"{"id": "5d8f5d53-c2c3-4f8f-9d35-6b0c0a2f3e11", "attributes": {"ancestors": [],
        "structure_family": "container", "specs": []}, "links": {"self": "x"}, "meta": {}}"#;
    let root = root_of(&[bad.to_string(), good]);
    let runs = InstrumentSession::found(root);
    let ids: Vec<&str> = runs.iter().map(|run| run.id()).collect();
    assert_eq!(ids, vec!["1e37c0ed-e87e-470d-be18-9d7f62f69127"]);
    assert_eq!(runs[0].scan_number(), Some(7));
}

#[test]
fn auth_forwarding() {
    let auth = Some(AuthHeader::new("auth_value".to_string()));
    let session = TiledQuery.instrument_session("cm12345-6".to_string());
    let request = session.runs(&client(), &auth).unwrap();
    assert_eq!(request.url.as_str(), "http://tiled.example.com/api/v1/search/");
    assert_eq!(request.headers, Some(vec![pair("authorization", "auth_value")]));
    assert_eq!(
        request.query,
        Some(vec![
            pair("filter[eq][condition][key]", "start.instrument_session"),
            pair("filter[eq][condition][value]", "\"cm12345-6\""),
            pair("include_data_sources", "true"),
        ])
    );
    let runs = InstrumentSession::found(root_of(&[]));
    assert!(runs.is_empty());
}

#[test]
fn a_session_without_runs_has_an_empty_list() {
    let body = r#"{"data": [], "error": null, "links": {"self": ""}, "meta": {}}"#;
    let root: Root = interpret(200, body.to_string()).unwrap();
    let runs = InstrumentSession::found(root);
    assert_eq!(runs.len(), 0);
}

#[test]
fn the_credential_goes_with_every_call() {
    let auth = Some(AuthHeader::new("token".to_string()));
    let expected = Some(vec![pair("authorization", "token")]);
    let run = Run { data: node_of(&node_text("run", "container", &[], None)) };
    let Step::Fetch(request, resolution) = run.data(&client(), &auth) else {
        panic!("expected a call");
    };
    assert_eq!(request.headers, expected);
    let streams = root_of(&[
        node_text("primary", "container", &["run"], None),
        node_text("baseline", "container", &["run"], None),
    ]);
    let Step::Fetch(request, resolution) = resolution.advance(&client(), Ok(streams)) else {
        panic!("expected a call");
    };
    assert_eq!(request.headers, expected);
    let table = node_text("data", "table", &["run", "primary"], None);
    let datasets = root_of(&[table]);
    let Step::Fetch(request, resolution) = resolution.advance(&client(), Ok(datasets)) else {
        panic!("expected a call");
    };
    assert_eq!(request.headers, expected);
    let Step::Done(sources) = resolution.advance(&client(), Ok(root_of(&[]))) else {
        panic!("expected the end");
    };
    let RunData::Internal(table) = &sources[0] else {
        panic!("expected a table");
    };
    let request = table.data(&client(), &auth, None).unwrap();
    assert_eq!(
        request.headers,
        Some(vec![pair("authorization", "token"), pair("accept", "application/json")])
    );
}

#[test]
fn no_credential_means_no_headers() {
    assert_eq!(headers_for(&None), None);
    let run = Run { data: node_of(&node_text("run", "container", &[], None)) };
    let Step::Fetch(request, resolution) = run.data(&client(), &None) else {
        panic!("expected a call");
    };
    assert_eq!(request.headers, None);
    let streams = root_of(&[node_text("primary", "container", &["run"], None)]);
    let Step::Fetch(request, _) = resolution.advance(&client(), Ok(streams)) else {
        panic!("expected a call");
    };
    assert_eq!(request.headers, None);
    let session = TiledQuery.instrument_session("cm1-1".to_string());
    assert_eq!(session.runs(&client(), &None).unwrap().headers, None);
    let auth = AuthHeader::new("secret".to_string());
    assert_eq!(auth.as_header_map(), vec![pair("authorization", "secret")]);
}

#[test]
fn a_run_resolves_stream_by_stream() {
    let run = Run { data: node_of(&node_text("run-1", "container", &[], None)) };
    let Step::Fetch(request, resolution) = run.data(&client(), &None) else {
        panic!("expected a call");
    };
    assert_eq!(request.url.as_str(), "http://tiled.example.com/api/v1/search/run-1");
    assert_eq!(request.query, Some(vec![pair("include_data_sources", "true")]));
    assert!(matches!(resolution, Resolution::Streams { .. }));

    let streams = root_of(&[
        node_text("primary", "container", &["run-1"], None),
        "{\"not\": \"a node\"}".to_string(),
        node_text("baseline", "container", &["run-1"], None),
    ]);
    let Step::Fetch(request, resolution) = resolution.advance(&client(), Ok(streams)) else {
        panic!("expected a call");
    };
    assert_eq!(request.url.as_str(), "http://tiled.example.com/api/v1/search/run-1/primary");
    assert_eq!(request.query, Some(vec![pair("include_data_sources", "true")]));

    let first = root_of(&[
        node_text("det", "array", &["run-1", "primary"], None),
        node_text("config", "container", &["run-1", "primary"], None),
        "null".to_string(),
        node_text("events", "table", &["run-1", "primary"], None),
    ]);
    let Step::Fetch(request, resolution) = resolution.advance(&client(), Ok(first)) else {
        panic!("expected a call");
    };
    assert_eq!(request.url.as_str(), "http://tiled.example.com/api/v1/search/run-1/baseline");

    let second = root_of(&[
        node_text("readings", "table", &["run-1", "baseline"], None),
        node_text("cam", "array", &["run-1", "baseline"], None),
    ]);
    let Step::Done(sources) = resolution.advance(&client(), Ok(second)) else {
        panic!("expected the end");
    };
    let names: Vec<(&str, &str)> = sources
        .iter()
        .map(|source| match source {
            RunData::Array(array) => ("array", array.name()),
            RunData::Internal(table) => ("table", table.name()),
        })
        .collect();
    assert_eq!(
        names,
        vec![("array", "det"), ("table", "events"), ("table", "readings"), ("array", "cam")]
    );
    let RunData::Array(det) = &sources[0] else {
        panic!("expected an array");
    };
    assert_eq!(det.run, "run-1");
    assert_eq!(det.stream, "primary");
    let RunData::Array(cam) = &sources[3] else {
        panic!("expected an array");
    };
    assert_eq!(cam.stream, "baseline");
}

#[test]
fn a_run_without_streams_has_no_data() {
    let run = Run { data: node_of(&node_text("run-1", "container", &[], None)) };
    let Step::Fetch(_, resolution) = run.data(&client(), &None) else {
        panic!("expected a call");
    };
    let Step::Done(sources) = resolution.advance(&client(), Ok(root_of(&[]))) else {
        panic!("expected the end");
    };
    assert!(sources.is_empty());
}

#[test]
fn a_failed_call_ends_the_resolution() {
    let run = Run { data: node_of(&node_text("run-1", "container", &[], None)) };
    let Step::Fetch(_, resolution) = run.data(&client(), &None) else {
        panic!("expected a call");
    };
    let failure = interpret::<Root>(503, "down".to_string());
    let step = resolution.advance(&client(), failure);
    assert!(matches!(step, Step::Failed(ClientError::TiledInternal(503, ref body)) if body == "down"));

    let Step::Fetch(_, resolution) = run.data(&client(), &None) else {
        panic!("expected a call");
    };
    let streams = root_of(&[node_text("primary", "container", &["run-1"], None)]);
    let Step::Fetch(_, resolution) = resolution.advance(&client(), Ok(streams)) else {
        panic!("expected a call");
    };
    let failure = Err(ClientError::ServerError("connection refused".to_string()));
    let step = resolution.advance(&client(), failure);
    assert!(matches!(step, Step::Failed(ClientError::ServerError(_))));
}

#[test]
fn a_resolution_past_its_streams_is_done() {
    let resolution = Resolution::Datasets {
        run: "run".to_string(),
        headers: None,
        streams: Vec::new(),
        at: 0,
        sources: Vec::new(),
    };
    let answer = root_of(&[node_text("det", "array", &["run", "primary"], None)]);
    let Step::Done(sources) = resolution.advance(&client(), Ok(answer)) else {
        panic!("expected the end");
    };
    assert!(sources.is_empty());
}

#[test]
fn collect_appends_arrays_and_tables() {
    let found = root_of(&[
        node_text("a", "table", &[], None),
        node_text("b", "container", &[], None),
        node_text("c", "array", &[], None),
    ])
    .into_data();
    let mut sources = Vec::new();
    collect(&"run".to_string(), &"primary".to_string(), found, &mut sources);
    assert_eq!(sources.len(), 2);
    assert!(matches!(&sources[0], RunData::Internal(table) if table.id == "a"));
    assert!(
        matches!(&sources[1], RunData::Array(array) if array.id == "c" && array.run == "run" && array.stream == "primary")
    );
    collect(&"run".to_string(), &"other".to_string(), Vec::new(), &mut sources);
    assert_eq!(sources.len(), 2);
}

#[test]
fn scan_numbers_come_from_start_documents() {
    let run = Run { data: node_of(&node_text("run", "container", &[], None)) };
    assert_eq!(run.scan_number(), Some(7));
    assert_eq!(run.id(), "run");
    let run = Run { data: node_of(&node_text("run", "array", &[], None)) };
    assert_eq!(run.scan_number(), None);
    let text = node_text("run", "container", &[], None).replace("scan_id", "scan");
    let run = Run { data: node_of(&text) };
    assert_eq!(run.scan_number(), None);
}

#[test]
fn queries() {
    assert_eq!(sources_query(), vec![pair("include_data_sources", "true")]);
    assert_eq!(
        session_query("cm1-1"),
        vec![
            pair("filter[eq][condition][key]", "start.instrument_session"),
            pair("filter[eq][condition][value]", "\"cm1-1\""),
            pair("include_data_sources", "true"),
        ]
    );
    assert_eq!(session_query("")[1].1, "\"\"");
}

#[test]
fn files_are_the_assets_of_all_sources_in_order() {
    let first = source_text(&[asset_text(Some(1), "file:///a"), asset_text(None, "file:///b")]);
    let empty = source_text(&[]);
    let third = source_text(&[asset_text(Some(3), "file:///c")]);
    let data = array_data("run", "primary", "det", Some(&[first, empty, third]));
    let files = data.files();
    let uris: Vec<&str> = files.iter().map(|file| file.file()).collect();
    assert_eq!(uris, vec!["file:///a", "file:///b", "file:///c"]);
    assert!(files.iter().all(|file| std::ptr::eq(file.data, &data)));
    let data = array_data("run", "primary", "det", None);
    assert!(data.files().is_empty());
    let data = array_data("run", "primary", "det", Some(&[]));
    assert!(data.files().is_empty());
}

#[test]
fn downloads_are_addressed_by_run_stream_dataset_and_asset() {
    let source = source_text(&[asset_text(Some(11), "file:///a"), asset_text(None, "file:///b")]);
    let data = array_data("1e37c0ed", "primary", "det", Some(&[source]));
    let files = data.files();
    let root = RootAddress(Url::parse("http://localhost:3000").unwrap());
    let address = files[0].download(&root).unwrap();
    assert_eq!(address, "http://localhost:3000/asset/1e37c0ed/primary/det/11");
    assert_eq!(segments(&address), vec!["asset", "1e37c0ed", "primary", "det", "11"]);
    assert_eq!(files[1].download(&root), None);

    let root = RootAddress(Url::parse("https://glazed.example.com/public?x=1").unwrap());
    let address = files[0].download(&root).unwrap();
    assert_eq!(address, "https://glazed.example.com/public/asset/1e37c0ed/primary/det/11?x=1");
    let all = segments(&address);
    assert_eq!(all[all.len() - 4..], ["1e37c0ed", "primary", "det", "11"]);

    let root = RootAddress(Url::parse("mailto:someone@example.com").unwrap());
    assert_eq!(files[0].download(&root), None);
}

#[test]
fn download_segments_are_escaped_and_dots_are_left_out() {
    let source = source_text(&[asset_text(Some(-5), "file:///a")]);
    let root = RootAddress(Url::parse("http://localhost:3000").unwrap());
    let data = array_data("run 1", "a/b", "det", Some(&[source.clone()]));
    let address = data.files()[0].download(&root).unwrap();
    assert_eq!(address, "http://localhost:3000/asset/run%201/a%2Fb/det/-5");
    let data = array_data("..", "primary", "det", Some(&[source]));
    let address = data.files()[0].download(&root).unwrap();
    assert_eq!(address, "http://localhost:3000/asset/primary/det/-5");
}

#[test]
fn a_table_is_fetched_at_the_path_of_its_node() {
    let node = node_of(&node_text("c", "table", &["a", "b"], None));
    let NodeAttributes::Table(attrs) = *node.attributes else {
        panic!("expected a table");
    };
    let table = TableData { id: node.id, attrs };
    assert_eq!(table.name(), "c");
    assert_eq!(table.columns(), &vec!["x".to_string(), "y".to_string()]);
    let request = table.data(&client(), &None, None).unwrap();
    assert_eq!(request.url.as_str(), "http://tiled.example.com/api/v1/table/full/a/b/c");
    assert_eq!(request.url.path().strip_prefix("/api/v1/table/full/"), Some("a/b/c"));
    assert_eq!(request.headers, Some(vec![pair("accept", "application/json")]));
    assert_eq!(request.query, None);
    let request = table.data(&client(), &None, Some(vec!["x".to_string()])).unwrap();
    assert_eq!(request.query, Some(vec![pair("column", "x")]));
}

#[test]
fn an_asset_knows_its_dataset() {
    let source = source_text(&[asset_text(Some(1), "file:///a")]);
    let data = array_data("run", "primary", "det", Some(&[source]));
    let asset = &data.attrs.data_sources.as_ref().unwrap()[0].assets[0];
    let file = Asset { asset, data: &data };
    assert_eq!(file.file(), "file:///a");
    assert_eq!(file.data.name(), "det");
}
