use wordcut_server::engine::engine_from_words;
use wordcut_server::pipeline::{method_of, parse_content_length, Method, WordcutServer};

fn server_with(words: &[&str]) -> WordcutServer {
    let words: Vec<String> = words.iter().map(|w| w.to_string()).collect();
    WordcutServer::new(engine_from_words(&words))
}

fn post(server: &WordcutServer, path: &str, body: &str) -> wordcut_server::response::HttpResponse {
    let bytes: Vec<u8> = body.as_bytes().to_vec();
    server.call(Method::Post, path, Some(&bytes))
}

#[test]
fn wordseg_single_dictionary_word() {
    let server = server_with(&["hello"]);
    let resp = post(&server, "/wordseg", "{\"text\": \"hello\"}");
    assert_eq!(resp.status, 200);
    assert!(resp.content_type_json);
    assert_eq!(resp.body, "{\"words\":[\"hello\"]}");
    assert_eq!(resp.content_length, resp.body.len() as u64);
}

#[test]
fn wordseg_concatenation_reconstructs_text() {
    let server = server_with(&["ab", "cd"]);
    for text in ["abcd", "abxcd", "hello world", ""] {
        let body = serde_json::to_string(
            &std::collections::BTreeMap::from([("text", text)]),
        )
        .unwrap();
        let resp = post(&server, "/wordseg", &body);
        assert_eq!(resp.status, 200);
        let val: serde_json::Value = serde_json::from_str(&resp.body).unwrap();
        let words = val.get("words").unwrap().as_array().unwrap();
        let mut joined = String::new();
        for w in words {
            joined.push_str(w.as_str().unwrap());
        }
        assert_eq!(joined, text);
    }
}

#[test]
fn wordseg_thai_text_and_byte_accurate_length() {
    let server = server_with(&["\u{e01}\u{e02}"]);
    let resp = post(&server, "/wordseg", "{\"text\": \"\u{e01}\u{e02}\"}");
    assert_eq!(resp.status, 200);
    assert_eq!(resp.body, "{\"words\":[\"\u{e01}\u{e02}\"]}");
    assert_eq!(resp.content_length, resp.body.len() as u64);
    assert!(resp.content_length > resp.body.chars().count() as u64);
}

#[test]
fn non_json_body_rejected_as_parse_failure() {
    let server = server_with(&["hello"]);
    let resp = post(&server, "/wordseg", "not json");
    assert_eq!(resp.status, 500);
    assert!(resp.content_type_json);
    assert_eq!(
        resp.body,
        "{\"error\":\"CannotParseJsonRequest\",\"detail\":\"cannot parse request body as JSON\"}"
    );
    assert_eq!(resp.content_length, resp.body.len() as u64);
}

#[test]
fn non_object_body_rejected() {
    let server = server_with(&["hello"]);
    let resp = post(&server, "/wordseg", "[1, 2, 3]");
    assert_eq!(resp.status, 500);
    assert_eq!(
        resp.body,
        "{\"error\":\"CannotGetJsonObject\",\"detail\":\"request body is not a JSON object\"}"
    );
}

#[test]
fn missing_text_field_rejected() {
    let server = server_with(&["hello"]);
    let resp = post(&server, "/wordseg", "{\"foo\": \"bar\"}");
    assert_eq!(resp.status, 500);
    assert_eq!(
        resp.body,
        "{\"error\":\"CannotGetTextAttr\",\"detail\":\"request object has no text attribute\"}"
    );
}

#[test]
fn wrong_text_type_rejected() {
    let server = server_with(&["hello"]);
    let resp = post(&server, "/wordseg", "{\"text\": 123}");
    assert_eq!(resp.status, 500);
    assert_eq!(
        resp.body,
        "{\"error\":\"TextAttrIsNotString\",\"detail\":\"text attribute is not a string\"}"
    );
}

#[test]
fn unreadable_body_rejected() {
    let server = server_with(&["hello"]);
    let resp = server.call(Method::Post, "/wordseg", None);
    assert_eq!(resp.status, 500);
    assert_eq!(
        resp.body,
        "{\"error\":\"CannotReadBody\",\"detail\":\"cannot read request body\"}"
    );
}

#[test]
fn unmatched_routes_answered_not_found() {
    let server = server_with(&["hello"]);
    let get = server.call(Method::Get, "/wordseg", None);
    assert_eq!(get.status, 404);
    assert_eq!(get.body, "Not found");
    assert!(!get.content_type_json);
    assert_eq!(get.content_length, 9);

    let bytes: Vec<u8> = b"{\"text\": \"hello\"}".to_vec();
    let unknown = server.call(Method::Post, "/unknown", Some(&bytes));
    assert_eq!(unknown.status, 404);
    assert_eq!(unknown.body, "Not found");
}

#[test]
fn dag_matches_engine_serialisation() {
    let words = vec!["a".to_string(), "ab".to_string()];
    let server = server_with(&["a", "ab"]);
    let resp = post(&server, "/dag", "{\"text\": \"ab\"}");
    assert_eq!(resp.status, 200);
    assert!(resp.content_type_json);

    let refs: Vec<&str> = words.iter().map(|w| w.as_str()).collect();
    let engine = wordcut_engine::Wordcut::new(wordcut_engine::create_prefix_tree(&refs));
    let expected_dag = serde_json::to_string(&engine.build_dag("ab")).unwrap();
    assert_eq!(resp.body, format!("{{\"dag\":{}}}", expected_dag));
    assert_eq!(resp.content_length, resp.body.len() as u64);
}

#[test]
fn dag_of_empty_text() {
    let server = server_with(&["a"]);
    let resp = post(&server, "/dag", "{\"text\": \"\"}");
    assert_eq!(resp.status, 200);
    let engine =
        wordcut_engine::Wordcut::new(wordcut_engine::create_prefix_tree(&["a"]));
    let expected_dag = serde_json::to_string(&engine.build_dag("")).unwrap();
    assert_eq!(resp.body, format!("{{\"dag\":{}}}", expected_dag));
}

#[test]
fn method_words_read_exactly() {
    assert!(matches!(method_of("GET"), Method::Get));
    assert!(matches!(method_of("POST"), Method::Post));
    assert!(matches!(method_of("PUT"), Method::Other));
    assert!(matches!(method_of("get"), Method::Other));
    assert!(matches!(method_of(""), Method::Other));
}

#[test]
fn content_length_values_read_exactly() {
    assert_eq!(parse_content_length(&"0".to_string()), Some(0));
    assert_eq!(parse_content_length(&"17".to_string()), Some(17));
    assert_eq!(parse_content_length(&"".to_string()), None);
    assert_eq!(parse_content_length(&"12a".to_string()), None);
    assert_eq!(parse_content_length(&"-1".to_string()), None);
    assert_eq!(parse_content_length(&"99999999999999999999999".to_string()), None);
}

#[test]
fn dag_route_reports_pipeline_errors_too() {
    let server = server_with(&["hello"]);
    let resp = post(&server, "/dag", "not json");
    assert_eq!(resp.status, 500);
    assert_eq!(
        resp.body,
        "{\"error\":\"CannotParseJsonRequest\",\"detail\":\"cannot parse request body as JSON\"}"
    );
}

#[test]
fn body_accumulated_from_chunks() {
    let chunks: Vec<Vec<u8>> = vec![
        b"{\"text\": ".to_vec(),
        b"\"hel".to_vec(),
        Vec::new(),
        b"lo\"}".to_vec(),
    ];
    let body = wordcut_server::pipeline::read_body(&chunks);
    assert_eq!(body, b"{\"text\": \"hello\"}");

    let server = server_with(&["hello"]);
    let resp = server.call(Method::Post, "/wordseg", Some(&body));
    assert_eq!(resp.status, 200);
    assert_eq!(resp.body, "{\"words\":[\"hello\"]}");
}

#[test]
fn distinct_requests_answered_independently() {
    let server = server_with(&["hello", "world"]);
    let first = post(&server, "/wordseg", "{\"text\": \"hello\"}");
    let dag = post(&server, "/dag", "{\"text\": \"world\"}");
    let second = post(&server, "/wordseg", "{\"text\": \"hello\"}");
    assert_eq!(first.status, 200);
    assert_eq!(dag.status, 200);
    assert_eq!(first.body, "{\"words\":[\"hello\"]}");
    assert_eq!(second.body, first.body);
    assert!(dag.body.starts_with("{\"dag\":"));
}
