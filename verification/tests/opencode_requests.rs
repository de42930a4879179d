use pi_sessions::opencode::client::{push_decimal, Field, Method, Request};
use pi_sessions::opencode::{OpenCodeClient, Session};

fn client() -> OpenCodeClient {
    OpenCodeClient::new("http://localhost:4096")
}

fn fields(body: &Option<Vec<Field>>) -> Vec<(String, Option<String>)> {
    body.as_ref().unwrap().iter().map(|f| (f.name.clone(), f.value.clone())).collect()
}

fn pair(name: &str, value: Option<&str>) -> (String, Option<String>) {
    (name.to_string(), value.map(|v| v.to_string()))
}

fn bare(r: &Request, method: Method, url: &str) {
    assert_eq!(format!("{:?}", r.method), format!("{:?}", method));
    assert_eq!(r.url, url);
    assert!(r.body.is_none());
}

fn session(id: &str) -> Session {
    Session {
        id: id.to_string(),
        title: None,
        created_at: "t0".to_string(),
        updated_at: "t1".to_string(),
        model: None,
        agent: None,
    }
}

#[test]
fn plain_requests() {
    let c = client();
    bare(&c.health(), Method::Get, "http://localhost:4096/global/health");
    bare(&c.list_sessions_request(), Method::Get, "http://localhost:4096/session");
    bare(&c.list_agents(), Method::Get, "http://localhost:4096/agent");
    bare(&c.get_diffs("s1"), Method::Get, "http://localhost:4096/session/s1/diff");
    bare(&c.abort_session("s1"), Method::Post, "http://localhost:4096/session/s1/abort");
    bare(&c.delete_session("s1"), Method::Delete, "http://localhost:4096/session/s1");
    bare(&c.search_files("*.rs"), Method::Get, "http://localhost:4096/find?pattern=*.rs");
    bare(&c.read_file("src/a b.rs"), Method::Get, "http://localhost:4096/file/content?path=src/a b.rs");
    bare(&c.list_files("."), Method::Get, "http://localhost:4096/file?path=.");
}

#[test]
fn messages_request_carries_limit() {
    let c = client();
    bare(&c.get_messages("s1", None), Method::Get, "http://localhost:4096/session/s1/message");
    bare(&c.get_messages("s1", Some(25)), Method::Get, "http://localhost:4096/session/s1/message?limit=25");
    bare(&c.get_messages("s1", Some(0)), Method::Get, "http://localhost:4096/session/s1/message?limit=0");
    bare(&c.get_messages("s1", Some(-7)), Method::Get, "http://localhost:4096/session/s1/message?limit=-7");
}

#[test]
fn decimal_text_matches_std() {
    for n in [0, 1, 9, 10, 11, 99, 100, 101, 12345, -1, -10, -2147483647, i32::MAX, i32::MIN] {
        let mut out = "n=".to_string();
        push_decimal(&mut out, n);
        assert_eq!(out, format!("n={}", n));
    }
}

#[test]
fn create_session_request_defaults_title() {
    let c = client();
    let r = c.create_session_request(None);
    assert!(matches!(r.method, Method::Post));
    assert_eq!(r.url, "http://localhost:4096/session");
    assert_eq!(fields(&r.body), vec![pair("title", Some("New Session"))]);
    let named = c.create_session_request(Some("Refactor"));
    assert_eq!(fields(&named.body), vec![pair("title", Some("Refactor"))]);
}

#[test]
fn send_message_request_body() {
    let c = client();
    let r = c.send_message("s1", "hello", None);
    assert!(matches!(r.method, Method::Post));
    assert_eq!(r.url, "http://localhost:4096/session/s1/message");
    assert_eq!(fields(&r.body), vec![pair("message", Some("hello")), pair("model", None)]);
    let with_model = c.send_message("s1", "hello", Some("m1"));
    assert_eq!(fields(&with_model.body), vec![pair("message", Some("hello")), pair("model", Some("m1"))]);
}

#[test]
fn run_shell_request_body() {
    let c = client();
    let r = c.run_shell("s1", "ls -l", "build");
    assert!(matches!(r.method, Method::Post));
    assert_eq!(r.url, "http://localhost:4096/session/s1/shell");
    assert_eq!(fields(&r.body), vec![pair("command", Some("ls -l")), pair("agent", Some("build"))]);
}

#[test]
fn remembered_sessions() {
    let mut c = client();
    assert!(c.sessions().is_empty());
    c.create_session(session("a"));
    c.create_session(session("b"));
    let ids: Vec<&str> = c.sessions().iter().map(|s| s.id.as_str()).collect();
    assert_eq!(ids, vec!["a", "b"]);
    c.list_sessions(vec![session("z")]);
    let ids: Vec<&str> = c.sessions().iter().map(|s| s.id.as_str()).collect();
    assert_eq!(ids, vec!["z"]);
    c.list_sessions(Vec::new());
    assert!(c.sessions().is_empty());
}
