//! Records of the remote service, the requests that address it, and the
//! sessions that the client remembers.

use crate::text::opt_text;
use vstd::prelude::*;
use vstd::string::StringExecFns;

verus! {

/// A session as the service reports it.
#[derive(Debug, Clone)]
pub struct Session {
    pub id: String,
    pub title: Option<String>,
    pub created_at: String,
    pub updated_at: String,
    pub model: Option<String>,
    pub agent: Option<String>,
}

/// A message of a session.
#[derive(Debug, Clone)]
pub struct Message {
    pub id: String,
    pub role: String,
    pub content: String,
    pub parts: Vec<MessagePart>,
    pub created_at: String,
}

/// One part of a message.
#[derive(Debug, Clone)]
pub struct MessagePart {
    pub kind: String,
    pub content: Option<String>,
    pub source: Option<String>,
}

/// The change that a session made to one file.
#[derive(Debug, Clone)]
pub struct FileDiff {
    pub path: String,
    pub old_content: Option<String>,
    pub new_content: Option<String>,
    pub diff: Option<String>,
}

/// An agent that the service offers.
#[derive(Debug, Clone)]
pub struct Agent {
    pub id: String,
    pub name: String,
    pub description: Option<String>,
    pub model: Option<String>,
}

/// The service's answer to a health probe.
#[derive(Debug, Clone)]
pub struct HealthResponse {
    pub healthy: bool,
    pub version: String,
}

/// The method of a request.
#[derive(Debug, Clone, Copy)]
pub enum Method {
    Get,
    Post,
    Delete,
}

/// One member of a request's JSON object: a name and a text, or null.
#[derive(Debug, Clone)]
pub struct Field {
    pub name: String,
    pub value: Option<String>,
}

impl DeepView for Field {
    type V = (Seq<char>, Option<Seq<char>>);

    open spec fn deep_view(&self) -> (Seq<char>, Option<Seq<char>>) {
        (self.name@, self.value.deep_view())
    }
}

/// A request to the service: method, address, and the JSON object to send
/// where there is one.
#[derive(Debug, Clone)]
pub struct Request {
    pub method: Method,
    pub url: String,
    pub body: Option<Vec<Field>>,
}

/// The mathematical value of a [`Request`].
pub ghost struct RequestView {
    pub method: Method,
    pub url: Seq<char>,
    pub body: Option<Seq<(Seq<char>, Option<Seq<char>>)>>,
}

impl View for Request {
    type V = RequestView;

    open spec fn view(&self) -> RequestView {
        RequestView { method: self.method, url: self.url@, body: self.body.deep_view() }
    }
}

/// The decimal digit `d`.
pub open spec fn digit_char(d: nat) -> char {
    if d == 0 {
        '0'
    } else if d == 1 {
        '1'
    } else if d == 2 {
        '2'
    } else if d == 3 {
        '3'
    } else if d == 4 {
        '4'
    } else if d == 5 {
        '5'
    } else if d == 6 {
        '6'
    } else if d == 7 {
        '7'
    } else if d == 8 {
        '8'
    } else {
        '9'
    }
}

/// The decimal digits of `n`, most significant first, without leading zeros.
pub open spec fn digits(n: nat) -> Seq<char>
    decreases n,
{
    if n < 10 {
        seq![digit_char(n)]
    } else {
        digits(n / 10).push(digit_char(n % 10))
    }
}

/// `n` in decimal, with a minus sign where it is negative.
pub open spec fn decimal_text(n: int) -> Seq<char> {
    if n < 0 {
        seq!['-'] + digits((-n) as nat)
    } else {
        digits(n as nat)
    }
}

fn digit_text(d: u32) -> (r: &'static str)
    requires
        d < 10,
    ensures
        r@ == seq![digit_char(d as nat)],
{
    proof {
        reveal_strlit("0");
        reveal_strlit("1");
        reveal_strlit("2");
        reveal_strlit("3");
        reveal_strlit("4");
        reveal_strlit("5");
        reveal_strlit("6");
        reveal_strlit("7");
        reveal_strlit("8");
        reveal_strlit("9");
    }
    let r = if d == 0 {
        "0"
    } else if d == 1 {
        "1"
    } else if d == 2 {
        "2"
    } else if d == 3 {
        "3"
    } else if d == 4 {
        "4"
    } else if d == 5 {
        "5"
    } else if d == 6 {
        "6"
    } else if d == 7 {
        "7"
    } else if d == 8 {
        "8"
    } else {
        "9"
    };
    assert(r@ =~= seq![digit_char(d as nat)]);
    r
}

fn push_digits(out: &mut String, n: u32)
    ensures
        final(out)@ == old(out)@ + digits(n as nat),
    decreases n,
{
    if n >= 10 {
        push_digits(out, n / 10);
    }
    out.append(digit_text(n % 10));
    assert(out@ =~= old(out)@ + digits(n as nat));
}

/// Appends `n` in decimal to `out`.
pub fn push_decimal(out: &mut String, n: i32)
    ensures
        final(out)@ == old(out)@ + decimal_text(n as int),
{
    let wide: i64 = n as i64;
    if wide < 0 {
        proof {
            reveal_strlit("-");
        }
        out.append("-");
        let magnitude: u32 = (-wide) as u32;
        push_digits(out, magnitude);
        assert(out@ =~= old(out)@ + decimal_text(n as int));
    } else {
        push_digits(out, wide as u32);
    }
}

/// The title given to a session that is created without one.
pub open spec fn default_title() -> Seq<char> {
    "New Session"@
}

/// The client's state: where the service is, and the sessions it last
/// reported or created.
pub struct OpenCodeClient {
    base_url: String,
    sessions: Vec<Session>,
}

impl OpenCodeClient {
    /// The address of the service.
    pub closed spec fn base(&self) -> Seq<char> {
        self.base_url@
    }

    /// The sessions that the client remembers, oldest first.
    pub closed spec fn known(&self) -> Seq<Session> {
        self.sessions@
    }

    /// A client for the service at `base_url` that remembers no session.
    pub fn new(base_url: &str) -> (r: Self)
        ensures
            r.base() == base_url@,
            r.known() == Seq::<Session>::empty(),
    {
        OpenCodeClient { base_url: String::from_str(base_url), sessions: Vec::new() }
    }

    /// The sessions that the client remembers.
    pub fn sessions(&self) -> (r: &Vec<Session>)
        ensures
            r@ == self.known(),
    {
        &self.sessions
    }

    fn address(&self, head: &str) -> (r: String)
        ensures
            r@ == self.base() + head@,
    {
        self.base_url.clone().concat(head)
    }

    fn address_of(&self, head: &str, middle: &str, tail: &str) -> (r: String)
        ensures
            r@ == self.base() + head@ + middle@ + tail@,
    {
        self.base_url.clone().concat(head).concat(middle).concat(tail)
    }

    /// The request that probes the service's health.
    pub fn health(&self) -> (r: Request)
        ensures
            r@ == (RequestView {
                method: Method::Get,
                url: self.base() + "/global/health"@,
                body: None,
            }),
    {
        Request { method: Method::Get, url: self.address("/global/health"), body: None }
    }

    /// The request that lists the sessions.
    pub fn list_sessions_request(&self) -> (r: Request)
        ensures
            r@ == (RequestView { method: Method::Get, url: self.base() + "/session"@, body: None }),
    {
        Request { method: Method::Get, url: self.address("/session"), body: None }
    }

    /// Remembers the sessions that the service listed, in place of those
    /// remembered before.
    pub fn list_sessions(&mut self, response: Vec<Session>)
        ensures
            final(self).base() == old(self).base(),
            final(self).known() == response@,
    {
        self.sessions = response;
    }

    /// The request that creates a session, under `title` or, where none is
    /// given, under the default title.
    pub fn create_session_request(&self, title: Option<&str>) -> (r: Request)
        ensures
            r@ == (RequestView {
                method: Method::Post,
                url: self.base() + "/session"@,
                body: Some(
                    seq![
                        (
                            "title"@,
                            Some(
                                match title {
                                    Some(t) => t@,
                                    None => default_title(),
                                },
                            ),
                        ),
                    ],
                ),
            }),
    {
        let text = match title {
            Some(t) => String::from_str(t),
            None => String::from_str("New Session"),
        };
        let body: Vec<Field> = vec![Field { name: String::from_str("title"), value: Some(text) }];
        let r = Request { method: Method::Post, url: self.address("/session"), body: Some(body) };
        assert(r@.body->Some_0 =~= seq![("title"@, Some(text@))]);
        r
    }

    /// Remembers the session that the service created, after those
    /// remembered before.
    pub fn create_session(&mut self, response: Session)
        ensures
            final(self).base() == old(self).base(),
            final(self).known() == old(self).known().push(response),
    {
        self.sessions.push(response);
    }

    /// The request that sends `message` to a session, for `model` where one
    /// is named.
    pub fn send_message(&self, session_id: &str, message: &str, model: Option<&str>) -> (r:
        Request)
        ensures
            r@ == (RequestView {
                method: Method::Post,
                url: self.base() + "/session/"@ + session_id@ + "/message"@,
                body: Some(
                    seq![
                        ("message"@, Some(message@)),
                        ("model"@, opt_text(model)),
                    ],
                ),
            }),
    {
        let named = match model {
            Some(m) => Some(String::from_str(m)),
            None => None,
        };
        let body: Vec<Field> = vec![
            Field { name: String::from_str("message"), value: Some(String::from_str(message)) },
            Field { name: String::from_str("model"), value: named },
        ];
        let r = Request {
            method: Method::Post,
            url: self.address_of("/session/", session_id, "/message"),
            body: Some(body),
        };
        assert(named.deep_view() == opt_text(model));
        assert(r@.body->Some_0 =~= seq![("message"@, Some(message@)), ("model"@, opt_text(model))]);
        r
    }

    /// The request that reads the messages of a session, at most `limit` of
    /// them where a limit is given.
    pub fn get_messages(&self, session_id: &str, limit: Option<i32>) -> (r: Request)
        ensures
            r@ == (RequestView {
                method: Method::Get,
                url: match limit {
                    Some(l) => self.base() + "/session/"@ + session_id@ + "/message"@ + "?limit="@
                        + decimal_text(l as int),
                    None => self.base() + "/session/"@ + session_id@ + "/message"@,
                },
                body: None,
            }),
    {
        let mut url = self.address_of("/session/", session_id, "/message");
        match limit {
            Some(l) => {
                url.append("?limit=");
                push_decimal(&mut url, l);
            },
            None => {},
        }
        Request { method: Method::Get, url, body: None }
    }

    /// The request that reads the changes a session made.
    pub fn get_diffs(&self, session_id: &str) -> (r: Request)
        ensures
            r@ == (RequestView {
                method: Method::Get,
                url: self.base() + "/session/"@ + session_id@ + "/diff"@,
                body: None,
            }),
    {
        Request {
            method: Method::Get,
            url: self.address_of("/session/", session_id, "/diff"),
            body: None,
        }
    }

    /// The request that aborts a session.
    pub fn abort_session(&self, session_id: &str) -> (r: Request)
        ensures
            r@ == (RequestView {
                method: Method::Post,
                url: self.base() + "/session/"@ + session_id@ + "/abort"@,
                body: None,
            }),
    {
        Request {
            method: Method::Post,
            url: self.address_of("/session/", session_id, "/abort"),
            body: None,
        }
    }

    /// The request that deletes a session.
    pub fn delete_session(&self, session_id: &str) -> (r: Request)
        ensures
            r@ == (RequestView {
                method: Method::Delete,
                url: self.base() + "/session/"@ + session_id@,
                body: None,
            }),
    {
        let url = self.base_url.clone().concat("/session/").concat(session_id);
        Request { method: Method::Delete, url, body: None }
    }

    /// The request that searches the files for `pattern`, which goes into
    /// the address as it is.
    pub fn search_files(&self, pattern: &str) -> (r: Request)
        ensures
            r@ == (RequestView {
                method: Method::Get,
                url: self.base() + "/find?pattern="@ + pattern@,
                body: None,
            }),
    {
        let url = self.base_url.clone().concat("/find?pattern=").concat(pattern);
        Request { method: Method::Get, url, body: None }
    }

    /// The request that reads the file at `path`, which goes into the
    /// address as it is.
    pub fn read_file(&self, path: &str) -> (r: Request)
        ensures
            r@ == (RequestView {
                method: Method::Get,
                url: self.base() + "/file/content?path="@ + path@,
                body: None,
            }),
    {
        let url = self.base_url.clone().concat("/file/content?path=").concat(path);
        Request { method: Method::Get, url, body: None }
    }

    /// The request that lists the files under `path`, which goes into the
    /// address as it is.
    pub fn list_files(&self, path: &str) -> (r: Request)
        ensures
            r@ == (RequestView {
                method: Method::Get,
                url: self.base() + "/file?path="@ + path@,
                body: None,
            }),
    {
        let url = self.base_url.clone().concat("/file?path=").concat(path);
        Request { method: Method::Get, url, body: None }
    }

    /// The request that runs a shell command in a session through `agent`.
    pub fn run_shell(&self, session_id: &str, command: &str, agent: &str) -> (r: Request)
        ensures
            r@ == (RequestView {
                method: Method::Post,
                url: self.base() + "/session/"@ + session_id@ + "/shell"@,
                body: Some(seq![("command"@, Some(command@)), ("agent"@, Some(agent@))]),
            }),
    {
        let body: Vec<Field> = vec![
            Field { name: String::from_str("command"), value: Some(String::from_str(command)) },
            Field { name: String::from_str("agent"), value: Some(String::from_str(agent)) },
        ];
        let r = Request {
            method: Method::Post,
            url: self.address_of("/session/", session_id, "/shell"),
            body: Some(body),
        };
        assert(r@.body->Some_0 =~= seq![("command"@, Some(command@)), ("agent"@, Some(agent@))]);
        r
    }

    /// The request that lists the agents.
    pub fn list_agents(&self) -> (r: Request)
        ensures
            r@ == (RequestView { method: Method::Get, url: self.base() + "/agent"@, body: None }),
    {
        Request { method: Method::Get, url: self.address("/agent"), body: None }
    }
}

} // verus!
