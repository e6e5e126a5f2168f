//! The debug tools: which requests go to the DevTools and WebDriver
//! endpoints of an application, and what their answers mean.
//!
//! The tools choose the request and read the answer; whoever drives them
//! sends the request and reports what came back.

use crate::json::{views_of, Json, JsonV, MemberV};
use crate::text::{decimal, decimal_text, join2, join3, same_text};
use crate::{ErrorKind, ErrorV, TauriMcpError};
use vstd::prelude::*;

verus! {

/// The first port on which the debug endpoint of an application is looked
/// for.
pub const FIRST_DEBUG_PORT: u16 = 9222;

/// The port at which the search for a debug endpoint ends; it is not tried.
pub const END_DEBUG_PORT: u16 = 9250;

/// Whether a request reads or writes.
#[derive(Debug, PartialEq, Eq, Clone, Copy, Structural)]
pub enum Method {
    Get,
    Post,
}

/// A request to an endpoint.
#[derive(Debug, PartialEq)]
pub struct HttpRequest {
    pub method: Method,
    pub url: String,
    /// The document that is sent along, if any.
    pub body: Option<Json>,
}

/// The mathematical value of a [`HttpRequest`].
pub struct HttpRequestV {
    pub method: Method,
    pub url: Seq<char>,
    pub body: Option<JsonV>,
}

impl View for HttpRequest {
    type V = HttpRequestV;

    open spec fn view(&self) -> HttpRequestV {
        HttpRequestV {
            method: self.method,
            url: self.url@,
            body: match self.body {
                Some(j) => Some(j@),
                None => None,
            },
        }
    }
}

/// What came back for a request.
#[derive(Debug, PartialEq)]
pub enum Reply {
    /// The request could not be sent; the text says why.
    SendFailed(String),
    /// The endpoint answered with a status that is no success; the text is
    /// the status.
    BadStatus(String),
    /// The answer is no JSON document; the text says why.
    Unreadable(String),
    /// The answer.
    Document(Json),
}

/// The words with which the failures of one request are reported.
#[derive(Debug, PartialEq, Eq, Clone, Copy)]
pub struct Wording {
    pub send_failed: &'static str,
    pub bad_status: &'static str,
    pub unreadable: &'static str,
}

/// A WebDriver session that was opened for an application.
#[derive(Debug, PartialEq)]
pub struct WebDriverSession {
    pub session_id: String,
    pub debug_port: u16,
}

/// The mathematical value of the WebDriver session of one process.
pub struct SessionV {
    pub process_id: Seq<char>,
    pub session_id: Seq<char>,
    pub debug_port: u16,
}

/// The error of kind `WebDriver` with the given detail.
pub open spec fn webdriver_error(detail: Seq<char>) -> ErrorV {
    ErrorV { kind: ErrorKind::WebDriver, detail }
}

/// The error of an operation that needs a WebDriver session where there is
/// none.
pub open spec fn no_session() -> ErrorV {
    webdriver_error("No WebDriver session found"@)
}

/// The address of the DevTools endpoint on `port`.
pub open spec fn devtools_address(port: u16) -> Seq<char> {
    "http://localhost:"@ + decimal_text(port as nat)
}

/// The address under which the WebDriver serves the session `session_id`.
pub open spec fn session_address(session_id: Seq<char>) -> Seq<char> {
    "http://localhost:9515/session/"@ + session_id
}

/// The request that reads `url`.
pub open spec fn get(url: Seq<char>) -> HttpRequestV {
    HttpRequestV { method: Method::Get, url, body: None }
}

/// The request that sends `body` to `url`.
pub open spec fn post(url: Seq<char>, body: JsonV) -> HttpRequestV {
    HttpRequestV { method: Method::Post, url, body: Some(body) }
}

/// The object with the one member `key`.
pub open spec fn object1(key: Seq<char>, value: JsonV) -> JsonV {
    JsonV::Object(seq![MemberV { key, value }])
}

/// The capabilities with which a WebDriver session is asked for: a Chrome
/// that is reached through the debugger of the application.
pub open spec fn capabilities_json(debug_port: u16) -> JsonV {
    object1(
        "capabilities"@,
        object1(
            "alwaysMatch"@,
            JsonV::Object(
                seq![
                    MemberV { key: "browserName"@, value: JsonV::Str("chrome"@) },
                    MemberV {
                        key: "goog:chromeOptions"@,
                        value: object1(
                            "debuggerAddress"@,
                            JsonV::Str("localhost:"@ + decimal_text(debug_port as nat)),
                        ),
                    },
                ],
            ),
        ),
    )
}

/// The request that asks the DevTools endpoint on `port` for its version.
pub open spec fn version_request_spec(port: u16) -> HttpRequestV {
    get(devtools_address(port) + "/json/version"@)
}

/// The request that asks the DevTools endpoint on `port` for its pages.
pub open spec fn pages_request_spec(port: u16) -> HttpRequestV {
    get(devtools_address(port) + "/json/list"@)
}

/// The request that opens a WebDriver session.
pub open spec fn connect_request_spec(debug_port: u16) -> HttpRequestV {
    post("http://localhost:9515/session"@, capabilities_json(debug_port))
}

/// The request that runs `code` in the session.
pub open spec fn execute_request_spec(session_id: Seq<char>, code: Seq<char>) -> HttpRequestV {
    post(
        session_address(session_id) + "/execute/sync"@,
        JsonV::Object(
            seq![
                MemberV { key: "script"@, value: JsonV::Str(code) },
                MemberV { key: "args"@, value: JsonV::Array(Seq::empty()) },
            ],
        ),
    )
}

/// The request that looks for the element that `selector` selects.
pub open spec fn find_element_request_spec(session_id: Seq<char>, selector: Seq<char>) -> HttpRequestV {
    post(
        session_address(session_id) + "/element"@,
        JsonV::Object(
            seq![
                MemberV { key: "using"@, value: JsonV::Str("css selector"@) },
                MemberV { key: "value"@, value: JsonV::Str(selector) },
            ],
        ),
    )
}

/// What a reply means: its document, or the failure in the words of
/// `wording`.
pub open spec fn read_reply(reply: Reply, wording: Wording) -> Result<JsonV, ErrorV> {
    match reply {
        Reply::SendFailed(why) => Err(webdriver_error(wording.send_failed@ + ": "@ + why@)),
        Reply::BadStatus(status) => Err(webdriver_error(wording.bad_status@ + ": "@ + status@)),
        Reply::Unreadable(why) => Err(webdriver_error(wording.unreadable@ + ": "@ + why@)),
        Reply::Document(j) => Ok(j@),
    }
}

/// The member `value` of an answer of the WebDriver; `null` where there is
/// none.
pub open spec fn value_of(answer: JsonV) -> JsonV {
    match answer.field("value"@) {
        Some(v) => v,
        None => JsonV::Null,
    }
}

/// The string that the member `value` of an answer holds; empty where it
/// holds no string.
pub open spec fn value_text(answer: JsonV) -> Seq<char> {
    match value_of(answer).as_str() {
        Some(s) => s,
        None => Seq::empty(),
    }
}

/// The id of the session that an answer to the opening of a session names.
pub open spec fn session_id_of(answer: JsonV) -> Result<Seq<char>, ErrorV> {
    match value_of(answer).str_field("sessionId"@) {
        Some(id) => Ok(id),
        None => Err(webdriver_error("No session ID in response"@)),
    }
}

/// The id of the element that an answer to a search names, under the name
/// that the standard gives it or under the older one.
pub open spec fn element_id_of(answer: JsonV) -> Result<Seq<char>, ErrorV> {
    match value_of(answer).str_field("element-6066-11e4-a52e-4f735466cecf"@) {
        Some(id) => Ok(id),
        None => match value_of(answer).str_field("ELEMENT"@) {
            Some(id) => Ok(id),
            None => Err(webdriver_error("No element ID in response"@)),
        },
    }
}

/// The console logs that an answer holds; none where its value is no array.
pub open spec fn console_logs_of(answer: JsonV) -> Seq<JsonV> {
    match value_of(answer) {
        JsonV::Array(items) => items,
        _ => Seq::empty(),
    }
}

/// What is reported of the DevTools endpoint on `port` whose version is
/// `info`.
pub open spec fn devtools_info_json(port: u16, info: JsonV) -> JsonV {
    JsonV::Object(
        seq![
            MemberV { key: "debug_port"@, value: JsonV::Int(port as int) },
            MemberV { key: "devtools_url"@, value: JsonV::Str(devtools_address(port)) },
            MemberV { key: "version_info"@, value: info },
        ],
    )
}

/// What running `code` through the DevTools endpoint answers, from its list
/// of pages: the first page is named, and the code is not run.
pub open spec fn devtools_execution(pages: JsonV, code: Seq<char>) -> Result<JsonV, ErrorV> {
    match pages {
        JsonV::Array(items) => if items.len() == 0 {
            Err(webdriver_error("No pages found"@))
        } else {
            match items[0].str_field("id"@) {
                Some(id) => Ok(
                    JsonV::Object(
                        seq![
                            MemberV {
                                key: "status"@,
                                value: JsonV::Str("Would execute JavaScript via DevTools"@),
                            },
                            MemberV { key: "code"@, value: JsonV::Str(code) },
                            MemberV { key: "page_id"@, value: JsonV::Str(id) },
                        ],
                    ),
                ),
                None => Err(webdriver_error("No page ID found"@)),
            }
        },
        _ => Err(webdriver_error("Failed to parse pages: not a list"@)),
    }
}

/// The port that is tried after `port`, if the search goes on.
pub open spec fn port_after(port: u16) -> Option<u16> {
    if FIRST_DEBUG_PORT <= port && port + 1 < END_DEBUG_PORT {
        Some((port + 1) as u16)
    } else {
        None
    }
}

/// The place of the session of `process_id` in `sessions`, or `-1`.
pub open spec fn session_position(sessions: Seq<SessionV>, process_id: Seq<char>) -> int
    decreases sessions.len(),
{
    if sessions.len() == 0 {
        -1
    } else if sessions.last().process_id == process_id {
        sessions.len() - 1
    } else {
        session_position(sessions.drop_last(), process_id)
    }
}

/// The sessions after one was opened for `process_id`: it takes the place
/// of the one that the process had.
pub open spec fn with_session(sessions: Seq<SessionV>, session: SessionV) -> Seq<SessionV> {
    let at = session_position(sessions, session.process_id);
    if at < 0 {
        sessions.push(session)
    } else {
        sessions.update(at, session)
    }
}

/// The text of the member `key` of `j`, where it is a string.
fn text_member(j: &Json, key: &str) -> (r: Option<String>)
    ensures
        match r {
            Some(s) => j@.str_field(key@) == Some(s@),
            None => j@.str_field(key@) is None,
        },
{
    match j.get(key) {
        Some(v) => match v.as_str() {
            Some(s) => Some(s.to_owned()),
            None => None,
        },
        None => None,
    }
}

/// The object with the one member `key`.
fn single(key: &str, value: Json) -> (r: Json)
    ensures
        r@ == object1(key@, value@),
{
    let r = Json::object().with(key, value);
    proof {
        assert(r@->Object_0 =~= object1(key@, value@)->Object_0);
    }
    r
}

/// The address of the DevTools endpoint on `port`.
pub fn devtools_url(port: u16) -> (r: String)
    ensures
        r@ == devtools_address(port),
{
    let number = decimal(port as u64);
    join2("http://localhost:", number.as_str())
}

/// The address under which the WebDriver serves the session `session_id`.
pub fn session_url(session_id: &str) -> (r: String)
    ensures
        r@ == session_address(session_id@),
{
    join2("http://localhost:9515/session/", session_id)
}

/// The request that asks the DevTools endpoint on `port` for its version.
/// An endpoint that answers it with success is a debug endpoint.
pub fn version_request(port: u16) -> (r: HttpRequest)
    ensures
        r@ == version_request_spec(port),
{
    let base = devtools_url(port);
    HttpRequest { method: Method::Get, url: join2(base.as_str(), "/json/version"), body: None }
}

/// The request that asks the DevTools endpoint on `port` for its pages.
pub fn pages_request(port: u16) -> (r: HttpRequest)
    ensures
        r@ == pages_request_spec(port),
{
    let base = devtools_url(port);
    HttpRequest { method: Method::Get, url: join2(base.as_str(), "/json/list"), body: None }
}

/// The request that opens a WebDriver session for the application whose
/// debugger listens on `debug_port`.
pub fn connect_request(debug_port: u16) -> (r: HttpRequest)
    ensures
        r@ == connect_request_spec(debug_port),
{
    let number = decimal(debug_port as u64);
    let address = join2("localhost:", number.as_str());
    let options = single("debuggerAddress", Json::Str(address));
    let matched = Json::object().with("browserName", Json::string("chrome")).with(
        "goog:chromeOptions",
        options,
    );
    proof {
        assert(matched@->Object_0 =~= capabilities_json(
            debug_port,
        )->Object_0[0].value->Object_0[0].value->Object_0);
    }
    let body = single("capabilities", single("alwaysMatch", matched));
    HttpRequest { method: Method::Post, url: "http://localhost:9515/session".to_owned(), body: Some(body) }
}

/// The request that runs `code` in the session.
pub fn execute_request(session_id: &str, code: &str) -> (r: HttpRequest)
    ensures
        r@ == execute_request_spec(session_id@, code@),
{
    let base = session_url(session_id);
    let none: Vec<Json> = Vec::new();
    let arguments = Json::array(none);
    proof {
        assert(arguments@->Array_0 =~= Seq::<JsonV>::empty());
    }
    let body = Json::object().with("script", Json::string(code)).with("args", arguments);
    proof {
        assert(body@->Object_0 =~= execute_request_spec(session_id@, code@).body->Some_0->Object_0);
    }
    HttpRequest { method: Method::Post, url: join2(base.as_str(), "/execute/sync"), body: Some(body) }
}

/// The request that looks for the element that `selector` selects.
pub fn find_element_request(session_id: &str, selector: &str) -> (r: HttpRequest)
    ensures
        r@ == find_element_request_spec(session_id@, selector@),
{
    let base = session_url(session_id);
    let body = Json::object().with("using", Json::string("css selector")).with(
        "value",
        Json::string(selector),
    );
    proof {
        assert(body@->Object_0 =~= find_element_request_spec(
            session_id@,
            selector@,
        ).body->Some_0->Object_0);
    }
    HttpRequest { method: Method::Post, url: join2(base.as_str(), "/element"), body: Some(body) }
}

/// The request that reads the source of the page of the session.
pub fn page_source_request(session_id: &str) -> (r: HttpRequest)
    ensures
        r@ == get(session_address(session_id@) + "/source"@),
{
    let base = session_url(session_id);
    HttpRequest { method: Method::Get, url: join2(base.as_str(), "/source"), body: None }
}

/// The request that reads the console log of the browser of the session.
pub fn console_logs_request(session_id: &str) -> (r: HttpRequest)
    ensures
        r@ == post(
            session_address(session_id@) + "/se/log"@,
            object1("type"@, JsonV::Str("browser"@)),
        ),
{
    let base = session_url(session_id);
    HttpRequest {
        method: Method::Post,
        url: join2(base.as_str(), "/se/log"),
        body: Some(single("type", Json::string("browser"))),
    }
}

/// The request that takes the screenshot of the element `element_id`.
pub fn element_screenshot_request(session_id: &str, element_id: &str) -> (r: HttpRequest)
    ensures
        r@ == get(
            session_address(session_id@) + "/element/"@ + element_id@ + "/screenshot"@,
        ),
{
    let base = session_url(session_id);
    let element = join3(base.as_str(), "/element/", element_id);
    HttpRequest { method: Method::Get, url: join2(element.as_str(), "/screenshot"), body: None }
}

/// What a reply means: its document, or the failure in the words of
/// `wording`.
pub fn interpret(reply: Reply, wording: Wording) -> (r: Result<Json, TauriMcpError>)
    ensures
        match r {
            Ok(j) => read_reply(reply, wording) == Ok::<JsonV, ErrorV>(j@),
            Err(e) => read_reply(reply, wording) == Err::<JsonV, ErrorV>(e@),
        },
{
    match reply {
        Reply::SendFailed(why) => Err(
            TauriMcpError::WebDriverError(join3(wording.send_failed, ": ", why.as_str())),
        ),
        Reply::BadStatus(status) => Err(
            TauriMcpError::WebDriverError(join3(wording.bad_status, ": ", status.as_str())),
        ),
        Reply::Unreadable(why) => Err(
            TauriMcpError::WebDriverError(join3(wording.unreadable, ": ", why.as_str())),
        ),
        Reply::Document(j) => Ok(j),
    }
}

/// The member `value` of an answer of the WebDriver.
pub fn answer_value(answer: &Json) -> (r: Json)
    ensures
        r@ == value_of(answer@),
{
    match answer.get("value") {
        Some(v) => v.copy(),
        None => Json::Null,
    }
}

/// The string that the member `value` of an answer holds.
pub fn answer_text(answer: &Json) -> (r: String)
    ensures
        r@ == value_text(answer@),
{
    match answer.get("value") {
        Some(v) => match v.as_str() {
            Some(s) => s.to_owned(),
            None => String::new(),
        },
        None => String::new(),
    }
}

/// The id of the element that an answer to a search names.
pub fn element_id(answer: &Json) -> (r: Result<String, TauriMcpError>)
    ensures
        match r {
            Ok(id) => element_id_of(answer@) == Ok::<Seq<char>, ErrorV>(id@),
            Err(e) => element_id_of(answer@) == Err::<Seq<char>, ErrorV>(e@),
        },
{
    let value = answer_value(answer);
    match text_member(&value, "element-6066-11e4-a52e-4f735466cecf") {
        Some(id) => Ok(id),
        None => match text_member(&value, "ELEMENT") {
            Some(id) => Ok(id),
            None => Err(TauriMcpError::WebDriverError("No element ID in response".to_owned())),
        },
    }
}

/// The console logs that an answer holds.
pub fn console_logs(answer: &Json) -> (r: Vec<Json>)
    ensures
        views_of(r@) == console_logs_of(answer@),
{
    let value = answer_value(answer);
    match value {
        Json::Array(items) => {
            proof {
                crate::json::lemma_array_view(items);
            }
            items
        },
        _ => {
            let none: Vec<Json> = Vec::new();
            proof {
                assert(views_of(none@) =~= Seq::<JsonV>::empty());
            }
            none
        },
    }
}

/// What is reported of the DevTools endpoint on `port` whose version is
/// `info`.
pub fn devtools_info(port: u16, info: Json) -> (r: Json)
    ensures
        r@ == devtools_info_json(port, info@),
{
    let r = Json::object().with("debug_port", Json::PosInt(port as u64)).with(
        "devtools_url",
        Json::Str(devtools_url(port)),
    ).with("version_info", info);
    proof {
        assert(r@->Object_0 =~= devtools_info_json(port, info@)->Object_0);
    }
    r
}

/// What running `code` through the DevTools endpoint answers, from its list
/// of pages.
pub fn execute_via_devtools(pages: &Json, code: &str) -> (r: Result<Json, TauriMcpError>)
    ensures
        match r {
            Ok(j) => devtools_execution(pages@, code@) == Ok::<JsonV, ErrorV>(j@),
            Err(e) => devtools_execution(pages@, code@) == Err::<JsonV, ErrorV>(e@),
        },
{
    match pages.as_array() {
        None => Err(TauriMcpError::WebDriverError("Failed to parse pages: not a list".to_owned())),
        Some(items) => {
            if items.len() == 0 {
                return Err(TauriMcpError::WebDriverError("No pages found".to_owned()));
            }
            match text_member(&items[0], "id") {
                None => Err(TauriMcpError::WebDriverError("No page ID found".to_owned())),
                Some(id) => {
                    let r = Json::object().with(
                        "status",
                        Json::string("Would execute JavaScript via DevTools"),
                    ).with("code", Json::string(code)).with("page_id", Json::Str(id));
                    proof {
                        assert(r@->Object_0 =~= devtools_execution(
                            pages@,
                            code@,
                        )->Ok_0->Object_0);
                    }
                    Ok(r)
                },
            }
        },
    }
}

/// The port that is tried after `port`, if the search goes on.
pub fn next_debug_port(port: u16) -> (r: Option<u16>)
    ensures
        r == port_after(port),
{
    if FIRST_DEBUG_PORT <= port && port < END_DEBUG_PORT - 1 {
        Some(port + 1)
    } else {
        None
    }
}

struct SessionEntry {
    process_id: String,
    session: WebDriverSession,
}

impl SessionEntry {
    spec fn entry(self) -> SessionV {
        SessionV {
            process_id: self.process_id@,
            session_id: self.session.session_id@,
            debug_port: self.session.debug_port,
        }
    }
}

spec fn sessions_of(list: Seq<SessionEntry>) -> Seq<SessionV> {
    Seq::new(list.len(), |i: int| list[i].entry())
}

/// The WebDriver sessions that were opened, one for a process at most.
pub struct DebugTools {
    webdriver_sessions: Vec<SessionEntry>,
}

impl View for DebugTools {
    type V = Seq<SessionV>;

    closed spec fn view(&self) -> Seq<SessionV> {
        sessions_of(self.webdriver_sessions@)
    }
}

fn find_session(list: &Vec<SessionEntry>, process_id: &str) -> (r: Option<usize>)
    ensures
        match r {
            Some(i) => i < list@.len() && session_position(sessions_of(list@), process_id@) == i,
            None => session_position(sessions_of(list@), process_id@) == -1,
        },
{
    let ghost all = sessions_of(list@);
    let mut i: usize = list.len();
    proof {
        assert(all.take(i as int) =~= all);
    }
    while i > 0
        invariant
            i <= list.len(),
            all == sessions_of(list@),
            session_position(all, process_id@) == session_position(
                all.take(i as int),
                process_id@,
            ),
        decreases i,
    {
        i -= 1;
        proof {
            assert(all.take(i + 1).drop_last() =~= all.take(i as int));
            assert(all.take(i + 1).last() == all[i as int]);
        }
        if same_text(list[i].process_id.as_str(), process_id) {
            return Some(i);
        }
    }
    None
}

impl DebugTools {
    /// The tools without a session.
    pub fn new() -> (tools: DebugTools)
        ensures
            tools@ == Seq::<SessionV>::empty(),
    {
        let tools = DebugTools { webdriver_sessions: Vec::new() };
        proof {
            assert(tools@ =~= Seq::<SessionV>::empty());
        }
        tools
    }

    /// The id of the WebDriver session of `process_id`, if it has one.
    pub fn session_id(&self, process_id: &str) -> (r: Option<String>)
        ensures
            match r {
                Some(id) => session_position(self@, process_id@) >= 0 && id@
                    == self@[session_position(self@, process_id@)].session_id,
                None => session_position(self@, process_id@) == -1,
            },
    {
        match find_session(&self.webdriver_sessions, process_id) {
            Some(i) => Some(self.webdriver_sessions[i].session.session_id.clone()),
            None => None,
        }
    }

    /// The request that runs `javascript_code` in the WebDriver session of
    /// `process_id`; none where the process has no session, and the code
    /// goes through the DevTools endpoint.
    pub fn execute_js(&self, process_id: &str, javascript_code: &str) -> (r: Option<HttpRequest>)
        ensures
            match r {
                Some(request) => session_position(self@, process_id@) >= 0 && request@
                    == execute_request_spec(
                    self@[session_position(self@, process_id@)].session_id,
                    javascript_code@,
                ),
                None => session_position(self@, process_id@) == -1,
            },
    {
        match self.session_id(process_id) {
            Some(id) => Some(execute_request(id.as_str(), javascript_code)),
            None => None,
        }
    }

    /// What the DevTools endpoint on `debug_port` is reported as, from its
    /// answer to the request for its version.
    pub fn get_devtools_info(&self, process_id: &str, debug_port: u16, reply: Reply) -> (r: Result<
        Json,
        TauriMcpError,
    >)
        ensures
            match r {
                Ok(j) => read_reply(reply, devtools_wording()) is Ok && j@ == devtools_info_json(
                    debug_port,
                    read_reply(reply, devtools_wording())->Ok_0,
                ),
                Err(e) => read_reply(reply, devtools_wording()) == Err::<JsonV, ErrorV>(e@),
            },
    {
        match interpret(reply, devtools_words()) {
            Ok(info) => Ok(devtools_info(debug_port, info)),
            Err(e) => Err(e),
        }
    }

    /// Takes in the WebDriver session that was opened for `process_id`,
    /// from the answer to the request that opened it.  A session that the
    /// process had is replaced.
    pub fn connect_webdriver(&mut self, process_id: &str, debug_port: u16, reply: Reply) -> (r:
        Result<(), TauriMcpError>)
        ensures
            match connected_session(process_id@, debug_port, reply) {
                Ok(session) => r is Ok && final(self)@ == with_session(old(self)@, session),
                Err(e) => r is Err && r->Err_0@ == e && final(self)@ == old(self)@,
            },
    {
        let answer = match interpret(reply, connect_words()) {
            Ok(answer) => answer,
            Err(e) => {
                return Err(e);
            },
        };
        let value = answer_value(&answer);
        let session_id = match text_member(&value, "sessionId") {
            Some(id) => id,
            None => {
                return Err(
                    TauriMcpError::WebDriverError("No session ID in response".to_owned()),
                );
            },
        };
        let ghost before = self@;
        let entry = SessionEntry {
            process_id: process_id.to_owned(),
            session: WebDriverSession { session_id, debug_port },
        };
        match find_session(&self.webdriver_sessions, process_id) {
            Some(at) => {
                let _ = self.webdriver_sessions.remove(at);
                self.webdriver_sessions.insert(at, entry);
            },
            None => {
                self.webdriver_sessions.push(entry);
            },
        }
        proof {
            assert(self@ =~= with_session(before, entry.entry()));
        }
        Ok(())
    }

    /// The request that reads the source of the page of `process_id`.
    pub fn get_page_source(&self, process_id: &str) -> (r: Result<HttpRequest, TauriMcpError>)
        ensures
            match r {
                Ok(request) => session_position(self@, process_id@) >= 0 && request@ == get(
                    session_address(self@[session_position(self@, process_id@)].session_id)
                        + "/source"@,
                ),
                Err(e) => session_position(self@, process_id@) == -1 && e@ == no_session(),
            },
    {
        match self.session_id(process_id) {
            Some(id) => Ok(page_source_request(id.as_str())),
            None => Err(TauriMcpError::WebDriverError("No WebDriver session found".to_owned())),
        }
    }

    /// The request that reads the console log of `process_id`.
    pub fn get_console_logs(&self, process_id: &str) -> (r: Result<HttpRequest, TauriMcpError>)
        ensures
            match r {
                Ok(request) => session_position(self@, process_id@) >= 0 && request@ == post(
                    session_address(self@[session_position(self@, process_id@)].session_id)
                        + "/se/log"@,
                    object1("type"@, JsonV::Str("browser"@)),
                ),
                Err(e) => session_position(self@, process_id@) == -1 && e@ == no_session(),
            },
    {
        match self.session_id(process_id) {
            Some(id) => Ok(console_logs_request(id.as_str())),
            None => Err(TauriMcpError::WebDriverError("No WebDriver session found".to_owned())),
        }
    }

    /// The request that looks for the element of `process_id` that
    /// `selector` selects, whose screenshot is wanted.
    pub fn take_element_screenshot(&self, process_id: &str, selector: &str) -> (r: Result<
        HttpRequest,
        TauriMcpError,
    >)
        ensures
            match r {
                Ok(request) => session_position(self@, process_id@) >= 0 && request@
                    == find_element_request_spec(
                    self@[session_position(self@, process_id@)].session_id,
                    selector@,
                ),
                Err(e) => session_position(self@, process_id@) == -1 && e@ == no_session(),
            },
    {
        match self.session_id(process_id) {
            Some(id) => Ok(find_element_request(id.as_str(), selector)),
            None => Err(TauriMcpError::WebDriverError("No WebDriver session found".to_owned())),
        }
    }
}

/// The words for the failures of the request for the version of the
/// DevTools endpoint.
pub open spec fn devtools_wording() -> Wording {
    Wording {
        send_failed: "Failed to get DevTools info",
        bad_status: "DevTools returned error",
        unreadable: "Failed to parse DevTools response",
    }
}

/// The words for the failures of the request that opens a session.
pub open spec fn connect_wording() -> Wording {
    Wording {
        send_failed: "Failed to connect WebDriver",
        bad_status: "WebDriver connection failed",
        unreadable: "Failed to parse WebDriver response",
    }
}

/// The session that the answer to the opening of a session gives to
/// `process_id`.
pub open spec fn connected_session(process_id: Seq<char>, debug_port: u16, reply: Reply) -> Result<
    SessionV,
    ErrorV,
> {
    match read_reply(reply, connect_wording()) {
        Err(e) => Err(e),
        Ok(answer) => match session_id_of(answer) {
            Ok(session_id) => Ok(SessionV { process_id, session_id, debug_port }),
            Err(e) => Err(e),
        },
    }
}

/// The words for the failures of the request for the version of the
/// DevTools endpoint.
pub fn devtools_words() -> (w: Wording)
    ensures
        w == devtools_wording(),
{
    Wording {
        send_failed: "Failed to get DevTools info",
        bad_status: "DevTools returned error",
        unreadable: "Failed to parse DevTools response",
    }
}

/// The words for the failures of the request that opens a session.
pub fn connect_words() -> (w: Wording)
    ensures
        w == connect_wording(),
{
    Wording {
        send_failed: "Failed to connect WebDriver",
        bad_status: "WebDriver connection failed",
        unreadable: "Failed to parse WebDriver response",
    }
}

/// The words for the failures of the request that runs code in a session.
pub open spec fn execute_wording() -> Wording {
    Wording {
        send_failed: "Failed to execute JavaScript",
        bad_status: "JavaScript execution failed",
        unreadable: "Failed to parse response",
    }
}

/// The words for the failures of the request for the pages of the DevTools
/// endpoint.
pub open spec fn pages_wording() -> Wording {
    Wording {
        send_failed: "Failed to list pages",
        bad_status: "Failed to list pages",
        unreadable: "Failed to parse pages",
    }
}

/// The words for the failures of the request for the source of a page.
pub open spec fn page_source_wording() -> Wording {
    Wording {
        send_failed: "Failed to get page source",
        bad_status: "Failed to get page source",
        unreadable: "Failed to parse response",
    }
}

/// The words for the failures of the request for the console log.
pub open spec fn console_logs_wording() -> Wording {
    Wording {
        send_failed: "Failed to get console logs",
        bad_status: "Failed to get console logs",
        unreadable: "Failed to parse response",
    }
}

/// The words for the failures of the request for the screenshot of an
/// element.
pub open spec fn screenshot_wording() -> Wording {
    Wording {
        send_failed: "Failed to take screenshot",
        bad_status: "Failed to take screenshot",
        unreadable: "Failed to parse response",
    }
}

/// What the search for an element means: its id, or why there is none.  An
/// answer without success means that the selector selects nothing.
pub open spec fn found_element_spec(reply: Reply, selector: Seq<char>) -> Result<Seq<char>, ErrorV> {
    match reply {
        Reply::SendFailed(why) => Err(webdriver_error("Failed to find element: "@ + why@)),
        Reply::BadStatus(status) => Err(webdriver_error("Element not found: "@ + selector)),
        Reply::Unreadable(why) => Err(webdriver_error("Failed to parse response: "@ + why@)),
        Reply::Document(j) => element_id_of(j@),
    }
}

/// The error of a search for a debug endpoint that found none.
pub open spec fn no_debug_port() -> ErrorV {
    webdriver_error("No debug port found"@)
}

/// The words for the failures of the request that runs code in a session.
pub fn execute_words() -> (w: Wording)
    ensures
        w == execute_wording(),
{
    Wording {
        send_failed: "Failed to execute JavaScript",
        bad_status: "JavaScript execution failed",
        unreadable: "Failed to parse response",
    }
}

/// The words for the failures of the request for the pages of the DevTools
/// endpoint.
pub fn pages_words() -> (w: Wording)
    ensures
        w == pages_wording(),
{
    Wording {
        send_failed: "Failed to list pages",
        bad_status: "Failed to list pages",
        unreadable: "Failed to parse pages",
    }
}

/// The words for the failures of the request for the source of a page.
pub fn page_source_words() -> (w: Wording)
    ensures
        w == page_source_wording(),
{
    Wording {
        send_failed: "Failed to get page source",
        bad_status: "Failed to get page source",
        unreadable: "Failed to parse response",
    }
}

/// The words for the failures of the request for the console log.
pub fn console_logs_words() -> (w: Wording)
    ensures
        w == console_logs_wording(),
{
    Wording {
        send_failed: "Failed to get console logs",
        bad_status: "Failed to get console logs",
        unreadable: "Failed to parse response",
    }
}

/// The words for the failures of the request for the screenshot of an
/// element.
pub fn screenshot_words() -> (w: Wording)
    ensures
        w == screenshot_wording(),
{
    Wording {
        send_failed: "Failed to take screenshot",
        bad_status: "Failed to take screenshot",
        unreadable: "Failed to parse response",
    }
}

/// What running code in a session answers: the value of the answer.
pub fn execute_js_result(reply: Reply) -> (r: Result<Json, TauriMcpError>)
    ensures
        match r {
            Ok(j) => read_reply(reply, execute_wording()) is Ok && j@ == value_of(
                read_reply(reply, execute_wording())->Ok_0,
            ),
            Err(e) => read_reply(reply, execute_wording()) == Err::<JsonV, ErrorV>(e@),
        },
{
    match interpret(reply, execute_words()) {
        Ok(answer) => Ok(answer_value(&answer)),
        Err(e) => Err(e),
    }
}

/// What running `code` through the DevTools endpoint answers, from the
/// answer to the request for its pages.
pub fn devtools_execution_result(reply: Reply, code: &str) -> (r: Result<Json, TauriMcpError>)
    ensures
        match read_reply(reply, pages_wording()) {
            Err(e) => r is Err && r->Err_0@ == e,
            Ok(pages) => match r {
                Ok(j) => devtools_execution(pages, code@) == Ok::<JsonV, ErrorV>(j@),
                Err(e) => devtools_execution(pages, code@) == Err::<JsonV, ErrorV>(e@),
            },
        },
{
    match interpret(reply, pages_words()) {
        Ok(pages) => execute_via_devtools(&pages, code),
        Err(e) => Err(e),
    }
}

/// The source of the page, from the answer to the request for it.
pub fn page_source_result(reply: Reply) -> (r: Result<String, TauriMcpError>)
    ensures
        match r {
            Ok(text) => read_reply(reply, page_source_wording()) is Ok && text@ == value_text(
                read_reply(reply, page_source_wording())->Ok_0,
            ),
            Err(e) => read_reply(reply, page_source_wording()) == Err::<JsonV, ErrorV>(e@),
        },
{
    match interpret(reply, page_source_words()) {
        Ok(answer) => Ok(answer_text(&answer)),
        Err(e) => Err(e),
    }
}

/// The console log, from the answer to the request for it.
pub fn console_logs_result(reply: Reply) -> (r: Result<Vec<Json>, TauriMcpError>)
    ensures
        match r {
            Ok(logs) => read_reply(reply, console_logs_wording()) is Ok && views_of(logs@)
                == console_logs_of(read_reply(reply, console_logs_wording())->Ok_0),
            Err(e) => read_reply(reply, console_logs_wording()) == Err::<JsonV, ErrorV>(e@),
        },
{
    match interpret(reply, console_logs_words()) {
        Ok(answer) => Ok(console_logs(&answer)),
        Err(e) => Err(e),
    }
}

/// The id of the element that was looked for, from the answer to the
/// search.
pub fn found_element(reply: Reply, selector: &str) -> (r: Result<String, TauriMcpError>)
    ensures
        match r {
            Ok(id) => found_element_spec(reply, selector@) == Ok::<Seq<char>, ErrorV>(id@),
            Err(e) => found_element_spec(reply, selector@) == Err::<Seq<char>, ErrorV>(e@),
        },
{
    match reply {
        Reply::SendFailed(why) => Err(
            TauriMcpError::WebDriverError(join2("Failed to find element: ", why.as_str())),
        ),
        Reply::BadStatus(_) => Err(
            TauriMcpError::WebDriverError(join2("Element not found: ", selector)),
        ),
        Reply::Unreadable(why) => Err(
            TauriMcpError::WebDriverError(join2("Failed to parse response: ", why.as_str())),
        ),
        Reply::Document(j) => element_id(&j),
    }
}

/// The screenshot of an element as a `data:` address, from the answer to
/// the request for it, which holds the image in base64.
pub fn element_screenshot_result(reply: Reply) -> (r: Result<String, TauriMcpError>)
    ensures
        match r {
            Ok(text) => read_reply(reply, screenshot_wording()) is Ok && text@
                == "data:image/png;base64,"@ + value_text(
                read_reply(reply, screenshot_wording())->Ok_0,
            ),
            Err(e) => read_reply(reply, screenshot_wording()) == Err::<JsonV, ErrorV>(e@),
        },
{
    match interpret(reply, screenshot_words()) {
        Ok(answer) => {
            let image = answer_text(&answer);
            Ok(join2("data:image/png;base64,", image.as_str()))
        },
        Err(e) => Err(e),
    }
}

/// The error of a search for a debug endpoint that found none.
pub fn debug_port_not_found() -> (e: TauriMcpError)
    ensures
        e@ == no_debug_port(),
{
    TauriMcpError::WebDriverError("No debug port found".to_owned())
}

/// The search for a debug endpoint tries the ports from 9222 up to 9249 in
/// order and then ends.
pub proof fn lemma_port_search(port: u16)
    ensures
        port_after(FIRST_DEBUG_PORT) == Some(9223u16),
        port_after(9248) == Some(9249u16),
        port_after(9249) is None,
        port_after(port) matches Some(next) ==> next == port + 1 && FIRST_DEBUG_PORT < next
            < END_DEBUG_PORT,
{
}

} // verus!
