use tauri_mcp::json::Json;
use tauri_mcp::tools::debug::{
    answer_text, answer_value, connect_request, console_logs, devtools_info, devtools_url,
    devtools_words, element_id, element_screenshot_request, execute_via_devtools, interpret,
    next_debug_port, pages_request, version_request, DebugTools, Method, Reply, HttpRequest,
};
use tauri_mcp::TauriMcpError;

fn json(text: &str) -> Json {
    Json::parse(text).expect("a document")
}

fn webdriver(message: &str) -> TauriMcpError {
    TauriMcpError::WebDriverError(message.to_string())
}

#[test]
fn test_debug_tools_creation() {
    let _tools = DebugTools::new();
}

#[test]
fn requests_to_the_devtools_endpoint() {
    assert_eq!(devtools_url(9222), "http://localhost:9222");
    assert_eq!(
        version_request(9222),
        HttpRequest {
            method: Method::Get,
            url: "http://localhost:9222/json/version".to_string(),
            body: None
        }
    );
    assert_eq!(
        pages_request(65535),
        HttpRequest {
            method: Method::Get,
            url: "http://localhost:65535/json/list".to_string(),
            body: None
        }
    );
}

#[test]
fn the_search_for_a_debug_port() {
    assert_eq!(next_debug_port(9222), Some(9223));
    assert_eq!(next_debug_port(9248), Some(9249));
    assert_eq!(next_debug_port(9249), None);
    assert_eq!(next_debug_port(9250), None);
    assert_eq!(next_debug_port(9221), None);
    assert_eq!(next_debug_port(65535), None);
    let mut tried = vec![9222u16];
    while let Some(next) = next_debug_port(tried[tried.len() - 1]) {
        tried.push(next);
    }
    assert_eq!(tried, (9222u16..9250).collect::<Vec<_>>());
}

#[test]
fn the_request_that_opens_a_session() {
    let request = connect_request(9223);
    assert_eq!(request.method, Method::Post);
    assert_eq!(request.url, "http://localhost:9515/session");
    assert_eq!(
        request.body.map(|b| b.to_text()),
        Some("{\"capabilities\":{\"alwaysMatch\":{\"browserName\":\"chrome\",\"goog:chromeOptions\":{\"debuggerAddress\":\"localhost:9223\"}}}}".to_string())
    );
}

#[test]
fn a_reply_is_a_document_or_a_failure() {
    let words = devtools_words();
    assert_eq!(interpret(Reply::Document(Json::PosInt(1)), words), Ok(Json::PosInt(1)));
    assert_eq!(
        interpret(Reply::SendFailed("connection refused".to_string()), words),
        Err(webdriver("Failed to get DevTools info: connection refused"))
    );
    assert_eq!(
        interpret(Reply::BadStatus("404 Not Found".to_string()), words),
        Err(webdriver("DevTools returned error: 404 Not Found"))
    );
    assert_eq!(
        interpret(Reply::Unreadable("expected value".to_string()), words),
        Err(webdriver("Failed to parse DevTools response: expected value"))
    );
}

#[test]
fn sessions_are_opened_and_used() {
    let mut tools = DebugTools::new();
    assert_eq!(tools.session_id("p"), None);
    assert_eq!(tools.execute_js("p", "1"), None);
    assert_eq!(tools.get_page_source("p"), Err(webdriver("No WebDriver session found")));
    assert_eq!(tools.get_console_logs("p"), Err(webdriver("No WebDriver session found")));
    assert_eq!(
        tools.take_element_screenshot("p", "#a"),
        Err(webdriver("No WebDriver session found"))
    );
    assert_eq!(
        tools.connect_webdriver("p", 9222, Reply::SendFailed("refused".to_string())),
        Err(webdriver("Failed to connect WebDriver: refused"))
    );
    assert_eq!(
        tools.connect_webdriver("p", 9222, Reply::BadStatus("500".to_string())),
        Err(webdriver("WebDriver connection failed: 500"))
    );
    assert_eq!(
        tools.connect_webdriver("p", 9222, Reply::Unreadable("eof".to_string())),
        Err(webdriver("Failed to parse WebDriver response: eof"))
    );
    assert_eq!(
        tools.connect_webdriver("p", 9222, Reply::Document(json("{\"value\":{}}"))),
        Err(webdriver("No session ID in response"))
    );
    assert_eq!(tools.session_id("p"), None);
    assert_eq!(
        tools.connect_webdriver(
            "p",
            9222,
            Reply::Document(json("{\"value\":{\"sessionId\":\"s1\"}}"))
        ),
        Ok(())
    );
    assert_eq!(tools.session_id("p"), Some("s1".to_string()));
    assert_eq!(
        tools.connect_webdriver(
            "p",
            9223,
            Reply::Document(json("{\"value\":{\"sessionId\":\"s2\"}}"))
        ),
        Ok(())
    );
    assert_eq!(tools.session_id("p"), Some("s2".to_string()));
    assert_eq!(tools.session_id("q"), None);
    assert_eq!(
        tools.get_page_source("p"),
        Ok(HttpRequest {
            method: Method::Get,
            url: "http://localhost:9515/session/s2/source".to_string(),
            body: None
        })
    );
    let logs = tools.get_console_logs("p").expect("a request");
    assert_eq!(logs.method, Method::Post);
    assert_eq!(logs.url, "http://localhost:9515/session/s2/se/log");
    assert_eq!(logs.body.map(|b| b.to_text()), Some("{\"type\":\"browser\"}".to_string()));
    let find = tools.take_element_screenshot("p", "#main").expect("a request");
    assert_eq!(find.url, "http://localhost:9515/session/s2/element");
    assert_eq!(
        find.body.map(|b| b.to_text()),
        Some("{\"using\":\"css selector\",\"value\":\"#main\"}".to_string())
    );
    let run = tools.execute_js("p", "return 1").expect("a request");
    assert_eq!(run.url, "http://localhost:9515/session/s2/execute/sync");
    assert_eq!(
        run.body.map(|b| b.to_text()),
        Some("{\"args\":[],\"script\":\"return 1\"}".to_string())
    );
    assert_eq!(
        element_screenshot_request("s2", "e9").url,
        "http://localhost:9515/session/s2/element/e9/screenshot"
    );
}

#[test]
fn answers_of_the_webdriver() {
    assert_eq!(answer_value(&json("{\"value\":[1]}")), json("[1]"));
    assert_eq!(answer_value(&json("{}")), Json::Null);
    assert_eq!(answer_text(&json("{\"value\":\"<html>\"}")), "<html>");
    assert_eq!(answer_text(&json("{\"value\":5}")), "");
    assert_eq!(answer_text(&json("{}")), "");
    assert_eq!(console_logs(&json("{\"value\":[{\"level\":\"INFO\"}]}")), vec![json("{\"level\":\"INFO\"}")]);
    assert_eq!(console_logs(&json("{\"value\":\"none\"}")), Vec::<Json>::new());
    assert_eq!(
        element_id(&json("{\"value\":{\"element-6066-11e4-a52e-4f735466cecf\":\"e1\",\"ELEMENT\":\"e2\"}}")),
        Ok("e1".to_string())
    );
    assert_eq!(element_id(&json("{\"value\":{\"ELEMENT\":\"e2\"}}")), Ok("e2".to_string()));
    assert_eq!(element_id(&json("{\"value\":{}}")), Err(webdriver("No element ID in response")));
}

#[test]
fn devtools_answers() {
    let tools = DebugTools::new();
    assert_eq!(
        devtools_info(9222, json("{\"Browser\":\"Chrome\"}")).to_text(),
        "{\"debug_port\":9222,\"devtools_url\":\"http://localhost:9222\",\"version_info\":{\"Browser\":\"Chrome\"}}"
    );
    assert_eq!(
        tools
            .get_devtools_info("p", 9230, Reply::Document(Json::Null))
            .map(|j| j.to_text()),
        Ok("{\"debug_port\":9230,\"devtools_url\":\"http://localhost:9230\",\"version_info\":null}".to_string())
    );
    assert_eq!(
        tools.get_devtools_info("p", 9230, Reply::BadStatus("503".to_string())),
        Err(webdriver("DevTools returned error: 503"))
    );
    assert_eq!(
        execute_via_devtools(&json("[{\"id\":\"page1\"},{\"id\":\"page2\"}]"), "1+1")
            .map(|j| j.to_text()),
        Ok("{\"code\":\"1+1\",\"page_id\":\"page1\",\"status\":\"Would execute JavaScript via DevTools\"}".to_string())
    );
    assert_eq!(execute_via_devtools(&json("[]"), "1"), Err(webdriver("No pages found")));
    assert_eq!(execute_via_devtools(&json("[{}]"), "1"), Err(webdriver("No page ID found")));
    assert_eq!(
        execute_via_devtools(&json("{}"), "1"),
        Err(webdriver("Failed to parse pages: not a list"))
    );
}
