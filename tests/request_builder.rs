use thirtyfour_core::command::{Actions, By, Command, RequestData, RequestMethod, MAGIC_ELEMENTID};
use thirtyfour_core::capabilities::{make_w3c_caps, negotiate_capabilities};
use thirtyfour_core::error::WebDriverError;
use thirtyfour_core::json::JsonValue;
use thirtyfour_core::types::{Cookie, ElementId, OptionRect, SessionId, TimeoutConfiguration, TypingData, WindowHandle};

fn shown<T: std::fmt::Debug>(x: &T) -> String {
    format!("{:?}", x)
}

fn s(x: &str) -> JsonValue {
    JsonValue::Str(String::from(x))
}

fn obj(members: Vec<(&str, JsonValue)>) -> JsonValue {
    JsonValue::Object(members.into_iter().map(|(k, v)| (String::from(k), v)).collect())
}

fn session() -> SessionId {
    SessionId::new(String::from("abc123"))
}

fn assert_request(r: &RequestData, method: RequestMethod, url: &str, body: Option<JsonValue>) {
    assert_eq!(r.method, method);
    assert_eq!(r.url, url);
    assert_eq!(shown(&r.body), shown(&body));
}

#[test]
fn locator_by_id() {
    assert_eq!(By::Id("x").get_w3c_selector(), (String::from("css selector"), String::from("[id=\"x\"]")));
}

#[test]
fn locator_by_name() {
    assert_eq!(By::Name("q").get_w3c_selector(), (String::from("css selector"), String::from("[name=\"q\"]")));
}

#[test]
fn locator_by_class_name() {
    assert_eq!(By::ClassName("x").get_w3c_selector(), (String::from("css selector"), String::from(".x")));
}

#[test]
fn locator_by_css_and_tag() {
    assert_eq!(By::Css("x").get_w3c_selector(), (String::from("css selector"), String::from("x")));
    assert_eq!(By::Tag("div").get_w3c_selector(), (String::from("css selector"), String::from("div")));
}

#[test]
fn locator_by_xpath_and_links() {
    assert_eq!(By::XPath("//x").get_w3c_selector(), (String::from("xpath"), String::from("//x")));
    assert_eq!(By::LinkText("Home").get_w3c_selector(), (String::from("link text"), String::from("Home")));
    assert_eq!(
        By::PartialLinkText("Ho").get_w3c_selector(),
        (String::from("partial link text"), String::from("Ho"))
    );
}

#[test]
fn find_element_by_css() {
    let r = Command::FindElement(By::Css("#login")).format_request(&session());
    assert_request(
        &r,
        RequestMethod::Post,
        "/session/abc123/element",
        Some(obj(vec![("using", s("css selector")), ("value", s("#login"))])),
    );
}

#[test]
fn switch_to_frame_number() {
    let r = Command::SwitchToFrameNumber(2).format_request(&session());
    assert_request(&r, RequestMethod::Post, "/session/abc123/frame", Some(obj(vec![("id", JsonValue::Number(2))])));
}

#[test]
fn delete_all_cookies() {
    let r = Command::DeleteAllCookies.format_request(&session());
    assert_request(&r, RequestMethod::Delete, "/session/abc123/cookie", None);
}

#[test]
fn switch_to_frame_element_has_both_keys() {
    let e = ElementId::new(String::from("el-7"));
    let r = Command::SwitchToFrameElement(&e).format_request(&session());
    let reference = obj(vec![("ELEMENT", s("el-7")), (MAGIC_ELEMENTID, s("el-7"))]);
    assert_request(&r, RequestMethod::Post, "/session/abc123/frame", Some(obj(vec![("id", reference)])));
}

#[test]
fn switch_to_default_frame() {
    let r = Command::SwitchToFrameDefault.format_request(&session());
    assert_request(&r, RequestMethod::Post, "/session/abc123/frame", Some(obj(vec![("id", JsonValue::Null)])));
}

#[test]
fn bare_state_changes_send_empty_object() {
    let e = ElementId::new(String::from("e1"));
    let cases = vec![
        (Command::Back, "/session/abc123/back"),
        (Command::Forward, "/session/abc123/forward"),
        (Command::Refresh, "/session/abc123/refresh"),
        (Command::SwitchToParentFrame, "/session/abc123/frame/parent"),
        (Command::MaximizeWindow, "/session/abc123/window/maximize"),
        (Command::MinimizeWindow, "/session/abc123/window/minimize"),
        (Command::FullscreenWindow, "/session/abc123/window/fullscreen"),
        (Command::DismissAlert, "/session/abc123/alert/dismiss"),
        (Command::AcceptAlert, "/session/abc123/alert/accept"),
        (Command::ElementClick(&e), "/session/abc123/element/e1/click"),
        (Command::ElementClear(&e), "/session/abc123/element/e1/clear"),
    ];
    for (c, url) in cases {
        let r = c.format_request(&session());
        assert_request(&r, RequestMethod::Post, url, Some(JsonValue::Object(Vec::new())));
    }
}

#[test]
fn queries_carry_no_body() {
    let e = ElementId::new(String::from("e1"));
    let cases = vec![
        (Command::GetTitle, "/session/abc123/title"),
        (Command::GetCurrentUrl, "/session/abc123/url"),
        (Command::GetTimeouts, "/session/abc123/timeouts"),
        (Command::GetWindowHandle, "/session/abc123/window"),
        (Command::GetWindowHandles, "/session/abc123/window/handles"),
        (Command::GetWindowRect, "/session/abc123/window/rect"),
        (Command::GetActiveElement, "/session/abc123/element/active"),
        (Command::IsElementSelected(&e), "/session/abc123/element/e1/selected"),
        (Command::GetElementText(&e), "/session/abc123/element/e1/text"),
        (Command::GetElementTagName(&e), "/session/abc123/element/e1/name"),
        (Command::GetElementRect(&e), "/session/abc123/element/e1/rect"),
        (Command::IsElementEnabled(&e), "/session/abc123/element/e1/enabled"),
        (Command::GetPageSource, "/session/abc123/source"),
        (Command::GetAllCookies, "/session/abc123/cookie"),
        (Command::GetNamedCookie("sid"), "/session/abc123/cookie/sid"),
        (Command::GetAlertText, "/session/abc123/alert/text"),
        (Command::TakeScreenshot, "/session/abc123/screenshot"),
        (Command::TakeElementScreenshot(&e), "/session/abc123/element/e1/screenshot"),
    ];
    for (c, url) in cases {
        let r = c.format_request(&session());
        assert_request(&r, RequestMethod::Get, url, None);
    }
    let status = Command::Status.format_request(&session());
    assert_request(&status, RequestMethod::Get, "/status", None);
}

#[test]
fn deletions_carry_no_body() {
    let cases = vec![
        (Command::DeleteSession, "/session/abc123"),
        (Command::CloseWindow, "/session/abc123/window"),
        (Command::DeleteCookie("sid"), "/session/abc123/cookie/sid"),
        (Command::ReleaseActions, "/session/abc123/actions"),
    ];
    for (c, url) in cases {
        let r = c.format_request(&session());
        assert_request(&r, RequestMethod::Delete, url, None);
    }
}

#[test]
fn attribute_property_and_css_lookups() {
    let e = ElementId::new(String::from("e1"));
    let a = Command::GetElementAttribute(&e, String::from("href")).format_request(&session());
    assert_request(&a, RequestMethod::Get, "/session/abc123/element/e1/attribute/href", None);
    let p = Command::GetElementProperty(&e, String::from("value")).format_request(&session());
    assert_request(&p, RequestMethod::Get, "/session/abc123/element/e1/property/value", None);
    let c = Command::GetElementCSSValue(&e, String::from("color")).format_request(&session());
    assert_request(&c, RequestMethod::Get, "/session/abc123/element/e1/css/color", None);
}

#[test]
fn find_from_element_forwards_locator() {
    let e = ElementId::new(String::from("e1"));
    let one = Command::FindElementFromElement(&e, By::Id("x")).format_request(&session());
    let body = obj(vec![("using", s("css selector")), ("value", s("[id=\"x\"]"))]);
    assert_request(&one, RequestMethod::Post, "/session/abc123/element/e1/element", Some(body));
    let many = Command::FindElementsFromElement(&e, By::XPath("//a")).format_request(&session());
    let body = obj(vec![("using", s("xpath")), ("value", s("//a"))]);
    assert_request(&many, RequestMethod::Post, "/session/abc123/element/e1/elements", Some(body));
    let top = Command::FindElements(By::Tag("a")).format_request(&session());
    let body = obj(vec![("using", s("css selector")), ("value", s("a"))]);
    assert_request(&top, RequestMethod::Post, "/session/abc123/elements", Some(body));
}

#[test]
fn send_keys_sends_text_and_value() {
    let e = ElementId::new(String::from("e1"));
    let r = Command::ElementSendKeys(&e, TypingData::new("héy")).format_request(&session());
    let body = obj(vec![("text", s("héy")), ("value", JsonValue::Array(vec![s("h"), s("é"), s("y")]))]);
    assert_request(&r, RequestMethod::Post, "/session/abc123/element/e1/value", Some(body));
    let alert = Command::SendAlertText(TypingData::new("ok")).format_request(&session());
    let body = obj(vec![("text", s("ok")), ("value", JsonValue::Array(vec![s("o"), s("k")]))]);
    assert_request(&alert, RequestMethod::Post, "/session/abc123/alert/text", Some(body));
}

#[test]
fn typing_data_views() {
    let t = TypingData::new("ab");
    assert_eq!(t.to_string(), "ab");
    assert_eq!(t.as_vec(), vec![String::from("a"), String::from("b")]);
    assert!(TypingData::new("").as_vec().is_empty());
}

#[test]
fn execute_script_sync_and_async() {
    let args = vec![JsonValue::Number(1), s("two")];
    let sync = Command::ExecuteScript(String::from("return 1;"), args).format_request(&session());
    let body = obj(vec![("script", s("return 1;")), ("args", JsonValue::Array(vec![JsonValue::Number(1), s("two")]))]);
    assert_request(&sync, RequestMethod::Post, "/session/abc123/execute/sync", Some(body));
    let asynchronous = Command::ExecuteAsyncScript(String::from("done();"), Vec::new()).format_request(&session());
    let body = obj(vec![("script", s("done();")), ("args", JsonValue::Array(Vec::new()))]);
    assert_request(&asynchronous, RequestMethod::Post, "/session/abc123/execute/async", Some(body));
}

#[test]
fn navigate_and_switch_window() {
    let r = Command::NavigateTo(String::from("https://example.com")).format_request(&session());
    assert_request(&r, RequestMethod::Post, "/session/abc123/url", Some(obj(vec![("url", s("https://example.com"))])));
    let h = WindowHandle::new(String::from("w-2"));
    let r = Command::SwitchToWindow(&h).format_request(&session());
    assert_request(&r, RequestMethod::Post, "/session/abc123/window", Some(obj(vec![("handle", s("w-2"))])));
}

#[test]
fn timeouts_and_rect_omit_absent_fields() {
    let t = TimeoutConfiguration::new(Some(30000), None, Some(0));
    let r = Command::SetTimeouts(t).format_request(&session());
    let body = obj(vec![("script", JsonValue::Number(30000)), ("implicit", JsonValue::Number(0))]);
    assert_request(&r, RequestMethod::Post, "/session/abc123/timeouts", Some(body));
    let rect = OptionRect::new(Some(-5), None, Some(800), None);
    let r = Command::SetWindowRect(rect).format_request(&session());
    let body = obj(vec![("x", JsonValue::Number(-5)), ("width", JsonValue::Number(800))]);
    assert_request(&r, RequestMethod::Post, "/session/abc123/window/rect", Some(body));
}

#[test]
fn add_cookie_nests_the_cookie() {
    let mut c = Cookie::new(String::from("sid"), String::from("42"));
    c.path = Some(String::from("/"));
    c.secure = Some(true);
    let r = Command::AddCookie(c).format_request(&session());
    let cookie = obj(vec![("name", s("sid")), ("value", s("42")), ("path", s("/")), ("secure", JsonValue::Bool(true))]);
    assert_request(&r, RequestMethod::Post, "/session/abc123/cookie", Some(obj(vec![("cookie", cookie)])));
}

#[test]
fn perform_actions_wraps_the_document() {
    let actions = Actions::from(JsonValue::Array(vec![obj(vec![("type", s("key"))])]));
    let r = Command::PerformActions(actions).format_request(&session());
    let body = obj(vec![("actions", JsonValue::Array(vec![obj(vec![("type", s("key"))])]))]);
    assert_request(&r, RequestMethod::Post, "/session/abc123/actions", Some(body));
}

#[test]
fn new_session_sends_both_capability_keys() {
    let caps = obj(vec![("browserName", s("chrome")), ("version", s("90")), ("goog:chromeOptions", obj(vec![]))]);
    let r = Command::NewSession(&caps).format_request(&session());
    let w3c = obj(vec![
        ("firstMatch", JsonValue::Array(vec![obj(vec![])])),
        (
            "alwaysMatch",
            obj(vec![("browserName", s("chrome")), ("browserVersion", s("90")), ("goog:chromeOptions", obj(vec![]))]),
        ),
    ]);
    let body = obj(vec![("capabilities", w3c), ("desiredCapabilities", caps.copy_value())]);
    assert_request(&r, RequestMethod::Post, "/session", Some(body));
}

#[test]
fn new_session_with_non_object_caps() {
    let caps = s("not an object");
    let r = Command::NewSession(&caps).format_request(&session());
    let w3c = obj(vec![("firstMatch", JsonValue::Array(vec![obj(vec![])])), ("alwaysMatch", obj(vec![]))]);
    let body = obj(vec![("capabilities", w3c), ("desiredCapabilities", s("not an object"))]);
    assert_request(&r, RequestMethod::Post, "/session", Some(body));
}

#[test]
fn w3c_caps_renames_legacy_names() {
    let caps = obj(vec![("platform", s("linux")), ("acceptSslCerts", JsonValue::Bool(true))]);
    let w3c = make_w3c_caps(&caps);
    let expected = obj(vec![
        ("firstMatch", JsonValue::Array(vec![obj(vec![])])),
        ("alwaysMatch", obj(vec![("platformName", s("linux")), ("acceptInsecureCerts", JsonValue::Bool(true))])),
    ]);
    assert_eq!(shown(&w3c), shown(&expected));
}

#[test]
fn request_building_is_deterministic() {
    let a = Command::FindElement(By::Name("q")).format_request(&session());
    let b = Command::FindElement(By::Name("q")).format_request(&session());
    assert_eq!(shown(&a), shown(&b));
}

#[test]
fn request_data_new_and_add_body() {
    let r = RequestData::new(RequestMethod::Get, String::from("/status"));
    assert!(r.body.is_none());
    let r = r.add_body(JsonValue::Bool(false));
    assert_eq!(r.url, "/status");
    assert_eq!(shown(&r.body), shown(&Some(JsonValue::Bool(false))));
}

#[test]
fn negotiation_refuses_non_object_caps() {
    assert!(matches!(negotiate_capabilities(&JsonValue::Array(Vec::new())), Err(WebDriverError::MalformedCapabilities)));
    let caps = obj(vec![("browserName", s("firefox"))]);
    let w3c = negotiate_capabilities(&caps).unwrap();
    let expected = obj(vec![
        ("firstMatch", JsonValue::Array(vec![obj(vec![])])),
        ("alwaysMatch", obj(vec![("browserName", s("firefox"))])),
    ]);
    assert_eq!(shown(&w3c), shown(&expected));
}
