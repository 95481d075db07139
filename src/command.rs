use vstd::prelude::*;
use crate::json::{JsonValue, Json, json_seq, members_seq, object_of, array_of, push_member, json_str, empty_object, copy_values};
use crate::capabilities::{make_w3c_caps, w3c_caps_spec};
use crate::types::{SessionId, ElementId, WindowHandle, TimeoutConfiguration, OptionRect, Cookie, TypingData, char_array};

verus! {

/// The W3C key under which an element reference travels, beside the legacy
/// `ELEMENT` key.
pub const MAGIC_ELEMENTID: &'static str = "element-6066-11e4-a52e-4f735466cecf";

#[derive(Clone, Copy, Debug, PartialEq, Eq, Structural)]
pub enum RequestMethod {
    Get,
    Post,
    Delete,
}

/// The model of a request: its method, its URL path and its body.
pub ghost struct RequestSpec {
    pub method: RequestMethod,
    pub url: Seq<char>,
    pub body: Option<Json>,
}

/// A request for the transport: method, URL path and optional JSON body.
#[derive(Debug)]
pub struct RequestData {
    pub method: RequestMethod,
    pub url: String,
    pub body: Option<JsonValue>,
}

pub open spec fn opt_json(b: Option<JsonValue>) -> Option<Json> {
    match b {
        Some(j) => Some(j@),
        None => None,
    }
}

impl RequestData {
    pub open spec fn view(&self) -> RequestSpec {
        RequestSpec { method: self.method, url: self.url@, body: opt_json(self.body) }
    }

    /// A request without a body.
    pub fn new(method: RequestMethod, url: String) -> (r: RequestData)
        ensures
            r@ == (RequestSpec { method, url: url@, body: None }),
    {
        RequestData { method, url, body: None }
    }

    /// The same request carrying `body`.
    pub fn add_body(self, body: JsonValue) -> (r: RequestData)
        ensures
            r@ == (RequestSpec { method: self.method, url: self.url@, body: Some(body@) }),
    {
        let mut r = self;
        r.body = Some(body);
        r
    }
}

/// A sequence of input actions, as the document the server receives.
#[derive(Debug)]
pub struct Actions(pub JsonValue);

impl From<JsonValue> for Actions {
    fn from(value: JsonValue) -> (r: Actions) {
        Actions(value)
    }
}

impl vstd::std_specs::convert::FromSpecImpl<JsonValue> for Actions {
    open spec fn obeys_from_spec() -> bool {
        true
    }

    open spec fn from_spec(v: JsonValue) -> Actions {
        Actions(v)
    }
}

/// A strategy for locating elements, with its target string.
pub enum By<'a> {
    Id(&'a str),
    XPath(&'a str),
    LinkText(&'a str),
    PartialLinkText(&'a str),
    Name(&'a str),
    Tag(&'a str),
    ClassName(&'a str),
    Css(&'a str),
}

impl<'a> By<'a> {
    /// The W3C `(using, value)` pair: id, name and class name become CSS
    /// selectors, the other strategies pass their target through.
    pub open spec fn selector_spec(&self) -> (Seq<char>, Seq<char>) {
        match self {
            By::Id(x) => ("css selector"@, "[id=\""@ + x@ + "\"]"@),
            By::XPath(x) => ("xpath"@, x@),
            By::LinkText(x) => ("link text"@, x@),
            By::PartialLinkText(x) => ("partial link text"@, x@),
            By::Name(x) => ("css selector"@, "[name=\""@ + x@ + "\"]"@),
            By::Tag(x) => ("css selector"@, x@),
            By::ClassName(x) => ("css selector"@, "."@ + x@),
            By::Css(x) => ("css selector"@, x@),
        }
    }

    pub fn get_w3c_selector(&self) -> (r: (String, String))
        ensures
            (r.0@, r.1@) == self.selector_spec(),
    {
        match self {
            By::Id(x) => (String::from_str("css selector"), String::from_str("[id=\"").concat(x).concat("\"]")),
            By::XPath(x) => (String::from_str("xpath"), String::from_str(x)),
            By::LinkText(x) => (String::from_str("link text"), String::from_str(x)),
            By::PartialLinkText(x) => (String::from_str("partial link text"), String::from_str(x)),
            By::Name(x) => (String::from_str("css selector"), String::from_str("[name=\"").concat(x).concat("\"]")),
            By::Tag(x) => (String::from_str("css selector"), String::from_str(x)),
            By::ClassName(x) => (String::from_str("css selector"), String::from_str(".").concat(x)),
            By::Css(x) => (String::from_str("css selector"), String::from_str(x)),
        }
    }
}

/// The path `/session/<sid><suffix>`.
pub open spec fn session_url(sid: Seq<char>, suffix: Seq<char>) -> Seq<char> {
    "/session/"@ + sid + suffix
}

/// The path `/session/<sid>/element/<eid><suffix>`.
pub open spec fn element_url(sid: Seq<char>, eid: Seq<char>, suffix: Seq<char>) -> Seq<char> {
    "/session/"@ + sid + "/element/"@ + eid + suffix
}

pub open spec fn get_spec(url: Seq<char>) -> RequestSpec {
    RequestSpec { method: RequestMethod::Get, url, body: None }
}

pub open spec fn delete_spec(url: Seq<char>) -> RequestSpec {
    RequestSpec { method: RequestMethod::Delete, url, body: None }
}

pub open spec fn post_spec(url: Seq<char>, body: Json) -> RequestSpec {
    RequestSpec { method: RequestMethod::Post, url, body: Some(body) }
}

/// The body of a state change that carries no payload.
pub open spec fn empty_body() -> Json {
    Json::Object(Seq::empty())
}

/// An object with the one member `key: v`.
pub open spec fn one_member(key: Seq<char>, v: Json) -> Json {
    Json::Object(seq![(key, v)])
}

/// An element reference: the legacy and the W3C key, both with the id.
pub open spec fn element_ref(eid: Seq<char>) -> Json {
    Json::Object(seq![("ELEMENT"@, Json::Str(eid)), (MAGIC_ELEMENTID@, Json::Str(eid))])
}

/// The body of a find: the locator's `(using, value)` pair.
pub open spec fn locator_body(by: By) -> Json {
    Json::Object(
        seq![("using"@, Json::Str(by.selector_spec().0)), ("value"@, Json::Str(by.selector_spec().1))],
    )
}

/// The body of a send-keys: the input as one string and per character.
pub open spec fn keys_body(t: Seq<char>) -> Json {
    Json::Object(seq![("text"@, Json::Str(t)), ("value"@, char_array(t))])
}

/// The body of a script execution.
pub open spec fn script_body(script: Seq<char>, args: Seq<Json>) -> Json {
    Json::Object(seq![("script"@, Json::Str(script)), ("args"@, Json::Array(args))])
}

/// The body of a session creation: the W3C and the legacy capabilities.
pub open spec fn new_session_body(caps: Json) -> Json {
    Json::Object(seq![("capabilities"@, w3c_caps_spec(caps)), ("desiredCapabilities"@, caps)])
}

fn session_url_of(session_id: &SessionId, suffix: &str) -> (r: String)
    ensures
        r@ == session_url(session_id@, suffix@),
{
    String::from_str("/session/").concat(session_id.as_str()).concat(suffix)
}

fn element_url_of(session_id: &SessionId, e: &ElementId, suffix: &str) -> (r: String)
    ensures
        r@ == element_url(session_id@, e@, suffix@),
{
    String::from_str("/session/").concat(session_id.as_str()).concat("/element/").concat(e.as_str()).concat(suffix)
}

fn one_member_json(key: &str, v: JsonValue) -> (r: JsonValue)
    ensures
        r@ == one_member(key@, v@),
{
    let mut m: Vec<(String, JsonValue)> = Vec::new();
    push_member(&mut m, key, v);
    assert(members_seq(m@) =~= seq![(key@, v@)]);
    object_of(m)
}

fn two_members_json(k1: &str, v1: JsonValue, k2: &str, v2: JsonValue) -> (r: JsonValue)
    ensures
        r@ == Json::Object(seq![(k1@, v1@), (k2@, v2@)]),
{
    let mut m: Vec<(String, JsonValue)> = Vec::new();
    push_member(&mut m, k1, v1);
    push_member(&mut m, k2, v2);
    assert(members_seq(m@) =~= seq![(k1@, v1@), (k2@, v2@)]);
    object_of(m)
}

fn element_ref_json(e: &ElementId) -> (r: JsonValue)
    ensures
        r@ == element_ref(e@),
{
    two_members_json("ELEMENT", json_str(e.as_str()), MAGIC_ELEMENTID, json_str(e.as_str()))
}

fn locator_json(by: &By) -> (r: JsonValue)
    ensures
        r@ == locator_body(*by),
{
    let (using, value) = by.get_w3c_selector();
    two_members_json("using", JsonValue::Str(using), "value", JsonValue::Str(value))
}

fn keys_json(t: &TypingData) -> (r: JsonValue)
    ensures
        r@ == keys_body(t@),
{
    two_members_json("text", JsonValue::Str(t.to_string()), "value", t.value_json())
}

fn script_json(script: &String, args: &Vec<JsonValue>) -> (r: JsonValue)
    ensures
        r@ == script_body(script@, json_seq(args@)),
{
    let a = copy_values(args);
    assert(json_seq(a@) =~= json_seq(args@));
    two_members_json("script", json_str(script.as_str()), "args", array_of(a))
}

fn new_session_json(caps: &JsonValue) -> (r: JsonValue)
    ensures
        r@ == new_session_body(caps@),
{
    two_members_json("capabilities", make_w3c_caps(caps), "desiredCapabilities", caps.copy_value())
}

/// A browser-automation operation, with exactly the parameters that its
/// endpoint needs.
pub enum Command<'a> {
    NewSession(&'a JsonValue),
    DeleteSession,
    Status,
    GetTimeouts,
    SetTimeouts(TimeoutConfiguration),
    NavigateTo(String),
    GetCurrentUrl,
    Back,
    Forward,
    Refresh,
    GetTitle,
    GetWindowHandle,
    CloseWindow,
    SwitchToWindow(&'a WindowHandle),
    GetWindowHandles,
    SwitchToFrameDefault,
    SwitchToFrameNumber(u16),
    SwitchToFrameElement(&'a ElementId),
    SwitchToParentFrame,
    GetWindowRect,
    SetWindowRect(OptionRect),
    MaximizeWindow,
    MinimizeWindow,
    FullscreenWindow,
    GetActiveElement,
    FindElement(By<'a>),
    FindElements(By<'a>),
    FindElementFromElement(&'a ElementId, By<'a>),
    FindElementsFromElement(&'a ElementId, By<'a>),
    IsElementSelected(&'a ElementId),
    GetElementAttribute(&'a ElementId, String),
    GetElementProperty(&'a ElementId, String),
    GetElementCSSValue(&'a ElementId, String),
    GetElementText(&'a ElementId),
    GetElementTagName(&'a ElementId),
    GetElementRect(&'a ElementId),
    IsElementEnabled(&'a ElementId),
    ElementClick(&'a ElementId),
    ElementClear(&'a ElementId),
    ElementSendKeys(&'a ElementId, TypingData),
    GetPageSource,
    ExecuteScript(String, Vec<JsonValue>),
    ExecuteAsyncScript(String, Vec<JsonValue>),
    GetAllCookies,
    GetNamedCookie(&'a str),
    AddCookie(Cookie),
    DeleteCookie(&'a str),
    DeleteAllCookies,
    PerformActions(Actions),
    ReleaseActions,
    DismissAlert,
    AcceptAlert,
    GetAlertText,
    SendAlertText(TypingData),
    TakeScreenshot,
    TakeElementScreenshot(&'a ElementId),
}

impl<'a> Command<'a> {
    /// The request that a command stands for, in session `sid`.
    pub open spec fn request_spec(&self, sid: Seq<char>) -> RequestSpec {
        match self {
            Command::NewSession(caps) => post_spec("/session"@, new_session_body(caps@)),
            Command::DeleteSession => delete_spec(session_url(sid, ""@)),
            Command::Status => get_spec("/status"@),
            Command::GetTimeouts => get_spec(session_url(sid, "/timeouts"@)),
            Command::SetTimeouts(t) => post_spec(session_url(sid, "/timeouts"@), t.json_spec()),
            Command::NavigateTo(url) => post_spec(session_url(sid, "/url"@), one_member("url"@, Json::Str(url@))),
            Command::GetCurrentUrl => get_spec(session_url(sid, "/url"@)),
            Command::Back => post_spec(session_url(sid, "/back"@), empty_body()),
            Command::Forward => post_spec(session_url(sid, "/forward"@), empty_body()),
            Command::Refresh => post_spec(session_url(sid, "/refresh"@), empty_body()),
            Command::GetTitle => get_spec(session_url(sid, "/title"@)),
            Command::GetWindowHandle => get_spec(session_url(sid, "/window"@)),
            Command::CloseWindow => delete_spec(session_url(sid, "/window"@)),
            Command::SwitchToWindow(h) => post_spec(session_url(sid, "/window"@), one_member("handle"@, Json::Str(h@))),
            Command::GetWindowHandles => get_spec(session_url(sid, "/window/handles"@)),
            Command::SwitchToFrameDefault => post_spec(session_url(sid, "/frame"@), one_member("id"@, Json::Null)),
            Command::SwitchToFrameNumber(n) => post_spec(session_url(sid, "/frame"@), one_member("id"@, Json::Number(*n as int))),
            Command::SwitchToFrameElement(e) => post_spec(session_url(sid, "/frame"@), one_member("id"@, element_ref(e@))),
            Command::SwitchToParentFrame => post_spec(session_url(sid, "/frame/parent"@), empty_body()),
            Command::GetWindowRect => get_spec(session_url(sid, "/window/rect"@)),
            Command::SetWindowRect(rect) => post_spec(session_url(sid, "/window/rect"@), rect.json_spec()),
            Command::MaximizeWindow => post_spec(session_url(sid, "/window/maximize"@), empty_body()),
            Command::MinimizeWindow => post_spec(session_url(sid, "/window/minimize"@), empty_body()),
            Command::FullscreenWindow => post_spec(session_url(sid, "/window/fullscreen"@), empty_body()),
            Command::GetActiveElement => get_spec(session_url(sid, "/element/active"@)),
            Command::FindElement(by) => post_spec(session_url(sid, "/element"@), locator_body(*by)),
            Command::FindElements(by) => post_spec(session_url(sid, "/elements"@), locator_body(*by)),
            Command::FindElementFromElement(e, by) => post_spec(element_url(sid, e@, "/element"@), locator_body(*by)),
            Command::FindElementsFromElement(e, by) => post_spec(element_url(sid, e@, "/elements"@), locator_body(*by)),
            Command::IsElementSelected(e) => get_spec(element_url(sid, e@, "/selected"@)),
            Command::GetElementAttribute(e, name) => get_spec(element_url(sid, e@, "/attribute/"@) + name@),
            Command::GetElementProperty(e, name) => get_spec(element_url(sid, e@, "/property/"@) + name@),
            Command::GetElementCSSValue(e, name) => get_spec(element_url(sid, e@, "/css/"@) + name@),
            Command::GetElementText(e) => get_spec(element_url(sid, e@, "/text"@)),
            Command::GetElementTagName(e) => get_spec(element_url(sid, e@, "/name"@)),
            Command::GetElementRect(e) => get_spec(element_url(sid, e@, "/rect"@)),
            Command::IsElementEnabled(e) => get_spec(element_url(sid, e@, "/enabled"@)),
            Command::ElementClick(e) => post_spec(element_url(sid, e@, "/click"@), empty_body()),
            Command::ElementClear(e) => post_spec(element_url(sid, e@, "/clear"@), empty_body()),
            Command::ElementSendKeys(e, t) => post_spec(element_url(sid, e@, "/value"@), keys_body(t@)),
            Command::GetPageSource => get_spec(session_url(sid, "/source"@)),
            Command::ExecuteScript(script, args) => post_spec(session_url(sid, "/execute/sync"@), script_body(script@, json_seq(args@))),
            Command::ExecuteAsyncScript(script, args) => post_spec(session_url(sid, "/execute/async"@), script_body(script@, json_seq(args@))),
            Command::GetAllCookies => get_spec(session_url(sid, "/cookie"@)),
            Command::GetNamedCookie(name) => get_spec(session_url(sid, "/cookie/"@) + name@),
            Command::AddCookie(c) => post_spec(session_url(sid, "/cookie"@), one_member("cookie"@, c.json_spec())),
            Command::DeleteCookie(name) => delete_spec(session_url(sid, "/cookie/"@) + name@),
            Command::DeleteAllCookies => delete_spec(session_url(sid, "/cookie"@)),
            Command::PerformActions(a) => post_spec(session_url(sid, "/actions"@), one_member("actions"@, a.0@)),
            Command::ReleaseActions => delete_spec(session_url(sid, "/actions"@)),
            Command::DismissAlert => post_spec(session_url(sid, "/alert/dismiss"@), empty_body()),
            Command::AcceptAlert => post_spec(session_url(sid, "/alert/accept"@), empty_body()),
            Command::GetAlertText => get_spec(session_url(sid, "/alert/text"@)),
            Command::SendAlertText(t) => post_spec(session_url(sid, "/alert/text"@), keys_body(t@)),
            Command::TakeScreenshot => get_spec(session_url(sid, "/screenshot"@)),
            Command::TakeElementScreenshot(e) => get_spec(element_url(sid, e@, "/screenshot"@)),
        }
    }

    /// Whether this is one of the session, timeout, navigation and window-handle commands.
    pub open spec fn is_session_command(&self) -> bool {
        self is NewSession
            || self is DeleteSession
            || self is Status
            || self is GetTimeouts
            || self is SetTimeouts
            || self is NavigateTo
            || self is GetCurrentUrl
            || self is Back
            || self is Forward
            || self is Refresh
            || self is GetTitle
            || self is GetWindowHandle
            || self is CloseWindow
            || self is SwitchToWindow
            || self is GetWindowHandles
    }

    /// Whether this is one of the frame, window-rectangle and active-element commands.
    pub open spec fn is_window_command(&self) -> bool {
        self is SwitchToFrameDefault
            || self is SwitchToFrameNumber
            || self is SwitchToFrameElement
            || self is SwitchToParentFrame
            || self is GetWindowRect
            || self is SetWindowRect
            || self is MaximizeWindow
            || self is MinimizeWindow
            || self is FullscreenWindow
            || self is GetActiveElement
    }

    /// Whether this is one of the find and element commands.
    pub open spec fn is_element_command(&self) -> bool {
        self is FindElement
            || self is FindElements
            || self is FindElementFromElement
            || self is FindElementsFromElement
            || self is IsElementSelected
            || self is GetElementAttribute
            || self is GetElementProperty
            || self is GetElementCSSValue
            || self is GetElementText
            || self is GetElementTagName
            || self is GetElementRect
            || self is IsElementEnabled
            || self is ElementClick
            || self is ElementClear
            || self is ElementSendKeys
    }

    /// Whether this is one of the page-source, script, cookie, action, alert and screenshot commands.
    pub open spec fn is_document_command(&self) -> bool {
        self is GetPageSource
            || self is ExecuteScript
            || self is ExecuteAsyncScript
            || self is GetAllCookies
            || self is GetNamedCookie
            || self is AddCookie
            || self is DeleteCookie
            || self is DeleteAllCookies
            || self is PerformActions
            || self is ReleaseActions
            || self is DismissAlert
            || self is AcceptAlert
            || self is GetAlertText
            || self is SendAlertText
            || self is TakeScreenshot
            || self is TakeElementScreenshot
    }

    /// Builds the request that the command stands for, for session `session_id`.
    pub fn format_request(&self, session_id: &SessionId) -> (r: RequestData)
        ensures
            r@ == self.request_spec(session_id@),
    {
        match self {
            Command::NewSession(_) | Command::DeleteSession | Command::Status | Command::GetTimeouts | Command::SetTimeouts(_) | Command::NavigateTo(_) | Command::GetCurrentUrl | Command::Back | Command::Forward | Command::Refresh | Command::GetTitle | Command::GetWindowHandle | Command::CloseWindow | Command::SwitchToWindow(_) | Command::GetWindowHandles => self.format_session_request(session_id),
            Command::SwitchToFrameDefault | Command::SwitchToFrameNumber(_) | Command::SwitchToFrameElement(_) | Command::SwitchToParentFrame | Command::GetWindowRect | Command::SetWindowRect(_) | Command::MaximizeWindow | Command::MinimizeWindow | Command::FullscreenWindow | Command::GetActiveElement => self.format_window_request(session_id),
            Command::FindElement(_) | Command::FindElements(_) | Command::FindElementFromElement(_, _) | Command::FindElementsFromElement(_, _) | Command::IsElementSelected(_) | Command::GetElementAttribute(_, _) | Command::GetElementProperty(_, _) | Command::GetElementCSSValue(_, _) | Command::GetElementText(_) | Command::GetElementTagName(_) | Command::GetElementRect(_) | Command::IsElementEnabled(_) | Command::ElementClick(_) | Command::ElementClear(_) | Command::ElementSendKeys(_, _) => self.format_element_request(session_id),
            Command::GetPageSource | Command::ExecuteScript(_, _) | Command::ExecuteAsyncScript(_, _) | Command::GetAllCookies | Command::GetNamedCookie(_) | Command::AddCookie(_) | Command::DeleteCookie(_) | Command::DeleteAllCookies | Command::PerformActions(_) | Command::ReleaseActions | Command::DismissAlert | Command::AcceptAlert | Command::GetAlertText | Command::SendAlertText(_) | Command::TakeScreenshot | Command::TakeElementScreenshot(_) => self.format_document_request(session_id),
        }
    }

    fn format_session_request(&self, session_id: &SessionId) -> (r: RequestData)
        requires
            self.is_session_command(),
        ensures
            r@ == self.request_spec(session_id@),
    {
        match self {
            Command::NewSession(caps) => RequestData::new(RequestMethod::Post, String::from_str("/session")).add_body(new_session_json(caps)),
            Command::DeleteSession => RequestData::new(RequestMethod::Delete, session_url_of(session_id, "")),
            Command::Status => RequestData::new(RequestMethod::Get, String::from_str("/status")),
            Command::GetTimeouts => RequestData::new(RequestMethod::Get, session_url_of(session_id, "/timeouts")),
            Command::SetTimeouts(t) => RequestData::new(RequestMethod::Post, session_url_of(session_id, "/timeouts")).add_body(t.to_json()),
            Command::NavigateTo(url) => RequestData::new(RequestMethod::Post, session_url_of(session_id, "/url")).add_body(one_member_json("url", json_str(url.as_str()))),
            Command::GetCurrentUrl => RequestData::new(RequestMethod::Get, session_url_of(session_id, "/url")),
            Command::Back => RequestData::new(RequestMethod::Post, session_url_of(session_id, "/back")).add_body(empty_object()),
            Command::Forward => RequestData::new(RequestMethod::Post, session_url_of(session_id, "/forward")).add_body(empty_object()),
            Command::Refresh => RequestData::new(RequestMethod::Post, session_url_of(session_id, "/refresh")).add_body(empty_object()),
            Command::GetTitle => RequestData::new(RequestMethod::Get, session_url_of(session_id, "/title")),
            Command::GetWindowHandle => RequestData::new(RequestMethod::Get, session_url_of(session_id, "/window")),
            Command::CloseWindow => RequestData::new(RequestMethod::Delete, session_url_of(session_id, "/window")),
            Command::SwitchToWindow(h) => RequestData::new(RequestMethod::Post, session_url_of(session_id, "/window")).add_body(one_member_json("handle", json_str(h.as_str()))),
            Command::GetWindowHandles => RequestData::new(RequestMethod::Get, session_url_of(session_id, "/window/handles")),
            _ => unreached(),
        }
    }

    fn format_window_request(&self, session_id: &SessionId) -> (r: RequestData)
        requires
            self.is_window_command(),
        ensures
            r@ == self.request_spec(session_id@),
    {
        match self {
            Command::SwitchToFrameDefault => RequestData::new(RequestMethod::Post, session_url_of(session_id, "/frame")).add_body(one_member_json("id", JsonValue::Null)),
            Command::SwitchToFrameNumber(n) => RequestData::new(RequestMethod::Post, session_url_of(session_id, "/frame")).add_body(one_member_json("id", JsonValue::Number(*n as i128))),
            Command::SwitchToFrameElement(e) => RequestData::new(RequestMethod::Post, session_url_of(session_id, "/frame")).add_body(one_member_json("id", element_ref_json(e))),
            Command::SwitchToParentFrame => RequestData::new(RequestMethod::Post, session_url_of(session_id, "/frame/parent")).add_body(empty_object()),
            Command::GetWindowRect => RequestData::new(RequestMethod::Get, session_url_of(session_id, "/window/rect")),
            Command::SetWindowRect(rect) => RequestData::new(RequestMethod::Post, session_url_of(session_id, "/window/rect")).add_body(rect.to_json()),
            Command::MaximizeWindow => RequestData::new(RequestMethod::Post, session_url_of(session_id, "/window/maximize")).add_body(empty_object()),
            Command::MinimizeWindow => RequestData::new(RequestMethod::Post, session_url_of(session_id, "/window/minimize")).add_body(empty_object()),
            Command::FullscreenWindow => RequestData::new(RequestMethod::Post, session_url_of(session_id, "/window/fullscreen")).add_body(empty_object()),
            Command::GetActiveElement => RequestData::new(RequestMethod::Get, session_url_of(session_id, "/element/active")),
            _ => unreached(),
        }
    }

    fn format_element_request(&self, session_id: &SessionId) -> (r: RequestData)
        requires
            self.is_element_command(),
        ensures
            r@ == self.request_spec(session_id@),
    {
        match self {
            Command::FindElement(by) => RequestData::new(RequestMethod::Post, session_url_of(session_id, "/element")).add_body(locator_json(by)),
            Command::FindElements(by) => RequestData::new(RequestMethod::Post, session_url_of(session_id, "/elements")).add_body(locator_json(by)),
            Command::FindElementFromElement(e, by) => RequestData::new(RequestMethod::Post, element_url_of(session_id, e, "/element")).add_body(locator_json(by)),
            Command::FindElementsFromElement(e, by) => RequestData::new(RequestMethod::Post, element_url_of(session_id, e, "/elements")).add_body(locator_json(by)),
            Command::IsElementSelected(e) => RequestData::new(RequestMethod::Get, element_url_of(session_id, e, "/selected")),
            Command::GetElementAttribute(e, name) => RequestData::new(RequestMethod::Get, element_url_of(session_id, e, "/attribute/").concat(name.as_str())),
            Command::GetElementProperty(e, name) => RequestData::new(RequestMethod::Get, element_url_of(session_id, e, "/property/").concat(name.as_str())),
            Command::GetElementCSSValue(e, name) => RequestData::new(RequestMethod::Get, element_url_of(session_id, e, "/css/").concat(name.as_str())),
            Command::GetElementText(e) => RequestData::new(RequestMethod::Get, element_url_of(session_id, e, "/text")),
            Command::GetElementTagName(e) => RequestData::new(RequestMethod::Get, element_url_of(session_id, e, "/name")),
            Command::GetElementRect(e) => RequestData::new(RequestMethod::Get, element_url_of(session_id, e, "/rect")),
            Command::IsElementEnabled(e) => RequestData::new(RequestMethod::Get, element_url_of(session_id, e, "/enabled")),
            Command::ElementClick(e) => RequestData::new(RequestMethod::Post, element_url_of(session_id, e, "/click")).add_body(empty_object()),
            Command::ElementClear(e) => RequestData::new(RequestMethod::Post, element_url_of(session_id, e, "/clear")).add_body(empty_object()),
            Command::ElementSendKeys(e, t) => RequestData::new(RequestMethod::Post, element_url_of(session_id, e, "/value")).add_body(keys_json(t)),
            _ => unreached(),
        }
    }

    fn format_document_request(&self, session_id: &SessionId) -> (r: RequestData)
        requires
            self.is_document_command(),
        ensures
            r@ == self.request_spec(session_id@),
    {
        match self {
            Command::GetPageSource => RequestData::new(RequestMethod::Get, session_url_of(session_id, "/source")),
            Command::ExecuteScript(script, args) => RequestData::new(RequestMethod::Post, session_url_of(session_id, "/execute/sync")).add_body(script_json(script, args)),
            Command::ExecuteAsyncScript(script, args) => RequestData::new(RequestMethod::Post, session_url_of(session_id, "/execute/async")).add_body(script_json(script, args)),
            Command::GetAllCookies => RequestData::new(RequestMethod::Get, session_url_of(session_id, "/cookie")),
            Command::GetNamedCookie(name) => RequestData::new(RequestMethod::Get, session_url_of(session_id, "/cookie/").concat(name)),
            Command::AddCookie(c) => RequestData::new(RequestMethod::Post, session_url_of(session_id, "/cookie")).add_body(one_member_json("cookie", c.to_json())),
            Command::DeleteCookie(name) => RequestData::new(RequestMethod::Delete, session_url_of(session_id, "/cookie/").concat(name)),
            Command::DeleteAllCookies => RequestData::new(RequestMethod::Delete, session_url_of(session_id, "/cookie")),
            Command::PerformActions(a) => RequestData::new(RequestMethod::Post, session_url_of(session_id, "/actions")).add_body(one_member_json("actions", a.0.copy_value())),
            Command::ReleaseActions => RequestData::new(RequestMethod::Delete, session_url_of(session_id, "/actions")),
            Command::DismissAlert => RequestData::new(RequestMethod::Post, session_url_of(session_id, "/alert/dismiss")).add_body(empty_object()),
            Command::AcceptAlert => RequestData::new(RequestMethod::Post, session_url_of(session_id, "/alert/accept")).add_body(empty_object()),
            Command::GetAlertText => RequestData::new(RequestMethod::Get, session_url_of(session_id, "/alert/text")),
            Command::SendAlertText(t) => RequestData::new(RequestMethod::Post, session_url_of(session_id, "/alert/text")).add_body(keys_json(t)),
            Command::TakeScreenshot => RequestData::new(RequestMethod::Get, session_url_of(session_id, "/screenshot")),
            Command::TakeElementScreenshot(e) => RequestData::new(RequestMethod::Get, element_url_of(session_id, e, "/screenshot")),
            _ => unreached(),
        }
    }

}

/// The characters that a send-keys command types.
pub open spec fn typed_text(c: Command) -> Seq<char> {
    match c {
        Command::ElementSendKeys(_, t) => t@,
        Command::SendAlertText(t) => t@,
        _ => Seq::empty(),
    }
}

impl<'a> Command<'a> {
    /// Whether the command changes state and carries no payload of its own.
    pub open spec fn is_bare_state_change(&self) -> bool {
        self is Back || self is Forward || self is Refresh || self is SwitchToParentFrame
            || self is MaximizeWindow || self is MinimizeWindow || self is FullscreenWindow
            || self is ElementClick || self is ElementClear || self is DismissAlert
            || self is AcceptAlert
    }
}

/// Request building is a function: the same command and session always give
/// the same request, and every command gives one.
pub proof fn lemma_request_deterministic(c1: Command, c2: Command, s1: Seq<char>, s2: Seq<char>)
    requires
        c1 == c2,
        s1 == s2,
    ensures
        c1.request_spec(s1) == c2.request_spec(s2),
{
}

/// A state change without payload is a POST whose body is the empty object,
/// never an absent body.
pub proof fn lemma_bare_state_change_sends_empty_object(c: Command, sid: Seq<char>)
    requires
        c.is_bare_state_change(),
    ensures
        c.request_spec(sid).method == RequestMethod::Post,
        c.request_spec(sid).body == Some(Json::Object(Seq::empty())),
{
}

/// Switching to an element's frame sends `{"id": ref}`, where the reference
/// holds the legacy and the W3C key, two distinct keys with the element's id
/// as their one value.
pub proof fn lemma_frame_element_reference(e: &ElementId, sid: Seq<char>)
    ensures
        Command::SwitchToFrameElement(e).request_spec(sid).body == Some(
            Json::Object(
                seq![("id"@, Json::Object(seq![("ELEMENT"@, Json::Str(e@)), (MAGIC_ELEMENTID@, Json::Str(e@))]))],
            ),
        ),
        "ELEMENT"@ != MAGIC_ELEMENTID@,
{
    reveal_strlit("ELEMENT");
    reveal_strlit("element-6066-11e4-a52e-4f735466cecf");
    assert("ELEMENT"@.len() != MAGIC_ELEMENTID@.len());
}

/// A session creation sends both the W3C `capabilities` and the legacy
/// `desiredCapabilities`, the latter being the document as given, whatever
/// its shape.
pub proof fn lemma_new_session_sends_both_dialects(caps: &JsonValue, sid: Seq<char>)
    ensures
        Command::NewSession(caps).request_spec(sid).body == Some(
            Json::Object(
                seq![("capabilities"@, w3c_caps_spec(caps@)), ("desiredCapabilities"@, caps@)],
            ),
        ),
        Command::NewSession(caps).request_spec(sid).url == "/session"@,
{
}

/// A send-keys command sends the typed input twice from the same data: as
/// one string under `text`, and one string per character under `value`.
pub proof fn lemma_send_keys_text_and_value(c: Command, sid: Seq<char>)
    requires
        c is ElementSendKeys || c is SendAlertText,
    ensures
        c.request_spec(sid).body == Some(
            Json::Object(
                seq![
                    ("text"@, Json::Str(typed_text(c))),
                    ("value"@, Json::Array(Seq::new(typed_text(c).len(), |i: int| Json::Str(seq![typed_text(c)[i]])))),
                ],
            ),
        ),
{
}

} // verus!
