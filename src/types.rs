use vstd::prelude::*;
use crate::json::{JsonValue, Json, members_seq, json_seq, object_of, array_of, push_member, json_str};

verus! {

/// The handle of a live automation session.
#[derive(Debug, Clone, PartialEq)]
pub struct SessionId {
    id: String,
}

/// The handle of a located DOM node within a session.
#[derive(Debug, Clone, PartialEq)]
pub struct ElementId {
    id: String,
}

/// The handle of a browser window or tab.
#[derive(Debug, Clone, PartialEq)]
pub struct WindowHandle {
    handle: String,
}

impl SessionId {
    pub closed spec fn view(&self) -> Seq<char> {
        self.id@
    }

    pub fn new(id: String) -> (r: SessionId)
        ensures
            r@ == id@,
    {
        SessionId { id }
    }

    pub fn as_str(&self) -> (r: &str)
        ensures
            r@ == self@,
    {
        self.id.as_str()
    }

    pub fn to_string(&self) -> (r: String)
        ensures
            r@ == self@,
    {
        self.id.clone()
    }
}

impl ElementId {
    pub closed spec fn view(&self) -> Seq<char> {
        self.id@
    }

    pub fn new(id: String) -> (r: ElementId)
        ensures
            r@ == id@,
    {
        ElementId { id }
    }

    pub fn as_str(&self) -> (r: &str)
        ensures
            r@ == self@,
    {
        self.id.as_str()
    }

    pub fn to_string(&self) -> (r: String)
        ensures
            r@ == self@,
    {
        self.id.clone()
    }
}

impl WindowHandle {
    pub closed spec fn view(&self) -> Seq<char> {
        self.handle@
    }

    pub fn new(handle: String) -> (r: WindowHandle)
        ensures
            r@ == handle@,
    {
        WindowHandle { handle }
    }

    pub fn as_str(&self) -> (r: &str)
        ensures
            r@ == self@,
    {
        self.handle.as_str()
    }

    pub fn to_string(&self) -> (r: String)
        ensures
            r@ == self@,
    {
        self.handle.clone()
    }
}

/// The members that an optional field contributes to an object: one when
/// the field is set, none when it is absent.
pub open spec fn opt_member(key: Seq<char>, v: Option<Json>) -> Seq<(Seq<char>, Json)> {
    match v {
        Some(j) => seq![(key, j)],
        None => Seq::empty(),
    }
}

pub open spec fn opt_number(v: Option<int>) -> Option<Json> {
    match v {
        Some(n) => Some(Json::Number(n)),
        None => None,
    }
}

pub open spec fn opt_bool(v: Option<bool>) -> Option<Json> {
    match v {
        Some(b) => Some(Json::Bool(b)),
        None => None,
    }
}

pub open spec fn opt_str(v: Option<Seq<char>>) -> Option<Json> {
    match v {
        Some(s) => Some(Json::Str(s)),
        None => None,
    }
}

pub open spec fn opt_i32(v: Option<i32>) -> Option<int> {
    match v {
        Some(n) => Some(n as int),
        None => None,
    }
}

pub open spec fn opt_u64(v: Option<u64>) -> Option<int> {
    match v {
        Some(n) => Some(n as int),
        None => None,
    }
}

pub open spec fn opt_i64(v: Option<i64>) -> Option<int> {
    match v {
        Some(n) => Some(n as int),
        None => None,
    }
}

pub open spec fn opt_string(v: Option<String>) -> Option<Seq<char>> {
    match v {
        Some(s) => Some(s@),
        None => None,
    }
}

/// Appends `key: value` when the value is present.
fn push_opt(members: &mut Vec<(String, JsonValue)>, key: &str, value: Option<JsonValue>)
    ensures
        members_seq(final(members)@) == members_seq(old(members)@) + opt_member(
            key@,
            match value {
                Some(v) => Some(v@),
                None => None,
            },
        ),
{
    match value {
        Some(v) => {
            push_member(members, key, v);
        },
        None => {
            assert(members_seq(old(members)@) + Seq::empty() =~= members_seq(old(members)@));
        },
    }
}

fn opt_number_value(v: Option<i128>) -> (r: Option<JsonValue>)
    ensures
        match v {
            Some(n) => r matches Some(j) && j@ == Json::Number(n as int),
            None => r is None,
        },
{
    match v {
        Some(n) => Some(JsonValue::Number(n)),
        None => None,
    }
}

fn widen_i32(v: Option<i32>) -> (r: Option<i128>)
    ensures
        match v {
            Some(n) => r == Some(n as i128),
            None => r is None,
        },
{
    match v {
        Some(n) => Some(n as i128),
        None => None,
    }
}

fn widen_u64(v: Option<u64>) -> (r: Option<i128>)
    ensures
        match v {
            Some(n) => r == Some(n as i128),
            None => r is None,
        },
{
    match v {
        Some(n) => Some(n as i128),
        None => None,
    }
}

/// Durations in milliseconds that a session waits; an absent one is left as
/// the server has it.
#[derive(Debug, Clone, PartialEq)]
pub struct TimeoutConfiguration {
    pub script: Option<u64>,
    pub page_load: Option<u64>,
    pub implicit: Option<u64>,
}

impl TimeoutConfiguration {
    pub fn new(script: Option<u64>, page_load: Option<u64>, implicit: Option<u64>) -> (r: TimeoutConfiguration)
        ensures
            r.script == script,
            r.page_load == page_load,
            r.implicit == implicit,
    {
        TimeoutConfiguration { script, page_load, implicit }
    }

    /// The request body: one member per timeout that is set.
    pub open spec fn json_spec(&self) -> Json {
        Json::Object(
            opt_member("script"@, opt_number(opt_u64(self.script)))
                + opt_member("pageLoad"@, opt_number(opt_u64(self.page_load)))
                + opt_member("implicit"@, opt_number(opt_u64(self.implicit))),
        )
    }

    pub fn to_json(&self) -> (r: JsonValue)
        ensures
            r@ == self.json_spec(),
    {
        let mut m: Vec<(String, JsonValue)> = Vec::new();
        push_opt(&mut m, "script", opt_number_value(widen_u64(self.script)));
        push_opt(&mut m, "pageLoad", opt_number_value(widen_u64(self.page_load)));
        push_opt(&mut m, "implicit", opt_number_value(widen_u64(self.implicit)));
        assert(members_seq(Seq::<(String, JsonValue)>::empty()) =~= Seq::empty());
        assert(Seq::<(Seq<char>, Json)>::empty() + opt_member("script"@, opt_number(opt_u64(self.script)))
            =~= opt_member("script"@, opt_number(opt_u64(self.script))));
        object_of(m)
    }
}

/// A rectangle whose fields may each be absent.
#[derive(Debug, Clone, PartialEq)]
pub struct OptionRect {
    pub x: Option<i32>,
    pub y: Option<i32>,
    pub width: Option<i32>,
    pub height: Option<i32>,
}

impl OptionRect {
    pub fn new(x: Option<i32>, y: Option<i32>, width: Option<i32>, height: Option<i32>) -> (r: OptionRect)
        ensures
            r.x == x,
            r.y == y,
            r.width == width,
            r.height == height,
    {
        OptionRect { x, y, width, height }
    }

    /// The request body: one member per field that is set, none for an
    /// absent one.
    pub open spec fn json_spec(&self) -> Json {
        Json::Object(
            opt_member("x"@, opt_number(opt_i32(self.x)))
                + opt_member("y"@, opt_number(opt_i32(self.y)))
                + opt_member("width"@, opt_number(opt_i32(self.width)))
                + opt_member("height"@, opt_number(opt_i32(self.height))),
        )
    }

    pub fn to_json(&self) -> (r: JsonValue)
        ensures
            r@ == self.json_spec(),
    {
        let mut m: Vec<(String, JsonValue)> = Vec::new();
        push_opt(&mut m, "x", opt_number_value(widen_i32(self.x)));
        push_opt(&mut m, "y", opt_number_value(widen_i32(self.y)));
        push_opt(&mut m, "width", opt_number_value(widen_i32(self.width)));
        push_opt(&mut m, "height", opt_number_value(widen_i32(self.height)));
        assert(members_seq(Seq::<(String, JsonValue)>::empty()) =~= Seq::empty());
        assert(Seq::<(Seq<char>, Json)>::empty() + opt_member("x"@, opt_number(opt_i32(self.x)))
            =~= opt_member("x"@, opt_number(opt_i32(self.x))));
        object_of(m)
    }
}

fn opt_bool_value(v: Option<bool>) -> (r: Option<JsonValue>)
    ensures
        match v {
            Some(b) => r matches Some(j) && j@ == Json::Bool(b),
            None => r is None,
        },
{
    match v {
        Some(b) => Some(JsonValue::Bool(b)),
        None => None,
    }
}

fn opt_str_value(v: &Option<String>) -> (r: Option<JsonValue>)
    ensures
        match v {
            Some(s) => r matches Some(j) && j@ == Json::Str(s@),
            None => r is None,
        },
{
    match v {
        Some(s) => Some(json_str(s.as_str())),
        None => None,
    }
}

fn widen_i64(v: Option<i64>) -> (r: Option<i128>)
    ensures
        match v {
            Some(n) => r == Some(n as i128),
            None => r is None,
        },
{
    match v {
        Some(n) => Some(n as i128),
        None => None,
    }
}

/// A browser cookie. Absent optional fields are left out of its document.
#[derive(Debug, Clone, PartialEq)]
pub struct Cookie {
    pub name: String,
    pub value: String,
    pub path: Option<String>,
    pub domain: Option<String>,
    pub expiry: Option<i64>,
    pub secure: Option<bool>,
    pub http_only: Option<bool>,
}

impl Cookie {
    /// A cookie with a name and a value, and no other field set.
    pub fn new(name: String, value: String) -> (r: Cookie)
        ensures
            r.name@ == name@,
            r.value@ == value@,
            r.path is None,
            r.domain is None,
            r.expiry is None,
            r.secure is None,
            r.http_only is None,
    {
        Cookie { name, value, path: None, domain: None, expiry: None, secure: None, http_only: None }
    }

    pub open spec fn json_spec(&self) -> Json {
        Json::Object(
            seq![("name"@, Json::Str(self.name@)), ("value"@, Json::Str(self.value@))]
                + opt_member("path"@, opt_str(opt_string(self.path)))
                + opt_member("domain"@, opt_str(opt_string(self.domain)))
                + opt_member("expiry"@, opt_number(opt_i64(self.expiry)))
                + opt_member("secure"@, opt_bool(self.secure))
                + opt_member("httpOnly"@, opt_bool(self.http_only)),
        )
    }

    pub fn to_json(&self) -> (r: JsonValue)
        ensures
            r@ == self.json_spec(),
    {
        let mut m: Vec<(String, JsonValue)> = Vec::new();
        push_member(&mut m, "name", json_str(self.name.as_str()));
        push_member(&mut m, "value", json_str(self.value.as_str()));
        assert(members_seq(m@) =~= seq![("name"@, Json::Str(self.name@)), ("value"@, Json::Str(self.value@))]);
        push_opt(&mut m, "path", opt_str_value(&self.path));
        push_opt(&mut m, "domain", opt_str_value(&self.domain));
        push_opt(&mut m, "expiry", opt_number_value(widen_i64(self.expiry)));
        push_opt(&mut m, "secure", opt_bool_value(self.secure));
        push_opt(&mut m, "httpOnly", opt_bool_value(self.http_only));
        object_of(m)
    }
}

/// The one-character strings of a text, in order.
pub open spec fn char_strings(s: Seq<char>) -> Seq<Seq<char>> {
    Seq::new(s.len(), |i: int| seq![s[i]])
}

/// The per-character view of typed input as a JSON array.
pub open spec fn char_array(s: Seq<char>) -> Json {
    Json::Array(Seq::new(s.len(), |i: int| Json::Str(seq![s[i]])))
}

/// Input typed into an element or an alert.
#[derive(Debug, Clone, PartialEq)]
pub struct TypingData {
    text: String,
}

impl TypingData {
    /// The characters typed, in order.
    pub closed spec fn view(&self) -> Seq<char> {
        self.text@
    }

    pub fn new(text: &str) -> (r: TypingData)
        ensures
            r@ == text@,
    {
        TypingData { text: String::from_str(text) }
    }

    /// The input as one string.
    pub fn to_string(&self) -> (r: String)
        ensures
            r@ == self@,
    {
        self.text.clone()
    }

    /// The input as one string per character.
    pub fn as_vec(&self) -> (r: Vec<String>)
        ensures
            r.len() == self@.len(),
            forall|i: int| 0 <= i < r.len() ==> #[trigger] r[i]@ == seq![self@[i]],
    {
        let s = self.text.as_str();
        let n = s.unicode_len();
        let mut r: Vec<String> = Vec::new();
        let mut i: usize = 0;
        while i < n
            invariant
                i <= n,
                n == s@.len(),
                s@ == self@,
                r.len() == i,
                forall|j: int| 0 <= j < i ==> #[trigger] r[j]@ == seq![self@[j]],
            decreases n - i,
        {
            let c = s.substring_char(i, i + 1);
            assert(c@ =~= seq![self@[i as int]]);
            r.push(String::from_str(c));
            i = i + 1;
        }
        r
    }

    /// The per-character view as a JSON array of strings.
    pub fn value_json(&self) -> (r: JsonValue)
        ensures
            r@ == char_array(self@),
    {
        let parts = self.as_vec();
        let mut items: Vec<JsonValue> = Vec::new();
        let mut i: usize = 0;
        while i < parts.len()
            invariant
                i <= parts.len(),
                parts.len() == self@.len(),
                forall|j: int| 0 <= j < parts.len() ==> #[trigger] parts[j]@ == seq![self@[j]],
                items.len() == i,
                forall|j: int| 0 <= j < i ==> #[trigger] items[j]@ == Json::Str(seq![self@[j]]),
            decreases parts.len() - i,
        {
            items.push(json_str(parts[i].as_str()));
            i = i + 1;
        }
        let r = array_of(items);
        proof {
            assert(json_seq(items@) =~= Seq::new(self@.len(), |i: int| Json::Str(seq![self@[i]])));
        }
        r
    }
}

} // verus!
