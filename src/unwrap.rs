use vstd::prelude::*;
use crate::json::{JsonValue, Json};
use crate::error::WebDriverError;
use crate::types::{ElementId, WindowHandle};
use crate::command::MAGIC_ELEMENTID;

verus! {

/// A type that can be read from a JSON document of a response.
pub trait FromJson: Sized {
    /// Whether the document has the shape of a value of the type.
    spec fn decodable(j: Json) -> bool;

    /// Whether `v` is the value that the document reads as.
    spec fn decodes_to(j: Json, v: Self) -> bool;

    fn from_json(j: &JsonValue) -> (r: Option<Self>)
        ensures
            r is Some <==> Self::decodable(j@),
            r matches Some(v) ==> Self::decodes_to(j@, v);
}

impl FromJson for String {
    open spec fn decodable(j: Json) -> bool {
        j is Str
    }

    open spec fn decodes_to(j: Json, v: String) -> bool {
        j == Json::Str(v@)
    }

    fn from_json(j: &JsonValue) -> (r: Option<String>) {
        match j {
            JsonValue::Str(s) => Some(s.clone()),
            _ => None,
        }
    }
}

impl FromJson for bool {
    open spec fn decodable(j: Json) -> bool {
        j is Bool
    }

    open spec fn decodes_to(j: Json, v: bool) -> bool {
        j == Json::Bool(v)
    }

    fn from_json(j: &JsonValue) -> (r: Option<bool>) {
        match j {
            JsonValue::Bool(b) => Some(*b),
            _ => None,
        }
    }
}

impl FromJson for i64 {
    open spec fn decodable(j: Json) -> bool {
        j matches Json::Number(n) && i64::MIN <= n <= i64::MAX
    }

    open spec fn decodes_to(j: Json, v: i64) -> bool {
        j == Json::Number(v as int)
    }

    fn from_json(j: &JsonValue) -> (r: Option<i64>) {
        match j {
            JsonValue::Number(n) => {
                if i64::MIN as i128 <= *n && *n <= i64::MAX as i128 {
                    Some(*n as i64)
                } else {
                    None
                }
            },
            _ => None,
        }
    }
}

impl FromJson for WindowHandle {
    open spec fn decodable(j: Json) -> bool {
        j is Str
    }

    open spec fn decodes_to(j: Json, v: WindowHandle) -> bool {
        j == Json::Str(v@)
    }

    fn from_json(j: &JsonValue) -> (r: Option<WindowHandle>) {
        match j {
            JsonValue::Str(s) => Some(WindowHandle::new(s.clone())),
            _ => None,
        }
    }
}

/// The index of the first member named `key` whose value is a string.
pub open spec fn has_str_member(m: Seq<(Seq<char>, Json)>, key: Seq<char>) -> bool {
    exists|i: int| 0 <= i < m.len() && m[i].0 == key && #[trigger] m[i].1 is Str
}

/// An element reference reads as the id under the W3C key, or else under the
/// legacy `ELEMENT` key.
pub open spec fn element_ref_id(j: Json) -> Option<Seq<char>> {
    match j {
        Json::Object(m) => {
            if has_str_member(m, MAGIC_ELEMENTID@) {
                Some(first_str_member(m, MAGIC_ELEMENTID@))
            } else if has_str_member(m, "ELEMENT"@) {
                Some(first_str_member(m, "ELEMENT"@))
            } else {
                None
            }
        },
        _ => None,
    }
}

/// The string value of the first member named `key` whose value is a string.
pub open spec fn first_str_member(m: Seq<(Seq<char>, Json)>, key: Seq<char>) -> Seq<char>
    decreases m.len(),
{
    if m.len() == 0 {
        Seq::empty()
    } else if m[0].0 == key && m[0].1 is Str {
        m[0].1->Str_0
    } else {
        first_str_member(m.drop_first(), key)
    }
}

/// Finds the first member named `key` whose value is a string.
fn find_str_member(o: &Vec<(String, JsonValue)>, key: &str) -> (r: Option<String>)
    ensures
        r is Some <==> has_str_member(crate::json::members_seq(o@), key@),
        r matches Some(s) ==> s@ == first_str_member(crate::json::members_seq(o@), key@),
{
    let k = String::from_str(key);
    let ghost m = crate::json::members_seq(o@);
    let mut i: usize = 0;
    assert(m.subrange(0, m.len() as int) =~= m);
    while i < o.len()
        invariant
            i <= o.len(),
            k@ == key@,
            m == crate::json::members_seq(o@),
            forall|j: int| 0 <= j < i ==> !(m[j].0 == key@ && #[trigger] m[j].1 is Str),
            first_str_member(m, key@) == first_str_member(m.subrange(i as int, m.len() as int), key@),
        decreases o.len() - i,
    {
        let ghost rest = m.subrange(i as int, m.len() as int);
        assert(rest[0] == m[i as int]);
        assert(rest.drop_first() =~= m.subrange(i + 1, m.len() as int));
        if o[i].0 == k {
            if let JsonValue::Str(s) = &o[i].1 {
                assert(m[i as int].1 is Str);
                return Some(s.clone());
            }
        }
        i = i + 1;
    }
    None
}

impl FromJson for ElementId {
    open spec fn decodable(j: Json) -> bool {
        element_ref_id(j) is Some
    }

    open spec fn decodes_to(j: Json, v: ElementId) -> bool {
        element_ref_id(j) == Some(v@)
    }

    fn from_json(j: &JsonValue) -> (r: Option<ElementId>) {
        match j {
            JsonValue::Object(o) => {
                proof {
                    crate::json::lemma_object_view(*o);
                }
                match find_str_member(o, MAGIC_ELEMENTID) {
                    Some(id) => Some(ElementId::new(id)),
                    None => match find_str_member(o, "ELEMENT") {
                        Some(id) => Some(ElementId::new(id)),
                        None => None,
                    },
                }
            },
            _ => None,
        }
    }
}

/// Whether a document is an array whose every item reads as a `T`.
pub open spec fn all_decodable<T: FromJson>(j: Json) -> bool {
    match j {
        Json::Array(a) => all_items_decodable::<T>(a),
        _ => false,
    }
}

/// Whether every document of a list reads as a `T`.
pub open spec fn all_items_decodable<T: FromJson>(a: Seq<Json>) -> bool {
    forall|i: int| 0 <= i < a.len() ==> T::decodable(#[trigger] a[i])
}

/// Reads one value from a response document.
pub fn unwrap<T: FromJson>(value: &JsonValue) -> (r: Result<T, WebDriverError>)
    ensures
        r is Ok <==> T::decodable(value@),
        r matches Ok(v) ==> T::decodes_to(value@, v),
        r matches Err(e) ==> e is Deserialization,
{
    match T::from_json(value) {
        Some(v) => Ok(v),
        None => Err(WebDriverError::Deserialization(String::from_str("the document does not have the expected shape"))),
    }
}

/// Reads a list of values from a response document: every item must read,
/// else the whole call fails and no partial list is returned.
pub fn unwrap_vec<T: FromJson>(value: &JsonValue) -> (r: Result<Vec<T>, WebDriverError>)
    ensures
        r is Ok <==> all_decodable::<T>(value@),
        r matches Ok(v) ==> (value@ matches Json::Array(a) && a.len() == v.len() && forall|i: int|
            0 <= i < a.len() ==> T::decodes_to(a[i], #[trigger] v[i])),
        r matches Err(e) ==> e is Deserialization,
{
    match value {
        JsonValue::Array(items) => {
            proof {
                crate::json::lemma_array_view(*items);
            }
            let ghost a = crate::json::json_seq(items@);
            let mut out: Vec<T> = Vec::new();
            let mut i: usize = 0;
            while i < items.len()
                invariant
                    i <= items.len(),
                    value@ == Json::Array(a),
                    a == crate::json::json_seq(items@),
                    out.len() == i,
                    forall|j: int| 0 <= j < i ==> T::decodable(#[trigger] a[j]),
                    forall|j: int| 0 <= j < i ==> T::decodes_to(a[j], #[trigger] out[j]),
                decreases items.len() - i,
            {
                match T::from_json(&items[i]) {
                    Some(v) => {
                        out.push(v);
                    },
                    None => {
                        assert(a.len() == items.len());
                        assert(!T::decodable(a[i as int]));
                        assert(!all_decodable::<T>(value@));
                        return Err(WebDriverError::Deserialization(String::from_str("an item of the array does not have the expected shape")));
                    },
                }
                i = i + 1;
            }
            Ok(out)
        },
        _ => Err(WebDriverError::Deserialization(String::from_str("the document is not an array"))),
    }
}

} // verus!
