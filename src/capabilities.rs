use vstd::prelude::*;
use crate::error::WebDriverError;
use crate::json::{JsonValue, Json, members_seq, object_of, array_of, push_member, empty_object, json_seq};

verus! {

/// The W3C name of a capability: the three legacy names that have a W3C
/// counterpart are renamed, every other name is kept.
pub open spec fn w3c_name(k: Seq<char>) -> Seq<char> {
    if k == "version"@ {
        "browserVersion"@
    } else if k == "platform"@ {
        "platformName"@
    } else if k == "acceptSslCerts"@ {
        "acceptInsecureCerts"@
    } else {
        k
    }
}

/// The `alwaysMatch` members for a capabilities document: each member of an
/// object under its W3C name, in order; nothing for any other document.
pub open spec fn always_match_spec(caps: Json) -> Seq<(Seq<char>, Json)> {
    match caps {
        Json::Object(m) => Seq::new(m.len(), |i: int| (w3c_name(m[i].0), m[i].1)),
        _ => Seq::empty(),
    }
}

/// The W3C `capabilities` document for a capabilities document.
pub open spec fn w3c_caps_spec(caps: Json) -> Json {
    Json::Object(
        seq![
            ("firstMatch"@, Json::Array(seq![Json::Object(Seq::empty())])),
            ("alwaysMatch"@, Json::Object(always_match_spec(caps))),
        ],
    )
}

fn w3c_key(k: &String) -> (r: String)
    ensures
        r@ == w3c_name(k@),
{
    let version = String::from_str("version");
    let platform = String::from_str("platform");
    let accept_ssl = String::from_str("acceptSslCerts");
    if *k == version {
        String::from_str("browserVersion")
    } else if *k == platform {
        String::from_str("platformName")
    } else if *k == accept_ssl {
        String::from_str("acceptInsecureCerts")
    } else {
        k.clone()
    }
}

/// Builds the W3C `{"firstMatch": [{}], "alwaysMatch": {...}}` document
/// from a capabilities document.
pub fn make_w3c_caps(caps: &JsonValue) -> (r: JsonValue)
    ensures
        r@ == w3c_caps_spec(caps@),
{
    let mut always: Vec<(String, JsonValue)> = Vec::new();
    match caps {
        JsonValue::Object(o) => {
            proof {
                crate::json::lemma_object_view(*o);
            }
            let mut i: usize = 0;
            while i < o.len()
                invariant
                    i <= o.len(),
                    caps@ == Json::Object(members_seq(o@)),
                    always.len() == i,
                    forall|j: int|
                        0 <= j < i ==> #[trigger] always[j].0@ == w3c_name(o[j].0@) && always[j].1@
                            == o[j].1@,
                decreases o.len() - i,
            {
                let k = w3c_key(&o[i].0);
                let v = o[i].1.copy_value();
                always.push((k, v));
                assert(always[i as int].0@ == w3c_name(o[i as int].0@));
                assert(always[i as int].1@ == o[i as int].1@);
                i = i + 1;
            }
        },
        _ => {},
    }
    let mut first: Vec<JsonValue> = Vec::new();
    first.push(empty_object());
    let mut m: Vec<(String, JsonValue)> = Vec::new();
    push_member(&mut m, "firstMatch", array_of(first));
    push_member(&mut m, "alwaysMatch", object_of(always));
    proof {
        assert(json_seq(first@) =~= seq![Json::Object(Seq::empty())]);
        assert(members_seq(always@) =~= always_match_spec(caps@));
        assert(members_seq(m@) =~= seq![
            ("firstMatch"@, Json::Array(seq![Json::Object(Seq::empty())])),
            ("alwaysMatch"@, Json::Object(always_match_spec(caps@))),
        ]);
    }
    object_of(m)
}

/// Negotiates the W3C capabilities of a document, which must be an object.
pub fn negotiate_capabilities(caps: &JsonValue) -> (r: Result<JsonValue, WebDriverError>)
    ensures
        r is Ok <==> caps@ is Object,
        r matches Ok(w) ==> w@ == w3c_caps_spec(caps@),
        r matches Err(e) ==> e is MalformedCapabilities,
{
    match caps {
        JsonValue::Object(o) => {
            proof {
                crate::json::lemma_object_view(*o);
            }
            Ok(make_w3c_caps(caps))
        },
        _ => Err(WebDriverError::MalformedCapabilities),
    }
}

} // verus!
