use vstd::prelude::*;

verus! {

broadcast use vstd::std_specs::vec::group_vec_axioms;

/// A JSON document as the library builds and reads it. Object members keep
/// the order in which they were written.
#[derive(Debug)]
pub enum JsonValue {
    Null,
    Bool(bool),
    Number(i128),
    Str(String),
    Array(Vec<JsonValue>),
    Object(Vec<(String, JsonValue)>),
}

/// The mathematical model of a JSON document.
pub ghost enum Json {
    Null,
    Bool(bool),
    Number(int),
    Str(Seq<char>),
    Array(Seq<Json>),
    Object(Seq<(Seq<char>, Json)>),
}

/// The model of a list of JSON documents.
pub open spec fn json_seq(a: Seq<JsonValue>) -> Seq<Json> {
    a.map_values(|x: JsonValue| x@)
}

/// The model of a list of object members.
pub open spec fn members_seq(o: Seq<(String, JsonValue)>) -> Seq<(Seq<char>, Json)> {
    o.map_values(|m: (String, JsonValue)| (m.0@, m.1@))
}

impl JsonValue {
    pub open spec fn view(&self) -> Json
        decreases self,
    {
        match self {
            JsonValue::Null => Json::Null,
            JsonValue::Bool(b) => Json::Bool(*b),
            JsonValue::Number(n) => Json::Number(*n as int),
            JsonValue::Str(s) => Json::Str(s@),
            JsonValue::Array(a) => Json::Array(
                Seq::new(a.len() as nat, |i: int| if 0 <= i < a.len() { a[i].view() } else { Json::Null }),
            ),
            JsonValue::Object(o) => Json::Object(
                Seq::new(
                    o.len() as nat,
                    |i: int|
                        if 0 <= i < o.len() {
                            (o[i].0@, o[i].1.view())
                        } else {
                            (Seq::empty(), Json::Null)
                        },
                ),
            ),
        }
    }

    /// A copy of the document, member by member.
    pub fn copy_value(&self) -> (r: JsonValue)
        ensures
            r@ == self@,
        decreases self,
    {
        match self {
            JsonValue::Null => JsonValue::Null,
            JsonValue::Bool(b) => JsonValue::Bool(*b),
            JsonValue::Number(n) => JsonValue::Number(*n),
            JsonValue::Str(s) => JsonValue::Str(s.clone()),
            JsonValue::Array(a) => {
                let r = copy_values(a);
                proof {
                    lemma_array_view(r);
                    lemma_array_view(*a);
                    assert(json_seq(r@) =~= json_seq(a@));
                }
                JsonValue::Array(r)
            },
            JsonValue::Object(o) => {
                let r = copy_members(o);
                proof {
                    lemma_object_view(r);
                    lemma_object_view(*o);
                    assert(members_seq(r@) =~= members_seq(o@));
                }
                JsonValue::Object(r)
            },
        }
    }
}

/// The model of an array is the list of its items' models.
pub proof fn lemma_array_view(a: Vec<JsonValue>)
    ensures
        JsonValue::Array(a)@ == Json::Array(json_seq(a@)),
{
    if let Json::Array(m) = JsonValue::Array(a)@ {
        assert(m =~= json_seq(a@));
    }
}

/// The model of an object is the list of its members' models.
pub proof fn lemma_object_view(o: Vec<(String, JsonValue)>)
    ensures
        JsonValue::Object(o)@ == Json::Object(members_seq(o@)),
{
    if let Json::Object(m) = JsonValue::Object(o)@ {
        assert(m =~= members_seq(o@));
    }
}

/// A copy of each member of an object.
pub fn copy_members(o: &Vec<(String, JsonValue)>) -> (r: Vec<(String, JsonValue)>)
    ensures
        r.len() == o.len(),
        forall|j: int| 0 <= j < o.len() ==> #[trigger] r[j].0@ == o[j].0@ && r[j].1@ == o[j].1@,
    decreases o,
{
    let mut r: Vec<(String, JsonValue)> = Vec::new();
    let mut i: usize = 0;
    while i < o.len()
        invariant
            i <= o.len(),
            r.len() == i,
            forall|j: int| 0 <= j < i ==> #[trigger] r[j].0@ == o[j].0@ && r[j].1@ == o[j].1@,
        decreases o.len() - i,
    {
        proof {
            let pair = o[i as int];
            assert(decreases_to!(*o => pair));
            assert(decreases_to!(pair => pair.1));
        }
        let k = o[i].0.clone();
        let v = o[i].1.copy_value();
        r.push((k, v));
        i = i + 1;
    }
    r
}

/// A copy of each document of a list.
pub fn copy_values(a: &Vec<JsonValue>) -> (r: Vec<JsonValue>)
    ensures
        r.len() == a.len(),
        forall|j: int| 0 <= j < a.len() ==> #[trigger] r[j]@ == a[j]@,
    decreases a,
{
    let mut r: Vec<JsonValue> = Vec::new();
    let mut i: usize = 0;
    while i < a.len()
        invariant
            i <= a.len(),
            r.len() == i,
            forall|j: int| 0 <= j < i ==> #[trigger] r[j]@ == a[j]@,
        decreases a.len() - i,
    {
        let v = a[i].copy_value();
        r.push(v);
        i = i + 1;
    }
    r
}

/// The document for a string.
pub fn json_str(s: &str) -> (r: JsonValue)
    ensures
        r@ == Json::Str(s@),
{
    JsonValue::Str(String::from_str(s))
}

/// An object with no members.
pub fn empty_object() -> (r: JsonValue)
    ensures
        r@ == Json::Object(Seq::empty()),
{
    let v: Vec<(String, JsonValue)> = Vec::new();
    proof {
        lemma_object_view(v);
        assert(members_seq(v@) =~= Seq::empty());
    }
    JsonValue::Object(v)
}

/// An object built from members given in order.
pub fn object_of(members: Vec<(String, JsonValue)>) -> (r: JsonValue)
    ensures
        r@ == Json::Object(members_seq(members@)),
{
    proof {
        lemma_object_view(members);
    }
    JsonValue::Object(members)
}

/// An array built from documents given in order.
pub fn array_of(items: Vec<JsonValue>) -> (r: JsonValue)
    ensures
        r@ == Json::Array(json_seq(items@)),
{
    proof {
        lemma_array_view(items);
    }
    JsonValue::Array(items)
}

/// Appends the member `key: value` to a list of members.
pub fn push_member(members: &mut Vec<(String, JsonValue)>, key: &str, value: JsonValue)
    ensures
        members_seq(final(members)@) == members_seq(old(members)@).push((key@, value@)),
{
    members.push((String::from_str(key), value));
    assert(members_seq(final(members)@) =~= members_seq(old(members)@).push((key@, value@)));
}

} // verus!
