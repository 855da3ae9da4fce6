use vstd::prelude::*;

verus! {

/// A parsed JSON document, holding what the schema reads of it.
#[derive(Debug)]
pub enum Json {
    Null,
    Bool(bool),
    /// A number, with its value where it is an integer in `0..=u64::MAX`.
    Number(Option<u64>),
    Str(String),
    Array(Vec<Json>),
    /// An object's members, in the order the parser gives them.
    Object(Vec<(String, Json)>),
}

#[verifier::external_type_specification]
#[verifier::external_body]
pub struct ExValue(serde_json::Value);

/// What serde_json makes of a text: the document, or `None` where the text
/// is not JSON.
pub uninterp spec fn json_parse(text: Seq<char>) -> Option<Json>;

/// Relies on serde_json::from_str into serde_json::Value: parses the text as
/// JSON, the result depending on the text alone.
#[verifier::external_body]
pub(crate) fn parse_json(text: &str) -> (r: Option<Json>)
    ensures
        r == json_parse(text@),
{
    serde_json::from_str::<serde_json::Value>(text).ok().map(json_from_value)
}

/// Relies on serde_json::Value's variants and serde_json::Number::as_u64:
/// moves a parsed value into `Json`, variant for variant.
#[verifier::external_body]
fn json_from_value(v: serde_json::Value) -> Json {
    match v {
        serde_json::Value::Null => Json::Null,
        serde_json::Value::Bool(b) => Json::Bool(b),
        serde_json::Value::Number(n) => Json::Number(n.as_u64()),
        serde_json::Value::String(s) => Json::Str(s),
        serde_json::Value::Array(a) => Json::Array(a.into_iter().map(json_from_value).collect()),
        serde_json::Value::Object(o) => Json::Object(
            o.into_iter().map(|(k, x)| (k, json_from_value(x))).collect(),
        ),
    }
}

/// The value of the first member named `key` among `members`.
pub open spec fn member_in(members: Seq<(String, Json)>, key: Seq<char>) -> Option<Json>
    decreases members.len(),
{
    if members.len() == 0 {
        None
    } else if members[0].0@ == key {
        Some(members[0].1)
    } else {
        member_in(members.drop_first(), key)
    }
}

/// The member `key` of `j`, where `j` is an object that has one.
pub open spec fn member_of(j: Json, key: Seq<char>) -> Option<Json> {
    match j {
        Json::Object(members) => member_in(members@, key),
        _ => None,
    }
}

/// The value of `j` where it is a non-negative integer that fits in 64 bits.
pub open spec fn count_of(j: Option<Json>) -> Option<u64> {
    match j {
        Some(Json::Number(Some(n))) => Some(n),
        _ => None,
    }
}

impl Json {
    /// The member named `key` of this value, where it is an object that has one.
    pub fn member(&self, key: &String) -> (r: Option<&Json>)
        ensures
            match r {
                Some(v) => member_of(*self, key@) == Some(*v),
                None => member_of(*self, key@) is None,
            },
    {
        match self {
            Json::Object(members) => {
                let mut i: usize = 0;
                proof {
                    assert(members@.skip(0) =~= members@);
                }
                while i < members.len()
                    invariant
                        i <= members@.len(),
                        member_of(*self, key@) == member_in(members@, key@),
                        member_in(members@, key@) == member_in(members@.skip(i as int), key@),
                    decreases members@.len() - i,
                {
                    proof {
                        assert(members@.skip(i as int).drop_first() =~= members@.skip(i + 1));
                    }
                    let found = members[i].0.eq(key);
                    proof {
                        assert(members@.skip(i as int)[0] == members@[i as int]);
                    }
                    if found {
                        proof {
                            assert(member_in(members@.skip(i as int), key@) == Some(
                                members@[i as int].1,
                            ));
                        }
                        return Some(&members[i].1);
                    }
                    i = i + 1;
                }
                None
            },
            _ => None,
        }
    }
}

} // verus!
