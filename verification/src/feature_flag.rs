//! Feature flags: the typed flag value, the collection the server's answer
//! becomes, and the lookups on it.

use vstd::prelude::*;
use vstd::string::StringExecFns;

use serde_json::Value;

use crate::decimal::dec_str;
use crate::error::PosthogError;
use crate::json::{
    json_text_of, parse_json, parsed_json_of, value_bool_of, value_int_of, value_str_of,
    value_to_text,
};

verus! {

/// A typed feature flag value: the variant a flag evaluated to, or a payload.
#[derive(Debug, Clone)]
pub enum FeatureFlagData {
    Boolean(bool),
    Integer(i64),
    Text(String),
    Json(Value),
}

/// How a JSON value is classified into a `FeatureFlagData`: a boolean becomes
/// `Boolean`, an `i64` number `Integer`, a string `Text`, anything else
/// `Json`.
pub open spec fn is_classified(v: Value, d: FeatureFlagData) -> bool {
    if value_bool_of(v) is Some {
        d == FeatureFlagData::Boolean(value_bool_of(v)->0)
    } else if value_int_of(v) is Some {
        d == FeatureFlagData::Integer(value_int_of(v)->0)
    } else if value_str_of(v) is Some {
        d matches FeatureFlagData::Text(t) && t@ == value_str_of(v)->0
    } else {
        d == FeatureFlagData::Json(v)
    }
}

impl FeatureFlagData {
    /// Classify a JSON value.
    pub fn from_value(value: Value) -> (r: Self)
        ensures
            is_classified(value, r),
    {
        if let Some(b) = value.as_bool() {
            FeatureFlagData::Boolean(b)
        } else if let Some(i) = value.as_i64() {
            FeatureFlagData::Integer(i)
        } else {
            let text: Option<String> = match value.as_str() {
                Some(s) => Some(s.to_owned()),
                None => None,
            };
            match text {
                Some(t) => FeatureFlagData::Text(t),
                None => FeatureFlagData::Json(value),
            }
        }
    }
}

/// The textual form of a flag variant: `true`/`false` for booleans, decimal
/// digits for integers, the string itself, or the JSON text.
pub open spec fn variant_text(d: FeatureFlagData) -> Seq<char> {
    match d {
        FeatureFlagData::Boolean(b) => if b {
            "true"@
        } else {
            "false"@
        },
        FeatureFlagData::Integer(i) => dec_str(i as int),
        FeatureFlagData::Text(s) => s@,
        FeatureFlagData::Json(v) => json_text_of(v),
    }
}

/// Whether a flag variant counts as enabled: a true boolean, the string
/// `true`, or a non-zero integer.
pub open spec fn variant_truthy(d: FeatureFlagData) -> bool {
    match d {
        FeatureFlagData::Boolean(b) => b,
        FeatureFlagData::Integer(i) => i != 0,
        FeatureFlagData::Text(s) => s@ == "true"@,
        FeatureFlagData::Json(_) => false,
    }
}

/// One evaluated feature flag: its variant and, when the server sent one,
/// its payload.
#[derive(Debug, Clone)]
pub struct FeatureFlag {
    pub variant: FeatureFlagData,
    pub payload: Option<FeatureFlagData>,
}

/// The payload's characters, when the payload is a `Text`.
pub open spec fn payload_text(f: FeatureFlag) -> Option<Seq<char>> {
    match f.payload {
        Some(FeatureFlagData::Text(t)) => Some(t@),
        _ => None,
    }
}

/// The payload's integer, when the payload is an `Integer`.
pub open spec fn payload_int(f: FeatureFlag) -> Option<i64> {
    match f.payload {
        Some(FeatureFlagData::Integer(i)) => Some(i),
        _ => None,
    }
}

/// The payload's boolean, when the payload is a `Boolean`.
pub open spec fn payload_bool(f: FeatureFlag) -> Option<bool> {
    match f.payload {
        Some(FeatureFlagData::Boolean(b)) => Some(b),
        _ => None,
    }
}

/// The payload's JSON value, when the payload is a `Json`.
pub open spec fn payload_json(f: FeatureFlag) -> Option<Value> {
    match f.payload {
        Some(FeatureFlagData::Json(v)) => Some(v),
        _ => None,
    }
}

impl FeatureFlag {
    /// The variant the flag evaluated to.
    pub fn variant(&self) -> (r: &FeatureFlagData)
        ensures
            *r == self.variant,
    {
        &self.variant
    }

    /// The variant's textual form.
    pub fn variant_as_str(&self) -> (r: String)
        ensures
            r@ == variant_text(self.variant),
    {
        match &self.variant {
            FeatureFlagData::Boolean(b) => {
                if *b {
                    String::from_str("true")
                } else {
                    String::from_str("false")
                }
            }
            FeatureFlagData::Integer(i) => crate::decimal::i64_to_dec_string(*i),
            FeatureFlagData::Text(s) => s.clone(),
            FeatureFlagData::Json(v) => value_to_text(v),
        }
    }

    /// Whether the variant counts as enabled.
    pub fn variant_as_bool(&self) -> (r: bool)
        ensures
            r == variant_truthy(self.variant),
    {
        match &self.variant {
            FeatureFlagData::Boolean(b) => *b,
            FeatureFlagData::Integer(i) => *i != 0,
            FeatureFlagData::Text(s) => {
                let rhs = String::from_str("true");
                *s == rhs
            }
            FeatureFlagData::Json(_) => false,
        }
    }

    /// The payload, when the server sent one.
    pub fn payload(&self) -> (r: Option<&FeatureFlagData>)
        ensures
            r is Some <==> self.payload is Some,
            r matches Some(d) ==> self.payload == Some(*d),
    {
        self.payload.as_ref()
    }

    /// The payload's string, when it is one.
    pub fn str(&self) -> (r: Option<&str>)
        ensures
            r is Some <==> payload_text(*self) is Some,
            r matches Some(s) ==> payload_text(*self) == Some(s@),
    {
        match &self.payload {
            Some(FeatureFlagData::Text(t)) => Some(t.as_str()),
            _ => None,
        }
    }

    /// The payload's integer, when it is one.
    pub fn int_payload(&self) -> (r: Option<i64>)
        ensures
            r == payload_int(*self),
    {
        match &self.payload {
            Some(FeatureFlagData::Integer(i)) => Some(*i),
            _ => None,
        }
    }

    /// The payload's boolean, when it is one.
    pub fn bool_payload(&self) -> (r: Option<bool>)
        ensures
            r == payload_bool(*self),
    {
        match &self.payload {
            Some(FeatureFlagData::Boolean(b)) => Some(*b),
            _ => None,
        }
    }

    /// The payload's JSON value, when it is one.
    pub fn json(&self) -> (r: Option<&Value>)
        ensures
            r is Some <==> payload_json(*self) is Some,
            r matches Some(v) ==> payload_json(*self) == Some(*v),
    {
        match &self.payload {
            Some(FeatureFlagData::Json(v)) => Some(v),
            _ => None,
        }
    }
}

/// The first value an association list holds under `key`.
pub open spec fn assoc_lookup<T>(s: Seq<(String, T)>, key: Seq<char>) -> Option<T>
    decreases s.len(),
{
    if s.len() == 0 {
        None
    } else if s[0].0@ == key {
        Some(s[0].1)
    } else {
        assoc_lookup(s.drop_first(), key)
    }
}

proof fn lemma_assoc_lookup_skip<T>(s: Seq<(String, T)>, key: Seq<char>, i: int)
    requires
        0 <= i <= s.len(),
        forall|j: int| 0 <= j < i ==> #[trigger] s[j].0@ != key,
    ensures
        assoc_lookup(s, key) == assoc_lookup(s.skip(i), key),
    decreases i,
{
    if i > 0 {
        assert(s[0].0@ != key);
        assert forall|j: int| 0 <= j < i - 1 implies #[trigger] s.drop_first()[j].0@ != key by {
            assert(s.drop_first()[j] == s[j + 1]);
        }
        lemma_assoc_lookup_skip(s.drop_first(), key, i - 1);
        assert(s.drop_first().skip(i - 1) =~= s.skip(i));
    } else {
        assert(s.skip(0) =~= s);
    }
}

/// Look a key up in an association list, returning the first match.
pub fn assoc_get<'a, T>(v: &'a Vec<(String, T)>, key: &str) -> (r: Option<&'a T>)
    ensures
        r is Some <==> assoc_lookup(v@, key@) is Some,
        r matches Some(t) ==> assoc_lookup(v@, key@) == Some(*t),
{
    let k = key.to_owned();
    let mut i: usize = 0;
    while i < v.len()
        invariant
            k@ == key@,
            i <= v@.len(),
            forall|j: int| 0 <= j < i ==> #[trigger] v@[j].0@ != key@,
        decreases v@.len() - i,
    {
        if v[i].0 == k {
            proof {
                lemma_assoc_lookup_skip(v@, key@, i as int);
                assert(v@.skip(i as int)[0] == v@[i as int]);
            }
            return Some(&v[i].1);
        }
        i = i + 1;
    }
    proof {
        lemma_assoc_lookup_skip(v@, key@, v@.len() as int);
    }
    None
}

/// The evaluated feature flags, keyed by flag name.
#[derive(Debug, Clone)]
pub struct FeatureFlagCollection {
    pub flags: Vec<(String, FeatureFlag)>,
}

impl View for FeatureFlagCollection {
    type V = Seq<(String, FeatureFlag)>;

    open spec fn view(&self) -> Seq<(String, FeatureFlag)> {
        self.flags@
    }
}

/// The string payload of the flag under `key`, when both exist.
pub open spec fn str_flag_of(s: Seq<(String, FeatureFlag)>, key: Seq<char>) -> Option<Seq<char>> {
    match assoc_lookup(s, key) {
        Some(f) => payload_text(f),
        None => None,
    }
}

/// The integer payload of the flag under `key`, when both exist.
pub open spec fn int_flag_of(s: Seq<(String, FeatureFlag)>, key: Seq<char>) -> Option<i64> {
    match assoc_lookup(s, key) {
        Some(f) => payload_int(f),
        None => None,
    }
}

/// The JSON payload of the flag under `key`, when both exist.
pub open spec fn json_flag_of(s: Seq<(String, FeatureFlag)>, key: Seq<char>) -> Option<Value> {
    match assoc_lookup(s, key) {
        Some(f) => payload_json(f),
        None => None,
    }
}

/// Whether the flag under `key` counts as enabled; a missing flag does not.
pub open spec fn bool_flag_of(s: Seq<(String, FeatureFlag)>, key: Seq<char>) -> bool {
    match assoc_lookup(s, key) {
        Some(f) => variant_truthy(f.variant),
        None => false,
    }
}

impl FeatureFlagCollection {
    /// A collection holding the given flags.
    pub fn new(flags: Vec<(String, FeatureFlag)>) -> (c: Self)
        ensures
            c@ == flags@,
    {
        FeatureFlagCollection { flags }
    }

    /// The flags as name/flag pairs.
    pub fn iter(&self) -> (r: &Vec<(String, FeatureFlag)>)
        ensures
            r@ == self@,
    {
        &self.flags
    }

    /// The flag under `key`, if any.
    pub fn get(&self, key: &str) -> (r: Option<&FeatureFlag>)
        ensures
            r is Some <==> assoc_lookup(self@, key@) is Some,
            r matches Some(f) ==> assoc_lookup(self@, key@) == Some(*f),
    {
        assoc_get(&self.flags, key)
    }

    /// The string payload of the flag under `key`, if any.
    pub fn get_str_flag(&self, key: &str) -> (r: Option<&str>)
        ensures
            r is Some <==> str_flag_of(self@, key@) is Some,
            r matches Some(s) ==> str_flag_of(self@, key@) == Some(s@),
    {
        match self.get(key) {
            Some(flag) => flag.str(),
            None => None,
        }
    }

    /// Whether the flag under `key` counts as enabled.
    pub fn get_bool_flag(&self, key: &str) -> (r: bool)
        ensures
            r == bool_flag_of(self@, key@),
    {
        match self.get(key) {
            Some(flag) => flag.variant_as_bool(),
            None => false,
        }
    }

    /// The integer payload of the flag under `key`, if any.
    pub fn get_int_flag(&self, key: &str) -> (r: Option<i64>)
        ensures
            r == int_flag_of(self@, key@),
    {
        match self.get(key) {
            Some(flag) => flag.int_payload(),
            None => None,
        }
    }

    /// The JSON payload of the flag under `key`, if any.
    pub fn get_json_flag(&self, key: &str) -> (r: Option<&Value>)
        ensures
            r is Some <==> json_flag_of(self@, key@) is Some,
            r matches Some(v) ==> json_flag_of(self@, key@) == Some(*v),
    {
        match self.get(key) {
            Some(flag) => flag.json(),
            None => None,
        }
    }
}

/// How one payload source string becomes a flag payload: absent stays
/// absent, an unparsable string is dropped, a parsed value is classified.
pub open spec fn is_flag_payload(src: Option<String>, out: Option<FeatureFlagData>) -> bool {
    match src {
        None => out is None,
        Some(p) => match parsed_json_of(p@) {
            None => out is None,
            Some(v) => out matches Some(d) && is_classified(v, d),
        },
    }
}

/// How one entry of the server's flag map becomes a collected flag: same
/// name, classified variant, and the payload looked up under the same name.
pub open spec fn is_collected_flag(
    entry: (String, Value),
    payloads: Seq<(String, String)>,
    out: (String, FeatureFlag),
) -> bool {
    &&& out.0 == entry.0
    &&& is_classified(entry.1, out.1.variant)
    &&& is_flag_payload(assoc_lookup(payloads, entry.0@), out.1.payload)
}

/// Turn the decoded flag-evaluation response into a collection: an error
/// reported by the server fails with `FeatureFlagError`; otherwise every
/// flag is classified and paired with its parsed payload, in order.
pub fn flags_response(
    error_computing_flags: bool,
    flags: Vec<(String, Value)>,
    payloads: Vec<(String, String)>,
) -> (r: Result<FeatureFlagCollection, PosthogError>)
    ensures
        error_computing_flags <==> r is Err,
        error_computing_flags ==> r == Err::<FeatureFlagCollection, PosthogError>(
            PosthogError::FeatureFlagError,
        ),
        !error_computing_flags ==> (r matches Ok(c) && c@.len() == flags@.len() && forall|i: int|
            0 <= i < flags@.len() ==> is_collected_flag(flags@[i], payloads@, #[trigger] c@[i])),
{
    if error_computing_flags {
        return Err(PosthogError::FeatureFlagError);
    }

    let ghost orig = flags@;
    let mut flags = flags;
    let mut out: Vec<(String, FeatureFlag)> = Vec::new();
    let ghost mut done: int = 0;

    while flags.len() > 0
        invariant
            0 <= done <= orig.len(),
            flags@ == orig.skip(done),
            out@.len() == done,
            forall|j: int| 0 <= j < done ==> is_collected_flag(orig[j], payloads@, #[trigger] out@[j]),
        decreases flags.len(),
    {
        let (key, value) = flags.remove(0);
        proof {
            assert((key, value) == orig[done]);
            assert(orig.skip(done).remove(0) =~= orig.skip(done + 1));
        }
        let payload: Option<FeatureFlagData> = match assoc_get(&payloads, key.as_str()) {
            Some(p) => match parse_json(p.as_str()) {
                Some(v) => Some(FeatureFlagData::from_value(v)),
                None => None,
            },
            None => None,
        };
        let variant = FeatureFlagData::from_value(value);
        out.push((key, FeatureFlag { variant, payload }));
        proof {
            done = done + 1;
        }
    }

    Ok(FeatureFlagCollection::new(out))
}

} // verus!
