//! Persons: the identity an event is attributed to, and how a person's
//! data enters an event's property list.

use vstd::prelude::*;
use vstd::string::StringExecFns;

use crate::error::PosthogError;
use crate::feature_flag::{variant_text, FeatureFlag, FeatureFlagCollection};
use crate::properties::{clone_scalars, promote_scalar, promoted, PropScalar, PropValue};

verus! {

/// Which parts of a person enter a built property list.
#[derive(Debug, Clone, Copy, PartialEq, Eq, Structural)]
pub struct PropertyFilter {
    pub include_person_properties: bool,
    pub use_set_syntax: bool,
    pub include_ip: bool,
    pub include_feature_flags: bool,
}

impl PropertyFilter {
    /// A filter that includes nothing.
    pub fn new() -> (r: Self)
        ensures
            r == (PropertyFilter {
                include_person_properties: false,
                use_set_syntax: false,
                include_ip: false,
                include_feature_flags: false,
            }),
    {
        PropertyFilter {
            include_person_properties: false,
            use_set_syntax: false,
            include_ip: false,
            include_feature_flags: false,
        }
    }

    pub fn include_person_properties(self, include_person_properties: bool) -> (r: Self)
        ensures
            r == (PropertyFilter { include_person_properties, ..self }),
    {
        PropertyFilter { include_person_properties, ..self }
    }

    pub fn use_set_syntax(self, use_set_syntax: bool) -> (r: Self)
        ensures
            r == (PropertyFilter { use_set_syntax, ..self }),
    {
        PropertyFilter { use_set_syntax, ..self }
    }

    pub fn include_ip(self, include_ip: bool) -> (r: Self)
        ensures
            r == (PropertyFilter { include_ip, ..self }),
    {
        PropertyFilter { include_ip, ..self }
    }

    pub fn include_feature_flags(self, include_feature_flags: bool) -> (r: Self)
        ensures
            r == (PropertyFilter { include_feature_flags, ..self }),
    {
        PropertyFilter { include_feature_flags, ..self }
    }
}

impl Default for PropertyFilter {
    /// The filter that includes nothing.
    fn default() -> (r: Self)
        ensures
            r == (PropertyFilter {
                include_person_properties: false,
                use_set_syntax: false,
                include_ip: false,
                include_feature_flags: false,
            }),
    {
        PropertyFilter::new()
    }
}

/// The filter used when an event's properties are built: person properties
/// (as `$set`) only for identify events; the client IP and the stored
/// feature flags always.
pub open spec fn event_filter(is_identify: bool) -> PropertyFilter {
    PropertyFilter {
        include_person_properties: is_identify,
        use_set_syntax: is_identify,
        include_ip: true,
        include_feature_flags: true,
    }
}

/// A person events are attributed to.
#[derive(Debug, Clone)]
pub struct Person {
    pub distinct_id: String,
    pub properties: Option<Vec<(String, PropScalar)>>,
    pub stored_feature_flags: Option<FeatureFlagCollection>,
    pub client_ip: Option<String>,
}

/// How many entries the person-properties part of a built list holds.
pub open spec fn base_len(p: Person, f: PropertyFilter) -> int {
    if f.include_person_properties && p.properties is Some {
        if f.use_set_syntax {
            1
        } else {
            p.properties->0@.len() as int
        }
    } else {
        0
    }
}

/// How many entries the client-IP part of a built list holds.
pub open spec fn ip_len(p: Person, f: PropertyFilter) -> int {
    if f.include_ip && p.client_ip is Some {
        1
    } else {
        0
    }
}

/// How many entries the feature-flag part of a built list holds.
pub open spec fn flags_len(p: Person, f: PropertyFilter) -> int {
    if f.include_feature_flags && p.stored_feature_flags is Some {
        p.stored_feature_flags->0@.len() as int
    } else {
        0
    }
}

/// The person-properties part of a built list: when the filter asks for them
/// and the person has them, they stand at the front — as one `$set` object,
/// or verbatim with each scalar promoted.
pub open spec fn base_seg_ok(p: Person, f: PropertyFilter, out: Seq<(String, PropValue)>) -> bool {
    if f.include_person_properties && p.properties is Some {
        let props = p.properties->0;
        if f.use_set_syntax {
            &&& out[0].0@ == "$set"@
            &&& out[0].1 is Object
            &&& out[0].1->Object_0@ == props@
        } else {
            forall|i: int|
                0 <= i < props@.len() ==> #[trigger] out[i] == (props@[i].0, promoted(props@[i].1))
        }
    } else {
        true
    }
}

/// The client-IP part of a built list: one `$ip` entry after the
/// person-properties part.
pub open spec fn ip_seg_ok(p: Person, f: PropertyFilter, out: Seq<(String, PropValue)>) -> bool {
    if f.include_ip && p.client_ip is Some {
        &&& out[base_len(p, f)].0@ == "$ip"@
        &&& out[base_len(p, f)].1 == PropValue::Text(p.client_ip->0)
    } else {
        true
    }
}

/// One `$feature/<name>` entry: its key and the variant's text.
pub open spec fn flag_entry_ok(e: (String, PropValue), name: String, fl: FeatureFlag) -> bool {
    &&& e.0@ == "$feature/"@ + name@
    &&& e.1 is Text
    &&& e.1->Text_0@ == variant_text(fl.variant)
}

pub open spec fn flags_seg_ok(p: Person, f: PropertyFilter, out: Seq<(String, PropValue)>) -> bool {
    if f.include_feature_flags && p.stored_feature_flags is Some {
        let c = p.stored_feature_flags->0;
        forall|i: int|
            0 <= i < c@.len() ==> #[trigger] flag_entry_ok(
                out[base_len(p, f) + ip_len(p, f) + i],
                c@[i].0,
                c@[i].1,
            )
    } else {
        true
    }
}

/// What `Person::build_properties` returns: the person's properties (verbatim
/// or as one `$set` object), then the client IP under `$ip`, then one
/// `$feature/<name>` entry per stored flag holding its variant's text —
/// each part present exactly when the filter asks for it and the person
/// holds it.
pub open spec fn is_person_props(p: Person, f: PropertyFilter, out: Seq<(String, PropValue)>) -> bool {
    &&& out.len() == base_len(p, f) + ip_len(p, f) + flags_len(p, f)
    &&& base_seg_ok(p, f, out)
    &&& ip_seg_ok(p, f, out)
    &&& flags_seg_ok(p, f, out)
}

impl Person {
    /// A builder for a person.
    pub fn builder() -> (b: PersonBuilder)
        ensures
            b.distinct_id is None,
            b.properties@ == Seq::<(String, PropScalar)>::empty(),
            b.client_ip is None,
    {
        PersonBuilder { distinct_id: None, properties: Vec::new(), client_ip: None }
    }

    /// The person's distinct id.
    pub fn distinct_id(&self) -> (r: &str)
        ensures
            r@ == self.distinct_id@,
    {
        self.distinct_id.as_str()
    }

    /// Record the client IP sent with the person's events.
    pub fn set_client_ip(&mut self, client_ip: String)
        ensures
            *final(self) == (Person { client_ip: Some(client_ip), ..*old(self) }),
    {
        self.client_ip = Some(client_ip);
    }

    /// The feature flags stored on the person, if any were fetched.
    pub fn stored_feature_flags(&self) -> (r: Option<&FeatureFlagCollection>)
        ensures
            r is Some <==> self.stored_feature_flags is Some,
            r matches Some(c) ==> self.stored_feature_flags == Some(*c),
    {
        self.stored_feature_flags.as_ref()
    }

    /// Store fetched feature flags on the person.
    pub fn store_feature_flags(&mut self, flags: FeatureFlagCollection)
        ensures
            *final(self) == (Person { stored_feature_flags: Some(flags), ..*old(self) }),
    {
        self.stored_feature_flags = Some(flags);
    }

    /// Build the property entries the filter selects from this person.
    pub fn build_properties(&self, filter: PropertyFilter) -> (r: Vec<(String, PropValue)>)
        ensures
            is_person_props(*self, filter, r@),
    {
        let mut out: Vec<(String, PropValue)> = Vec::new();

        if filter.include_person_properties {
            if let Some(props) = &self.properties {
                if filter.use_set_syntax {
                    let copy = clone_scalars(props);
                    out.push((String::from_str("$set"), PropValue::Object(copy)));
                } else {
                    let mut i: usize = 0;
                    while i < props.len()
                        invariant
                            i <= props@.len(),
                            out@.len() == i,
                            forall|j: int|
                                0 <= j < i ==> #[trigger] out@[j] == (
                                    props@[j].0,
                                    promoted(props@[j].1),
                                ),
                        decreases props@.len() - i,
                    {
                        let (k, v) = &props[i];
                        out.push((k.clone(), promote_scalar(v)));
                        i = i + 1;
                    }
                }
            }
        }
        proof {
            assert(out@.len() == base_len(*self, filter));
        }

        if filter.include_ip {
            if let Some(ip) = &self.client_ip {
                out.push((String::from_str("$ip"), PropValue::Text(ip.clone())));
            }
        }
        proof {
            assert(out@.len() == base_len(*self, filter) + ip_len(*self, filter));
        }

        if filter.include_feature_flags {
            if let Some(flags) = &self.stored_feature_flags {
                let n = flags.flags.len();
                let mut i: usize = 0;
                while i < n
                    invariant
                        n == flags@.len(),
                        i <= n,
                        flags == self.stored_feature_flags->0,
                        out@.len() == base_len(*self, filter) + ip_len(*self, filter) + i,
                        base_seg_ok(*self, filter, out@),
                        ip_seg_ok(*self, filter, out@),
                        forall|j: int|
                            0 <= j < i ==> #[trigger] flag_entry_ok(
                                out@[base_len(*self, filter) + ip_len(*self, filter) + j],
                                flags@[j].0,
                                flags@[j].1,
                            ),
                    decreases n - i,
                {
                    let (k, f) = &flags.flags[i];
                    let key = String::from_str("$feature/").concat(k.as_str());
                    let text = f.variant_as_str();
                    out.push((key, PropValue::Text(text)));
                    i = i + 1;
                }
            }
        }
        out
    }
}

/// Builds a [`Person`].
#[derive(Debug)]
pub struct PersonBuilder {
    pub distinct_id: Option<String>,
    pub properties: Vec<(String, PropScalar)>,
    pub client_ip: Option<String>,
}

impl PersonBuilder {
    /// Set the distinct id.
    pub fn distinct_id(self, distinct_id: String) -> (r: Self)
        ensures
            r.distinct_id == Some(distinct_id),
            r.properties == self.properties,
            r.client_ip == self.client_ip,
    {
        PersonBuilder { distinct_id: Some(distinct_id), ..self }
    }

    /// Add one property.
    pub fn property(self, key: String, value: PropScalar) -> (r: Self)
        ensures
            r.properties@ == self.properties@.push((key, value)),
            r.distinct_id == self.distinct_id,
            r.client_ip == self.client_ip,
    {
        let mut properties = self.properties;
        properties.push((key, value));
        PersonBuilder { properties, ..self }
    }

    /// Replace all properties.
    pub fn properties(self, properties: Vec<(String, PropScalar)>) -> (r: Self)
        ensures
            r.properties == properties,
            r.distinct_id == self.distinct_id,
            r.client_ip == self.client_ip,
    {
        PersonBuilder { properties, ..self }
    }

    /// Set the client IP.
    pub fn client_ip(self, client_ip: String) -> (r: Self)
        ensures
            r.client_ip == Some(client_ip),
            r.distinct_id == self.distinct_id,
            r.properties == self.properties,
    {
        PersonBuilder { client_ip: Some(client_ip), ..self }
    }

    /// Build the person: fails with `DistinctIdRequired` when no distinct id
    /// was set; an empty property list becomes no property list.
    pub fn build(self) -> (r: Result<Person, PosthogError>)
        ensures
            self.distinct_id is None ==> r == Err::<Person, PosthogError>(
                PosthogError::DistinctIdRequired,
            ),
            self.distinct_id matches Some(id) ==> (r matches Ok(p) && p.distinct_id == id && (
            self.properties@.len() == 0 ==> p.properties is None) && (self.properties@.len() > 0
                ==> p.properties == Some(self.properties)) && p.stored_feature_flags is None
                && p.client_ip == self.client_ip),
    {
        let distinct_id = match self.distinct_id {
            Some(id) => id,
            None => {
                return Err(PosthogError::DistinctIdRequired);
            }
        };
        let properties = if self.properties.is_empty() {
            None
        } else {
            Some(self.properties)
        };
        Ok(Person { distinct_id, properties, stored_feature_flags: None, client_ip: self.client_ip })
    }
}

} // verus!
