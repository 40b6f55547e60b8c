//! Events: the unit of capture, their builder, and the canned events the
//! client offers.

use vstd::prelude::*;
use vstd::string::StringExecFns;

use crate::error::PosthogError;
use crate::person::{event_filter, is_person_props, Person};
use crate::properties::{PropScalar, PropValue};

verus! {

/// One analytics event: its name, its properties, and whether it is an
/// identify event (which changes how person properties are attached).
#[derive(Debug, Clone)]
pub struct Event {
    pub name: String,
    pub properties: Option<Vec<(String, PropValue)>>,
    pub is_identify: bool,
}

/// The event's own property entries.
pub open spec fn own_props(e: Event) -> Seq<(String, PropValue)> {
    if e.properties is Some {
        e.properties->0@
    } else {
        Seq::empty()
    }
}

/// What `Event::build_properties` returns: the event's own properties,
/// followed by what the person contributes under the event's filter.
pub open spec fn is_event_props(e: Event, p: Person, out: Seq<(String, PropValue)>) -> bool {
    &&& out.len() >= own_props(e).len()
    &&& out.take(own_props(e).len() as int) == own_props(e)
    &&& is_person_props(p, event_filter(e.is_identify), out.skip(own_props(e).len() as int))
}

impl Event {
    /// A builder for an event.
    pub fn builder() -> (b: EventBuilder)
        ensures
            b.name is None,
            b.properties@ == Seq::<(String, PropValue)>::empty(),
            !b.is_identify,
    {
        EventBuilder { name: None, properties: Vec::new(), is_identify: false }
    }

    /// Build the full property list for capturing this event against a
    /// person: the event's own properties, then the person's contribution —
    /// person properties (as `$set`) only for identify events, the client IP
    /// and the stored feature flags always.
    pub fn build_properties(self, person: &Person) -> (r: Vec<(String, PropValue)>)
        ensures
            is_event_props(self, *person, r@),
    {
        let mut out = match self.properties {
            Some(v) => v,
            None => Vec::new(),
        };
        let ghost own = out@;
        let mut extra = person.build_properties(
            crate::person::PropertyFilter::new().include_person_properties(
                self.is_identify,
            ).use_set_syntax(self.is_identify).include_ip(true).include_feature_flags(true),
        );
        let ghost contributed = extra@;
        out.append(&mut extra);
        proof {
            assert(out@.take(own.len() as int) =~= own);
            assert(out@.skip(own.len() as int) =~= contributed);
        }
        out
    }
}

/// Builds an [`Event`].
#[derive(Debug)]
pub struct EventBuilder {
    pub name: Option<String>,
    pub properties: Vec<(String, PropValue)>,
    pub is_identify: bool,
}

impl EventBuilder {
    /// Set the event's name; the name `$identify` marks the event as an
    /// identify event.
    pub fn name(self, event_name: String) -> (r: Self)
        ensures
            r.name == Some(event_name),
            r.properties == self.properties,
            r.is_identify == (self.is_identify || event_name@ == "$identify"@),
    {
        let identify_name = String::from_str("$identify");
        let is_identify = self.is_identify || event_name == identify_name;
        EventBuilder { name: Some(event_name), is_identify, ..self }
    }

    /// Add one property.
    pub fn property(self, key: String, value: PropValue) -> (r: Self)
        ensures
            r.properties@ == self.properties@.push((key, value)),
            r.name == self.name,
            r.is_identify == self.is_identify,
    {
        let mut properties = self.properties;
        properties.push((key, value));
        EventBuilder { properties, ..self }
    }

    /// Replace all properties.
    pub fn properties(self, properties: Vec<(String, PropValue)>) -> (r: Self)
        ensures
            r.properties == properties,
            r.name == self.name,
            r.is_identify == self.is_identify,
    {
        EventBuilder { properties, ..self }
    }

    /// Mark the event as an identify event.
    pub fn identify(self) -> (r: Self)
        ensures
            r.is_identify,
            r.name == self.name,
            r.properties == self.properties,
    {
        EventBuilder { is_identify: true, ..self }
    }

    /// Build the event: fails with `EventNameRequired` when no name was set;
    /// an empty property list becomes no property list.
    pub fn build(self) -> (r: Result<Event, PosthogError>)
        ensures
            self.name is None ==> r == Err::<Event, PosthogError>(PosthogError::EventNameRequired),
            self.name matches Some(n) ==> (r matches Ok(e) && e.name == n && e.is_identify
                == self.is_identify && (self.properties@.len() == 0 ==> e.properties is None) && (
            self.properties@.len() > 0 ==> e.properties == Some(self.properties))),
    {
        let name = match self.name {
            Some(n) => n,
            None => {
                return Err(PosthogError::EventNameRequired);
            }
        };
        let properties = if self.properties.is_empty() {
            None
        } else {
            Some(self.properties)
        };
        Ok(Event { name, properties, is_identify: self.is_identify })
    }
}

/// The `$identify` event: no properties of its own.
pub fn identify_event() -> (e: Event)
    ensures
        e.name@ == "$identify"@,
        e.properties is None,
        e.is_identify,
{
    Event { name: String::from_str("$identify"), properties: None, is_identify: true }
}

/// The `$pageview` event: the page title under `title`.
pub fn page_view_event(title: String) -> (e: Event)
    ensures
        e.name@ == "$pageview"@,
        !e.is_identify,
        e.properties matches Some(p) ==> p@.len() == 1 && p@[0].0@ == "title"@ && p@[0].1
            == PropValue::Text(title),
        e.properties is Some,
{
    let mut properties: Vec<(String, PropValue)> = Vec::new();
    properties.push((String::from_str("title"), PropValue::Text(title)));
    Event { name: String::from_str("$pageview"), properties: Some(properties), is_identify: false }
}

/// The `$screen` event: the screen name under `$screen_name`.
pub fn screen_view_event(screen_name: String) -> (e: Event)
    ensures
        e.name@ == "$screen"@,
        !e.is_identify,
        e.properties matches Some(p) ==> p@.len() == 1 && p@[0].0@ == "$screen_name"@ && p@[0].1
            == PropValue::Text(screen_name),
        e.properties is Some,
{
    let mut properties: Vec<(String, PropValue)> = Vec::new();
    properties.push((String::from_str("$screen_name"), PropValue::Text(screen_name)));
    Event { name: String::from_str("$screen"), properties: Some(properties), is_identify: false }
}

/// The `$feature_flag_called` event: the flag's name and the variant it
/// evaluated to.
pub fn feature_flag_called_event(feature_flag: String, feature_flag_variant: String) -> (e: Event)
    ensures
        e.name@ == "$feature_flag_called"@,
        !e.is_identify,
        e.properties matches Some(p) ==> p@.len() == 2 && p@[0].0@ == "$feature_flag"@ && p@[0].1
            == PropValue::Text(feature_flag) && p@[1].0@ == "$feature_flag_response"@ && p@[1].1
            == PropValue::Text(feature_flag_variant),
        e.properties is Some,
{
    let mut properties: Vec<(String, PropValue)> = Vec::new();
    properties.push((String::from_str("$feature_flag"), PropValue::Text(feature_flag)));
    properties.push(
        (String::from_str("$feature_flag_response"), PropValue::Text(feature_flag_variant)),
    );
    Event {
        name: String::from_str("$feature_flag_called"),
        properties: Some(properties),
        is_identify: false,
    }
}

/// The `$feature_enrollment_update` event: the flag's name, the enrollment
/// state, and a `$set` object recording the state under
/// `$feature_enrollment/<flag>`.
pub fn feature_enrollment_event(feature: String, is_enrolled: bool) -> (e: Event)
    ensures
        e.name@ == "$feature_enrollment_update"@,
        !e.is_identify,
        e.properties matches Some(p) ==> p@.len() == 3 && p@[0].0@ == "$feature_flag"@ && p@[0].1
            == PropValue::Text(feature) && p@[1].0@ == "$feature_enrollment"@ && p@[1].1
            == PropValue::Boolean(is_enrolled) && p@[2].0@ == "$set"@ && (p@[2].1 matches
        PropValue::Object(o) && o@.len() == 1 && o@[0].0@ == "$feature_enrollment/"@ + feature@
            && o@[0].1 == PropScalar::Boolean(is_enrolled)),
        e.properties is Some,
{
    let flag_key = feature.clone();
    let enrollment_key = String::from_str("$feature_enrollment/").concat(feature.as_str());
    let mut set_entries: Vec<(String, PropScalar)> = Vec::new();
    set_entries.push((enrollment_key, PropScalar::Boolean(is_enrolled)));
    let mut properties: Vec<(String, PropValue)> = Vec::new();
    properties.push((String::from_str("$feature_flag"), PropValue::Text(flag_key)));
    properties.push((String::from_str("$feature_enrollment"), PropValue::Boolean(is_enrolled)));
    properties.push((String::from_str("$set"), PropValue::Object(set_entries)));
    Event {
        name: String::from_str("$feature_enrollment_update"),
        properties: Some(properties),
        is_identify: false,
    }
}

} // verus!
