//! The client: its configuration, and the envelopes it builds for the
//! requests the queue carries.
//!
//! The runtime layer owns the HTTP client and the worker task; this type
//! holds what the logic needs — the base URL and the API key — and builds
//! the exact content of each outbound request.

use vstd::prelude::*;

use crate::error::PosthogError;
use crate::event::{is_event_props, Event};
use crate::person::{is_person_props, Person, PropertyFilter};
use crate::properties::PropValue;
use crate::queue::PosthogRequest;

verus! {

/// Builds a [`PosthogClient`]; the base URL and the API key are both
/// required.
#[derive(Debug)]
pub struct PosthogClientBuilder {
    pub base_url: Option<String>,
    pub api_key: Option<String>,
}

impl PosthogClientBuilder {
    /// An empty builder.
    pub fn new() -> (b: Self)
        ensures
            b.base_url is None,
            b.api_key is None,
    {
        PosthogClientBuilder { base_url: None, api_key: None }
    }

    /// Set the base URL.
    pub fn base_url(self, base_url: String) -> (r: Self)
        ensures
            r.base_url == Some(base_url),
            r.api_key == self.api_key,
    {
        PosthogClientBuilder { base_url: Some(base_url), ..self }
    }

    /// Set the API key.
    pub fn api_key(self, api_key: String) -> (r: Self)
        ensures
            r.api_key == Some(api_key),
            r.base_url == self.base_url,
    {
        PosthogClientBuilder { api_key: Some(api_key), ..self }
    }

    /// Build the client: fails fast with `BaseUrlRequired` or
    /// `ApiKeyRequired` when either is missing.
    pub fn build(self) -> (r: Result<PosthogClient, PosthogError>)
        ensures
            self.base_url is None ==> r == Err::<PosthogClient, PosthogError>(
                PosthogError::BaseUrlRequired,
            ),
            self.base_url is Some && self.api_key is None ==> r == Err::<
                PosthogClient,
                PosthogError,
            >(PosthogError::ApiKeyRequired),
            self.base_url is Some && self.api_key is Some ==> (r matches Ok(c) && c.base_url
                == self.base_url->0 && c.api_key == self.api_key->0),
    {
        let base_url = match self.base_url {
            Some(u) => u,
            None => {
                return Err(PosthogError::BaseUrlRequired);
            }
        };
        let api_key = match self.api_key {
            Some(k) => k,
            None => {
                return Err(PosthogError::ApiKeyRequired);
            }
        };
        Ok(PosthogClient::new(base_url, api_key))
    }
}

/// The client's configuration: every request the queue carries is built
/// from these two values.
#[derive(Debug, Clone)]
pub struct PosthogClient {
    pub base_url: String,
    pub api_key: String,
}

/// The envelope of one capture event: what the event's JSON body holds
/// besides the fresh id and timestamp the runtime layer adds.
#[derive(Debug)]
pub struct EventEnvelope {
    pub api_key: String,
    pub distinct_id: String,
    pub event: String,
    pub properties: Vec<(String, PropValue)>,
}

/// The content of one flag-evaluation request.
#[derive(Debug)]
pub struct FlagsRequest {
    pub api_key: String,
    pub distinct_id: String,
    pub person_properties: Vec<(String, PropValue)>,
}

/// The filter a flag-evaluation request builds person properties with:
/// the person's properties verbatim and the client IP.
pub open spec fn flags_filter() -> PropertyFilter {
    PropertyFilter {
        include_person_properties: true,
        use_set_syntax: false,
        include_ip: true,
        include_feature_flags: false,
    }
}

impl PosthogClient {
    /// A builder for a client.
    pub fn builder() -> (b: PosthogClientBuilder)
        ensures
            b.base_url is None,
            b.api_key is None,
    {
        PosthogClientBuilder::new()
    }

    /// A client from its configuration.
    pub fn new(base_url: String, api_key: String) -> (c: Self)
        ensures
            c.base_url == base_url,
            c.api_key == api_key,
    {
        PosthogClient { base_url, api_key }
    }

    /// The envelope for capturing `event` against `person`: the client's API
    /// key, the person's distinct id, the event's name, and the full
    /// property list.
    pub fn event_envelope(&self, person: &Person, event: Event) -> (env: EventEnvelope)
        ensures
            env.api_key == self.api_key,
            env.distinct_id == person.distinct_id,
            env.event == event.name,
            is_event_props(event, *person, env.properties@),
    {
        let event_name = event.name.clone();
        let properties = event.build_properties(person);
        EventEnvelope {
            api_key: self.api_key.clone(),
            distinct_id: person.distinct_id.clone(),
            event: event_name,
            properties,
        }
    }

    /// The content of a flag-evaluation request for `person`.
    pub fn flags_request(&self, person: &Person) -> (r: FlagsRequest)
        ensures
            r.api_key == self.api_key,
            r.distinct_id == person.distinct_id,
            is_person_props(*person, flags_filter(), r.person_properties@),
    {
        let person_properties = person.build_properties(
            PropertyFilter::new().include_person_properties(true).include_ip(true),
        );
        FlagsRequest {
            api_key: self.api_key.clone(),
            distinct_id: person.distinct_id.clone(),
            person_properties,
        }
    }

    /// The request that fetches the early access features.
    pub fn early_access_request(&self) -> (r: PosthogRequest)
        ensures
            r == (PosthogRequest::GetEarlyAccessFeatures { api_key: self.api_key }),
    {
        PosthogRequest::GetEarlyAccessFeatures { api_key: self.api_key.clone() }
    }
}

} // verus!
