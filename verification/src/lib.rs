//! Client library for the PostHog event-ingestion API.
//!
//! The heart of the crate is the request queue in [`queue`]: submitted
//! requests are either dispatched at once or buffered, and buffered
//! capture events are coalesced into one batch call on each flush tick.

mod client;
mod decimal;
mod early_access;
mod error;
mod event;
mod feature_flag;
mod json;
mod person;
mod properties;
mod queue;

pub use client::{
    flags_filter, EventEnvelope, FlagsRequest, PosthogClient, PosthogClientBuilder,
};
pub use decimal::{dec_digits, dec_str, digit_char, i64_to_dec_string};
pub use early_access::EarlyAccessFeature;
pub use error::PosthogError;
pub use event::{
    feature_enrollment_event, feature_flag_called_event, identify_event, is_event_props, own_props,
    page_view_event, screen_view_event, Event, EventBuilder,
};
pub use feature_flag::{
    assoc_get, assoc_lookup, bool_flag_of, flags_response, int_flag_of, is_classified,
    is_collected_flag, is_flag_payload, json_flag_of, payload_bool, payload_int, payload_json,
    payload_text, str_flag_of, variant_text, variant_truthy, FeatureFlag, FeatureFlagCollection,
    FeatureFlagData,
};
pub use person::{
    base_len, base_seg_ok, event_filter, flag_entry_ok, flags_len, flags_seg_ok, ip_len, ip_seg_ok,
    is_person_props, Person, PersonBuilder, PropertyFilter,
};
pub use properties::{clone_scalar, clone_scalars, promote_scalar, promoted, PropScalar, PropValue};
pub use json::{json_text_of, parsed_json_of, value_bool_of, value_int_of, value_str_of};
pub use queue::{
    batch_bodies, batchable, endpoint_of, first_batch_key, individuals, is_flush_output,
    lemma_batching_correctness, lemma_flush_isolated, lemma_immediate_bypass,
    lemma_no_cross_contamination,
    lemma_waiter_delivery_exactly_once, method_of, path_chars, routes_now, status_is_success,
    waiter_entries, Endpoint, HttpMethod, PosthogRequest, QueueWorker, QueuedRequest,
};

