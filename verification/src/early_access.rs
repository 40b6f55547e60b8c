//! Early access features, as the catalog endpoint describes them.

use vstd::prelude::*;

verus! {

/// One early access feature from the catalog.
#[derive(Debug, Clone)]
pub struct EarlyAccessFeature {
    pub id: String,
    pub name: String,
    pub description: String,
    pub stage: String,
    pub feature_flag: String,
}

impl EarlyAccessFeature {
    /// The feature's id.
    pub fn id(&self) -> (r: &str)
        ensures
            r@ == self.id@,
    {
        self.id.as_str()
    }

    /// The feature's name.
    pub fn name(&self) -> (r: &str)
        ensures
            r@ == self.name@,
    {
        self.name.as_str()
    }

    /// The feature's description.
    pub fn description(&self) -> (r: &str)
        ensures
            r@ == self.description@,
    {
        self.description.as_str()
    }

    /// The stage the feature is in.
    pub fn stage(&self) -> (r: &str)
        ensures
            r@ == self.stage@,
    {
        self.stage.as_str()
    }

    /// The key of the feature flag that gates the feature.
    pub fn feature_flag(&self) -> (r: &str)
        ensures
            r@ == self.feature_flag@,
    {
        self.feature_flag.as_str()
    }
}

} // verus!
