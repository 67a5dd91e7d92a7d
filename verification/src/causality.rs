//! The causality engine plugin's identity: its name, description and the
//! topic it listens on.
use vstd::prelude::*;

verus! {

/// The plugin definition of the causality (evict-leader analysis) engine.
#[derive(Debug, Default)]
pub struct CausalityEnginePluginDef;

impl CausalityEnginePluginDef {
    /// A new plugin definition.
    pub fn new() -> (r: Self) {
        CausalityEnginePluginDef
    }

    /// The plugin's name: `causality_engine`.
    pub fn name(&self) -> (r: &'static str)
        ensures
            r@ == "causality_engine"@,
    {
        "causality_engine"
    }

    /// The plugin's description.
    pub fn description(&self) -> (r: &'static str)
        ensures
            r@ == "TiDB Evict Leader Analysis Engine"@,
    {
        "TiDB Evict Leader Analysis Engine"
    }

    /// The one topic the plugin listens on: `causality_engine`.
    pub fn topics(&self) -> (r: Vec<String>)
        ensures
            r.deep_view() == seq!["causality_engine"@],
    {
        let mut v: Vec<String> = Vec::new();
        v.push(String::from_str("causality_engine"));
        proof {
            assert(v.deep_view() =~= seq!["causality_engine"@]);
        }
        v
    }
}

/// A step recommended to even out region leaders: what to do, on which
/// store, why, and how urgent it is.
#[derive(Debug, Clone)]
pub struct EvictAction {
    pub action_type: String,
    pub target_store: String,
    pub reason: String,
    pub priority: u8,
}

} // verus!
