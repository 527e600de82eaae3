//! The segment that shows the remaining balance.

use vstd::prelude::*;
use crate::api::ApiConfig;
use crate::api::BalanceData;
use crate::api::config::ConfigSource;
use crate::api::config::resolve;
use crate::api::config::resolved;
use super::SegmentData;
use super::SegmentId;

verus! {

/// Provider of the balance segment.
#[derive(Default)]
pub struct BalanceSegment;

impl BalanceSegment {
    /// The segment; it holds no state.
    pub fn new() -> (segment: Self)
        ensures
            segment == BalanceSegment,
    {
        BalanceSegment
    }

    /// The settings with which this segment has the balance looked up. The
    /// dedicated key is required: without it the segment makes no lookup,
    /// whatever else the environment offers.
    pub fn resolve_config(&self, source: ConfigSource) -> (config: Option<ApiConfig>)
        ensures
            config is Some <==> source.api_key is Some,
            match config {
                Some(c) => resolved(source) == Some(c@),
                None => resolved(source) is None,
            },
    {
        resolve(source)
    }

    /// The segment for what the engine resolved: the display text of the
    /// balance, and no segment where there is no balance.
    pub fn collect(&self, balance: Option<&BalanceData>) -> (data: Option<SegmentData>)
        ensures
            match balance {
                Some(b) => data matches Some(d) && d.is_plain(b.display()),
                None => data is None,
            },
    {
        match balance {
            Some(b) => Some(SegmentData::plain(b.format_display())),
            None => None,
        }
    }

    /// The name under which the renderer knows this segment.
    pub fn id(&self) -> (id: SegmentId)
        ensures
            id == SegmentId::Balance,
    {
        SegmentId::Balance
    }
}

} // verus!
