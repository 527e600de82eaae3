//! The segment that shows the group of the account.

use vstd::prelude::*;
use crate::api::ApiConfig;
use crate::api::BalanceData;
use crate::api::config::ConfigSource;
use crate::api::config::resolve;
use crate::api::config::resolved;
use super::SegmentData;
use super::SegmentId;

verus! {

/// Provider of the group segment.
#[derive(Default)]
pub struct GroupSegment;

impl GroupSegment {
    /// The segment; it holds no state.
    pub fn new() -> (segment: Self)
        ensures
            segment == GroupSegment,
    {
        GroupSegment
    }

    /// The settings with which this segment has the balance looked up. The
    /// dedicated key is required: without it the segment makes no lookup,
    /// whatever else the environment offers.
    pub fn resolve_config(&self, source: ConfigSource) -> (config: Option<ApiConfig>)
        ensures
            config is Some <==> source.api_key is Some,
            match config {
                Some(c) => resolved(source) == Some(c@),
                None => resolved(source) is None,
            },
    {
        resolve(source)
    }

    /// The segment for what the engine resolved: the name of the group, and
    /// no segment where there is no balance or the balance names no group.
    pub fn collect(&self, balance: Option<&BalanceData>) -> (data: Option<SegmentData>)
        ensures
            match balance {
                Some(b) if b.group@.len() > 0 => data matches Some(d) && d.is_plain(b.group@),
                _ => data is None,
            },
    {
        match balance {
            Some(b) => {
                if b.group.as_str().is_empty() {
                    None
                } else {
                    Some(SegmentData::plain(b.group.clone()))
                }
            },
            None => None,
        }
    }

    /// The name under which the renderer knows this segment.
    pub fn id(&self) -> (id: SegmentId)
        ensures
            id == SegmentId::Group,
    {
        SegmentId::Group
    }
}

} // verus!
