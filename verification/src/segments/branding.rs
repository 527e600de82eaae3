//! The segment that shows the brand of the service.

use vstd::prelude::*;
use vstd::string::*;
use super::SegmentData;
use super::SegmentId;

verus! {

/// The brand that is shown.
pub const BRAND: &'static str = "IKunCode";

/// Provider of the branding segment.
#[derive(Default)]
pub struct BrandingSegment;

impl BrandingSegment {
    /// The segment; it holds no state.
    pub fn new() -> (segment: Self)
        ensures
            segment == BrandingSegment,
    {
        BrandingSegment
    }

    /// The brand, shown exactly where the dedicated key is set; the balance
    /// plays no part in it.
    pub fn collect(&self, has_api_key: bool) -> (data: Option<SegmentData>)
        ensures
            match data {
                Some(d) => has_api_key && d.is_plain(BRAND@),
                None => !has_api_key,
            },
    {
        if has_api_key {
            Some(SegmentData::plain(String::from_str(BRAND)))
        } else {
            None
        }
    }

    /// The name under which the renderer knows this segment.
    pub fn id(&self) -> (id: SegmentId)
        ensures
            id == SegmentId::Branding,
    {
        SegmentId::Branding
    }
}

} // verus!
