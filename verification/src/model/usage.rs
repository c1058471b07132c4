//! One observation of an account's counters.

use vstd::prelude::*;
use crate::model::time::Timestamp;

verus! {

/// Bytes in the unit that volumes are reported in (2^30).
pub const GIGABYTE: i64 = 1_073_741_824;

/// What the usage source reported at one moment. The counters accumulate
/// over a billing cycle; data volumes are in bytes, voice in minutes.
#[derive(Debug, PartialEq, Eq)]
pub struct UsageReading {
    /// Name of the plan.
    pub package_name: String,
    /// When the reading was taken.
    pub time: Timestamp,
    /// Data used.
    pub sum_flow_used: i64,
    /// Directed data used.
    pub limit_flow_used: i64,
    /// General data used.
    pub non_limit_flow_used: i64,
    /// Free data used.
    pub free_flow_used: i64,
    /// Paid data used.
    pub non_free_flow_used: i64,
    /// Data allotted.
    pub sum_flow: i64,
    /// Directed data allotted.
    pub limit_flow: i64,
    /// General data allotted.
    pub non_limit_flow: i64,
    /// Voice used.
    pub sum_voice_used: i64,
    /// Directed voice used.
    pub limit_voice_used: i64,
    /// General voice used.
    pub non_limit_voice_used: i64,
    /// Voice allotted.
    pub sum_voice: i64,
    /// Directed voice allotted.
    pub limit_voice: i64,
    /// General voice allotted.
    pub non_limit_voice: i64,
}

impl UsageReading {
    /// Whether every counter of the reading is zero.
    pub open spec fn counters_are_zero(self) -> bool {
        &&& self.sum_flow_used == 0
        &&& self.limit_flow_used == 0
        &&& self.non_limit_flow_used == 0
        &&& self.free_flow_used == 0
        &&& self.non_free_flow_used == 0
        &&& self.sum_flow == 0
        &&& self.limit_flow == 0
        &&& self.non_limit_flow == 0
        &&& self.sum_voice_used == 0
        &&& self.limit_voice_used == 0
        &&& self.non_limit_voice_used == 0
        &&& self.sum_voice == 0
        &&& self.limit_voice == 0
        &&& self.non_limit_voice == 0
    }
}

impl Clone for UsageReading {
    fn clone(&self) -> (copy: Self)
        ensures
            copy == *self,
    {
        UsageReading {
            package_name: self.package_name.clone(),
            time: self.time,
            sum_flow_used: self.sum_flow_used,
            limit_flow_used: self.limit_flow_used,
            non_limit_flow_used: self.non_limit_flow_used,
            free_flow_used: self.free_flow_used,
            non_free_flow_used: self.non_free_flow_used,
            sum_flow: self.sum_flow,
            limit_flow: self.limit_flow,
            non_limit_flow: self.non_limit_flow,
            sum_voice_used: self.sum_voice_used,
            limit_voice_used: self.limit_voice_used,
            non_limit_voice_used: self.non_limit_voice_used,
            sum_voice: self.sum_voice,
            limit_voice: self.limit_voice,
            non_limit_voice: self.non_limit_voice,
        }
    }
}

impl Default for UsageReading {
    /// A reading taken at the epoch, of a plan without a name and with all
    /// counters at zero.
    fn default() -> (made: Self)
        ensures
            made.package_name@ == Seq::<char>::empty(),
            made.time.seconds() == 0,
            made.time.utc_offset() == 0,
            made.counters_are_zero(),
    {
        UsageReading {
            package_name: String::new(),
            time: Timestamp::epoch(),
            sum_flow_used: 0,
            limit_flow_used: 0,
            non_limit_flow_used: 0,
            free_flow_used: 0,
            non_free_flow_used: 0,
            sum_flow: 0,
            limit_flow: 0,
            non_limit_flow: 0,
            sum_voice_used: 0,
            limit_voice_used: 0,
            non_limit_voice_used: 0,
            sum_voice: 0,
            limit_voice: 0,
            non_limit_voice: 0,
        }
    }
}

} // verus!
