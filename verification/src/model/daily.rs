//! The reference point of the current day.

use vstd::prelude::*;
use vstd::std_specs::convert::FromSpecImpl;
use crate::model::time::Timestamp;
use crate::model::usage::UsageReading;

verus! {

/// The reading against which the change since the day began is measured.
#[derive(Debug, PartialEq, Eq)]
pub struct Model {
    /// The user the record belongs to.
    pub user: String,
    /// The bot through which the user is reached.
    pub bot: String,
    /// Name of the plan.
    pub package_name: String,
    /// When the reading was taken.
    pub time: Timestamp,
    /// Data used, in bytes.
    pub sum_flow_used: i64,
    /// Directed data used, in bytes.
    pub limit_flow_used: i64,
    /// General data used, in bytes.
    pub non_limit_flow_used: i64,
    /// Free data used, in bytes.
    pub free_flow_used: i64,
    /// Paid data used, in bytes.
    pub non_free_flow_used: i64,
    /// Data allotted, in bytes.
    pub sum_flow: i64,
    /// Directed data allotted, in bytes.
    pub limit_flow: i64,
    /// General data allotted, in bytes.
    pub non_limit_flow: i64,
    /// Voice used, in minutes.
    pub sum_voice_used: i64,
    /// Directed voice used, in minutes.
    pub limit_voice_used: i64,
    /// General voice used, in minutes.
    pub non_limit_voice_used: i64,
    /// Voice allotted, in minutes.
    pub sum_voice: i64,
    /// Directed voice allotted, in minutes.
    pub limit_voice: i64,
    /// General voice allotted, in minutes.
    pub non_limit_voice: i64,
}

impl Model {
    /// The record that holds `data` for `user` on `bot`.
    pub open spec fn from_reading(data: UsageReading, user: String, bot: String) -> Model {
        Model {
            user,
            bot,
            package_name: data.package_name,
            time: data.time,
            sum_flow_used: data.sum_flow_used,
            limit_flow_used: data.limit_flow_used,
            non_limit_flow_used: data.non_limit_flow_used,
            free_flow_used: data.free_flow_used,
            non_free_flow_used: data.non_free_flow_used,
            sum_flow: data.sum_flow,
            limit_flow: data.limit_flow,
            non_limit_flow: data.non_limit_flow,
            sum_voice_used: data.sum_voice_used,
            limit_voice_used: data.limit_voice_used,
            non_limit_voice_used: data.non_limit_voice_used,
            sum_voice: data.sum_voice,
            limit_voice: data.limit_voice,
            non_limit_voice: data.non_limit_voice,
        }
    }

    /// The reading that the record holds.
    pub open spec fn reading(self) -> UsageReading {
        UsageReading {
            package_name: self.package_name,
            time: self.time,
            sum_flow_used: self.sum_flow_used,
            limit_flow_used: self.limit_flow_used,
            non_limit_flow_used: self.non_limit_flow_used,
            free_flow_used: self.free_flow_used,
            non_free_flow_used: self.non_free_flow_used,
            sum_flow: self.sum_flow,
            limit_flow: self.limit_flow,
            non_limit_flow: self.non_limit_flow,
            sum_voice_used: self.sum_voice_used,
            limit_voice_used: self.limit_voice_used,
            non_limit_voice_used: self.non_limit_voice_used,
            sum_voice: self.sum_voice,
            limit_voice: self.limit_voice,
            non_limit_voice: self.non_limit_voice,
        }
    }

    /// The reading that the record holds.
    pub fn to_reading(&self) -> (data: UsageReading)
        ensures
            data == self.reading(),
    {
        UsageReading {
            package_name: self.package_name.clone(),
            time: self.time,
            sum_flow_used: self.sum_flow_used,
            limit_flow_used: self.limit_flow_used,
            non_limit_flow_used: self.non_limit_flow_used,
            free_flow_used: self.free_flow_used,
            non_free_flow_used: self.non_free_flow_used,
            sum_flow: self.sum_flow,
            limit_flow: self.limit_flow,
            non_limit_flow: self.non_limit_flow,
            sum_voice_used: self.sum_voice_used,
            limit_voice_used: self.limit_voice_used,
            non_limit_voice_used: self.non_limit_voice_used,
            sum_voice: self.sum_voice,
            limit_voice: self.limit_voice,
            non_limit_voice: self.non_limit_voice,
        }
    }
}

impl Clone for Model {
    fn clone(&self) -> (copy: Self)
        ensures
            copy == *self,
    {
        Model {
            user: self.user.clone(),
            bot: self.bot.clone(),
            package_name: self.package_name.clone(),
            time: self.time,
            sum_flow_used: self.sum_flow_used,
            limit_flow_used: self.limit_flow_used,
            non_limit_flow_used: self.non_limit_flow_used,
            free_flow_used: self.free_flow_used,
            non_free_flow_used: self.non_free_flow_used,
            sum_flow: self.sum_flow,
            limit_flow: self.limit_flow,
            non_limit_flow: self.non_limit_flow,
            sum_voice_used: self.sum_voice_used,
            limit_voice_used: self.limit_voice_used,
            non_limit_voice_used: self.non_limit_voice_used,
            sum_voice: self.sum_voice,
            limit_voice: self.limit_voice,
            non_limit_voice: self.non_limit_voice,
        }
    }
}

impl Default for Model {
    /// A record of no user, holding the reading that
    /// `UsageReading::default` makes.
    fn default() -> (made: Self)
        ensures
            made.user@ == Seq::<char>::empty(),
            made.bot@ == Seq::<char>::empty(),
            made.reading().package_name@ == Seq::<char>::empty(),
            made.reading().time.seconds() == 0,
            made.reading().time.utc_offset() == 0,
            made.reading().counters_are_zero(),
    {
        Model {
            user: String::new(),
            bot: String::new(),
            package_name: String::new(),
            time: Timestamp::epoch(),
            sum_flow_used: 0,
            limit_flow_used: 0,
            non_limit_flow_used: 0,
            free_flow_used: 0,
            non_free_flow_used: 0,
            sum_flow: 0,
            limit_flow: 0,
            non_limit_flow: 0,
            sum_voice_used: 0,
            limit_voice_used: 0,
            non_limit_voice_used: 0,
            sum_voice: 0,
            limit_voice: 0,
            non_limit_voice: 0,
        }
    }
}

impl From<Model> for UsageReading {
    /// The reading that the record holds.
    fn from(daily: Model) -> (data: UsageReading) {
        UsageReading {
            package_name: daily.package_name,
            time: daily.time,
            sum_flow_used: daily.sum_flow_used,
            limit_flow_used: daily.limit_flow_used,
            non_limit_flow_used: daily.non_limit_flow_used,
            free_flow_used: daily.free_flow_used,
            non_free_flow_used: daily.non_free_flow_used,
            sum_flow: daily.sum_flow,
            limit_flow: daily.limit_flow,
            non_limit_flow: daily.non_limit_flow,
            sum_voice_used: daily.sum_voice_used,
            limit_voice_used: daily.limit_voice_used,
            non_limit_voice_used: daily.non_limit_voice_used,
            sum_voice: daily.sum_voice,
            limit_voice: daily.limit_voice,
            non_limit_voice: daily.non_limit_voice,
        }
    }
}

impl FromSpecImpl<Model> for UsageReading {
    open spec fn obeys_from_spec() -> bool {
        true
    }

    open spec fn from_spec(daily: Model) -> UsageReading {
        daily.reading()
    }
}

/// The day's reference point that `data` makes for `user`.
pub fn build_daily(data: UsageReading, user: String, bot: String) -> (model: Model)
    ensures
        model == Model::from_reading(data, user, bot),
        model.user == user,
        model.bot == bot,
        model.reading() == data,
{
    Model {
        user: user,
        bot: bot,
        package_name: data.package_name,
        time: data.time,
        sum_flow_used: data.sum_flow_used,
        limit_flow_used: data.limit_flow_used,
        non_limit_flow_used: data.non_limit_flow_used,
        free_flow_used: data.free_flow_used,
        non_free_flow_used: data.non_free_flow_used,
        sum_flow: data.sum_flow,
        limit_flow: data.limit_flow,
        non_limit_flow: data.non_limit_flow,
        sum_voice_used: data.sum_voice_used,
        limit_voice_used: data.limit_voice_used,
        non_limit_voice_used: data.non_limit_voice_used,
        sum_voice: data.sum_voice,
        limit_voice: data.limit_voice,
        non_limit_voice: data.non_limit_voice,
    }
}

} // verus!
