//! A user's settings: how to reach the usage source, how often to ask, and
//! how much change is worth a report.

use vstd::prelude::*;
use vstd::string::StringExecFns;
use crate::utils::format::{decimal, gigabytes, push_decimal, push_gigabytes};

verus! {

/// The shortest polling interval, in seconds.
pub const MIN_INTERVAL: i64 = 60;

/// The staleness timeout of a new registration, in seconds.
pub const DEFAULT_TIMEOUT: i64 = 1800;

/// The paid-data threshold of a new registration: 0.05 GB, in bytes.
pub const DEFAULT_NONFREE_THRESHOLD: i64 = 53_687_091;

/// One user's configuration.
#[derive(Debug, PartialEq, Eq)]
pub struct Model {
    /// The user the configuration belongs to.
    pub user: String,
    /// The bot through which the user is reached.
    pub bot: String,
    /// The session cookie that the usage source accepts.
    pub cookie: String,
    /// The token that a new session cookie is obtained with.
    pub token_online: String,
    /// The application identity that goes with the token.
    pub app_id: String,
    /// Whether the repeating task is wanted.
    pub enable_task: bool,
    /// Seconds between two queries, at least `MIN_INTERVAL`.
    pub interval: i64,
    /// Seconds after which a reading is accepted whatever it holds.
    pub timeout: Option<i64>,
    /// Bytes of free data whose use is worth a report.
    pub free_threshold: Option<i64>,
    /// Bytes of paid data whose use is worth a report.
    pub nonfree_threshold: Option<i64>,
}

/// Why a setting was refused.
#[derive(Clone, Copy, Debug, PartialEq, Eq, Structural)]
pub enum ValidationError {
    /// The polling interval is below `MIN_INTERVAL`.
    IntervalTooShort,
}

/// A new value for one setting.
#[derive(Debug, PartialEq, Eq)]
pub enum Setting {
    /// A new session cookie.
    Cookie(String),
    /// A new polling interval, in seconds.
    Interval(i64),
    /// A new staleness timeout in seconds, or none.
    Timeout(Option<i64>),
    /// A new free-data threshold in bytes, or none.
    FreeThreshold(Option<i64>),
    /// A new paid-data threshold in bytes, or none.
    NonfreeThreshold(Option<i64>),
}

/// The line that shows an optional number of seconds.
pub open spec fn seconds_line(label: Seq<char>, value: Option<i64>) -> Seq<char> {
    match value {
        Some(secs) => label + decimal(secs as int) + "s\n"@,
        None => label + "None\n"@,
    }
}

/// The line that shows an optional data volume.
pub open spec fn volume_line(label: Seq<char>, value: Option<i64>) -> Seq<char> {
    match value {
        Some(bytes) => label + gigabytes(bytes as int) + " GB\n"@,
        None => label + "None\n"@,
    }
}

impl Model {
    /// Whether the configuration may be stored.
    pub open spec fn is_valid(self) -> bool {
        self.interval >= MIN_INTERVAL
    }

    /// The configuration with one setting replaced.
    pub open spec fn updated(self, setting: Setting) -> Model {
        match setting {
            Setting::Cookie(cookie) => Model { cookie, ..self },
            Setting::Interval(interval) => Model { interval, ..self },
            Setting::Timeout(timeout) => Model { timeout, ..self },
            Setting::FreeThreshold(free_threshold) => Model { free_threshold, ..self },
            Setting::NonfreeThreshold(nonfree_threshold) => Model { nonfree_threshold, ..self },
        }
    }

    /// What `to_string` shows of the configuration.
    pub open spec fn description(self) -> Seq<char> {
        "Cookie: "@ + self.cookie@ + "\n"@
            + seconds_line("Interval: "@, Some(self.interval))
            + seconds_line("Timeout: "@, self.timeout)
            + volume_line("Free threshold: "@, self.free_threshold)
            + volume_line("Nonfree threshold: "@, self.nonfree_threshold)
    }

    /// Whether the configuration may be stored.
    pub fn validate(&self) -> (checked: Result<(), ValidationError>)
        ensures
            checked.is_ok() == self.is_valid(),
            checked.is_err() ==> checked == Err::<(), ValidationError>(ValidationError::IntervalTooShort),
    {
        if self.interval >= MIN_INTERVAL {
            Ok(())
        } else {
            Err(ValidationError::IntervalTooShort)
        }
    }

    /// The seconds that the user's task sleeps between two queries, for a
    /// configuration that may be stored.
    pub fn poll_seconds(&self) -> (secs: Result<u64, ValidationError>)
        ensures
            secs.is_ok() == self.is_valid(),
            secs matches Ok(interval) ==> interval == self.interval,
            secs matches Err(e) ==> e == ValidationError::IntervalTooShort,
    {
        if self.interval >= MIN_INTERVAL {
            Ok(self.interval as u64)
        } else {
            Err(ValidationError::IntervalTooShort)
        }
    }

    /// The configuration of a user who registers with these credentials:
    /// the defaults, for `user` on `bot`.
    pub fn register(
        user: String,
        bot: String,
        cookie: String,
        app_id: String,
        token_online: String,
    ) -> (made: Model)
        ensures
            made == (Model {
                user,
                bot,
                cookie,
                app_id,
                token_online,
                enable_task: true,
                interval: MIN_INTERVAL,
                timeout: Some(DEFAULT_TIMEOUT),
                free_threshold: None,
                nonfree_threshold: Some(DEFAULT_NONFREE_THRESHOLD),
            }),
            made.is_valid(),
    {
        Model {
            user,
            bot,
            cookie,
            app_id,
            token_online,
            enable_task: true,
            interval: MIN_INTERVAL,
            timeout: Some(DEFAULT_TIMEOUT),
            free_threshold: None,
            nonfree_threshold: Some(DEFAULT_NONFREE_THRESHOLD),
        }
    }

    /// The configuration with one setting replaced. An interval below
    /// `MIN_INTERVAL` is refused; every other value is taken as it is.
    pub fn set(self, setting: Setting) -> (changed: Result<Model, ValidationError>)
        ensures
            changed.is_err() <==> (setting matches Setting::Interval(secs) && secs < MIN_INTERVAL),
            changed matches Ok(model) ==> model == self.updated(setting),
            changed matches Err(e) ==> e == ValidationError::IntervalTooShort,
            self.is_valid() ==> (changed matches Ok(model) ==> model.is_valid()),
    {
        let mut model = self;
        match setting {
            Setting::Cookie(cookie) => {
                model.cookie = cookie;
            },
            Setting::Interval(interval) => {
                if interval < MIN_INTERVAL {
                    return Err(ValidationError::IntervalTooShort);
                }
                model.interval = interval;
            },
            Setting::Timeout(timeout) => {
                model.timeout = timeout;
            },
            Setting::FreeThreshold(free_threshold) => {
                model.free_threshold = free_threshold;
            },
            Setting::NonfreeThreshold(nonfree_threshold) => {
                model.nonfree_threshold = nonfree_threshold;
            },
        }
        Ok(model)
    }

    /// The configuration with the task wanted or not.
    pub fn with_enable_task(self, enable_task: bool) -> (changed: Model)
        ensures
            changed == (Model { enable_task, ..self }),
    {
        let mut model = self;
        model.enable_task = enable_task;
        model
    }

    /// The configuration with a new session cookie and the token that
    /// came with it.
    pub fn with_credentials(self, cookie: String, token_online: String) -> (changed: Model)
        ensures
            changed == (Model { cookie, token_online, ..self }),
    {
        let mut model = self;
        model.cookie = cookie;
        model.token_online = token_online;
        model
    }

    /// The settings of the configuration, one to a line.
    pub fn to_string(&self) -> (text: String)
        ensures
            text@ == self.description(),
    {
        let mut text = String::new();
        text.append("Cookie: ");
        text.append(self.cookie.as_str());
        text.append("\n");
        push_seconds_line(&mut text, "Interval: ", Some(self.interval));
        push_seconds_line(&mut text, "Timeout: ", self.timeout);
        push_volume_line(&mut text, "Free threshold: ", self.free_threshold);
        push_volume_line(&mut text, "Nonfree threshold: ", self.nonfree_threshold);
        assert(text@ =~= self.description());
        text
    }
}

fn push_seconds_line(out: &mut String, label: &str, value: Option<i64>)
    ensures
        final(out)@ == old(out)@ + seconds_line(label@, value),
{
    out.append(label);
    match value {
        Some(secs) => {
            push_decimal(out, secs);
            out.append("s\n");
        },
        None => {
            out.append("None\n");
        },
    }
    assert(out@ =~= old(out)@ + seconds_line(label@, value));
}

fn push_volume_line(out: &mut String, label: &str, value: Option<i64>)
    ensures
        final(out)@ == old(out)@ + volume_line(label@, value),
{
    out.append(label);
    match value {
        Some(bytes) => {
            push_gigabytes(out, bytes as i128);
            out.append(" GB\n");
        },
        None => {
            out.append("None\n");
        },
    }
    assert(out@ =~= old(out)@ + volume_line(label@, value));
}

impl Clone for Model {
    fn clone(&self) -> (copy: Self)
        ensures
            copy == *self,
    {
        Model {
            user: self.user.clone(),
            bot: self.bot.clone(),
            cookie: self.cookie.clone(),
            token_online: self.token_online.clone(),
            app_id: self.app_id.clone(),
            enable_task: self.enable_task,
            interval: self.interval,
            timeout: self.timeout,
            free_threshold: self.free_threshold,
            nonfree_threshold: self.nonfree_threshold,
        }
    }
}

impl Default for Model {
    /// The settings of a new registration, for no user yet.
    fn default() -> (made: Self)
        ensures
            made.user@ == Seq::<char>::empty(),
            made.bot@ == Seq::<char>::empty(),
            made.cookie@ == Seq::<char>::empty(),
            made.token_online@ == Seq::<char>::empty(),
            made.app_id@ == Seq::<char>::empty(),
            made.enable_task,
            made.interval == MIN_INTERVAL,
            made.timeout == Some(DEFAULT_TIMEOUT),
            made.free_threshold == None::<i64>,
            made.nonfree_threshold == Some(DEFAULT_NONFREE_THRESHOLD),
            made.is_valid(),
    {
        Model {
            user: String::new(),
            bot: String::new(),
            cookie: String::new(),
            token_online: String::new(),
            app_id: String::new(),
            enable_task: true,
            interval: MIN_INTERVAL,
            timeout: Some(DEFAULT_TIMEOUT),
            free_threshold: None,
            nonfree_threshold: Some(DEFAULT_NONFREE_THRESHOLD),
        }
    }
}

} // verus!
