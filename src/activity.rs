//! What a presence shows: two text lines, a timer and up to two images.
//! Every field is optional; an absent field is left out of what is sent.

use vstd::prelude::*;

verus! {

/// A presence description. Built fresh for each desired state with the
/// consuming builder methods below.
#[derive(Debug, Clone)]
pub struct Activity {
    /// First text line.
    pub details: Option<String>,
    /// Second text line.
    pub state: Option<String>,
    /// Start and end of the displayed timer.
    pub timestamps: Option<ActivityTimestamps>,
    /// Large and small image.
    pub assets: Option<ActivityAssets>,
}

/// Start and end instants, in seconds since the Unix epoch.
#[derive(Debug, Clone, Copy)]
pub struct ActivityTimestamps {
    pub start: Option<i64>,
    pub end: Option<i64>,
}

/// Image keys and their tooltips. A tooltip has no visible effect unless
/// its image key is set.
#[derive(Debug, Clone)]
pub struct ActivityAssets {
    pub large_image: Option<String>,
    pub large_text: Option<String>,
    pub small_image: Option<String>,
    pub small_text: Option<String>,
}

/// The activity with every field absent.
pub open spec fn empty_activity() -> Activity {
    Activity { details: None, state: None, timestamps: None, assets: None }
}

/// The asset pair with every field absent.
pub open spec fn empty_assets() -> ActivityAssets {
    ActivityAssets { large_image: None, large_text: None, small_image: None, small_text: None }
}

/// The assets of `a`, or the empty pair when it has none.
pub open spec fn assets_or_empty(a: Activity) -> ActivityAssets {
    match a.assets {
        Some(s) => s,
        None => empty_assets(),
    }
}

#[verifier::external_type_specification]
#[verifier::external_body]
pub struct ExSystemTime(std::time::SystemTime);

#[verifier::external_type_specification]
#[verifier::external_body]
pub struct ExSystemTimeError(std::time::SystemTimeError);

/// Relies on std::time::SystemTime::now for the current wall-clock time, of
/// which nothing can be promised.
pub assume_specification[ std::time::SystemTime::now ]() -> std::time::SystemTime;

/// Relies on std::time::Duration::as_secs for the whole seconds of a span.
pub assume_specification[ std::time::Duration::as_secs ](d: &std::time::Duration) -> u64;

/// Relies on std::time::SystemTime::duration_since for the span from the Unix
/// epoch to `t`; it is an error when `t` lies before the epoch.
#[verifier::external_body]
fn since_unix_epoch(t: std::time::SystemTime) -> (r: Result<std::time::Duration, std::time::SystemTimeError>) {
    t.duration_since(std::time::UNIX_EPOCH)
}

/// The current wall-clock time in whole seconds since the Unix epoch; a
/// clock set before the epoch reads as 0.
fn unix_time_now() -> i64 {
    match since_unix_epoch(std::time::SystemTime::now()) {
        Ok(d) => d.as_secs() as i64,
        Err(_) => 0,
    }
}

impl Default for ActivityTimestamps {
    fn default() -> (r: ActivityTimestamps)
        ensures
            r.start is None && r.end is None,
    {
        ActivityTimestamps { start: None, end: None }
    }
}

impl Default for ActivityAssets {
    fn default() -> (r: ActivityAssets)
        ensures
            r == empty_assets(),
    {
        ActivityAssets { large_image: None, large_text: None, small_image: None, small_text: None }
    }
}

impl Default for Activity {
    fn default() -> (r: Activity)
        ensures
            r == empty_activity(),
    {
        Activity { details: None, state: None, timestamps: None, assets: None }
    }
}

impl ActivityTimestamps {
    /// A timer that starts at `now` and has no end.
    pub fn starting_at(now: i64) -> (r: ActivityTimestamps)
        ensures
            r.start == Some(now),
            r.end is None,
    {
        ActivityTimestamps { start: Some(now), end: None }
    }

    /// A timer that starts at the current wall-clock time and has no end.
    pub fn from_now() -> (r: ActivityTimestamps)
        ensures
            r.start is Some,
            r.end is None,
    {
        ActivityTimestamps::starting_at(unix_time_now())
    }
}

impl Activity {
    /// An activity with every field absent.
    pub fn new() -> (r: Activity)
        ensures
            r == empty_activity(),
    {
        Activity { details: None, state: None, timestamps: None, assets: None }
    }

    /// Sets the first text line.
    pub fn details(self, details: String) -> (r: Activity)
        ensures
            r == (Activity { details: Some(details), ..self }),
    {
        Activity { details: Some(details), ..self }
    }

    /// Sets the second text line.
    pub fn state(self, state: String) -> (r: Activity)
        ensures
            r == (Activity { state: Some(state), ..self }),
    {
        Activity { state: Some(state), ..self }
    }

    /// Sets a timer that starts at `now` and has no end.
    pub fn start_timestamp_at(self, now: i64) -> (r: Activity)
        ensures
            r == (Activity { timestamps: Some(ActivityTimestamps { start: Some(now), end: None }), ..self }),
    {
        Activity { timestamps: Some(ActivityTimestamps::starting_at(now)), ..self }
    }

    /// Sets a timer that starts at the current wall-clock time and has no end.
    pub fn start_timestamp(self) -> (r: Activity)
        ensures
            exists|now: i64| r == (Activity { timestamps: Some(ActivityTimestamps { start: Some(now), end: None }), ..self }),
    {
        self.start_timestamp_at(unix_time_now())
    }

    /// Sets the timer.
    pub fn timestamps(self, timestamps: ActivityTimestamps) -> (r: Activity)
        ensures
            r == (Activity { timestamps: Some(timestamps), ..self }),
    {
        Activity { timestamps: Some(timestamps), ..self }
    }

    /// Sets both images at once.
    pub fn assets(self, assets: ActivityAssets) -> (r: Activity)
        ensures
            r == (Activity { assets: Some(assets), ..self }),
    {
        Activity { assets: Some(assets), ..self }
    }

    /// Sets the large image and its tooltip; the small image is kept.
    pub fn large_image(self, key: String, text: Option<String>) -> (r: Activity)
        ensures
            r == (Activity {
                assets: Some(ActivityAssets { large_image: Some(key), large_text: text, ..assets_or_empty(self) }),
                ..self
            }),
    {
        let base = match self.assets {
            Some(a) => a,
            None => ActivityAssets::default(),
        };
        let assets = ActivityAssets { large_image: Some(key), large_text: text, ..base };
        Activity { details: self.details, state: self.state, timestamps: self.timestamps, assets: Some(assets) }
    }

    /// Sets the small image and its tooltip; the large image is kept.
    pub fn small_image(self, key: String, text: Option<String>) -> (r: Activity)
        ensures
            r == (Activity {
                assets: Some(ActivityAssets { small_image: Some(key), small_text: text, ..assets_or_empty(self) }),
                ..self
            }),
    {
        let base = match self.assets {
            Some(a) => a,
            None => ActivityAssets::default(),
        };
        let assets = ActivityAssets { small_image: Some(key), small_text: text, ..base };
        Activity { details: self.details, state: self.state, timestamps: self.timestamps, assets: Some(assets) }
    }
}

/// The activity for the given pieces: the two text lines as given, a timer
/// started now when `elapsed` is set, and each image with its tooltip when
/// its key is given. A tooltip without its image key is dropped.
pub fn build_activity(
    details: Option<String>,
    state: Option<String>,
    elapsed: bool,
    large_image: Option<String>,
    large_text: Option<String>,
    small_image: Option<String>,
    small_text: Option<String>,
) -> (r: Activity)
    ensures
        r.details == details,
        r.state == state,
        elapsed <==> r.timestamps is Some,
        elapsed ==> r.timestamps->0.start is Some && r.timestamps->0.end is None,
        r.assets is None <==> large_image is None && small_image is None,
        r.assets is Some ==> {
            &&& r.assets->0.large_image == large_image
            &&& r.assets->0.large_text == (if large_image is Some { large_text } else { None })
            &&& r.assets->0.small_image == small_image
            &&& r.assets->0.small_text == (if small_image is Some { small_text } else { None })
        },
{
    let mut activity = Activity::new();
    if let Some(d) = details {
        activity = activity.details(d);
    }
    if let Some(s) = state {
        activity = activity.state(s);
    }
    if elapsed {
        activity = activity.start_timestamp();
    }
    if let Some(key) = large_image {
        activity = activity.large_image(key, large_text);
    }
    if let Some(key) = small_image {
        activity = activity.small_image(key, small_text);
    }
    activity
}

} // verus!
