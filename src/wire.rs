//! The payload handed to the transport for an activity update. Each field
//! that the activity leaves absent is absent here too, so the host applies
//! its own default for it.

use vstd::prelude::*;
use crate::activity::{Activity, ActivityAssets, ActivityTimestamps};

verus! {

/// The timer object of the payload; only the present instants are sent.
#[derive(Debug, Clone, Copy)]
pub struct WireTimestamps {
    pub start: Option<i64>,
    pub end: Option<i64>,
}

/// The image object of the payload; only the present keys are sent.
#[derive(Debug, Clone)]
pub struct WireAssets {
    pub large_image: Option<String>,
    pub large_text: Option<String>,
    pub small_image: Option<String>,
    pub small_text: Option<String>,
}

/// The activity object of the payload.
#[derive(Debug, Clone)]
pub struct WireActivity {
    pub details: Option<String>,
    pub state: Option<String>,
    pub timestamps: Option<WireTimestamps>,
    pub assets: Option<WireAssets>,
}

pub open spec fn wire_timestamps_of(t: ActivityTimestamps) -> WireTimestamps {
    WireTimestamps { start: t.start, end: t.end }
}

pub open spec fn wire_assets_of(s: ActivityAssets) -> WireAssets {
    WireAssets {
        large_image: s.large_image,
        large_text: s.large_text,
        small_image: s.small_image,
        small_text: s.small_text,
    }
}

/// The payload for `a`: each present field is carried over, each absent one
/// stays absent.
pub open spec fn wire_of(a: Activity) -> WireActivity {
    WireActivity {
        details: a.details,
        state: a.state,
        timestamps: match a.timestamps {
            Some(t) => Some(wire_timestamps_of(t)),
            None => None,
        },
        assets: match a.assets {
            Some(s) => Some(wire_assets_of(s)),
            None => None,
        },
    }
}

/// The activity that a payload describes.
pub open spec fn activity_of_wire(w: WireActivity) -> Activity {
    Activity {
        details: w.details,
        state: w.state,
        timestamps: match w.timestamps {
            Some(t) => Some(ActivityTimestamps { start: t.start, end: t.end }),
            None => None,
        },
        assets: match w.assets {
            Some(s) => Some(
                ActivityAssets {
                    large_image: s.large_image,
                    large_text: s.large_text,
                    small_image: s.small_image,
                    small_text: s.small_text,
                },
            ),
            None => None,
        },
    }
}

/// Builds the payload for an activity.
pub fn to_wire(activity: Activity) -> (r: WireActivity)
    ensures
        r == wire_of(activity),
{
    let timestamps = match activity.timestamps {
        Some(t) => Some(WireTimestamps { start: t.start, end: t.end }),
        None => None,
    };
    let assets = match activity.assets {
        Some(s) => Some(
            WireAssets {
                large_image: s.large_image,
                large_text: s.large_text,
                small_image: s.small_image,
                small_text: s.small_text,
            },
        ),
        None => None,
    };
    WireActivity { details: activity.details, state: activity.state, timestamps, assets }
}

/// Reads an activity back out of a payload.
pub fn from_wire(wire: WireActivity) -> (r: Activity)
    ensures
        r == activity_of_wire(wire),
{
    let timestamps = match wire.timestamps {
        Some(t) => Some(ActivityTimestamps { start: t.start, end: t.end }),
        None => None,
    };
    let assets = match wire.assets {
        Some(s) => Some(
            ActivityAssets {
                large_image: s.large_image,
                large_text: s.large_text,
                small_image: s.small_image,
                small_text: s.small_text,
            },
        ),
        None => None,
    };
    Activity { details: wire.details, state: wire.state, timestamps, assets }
}

/// Reading back the payload built for an activity gives that activity, and a
/// field absent from the activity (at the top level, in its timer or in its
/// images) is absent from the payload.
pub proof fn lemma_wire_round_trip(a: Activity)
    ensures
        activity_of_wire(wire_of(a)) == a,
        a.details is None <==> wire_of(a).details is None,
        a.state is None <==> wire_of(a).state is None,
        a.timestamps is None <==> wire_of(a).timestamps is None,
        a.assets is None <==> wire_of(a).assets is None,
        a.timestamps is Some ==> {
            &&& a.timestamps->0.start is None <==> wire_of(a).timestamps->0.start is None
            &&& a.timestamps->0.end is None <==> wire_of(a).timestamps->0.end is None
        },
        a.assets is Some ==> {
            &&& a.assets->0.large_image is None <==> wire_of(a).assets->0.large_image is None
            &&& a.assets->0.large_text is None <==> wire_of(a).assets->0.large_text is None
            &&& a.assets->0.small_image is None <==> wire_of(a).assets->0.small_image is None
            &&& a.assets->0.small_text is None <==> wire_of(a).assets->0.small_text is None
        },
{
}

} // verus!
