//! Rich Presence core: the activity model, the wire payload built from it,
//! the registry of application identities and the presence session.

pub mod activity;
pub mod config;
pub mod error;
pub mod session;
pub mod wire;

pub use activity::{build_activity, Activity, ActivityAssets, ActivityTimestamps};
pub use config::{mask_application_id, Config, ENV_INDEX_MAX};
pub use error::Error;
pub use session::{connect_error, PresenceSession, MIN_UPDATE_INTERVAL_MS};
pub use wire::{from_wire, to_wire, WireActivity, WireAssets, WireTimestamps};
