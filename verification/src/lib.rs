//! Join-as-new-party step of a threshold-ECDSA distributed key refresh.

pub mod errors;
pub mod primitives;
pub mod refresh_message;
pub mod add_party;
