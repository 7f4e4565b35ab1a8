//! A verified builder library for "rich presence" activity values.
//!
//! An activity describes what a user is currently doing: status text,
//! timestamps, party membership, art assets, join/spectate secrets,
//! clickable buttons, and a numeric activity kind.  Every field is
//! optional; values are assembled fluently, each setter returning the
//! updated owned value.
//!
//! A finished activity is rendered into a wire structure — a key/value
//! record that omits every unset field, renames the activity kind to
//! `"type"`, and encodes it as its fixed numeric code.  The rendering
//! functions carry contracts that pin the rendered structure down
//! exactly, and the laws module proves the library-wide guarantees
//! (empty values render empty, updates are local, reserved codes are
//! never emitted).

pub mod activity;
pub mod laws;
pub mod render;
pub mod wire;
