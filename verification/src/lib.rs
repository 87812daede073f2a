//! The client core of a console for a data concentrator, which serves "data
//! nodes" over three protocol families: a generic key/value API, Modbus-TCP
//! register mappings and MQTT topic mappings.
//!
//! The crate decides and computes; it performs no call itself. Whoever uses
//! it performs the calls to the backend and hands over what they came to.
//!
//! - [`registry`]: the protocols and their backend paths.
//! - [`codec`]: the records, decoded from listings and encoded for submission.
//! - [`cache`]: listings fetched on demand, one fetch in flight per key.
//! - [`gate`]: creation in two phases, allocate an identifier, then submit.
//! - [`dispatch`]: from a route to what is rendered.
//! - [`form`]: the creation forms and the drafts made of their inputs.
//! - [`outcome`]: what a call came to, told apart into success and failures.
//! - [`json`], [`instant`]: JSON values and timestamps, as `serde_json` and
//!   `bson` read them.
//! - [`text`]: decimal numerals and string comparison.

pub mod cache;
pub mod codec;
pub mod dispatch;
pub mod form;
pub mod gate;
pub mod instant;
pub mod json;
pub mod outcome;
pub mod registry;
pub mod text;
