//! The federation engine of a forum server, as verified decision logic.
//!
//! Instances exchange signed, typed activities. This library holds the
//! rules of that exchange; it reads no storage and opens no connection.
//!
//! - [`policy`]: the trust policy snapshot and its short-lived cache.
//! - [`validator`]: which URLs may be exchanged with under a policy.
//! - [`journal`]: the record of activity ids that guards against
//!   applying an activity twice.
//! - [`resolver`]: where an object is taken from, the check of fetched
//!   objects, and the fetch budget of one resolution.
//! - [`dispatcher`]: the states of an inbound activity, the verify phase
//!   of each activity type, and the effect to apply.
//! - [`delivery`]: the recipients of an outbound activity and the retry
//!   rule for each of them.
//! - [`following`], [`community`], [`comment`]: the objects and
//!   activities that the rules are applied to.
//! - [`claims`], [`utils`], [`notifications`], [`federated`],
//!   [`images`]: what the API around the engine checks and builds.

pub mod claims;
pub mod comment;
pub mod community;
pub mod delivery;
pub mod dispatcher;
pub mod error;
pub mod federated;
pub mod following;
pub mod images;
pub mod journal;
pub mod newtypes;
pub mod notifications;
pub mod policy;
pub mod resolver;
pub mod text;
pub mod utils;
pub mod validator;
