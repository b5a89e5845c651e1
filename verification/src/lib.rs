//! Typed call bindings from pallet metadata.
//!
//! For every call that a pallet declares, the library derives the payload
//! struct, the identity that binds the struct to its pallet and call, and the
//! accessor that a client uses to submit the call. Each accessor embeds the
//! hash of the call's shape as the metadata described it at generation time;
//! before it builds a payload it compares that hash with the one the live
//! runtime reports, and refuses to go on when the two differ.
//!
//! Every contract is stated over the views of the types in [`schema`] and
//! [`artifact`], and is proved by Verus.

pub mod artifact;
pub mod assemble;
pub mod dispatch;
pub mod hash;
pub mod laws;
pub mod names;
pub mod schema;
pub mod shape;
pub mod synth;
