//! Provisioning of a WireGuard-compatible client configuration.
//!
//! The pipeline generates a fresh keypair, builds the JSON payload for the
//! upstream registration service, parses the service's nested JSON response,
//! and renders the final two-section configuration text. Every step that
//! computes is verified here; the HTTP delivery around it lives outside the
//! library and hands plain values in and out.

use vstd::prelude::*;

pub mod errors;
pub mod keys;
pub mod payload;
pub mod response;
pub mod timestamp;
pub mod warp;

verus! {

/// Relies on String::push, which appends the given character to the end of
/// the string.
pub assume_specification[ String::push ](s: &mut String, ch: char)
    ensures
        final(s)@ == old(s)@.push(ch),
;

} // verus!
