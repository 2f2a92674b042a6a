//! The random stream that every draw of the generator comes from.
//!
//! The stream is the thread-local generator of the `rand` crate. It is
//! seeded by the system, so no draw can be foretold and nothing is claimed
//! of any. It reseeds itself after a while, and panics if the system then
//! has no entropy to give.

use rand::Rng;
use rand::ThreadRng;
use vstd::prelude::*;

verus! {

/// The thread-local generator of the `rand` crate, carried through as an
/// opaque handle.
#[verifier::external_type_specification]
#[verifier::external_body]
pub struct ExThreadRng(rand::ThreadRng);

/// Calls `rand::Rng::gen::<usize>` on the stream. Nothing is claimed of the
/// value: any `usize` may come back, and two draws need not agree.
#[verifier::external_body]
pub(crate) fn draw_usize(rng: &mut ThreadRng) -> (raw: usize) {
    rng.gen::<usize>()
}

/// Calls `rand::Rng::gen::<u16>` on the stream. Nothing is claimed of the
/// value.
#[verifier::external_body]
pub(crate) fn draw_u16(rng: &mut ThreadRng) -> (raw: u16) {
    rng.gen::<u16>()
}

/// Calls `rand::Rng::gen::<u8>` on the stream. Nothing is claimed of the
/// value.
#[verifier::external_body]
pub(crate) fn draw_u8(rng: &mut ThreadRng) -> (raw: u8) {
    rng.gen::<u8>()
}

} // verus!
