//! Identifiers of stored persons: 128-bit, time-ordered, minted by the `uuid`
//! crate and never supplied by a caller.

use vstd::prelude::*;

verus! {

/// Whether `id` is laid out as a version 7 (time-ordered) identifier: the
/// version field, bits 76 to 79, holds 7, and the variant field, bits 62 and
/// 63, holds binary `10`. The 48 bits above the version field are then a count
/// of milliseconds.
pub open spec fn is_version_7(id: u128) -> bool {
    (id >> 76) & 0xf == 7 && (id >> 62) & 0x3 == 2
}

/// Mints an identifier from the current time.
///
/// Trusted: the body calls `uuid::Uuid::now_v7` and hands the identifier out
/// as a number through `Uuid::as_u128`. All that is claimed is the layout that
/// `now_v7` writes whatever the clock and the random source give: version 7
/// and the RFC variant. That no value comes out twice is the promise of the
/// `uuid` crate and is not claimed here; callers test for it.
///
/// `now_v7` takes no input, so nothing can be asked of a caller to keep it
/// from panicking. It panics in two states of the machine: when the system
/// clock stands before the Unix epoch, and when the operating system gives
/// no random bytes.
#[verifier::external_body]
pub(crate) fn now_v7() -> (id: u128)
    ensures
        is_version_7(id),
{
    uuid::Uuid::now_v7().as_u128()
}

} // verus!
