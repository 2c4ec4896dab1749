//! The monotonic clock and the shared timestamp cell that a probe ticks.
//!
//! Nothing in this file is proved: it gives the verifier the types and the
//! calls that the probe needs from `std::time` and from the `atomic` crate.

use atomic::Atomic;
use std::sync::Arc;
use std::time::Duration;
use std::time::Instant;
use vstd::prelude::*;

verus! {

/// `std::time::Instant`, a point on the monotonic clock. Opaque to the verifier.
#[verifier::external_type_specification]
#[verifier::external_body]
pub struct ExInstant(std::time::Instant);

/// `atomic::Atomic<T>`, a cell that is read and written without a lock. The
/// verifier sees of a cell only which cell it is, never what it holds.
#[verifier::external_type_specification]
#[verifier::external_body]
#[verifier::reject_recursive_types(T)]
pub struct ExAtomic<T>(atomic::Atomic<T>);

/// A timestamp cell as probes share it.
pub type TickCell = Arc<Atomic<Instant>>;

/// `Instant::now`: the current reading of the monotonic clock. Nothing is
/// claimed of the reading.
#[verifier::external_body]
pub(crate) fn now() -> Instant {
    Instant::now()
}

/// Where an instant lies on the monotonic clock, in nanoseconds from the
/// clock's origin.
pub uninterp spec fn instant_nanos(t: Instant) -> int;

/// The length of a duration in nanoseconds, as `Duration::as_nanos` gives it.
pub uninterp spec fn duration_nanos(d: Duration) -> nat;

/// `Instant::duration_since`: the time from `earlier` to `later`, and no time
/// at all where `earlier` is in fact the later of the two.
#[verifier::external_body]
pub(crate) fn elapsed_between(earlier: &Instant, later: &Instant) -> (d: Duration)
    ensures
        duration_nanos(d) == if instant_nanos(*later) >= instant_nanos(*earlier) {
            instant_nanos(*later) - instant_nanos(*earlier)
        } else {
            0
        },
{
    later.duration_since(*earlier)
}

/// `Duration::as_nanos`: the whole duration in nanoseconds.
#[verifier::external_body]
pub(crate) fn nanos_of(d: &Duration) -> (nanos: u128)
    ensures
        nanos == duration_nanos(*d),
{
    d.as_nanos()
}

/// `Duration::from_secs`: the duration of `secs` whole seconds, each of them a
/// thousand million nanoseconds.
#[verifier::external_body]
pub(crate) fn seconds(secs: u64) -> (d: Duration)
    ensures
        duration_nanos(d) == secs as nat * 1_000_000_000,
{
    Duration::from_secs(secs)
}

/// `Atomic::new`: a fresh cell holding `at`. Nothing is claimed of the cell, so
/// the verifier can never take two cells made here for one.
#[verifier::external_body]
pub(crate) fn new_cell(at: Instant) -> Atomic<Instant> {
    Atomic::new(at)
}

/// `Atomic::store` with sequentially consistent ordering. The cell stays the
/// cell it was; what it holds is outside the verifier's view.
#[verifier::external_body]
pub(crate) fn store_cell(cell: &Atomic<Instant>, at: Instant) {
    cell.store(at, std::sync::atomic::Ordering::SeqCst)
}

/// `Atomic::load` with sequentially consistent ordering. Another holder may
/// have stored in between, so nothing is claimed of the value read.
#[verifier::external_body]
pub(crate) fn load_cell(cell: &Atomic<Instant>) -> Instant {
    cell.load(std::sync::atomic::Ordering::SeqCst)
}

/// `Arc::clone`: a second handle to the cell behind `cell`. Both handles lead
/// to one allocation, which to the verifier is one value.
#[verifier::external_body]
pub(crate) fn share_cell(cell: &TickCell) -> (shared: TickCell)
    ensures
        shared == *cell,
{
    Arc::clone(cell)
}

/// `Arc::ptr_eq`: whether two handles lead to one allocation. A cell's value in
/// contracts stands for the cell itself, so this is equality of those values.
#[verifier::external_body]
pub(crate) fn same_cell(a: &TickCell, b: &TickCell) -> (same: bool)
    ensures
        same == (*a == *b),
{
    Arc::ptr_eq(a, b)
}

} // verus!
