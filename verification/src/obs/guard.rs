//! Scope guard that records a single call.
//!
//! [`CallGuard`] ties the lifecycle of one forwarded GraftX call to a scope: once
//! it is gone, exactly one call has been recorded in the borrowed [`ObsRegistry`].
//! Byte counts default to zero and are set with
//! [`set_bytes`](CallGuard::set_bytes) once known.
//!
//! The call enters the registry when it begins, with no bytes, and new byte counts
//! take the place of the old ones there. The registry is borrowed for as long as
//! the guard lives, so whoever looks at it next finds the one call with the counts
//! that were set last; nothing is left to do when the guard goes out of scope.
use vstd::prelude::*;

use super::{CallStats, ObsRegistry};

verus! {

/// Scope guard that records one call against an [`ObsRegistry`].
///
/// Construct with [`begin`]; when the guard goes out of scope, a single call has
/// been recorded with the most recently set byte counts.
#[derive(Debug)]
pub struct CallGuard<'a> {
    /// The API name the call is recorded under.
    pub api: &'static str,
    /// The opcode of the call.
    pub opcode: u32,
    /// The statistics of the API without this call.
    pub earlier: CallStats,
    /// The statistics of the API with this call, in the registry.
    pub stats: &'a mut CallStats,
}

impl<'a> CallGuard<'a> {
    /// Update the byte counts that the call is recorded with.
    ///
    /// Each call overwrites the previous values; only the final values are
    /// recorded, and the guard always records exactly one call regardless of
    /// how many times this is invoked.
    pub fn set_bytes(&mut self, bytes_out: u64, bytes_in: u64)
        ensures
            *final(self).stats == old(self).earlier.recorded(bytes_out, bytes_in),
            *final(final(self).stats) == *final(old(self).stats),
            final(self).earlier == old(self).earlier,
            final(self).api == old(self).api,
            final(self).opcode == old(self).opcode,
    {
        *self.stats = self.earlier;
        self.stats.record(bytes_out, bytes_in);
    }
}

/// Begin a guarded call against `registry`.
///
/// Byte counts start at zero and can be updated with [`CallGuard::set_bytes`]
/// before the guard goes out of scope. The registry then holds, under `api`, what
/// the guard last wrote there, and is otherwise as it was.
pub fn begin<'a>(registry: &'a mut ObsRegistry, api: &'static str, opcode: u32) -> (guard:
    CallGuard<'a>)
    requires
        old(registry).inv(),
    ensures
        guard.api == api,
        guard.opcode == opcode,
        guard.earlier == super::registry::stats_of(old(registry)@, api@),
        *guard.stats == guard.earlier.recorded(0, 0),
        final(registry).inv(),
        final(registry)@ == old(registry)@.insert(api@, *final(guard.stats)),
        forall|more: CallStats|
            *final(guard.stats) == #[trigger] guard.earlier.plus(more)
                ==> super::registry::total_of(final(registry).spec_rows())
                == super::registry::total_of(old(registry).spec_rows()).plus(more),
{
    let stats = registry.entry(api);
    let earlier = *stats;
    stats.record(0, 0);
    CallGuard { api, opcode, earlier, stats }
}

/// A call that has begun counts once under its name, without bytes; what the guard
/// leaves behind is what the registry then holds under that name, and every other
/// name keeps its statistics.
pub proof fn law_begun_call_counts(
    registry: &mut ObsRegistry,
    api: &'static str,
    opcode: u32,
    guard: CallGuard,
    other: Seq<char>,
)
    requires
        call_ensures(begin, (registry, api, opcode), guard),
    ensures
        ({
            let was = if old(registry)@.contains_key(api@) {
                old(registry)@[api@]
            } else {
                (CallStats { calls: 0, bytes_out: 0, bytes_in: 0 })
            };
            &&& guard.api@ == api@
            &&& guard.opcode == opcode
            &&& guard.earlier == was
            &&& old(guard.stats).calls == super::capped(was.calls + 1)
            &&& old(guard.stats).bytes_out == was.bytes_out
            &&& old(guard.stats).bytes_in == was.bytes_in
        }),
        final(registry)@.contains_key(api@),
        final(registry)@[api@] == *final(guard.stats),
        other != api@ ==> final(registry)@.contains_key(other) == old(registry)@.contains_key(
            other,
        ),
        other != api@ && old(registry)@.contains_key(other) ==> final(registry)@[other]
            == old(registry)@[other],
{
}

/// Byte counts that are set replace those that were set before: the call still
/// counts once, with the bytes set last on top of what was there before it began.
pub proof fn law_bytes_set_last(guard: &mut CallGuard, bytes_out: u64, bytes_in: u64)
    requires
        call_ensures(CallGuard::set_bytes, (guard, bytes_out, bytes_in), ()),
    ensures
        final(guard).stats.calls == super::capped(old(guard).earlier.calls + 1),
        final(guard).stats.bytes_out == super::capped(old(guard).earlier.bytes_out + bytes_out),
        final(guard).stats.bytes_in == super::capped(old(guard).earlier.bytes_in + bytes_in),
        final(guard).earlier == old(guard).earlier,
        final(guard).api@ == old(guard).api@,
        final(guard).opcode == old(guard).opcode,
{
}

} // verus!
