//! Temp-directory hygiene: the slot that remembers the live clone directory, so that
//! an interrupt or a crash can remove it, and the rule that tells a stale clone
//! directory left by an earlier run.

use vstd::prelude::*;
use vstd::string::*;
use crate::chars::{starts_with, starts_with_vec};
use crate::text::chars_of;

verus! {

/// Clone directories older than this, in seconds, are left over from an earlier run.
pub const ORPHAN_MAX_AGE_SECS: u64 = 3600;

/// The name prefix of clone directories.
pub open spec fn clone_prefix() -> Seq<char> {
    "rust-to-you-clone-"@
}

/// The name prefix of clone directories, as text.
pub fn clone_prefix_text() -> (s: String)
    ensures
        s@ == clone_prefix(),
{
    String::from_str("rust-to-you-clone-")
}

/// The live clone directory, if there is one.
#[derive(Debug, Clone, PartialEq, Eq)]
pub struct TempSlot {
    pub path: Option<String>,
}

/// An empty slot.
pub fn slot() -> (s: TempSlot)
    ensures
        s.path is None,
{
    TempSlot { path: None }
}

/// The slot after remembering `p`.
pub open spec fn after_register(p: String) -> TempSlot {
    TempSlot { path: Some(p) }
}

/// What taking hands out, and the slot it leaves.
pub open spec fn after_take(s: TempSlot) -> (Option<String>, TempSlot) {
    (s.path, TempSlot { path: None })
}

/// Remembers `p` as the live clone directory.
pub fn register_live_temp(s: &mut TempSlot, p: String)
    ensures
        *final(s) == after_register(p),
{
    s.path = Some(p);
}

/// Forgets the live clone directory (it was removed or handed over).
pub fn clear_live_temp(s: &mut TempSlot)
    ensures
        final(s).path is None,
{
    s.path = None;
}

/// Hands out the live clone directory for removal and empties the slot.
pub fn take_live_temp(s: &mut TempSlot) -> (p: Option<String>)
    ensures
        (p, *final(s)) == after_take(*old(s)),
{
    s.path.take()
}

/// Taking after registering `p` hands out `p`, and a second take hands out nothing:
/// cleaning up twice removes the directory once.
pub proof fn law_slot_round_trip(p: String, s: TempSlot)
    ensures
        after_take(after_register(p)).0 == Some(p),
        after_take(after_take(s).1).0 is None,
        after_take(after_take(s).1).1 == after_take(s).1,
{
}

/// A directory entry is a stale clone: its name has the clone prefix, it is a
/// directory, and its age is known and at least `max_age_secs`.
pub open spec fn is_orphan_spec(name: Seq<char>, is_dir: bool, age_secs: Option<u64>, max_age_secs: u64) -> bool {
    &&& starts_with(name, clone_prefix())
    &&& is_dir
    &&& age_secs matches Some(a) && a >= max_age_secs
}

/// Whether a directory entry is a clone directory left over from an earlier run.
/// `age_secs` is how long ago it was modified, in whole seconds, when that is known
/// and not in the future.
pub fn is_orphan(name: &str, is_dir: bool, age_secs: Option<u64>, max_age_secs: u64) -> (r: bool)
    ensures
        r == is_orphan_spec(name@, is_dir, age_secs, max_age_secs),
{
    let prefix = clone_prefix_text();
    if !starts_with_vec(&chars_of(name), &chars_of(prefix.as_str())) {
        return false;
    }
    if !is_dir {
        return false;
    }
    match age_secs {
        Some(a) => a >= max_age_secs,
        None => false,
    }
}

} // verus!
