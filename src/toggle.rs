//! The unit of work that runs against a shared buffer: read one byte at a
//! random offset, switch the case of a letter, write it back.
use vstd::prelude::*;
use rand::Rng;
use crate::shared::SharedStorage;

verus! {

/// How many units one batch runs side by side.
pub const BATCH_SIZE: usize = 4;

/// How many batches run between two renders of the buffer.
pub const BATCHES_PER_RENDER: usize = 10000;

/// An ASCII lowercase letter.
pub open spec fn is_lower(b: u8) -> bool {
    97 <= b <= 122
}

/// An ASCII uppercase letter.
pub open spec fn is_upper(b: u8) -> bool {
    65 <= b <= 90
}

/// An ASCII letter of either case.
pub open spec fn is_letter(b: u8) -> bool {
    is_lower(b) || is_upper(b)
}

/// A letter in the other case; any other byte as it is.
pub open spec fn toggled(b: u8) -> u8 {
    if is_lower(b) {
        (b - 32) as u8
    } else if is_upper(b) {
        (b + 32) as u8
    } else {
        b
    }
}

/// Switches the case of an ASCII letter and leaves any other byte alone.
pub fn toggle_case(b: u8) -> (r: u8)
    ensures
        r == toggled(b),
{
    if 97 <= b && b <= 122 {
        b - 32
    } else if 65 <= b && b <= 90 {
        b + 32
    } else {
        b
    }
}

/// Relies on rand's `thread_rng().gen_range(0..len)`: a value in `[0, len)`,
/// which panics on an empty range, hence `len > 0`.
#[verifier::external_body]
fn random_offset(len: usize) -> (r: usize)
    requires
        len > 0,
    ensures
        r < len,
{
    rand::thread_rng().gen_range(0..len)
}

/// Toggles the byte at `pos`: one locked read, then one locked write, with
/// no lock held in between. Returns the byte read and the byte written.
pub fn switch_case_at(shared: &SharedStorage, pos: usize) -> (r: (u8, u8))
    requires
        pos < shared.length(),
    ensures
        r.1 == toggled(r.0),
{
    let mut buf: [u8; 1] = [0];
    let _ = shared.read(pos, &mut buf);
    let before = buf[0];
    let after = toggle_case(before);
    buf[0] = after;
    let _ = shared.write(pos, &buf);
    (before, after)
}

/// Toggles the byte at an offset drawn uniformly from the buffer. Returns
/// the offset, the byte read there and the byte written back.
pub fn switch_case(shared: &SharedStorage) -> (r: (usize, u8, u8))
    requires
        shared.length() > 0,
    ensures
        r.0 < shared.length(),
        r.2 == toggled(r.1),
{
    let len = shared.len();
    let pos = random_offset(len);
    let (before, after) = switch_case_at(shared, pos);
    (pos, before, after)
}

/// Toggling a byte twice gives it back: a letter returns to its first case,
/// and any other byte never changed.
pub proof fn lemma_toggle_twice(b: u8)
    ensures
        toggled(toggled(b)) == b,
{
}

/// `cur` has the length of `orig`, a letter wherever `orig` has one, and
/// `orig`'s own byte everywhere else.
pub open spec fn keeps_classes(orig: Seq<u8>, cur: Seq<u8>) -> bool {
    &&& cur.len() == orig.len()
    &&& forall|i: int|
        0 <= i < orig.len() ==> if is_letter(#[trigger] orig[i]) {
            is_letter(cur[i])
        } else {
            cur[i] == orig[i]
        }
}

/// A run of toggle units in any interleaving, as the buffer's successive
/// states. Step `k` is a unit that writes at position `steps[k].1` the
/// toggle of the byte it read there from an earlier state `steps[k].0`,
/// which may be stale: another unit may have written since.
pub open spec fn is_toggle_run(states: Seq<Seq<u8>>, steps: Seq<(nat, nat)>) -> bool {
    &&& states.len() == steps.len() + 1
    &&& forall|k: int|
        0 <= k < steps.len() ==> {
            let (j, p) = #[trigger] steps[k];
            &&& j <= k
            &&& p < states[k].len()
            &&& states[k + 1] == states[k].update(p as int, toggled(states[j as int][p as int]))
        }
}

/// However toggle units interleave, and whatever updates they lose, the
/// buffer keeps its length, letters stay letters and every other byte stays
/// as it was.
pub proof fn lemma_toggle_run_keeps_classes(states: Seq<Seq<u8>>, steps: Seq<(nat, nat)>)
    requires
        is_toggle_run(states, steps),
    ensures
        forall|k: int| 0 <= k < states.len() ==> keeps_classes(states[0], #[trigger] states[k]),
{
    lemma_prefix_keeps_classes(states, steps, steps.len() as int);
}

proof fn lemma_prefix_keeps_classes(states: Seq<Seq<u8>>, steps: Seq<(nat, nat)>, n: int)
    requires
        is_toggle_run(states, steps),
        0 <= n <= steps.len(),
    ensures
        forall|k: int| 0 <= k <= n ==> keeps_classes(states[0], #[trigger] states[k]),
    decreases n,
{
    if n > 0 {
        lemma_prefix_keeps_classes(states, steps, n - 1);
        let (j, p) = steps[n - 1];
        let orig = states[0];
        let prev = states[n - 1];
        let seen = states[j as int];
        assert(keeps_classes(orig, prev));
        assert(keeps_classes(orig, seen));
        assert(states[n] == prev.update(p as int, toggled(seen[p as int])));
        assert forall|i: int| 0 <= i < orig.len() implies if is_letter(#[trigger] orig[i]) {
            is_letter(states[n][i])
        } else {
            states[n][i] == orig[i]
        } by {
            if i == p {
                assert(seen[i] == seen[p as int]);
            }
        }
    }
}

} // verus!
