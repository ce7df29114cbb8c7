use vstd::prelude::*;

use crate::codec::{decode, encode, flag_char, valid_flag, well_formed};
use crate::list::{cleaned, cleared, is_pending, toggled};
use crate::task::TaskModel;

verus! {

/// Saving a list and loading what was saved gives back the same tasks, in
/// the same order, with the same names and flags: the records written for
/// any list are well formed and decode to that list.
pub proof fn lemma_round_trip(s: Seq<TaskModel>)
    ensures
        well_formed(encode(s)),
        decode(encode(s)) == s,
{
    assert forall|i: int| 0 <= i < encode(s).len() implies valid_flag(#[trigger] encode(s)[i].1) by {
        assert(encode(s)[i].1 == flag_char(s[i].completed));
    }
    assert(decode(encode(s)) =~= s);
}

/// Clearing twice leaves the same empty list as clearing once.
pub proof fn lemma_clear_idempotent(s: Seq<TaskModel>)
    ensures
        cleared(cleared(s)) == cleared(s),
        cleared(s).len() == 0,
{
}

/// After cleaning, no task is done, every pending task is still there, and
/// the survivors keep their relative order: cutting the list anywhere,
/// those from before the cut come first.
pub proof fn lemma_clean_keeps_pending_in_order(s: Seq<TaskModel>)
    ensures
        forall|i: int| 0 <= i < cleaned(s).len() ==> !(#[trigger] cleaned(s)[i]).completed,
        forall|i: int| 0 <= i < s.len() && !s[i].completed ==> #[trigger] cleaned(s).contains(s[i]),
        forall|j: int|
            0 <= j <= s.len() ==> cleaned(s) == #[trigger] cleaned(s.take(j)) + cleaned(s.skip(j)),
{
    let p = |t: TaskModel| is_pending(t);
    assert forall|i: int| 0 <= i < cleaned(s).len() implies !(#[trigger] cleaned(s)[i]).completed by {
        s.lemma_filter_pred(p, i);
    }
    assert forall|i: int| 0 <= i < s.len() && !s[i].completed implies #[trigger] cleaned(s).contains(
        s[i],
    ) by {
        s.lemma_filter_contains(p, i);
    }
    assert forall|j: int| 0 <= j <= s.len() implies cleaned(s) == #[trigger] cleaned(s.take(j))
        + cleaned(s.skip(j)) by {
        assert(s == s.take(j) + s.skip(j));
        Seq::filter_distributes_over_add(s.take(j), s.skip(j), p);
    }
}

/// Toggling the same task twice restores the list.
pub proof fn lemma_toggle_involution(s: Seq<TaskModel>, i: int)
    requires
        0 <= i < s.len(),
    ensures
        toggled(toggled(s, i), i) == s,
{
    assert(toggled(toggled(s, i), i) =~= s);
}

} // verus!
