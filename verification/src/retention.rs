//! Selection of expired archive records under an age and/or count policy,
//! and the per-candidate decisions that keep the store consistent with the
//! file system under partial failure.

use vstd::prelude::*;
use crate::record::{ArchiveRecord, DirectorySpec};

verus! {

/// `b` was made strictly more recently than `a`. Ties on `created_at` are
/// broken by the store-assigned `id`, which is unique, so `newer` is a
/// strict total order on the records of one source path.
pub open spec fn newer(a: ArchiveRecord, b: ArchiveRecord) -> bool {
    b.created_at > a.created_at || (b.created_at == a.created_at && b.id > a.id)
}

/// How many of the first `upto` records of `all` belong to the same source
/// path as `r` and are newer than `r`.
pub open spec fn count_newer_upto(all: Seq<ArchiveRecord>, r: ArchiveRecord, upto: int) -> int
    decreases upto,
{
    if upto <= 0 {
        0
    } else {
        count_newer_upto(all, r, upto - 1) + if all[upto - 1].source_path@ == r.source_path@
            && newer(r, all[upto - 1]) {
            1int
        } else {
            0int
        }
    }
}

/// How many records of `all` share `r`'s source path and are newer than `r`.
pub open spec fn count_newer(all: Seq<ArchiveRecord>, r: ArchiveRecord) -> int {
    count_newer_upto(all, r, all.len() as int)
}

/// Age policy: `r` was created strictly earlier than `now - max_age`
/// (both in seconds). With no age limit, nothing is age-expired.
pub open spec fn age_expired(r: ArchiveRecord, now: int, max_age: Option<u64>) -> bool {
    match max_age {
        Option::Some(a) => r.created_at < now - a,
        Option::None => false,
    }
}

/// Count policy: `r` is beyond the `max_backups` most recent records of its
/// source path, i.e. at least `max_backups` records of `all` with the same
/// source path are newer than `r`. With no count limit, nothing is
/// count-expired.
pub open spec fn count_expired(
    r: ArchiveRecord,
    all: Seq<ArchiveRecord>,
    max_backups: Option<u64>,
) -> bool {
    match max_backups {
        Option::Some(k) => count_newer(all, r) >= k,
        Option::None => false,
    }
}

/// A record is expired when either policy selects it (union of candidates).
pub open spec fn is_expired(
    r: ArchiveRecord,
    all: Seq<ArchiveRecord>,
    now: int,
    max_age: Option<u64>,
    max_backups: Option<u64>,
) -> bool {
    age_expired(r, now, max_age) || count_expired(r, all, max_backups)
}

/// The expired records among the first `upto` of `all`, in store order.
pub open spec fn selected_upto(
    all: Seq<ArchiveRecord>,
    now: int,
    max_age: Option<u64>,
    max_backups: Option<u64>,
    upto: int,
) -> Seq<ArchiveRecord>
    decreases upto,
{
    if upto <= 0 {
        Seq::empty()
    } else {
        selected_upto(all, now, max_age, max_backups, upto - 1) + if is_expired(
            all[upto - 1],
            all,
            now,
            max_age,
            max_backups,
        ) {
            seq![all[upto - 1]]
        } else {
            Seq::empty()
        }
    }
}

/// All expired records of `all`, in store order.
pub open spec fn selected(
    all: Seq<ArchiveRecord>,
    now: int,
    max_age: Option<u64>,
    max_backups: Option<u64>,
) -> Seq<ArchiveRecord> {
    selected_upto(all, now, max_age, max_backups, all.len() as int)
}

/// The surviving records among the first `upto` of `all`, in store order.
pub open spec fn survivors_upto(
    all: Seq<ArchiveRecord>,
    now: int,
    max_age: Option<u64>,
    max_backups: Option<u64>,
    upto: int,
) -> Seq<ArchiveRecord>
    decreases upto,
{
    if upto <= 0 {
        Seq::empty()
    } else {
        survivors_upto(all, now, max_age, max_backups, upto - 1) + if is_expired(
            all[upto - 1],
            all,
            now,
            max_age,
            max_backups,
        ) {
            Seq::empty()
        } else {
            seq![all[upto - 1]]
        }
    }
}

/// The records `evict` leaves in the store, in store order.
pub open spec fn survivors(
    all: Seq<ArchiveRecord>,
    now: int,
    max_age: Option<u64>,
    max_backups: Option<u64>,
) -> Seq<ArchiveRecord> {
    survivors_upto(all, now, max_age, max_backups, all.len() as int)
}

proof fn lemma_count_prefix(s: Seq<ArchiveRecord>, x: ArchiveRecord, r: ArchiveRecord, upto: int)
    requires
        0 <= upto <= s.len(),
    ensures
        count_newer_upto(s.push(x), r, upto) == count_newer_upto(s, r, upto),
    decreases upto,
{
    if upto > 0 {
        lemma_count_prefix(s, x, r, upto - 1);
        assert(s.push(x)[upto - 1] == s[upto - 1]);
    }
}

proof fn lemma_count_push(s: Seq<ArchiveRecord>, x: ArchiveRecord, r: ArchiveRecord)
    ensures
        count_newer(s.push(x), r) == count_newer(s, r) + if x.source_path@ == r.source_path@
            && newer(r, x) {
            1int
        } else {
            0int
        },
{
    lemma_count_prefix(s, x, r, s.len() as int);
    assert(s.push(x)[s.len() as int] == x);
}

proof fn lemma_count_survivors(
    all: Seq<ArchiveRecord>,
    now: int,
    max_age: Option<u64>,
    max_backups: Option<u64>,
    upto: int,
    r: ArchiveRecord,
)
    requires
        0 <= upto <= all.len(),
    ensures
        count_newer(survivors_upto(all, now, max_age, max_backups, upto), r)
            <= count_newer_upto(all, r, upto),
    decreases upto,
{
    if upto > 0 {
        lemma_count_survivors(all, now, max_age, max_backups, upto - 1, r);
        let prev = survivors_upto(all, now, max_age, max_backups, upto - 1);
        let x = all[upto - 1];
        if is_expired(x, all, now, max_age, max_backups) {
            assert(survivors_upto(all, now, max_age, max_backups, upto) =~= prev);
        } else {
            assert(survivors_upto(all, now, max_age, max_backups, upto) =~= prev.push(x));
            lemma_count_push(prev, x, r);
        }
    }
}

proof fn lemma_survivors_member(
    all: Seq<ArchiveRecord>,
    now: int,
    max_age: Option<u64>,
    max_backups: Option<u64>,
    upto: int,
    j: int,
)
    requires
        0 <= upto <= all.len(),
        0 <= j < survivors_upto(all, now, max_age, max_backups, upto).len(),
    ensures
        exists|i: int|
            0 <= i < upto && all[i] == survivors_upto(all, now, max_age, max_backups, upto)[j]
                && !is_expired(all[i], all, now, max_age, max_backups),
    decreases upto,
{
    let surv = survivors_upto(all, now, max_age, max_backups, upto);
    let prev = survivors_upto(all, now, max_age, max_backups, upto - 1);
    let x = all[upto - 1];
    if is_expired(x, all, now, max_age, max_backups) {
        assert(surv =~= prev);
        lemma_survivors_member(all, now, max_age, max_backups, upto - 1, j);
    } else {
        if j < prev.len() {
            assert(surv[j] == prev[j]);
            lemma_survivors_member(all, now, max_age, max_backups, upto - 1, j);
        } else {
            assert(surv[j] == x);
            assert(0 <= upto - 1 < upto && all[upto - 1] == surv[j] && !is_expired(
                all[upto - 1],
                all,
                now,
                max_age,
                max_backups,
            ));
        }
    }
}

/// Completeness of selection: every record the policy marks as expired is
/// in the selection — in particular a record older than `now - max_age` is
/// age-selected, and a record with `max_backups` newer siblings is
/// count-selected, whatever the other policy says.
pub proof fn lemma_selected_complete(
    all: Seq<ArchiveRecord>,
    now: int,
    max_age: Option<u64>,
    max_backups: Option<u64>,
    i: int,
)
    requires
        0 <= i < all.len(),
        is_expired(all[i], all, now, max_age, max_backups),
    ensures
        selected(all, now, max_age, max_backups).contains(all[i]),
{
    lemma_selected_complete_upto(all, now, max_age, max_backups, all.len() as int, i);
}

proof fn lemma_selected_complete_upto(
    all: Seq<ArchiveRecord>,
    now: int,
    max_age: Option<u64>,
    max_backups: Option<u64>,
    upto: int,
    i: int,
)
    requires
        0 <= i < upto <= all.len(),
        is_expired(all[i], all, now, max_age, max_backups),
    ensures
        selected_upto(all, now, max_age, max_backups, upto).contains(all[i]),
    decreases upto,
{
    let sel = selected_upto(all, now, max_age, max_backups, upto);
    let prev = selected_upto(all, now, max_age, max_backups, upto - 1);
    if i < upto - 1 {
        lemma_selected_complete_upto(all, now, max_age, max_backups, upto - 1, i);
        let j = choose|j: int| 0 <= j < prev.len() && #[trigger] prev[j] == all[i];
        assert(sel[j] == all[i]);
    } else {
        assert(sel[prev.len() as int] == all[i]);
    }
}

/// Soundness of selection: everything in the selection is a record of the
/// store marked as expired by the policy — nothing younger than both limits
/// is ever evicted.
pub proof fn lemma_selected_sound(
    all: Seq<ArchiveRecord>,
    now: int,
    max_age: Option<u64>,
    max_backups: Option<u64>,
    j: int,
)
    requires
        0 <= j < selected(all, now, max_age, max_backups).len(),
    ensures
        exists|i: int|
            0 <= i < all.len() && all[i] == selected(all, now, max_age, max_backups)[j]
                && is_expired(all[i], all, now, max_age, max_backups),
{
    lemma_selected_sound_upto(all, now, max_age, max_backups, all.len() as int, j);
}

proof fn lemma_selected_sound_upto(
    all: Seq<ArchiveRecord>,
    now: int,
    max_age: Option<u64>,
    max_backups: Option<u64>,
    upto: int,
    j: int,
)
    requires
        0 <= upto <= all.len(),
        0 <= j < selected_upto(all, now, max_age, max_backups, upto).len(),
    ensures
        exists|i: int|
            0 <= i < upto && all[i] == selected_upto(all, now, max_age, max_backups, upto)[j]
                && is_expired(all[i], all, now, max_age, max_backups),
    decreases upto,
{
    let sel = selected_upto(all, now, max_age, max_backups, upto);
    let prev = selected_upto(all, now, max_age, max_backups, upto - 1);
    let x = all[upto - 1];
    if is_expired(x, all, now, max_age, max_backups) {
        if j < prev.len() {
            assert(sel[j] == prev[j]);
            lemma_selected_sound_upto(all, now, max_age, max_backups, upto - 1, j);
        } else {
            assert(sel[j] == x);
            assert(0 <= upto - 1 < upto && all[upto - 1] == sel[j] && is_expired(
                all[upto - 1],
                all,
                now,
                max_age,
                max_backups,
            ));
        }
    } else {
        assert(sel =~= prev);
        lemma_selected_sound_upto(all, now, max_age, max_backups, upto - 1, j);
    }
}

proof fn lemma_selected_empty(
    s: Seq<ArchiveRecord>,
    now: int,
    max_age: Option<u64>,
    max_backups: Option<u64>,
    upto: int,
)
    requires
        0 <= upto <= s.len(),
        forall|j: int| 0 <= j < s.len() ==> !is_expired(#[trigger] s[j], s, now, max_age, max_backups),
    ensures
        selected_upto(s, now, max_age, max_backups, upto) == Seq::<ArchiveRecord>::empty(),
    decreases upto,
{
    if upto > 0 {
        lemma_selected_empty(s, now, max_age, max_backups, upto - 1);
        assert(selected_upto(s, now, max_age, max_backups, upto) =~= Seq::<
            ArchiveRecord,
        >::empty());
    }
}

proof fn lemma_partition_upto(
    all: Seq<ArchiveRecord>,
    now: int,
    max_age: Option<u64>,
    max_backups: Option<u64>,
    upto: int,
)
    requires
        0 <= upto <= all.len(),
    ensures
        selected_upto(all, now, max_age, max_backups, upto).len() + survivors_upto(
            all,
            now,
            max_age,
            max_backups,
            upto,
        ).len() == upto,
    decreases upto,
{
    if upto > 0 {
        lemma_partition_upto(all, now, max_age, max_backups, upto - 1);
    }
}

/// Eviction partitions the store: every record is either selected for
/// eviction or left as a survivor, and no record is both.
pub proof fn lemma_selection_partition(
    all: Seq<ArchiveRecord>,
    now: int,
    max_age: Option<u64>,
    max_backups: Option<u64>,
)
    ensures
        selected(all, now, max_age, max_backups).len() + survivors(
            all,
            now,
            max_age,
            max_backups,
        ).len() == all.len(),
{
    lemma_partition_upto(all, now, max_age, max_backups, all.len() as int);
}

/// Retention is idempotent: with no new archives and the same clock reading,
/// a second eviction pass over the records the first pass left behind
/// selects nothing.
pub proof fn lemma_retention_idempotent(
    all: Seq<ArchiveRecord>,
    now: int,
    max_age: Option<u64>,
    max_backups: Option<u64>,
)
    ensures
        selected(survivors(all, now, max_age, max_backups), now, max_age, max_backups) == Seq::<
            ArchiveRecord,
        >::empty(),
{
    let surv = survivors(all, now, max_age, max_backups);
    assert forall|j: int| 0 <= j < surv.len() implies !is_expired(
        #[trigger] surv[j],
        surv,
        now,
        max_age,
        max_backups,
    ) by {
        lemma_survivors_member(all, now, max_age, max_backups, all.len() as int, j);
        let i = choose|i: int|
            0 <= i < all.len() && all[i] == surv[j] && !is_expired(
                all[i],
                all,
                now,
                max_age,
                max_backups,
            );
        lemma_count_survivors(all, now, max_age, max_backups, all.len() as int, surv[j]);
    }
    lemma_selected_empty(surv, now, max_age, max_backups, surv.len() as int);
}

/// Counts the records of `all[0..upto]` with `r`'s source path that are
/// newer than `r`, matching `count_newer_upto`.
fn count_newer_exec(all: &Vec<ArchiveRecord>, r: &ArchiveRecord) -> (n: u64)
    ensures
        n == count_newer_upto(all@, *r, all@.len() as int),
{
    let mut n: u64 = 0;
    let mut j: usize = 0;
    while j < all.len()
        invariant
            0 <= j <= all@.len(),
            n == count_newer_upto(all@, *r, j as int),
            n <= j,
        decreases all@.len() - j,
    {
        let c = &all[j];
        if c.source_path == r.source_path && (c.created_at > r.created_at || (c.created_at
            == r.created_at && c.id > r.id)) {
            n = n + 1;
        }
        j = j + 1;
    }
    n
}

/// Selects every expired record of `all`, in store order: exactly those that
/// the age policy or the count policy (or both) mark as candidates.
pub fn select_expired(
    all: &Vec<ArchiveRecord>,
    now: i64,
    max_age: Option<u64>,
    max_backups: Option<u64>,
) -> (out: Vec<ArchiveRecord>)
    ensures
        out@ == selected(all@, now as int, max_age, max_backups),
{
    let mut out: Vec<ArchiveRecord> = Vec::new();
    let mut i: usize = 0;
    while i < all.len()
        invariant
            0 <= i <= all@.len(),
            out@ == selected_upto(all@, now as int, max_age, max_backups, i as int),
        decreases all@.len() - i,
    {
        let r = &all[i];
        let by_age = match max_age {
            Option::Some(a) => (r.created_at as i128) < (now as i128) - (a as i128),
            Option::None => false,
        };
        let by_count = match max_backups {
            Option::Some(k) => count_newer_exec(all, r) >= k,
            Option::None => false,
        };
        if by_age || by_count {
            out.push(r.duplicate());
            proof {
                assert(out@ =~= selected_upto(
                    all@,
                    now as int,
                    max_age,
                    max_backups,
                    i + 1,
                ));
            }
        }
        i = i + 1;
    }
    out
}

/// Selects the eviction candidates for one directory under its configured
/// policy: exactly the records of `all` that are age-expired, count-expired,
/// or both.
pub fn evict_candidates(all: &Vec<ArchiveRecord>, now: i64, spec: &DirectorySpec) -> (out: Vec<
    ArchiveRecord,
>)
    ensures
        out@ == selected(all@, now as int, spec.max_age, spec.max_backups),
{
    select_expired(all, now, spec.max_age, spec.max_backups)
}

/// What happened when the backing file of one candidate was deleted.
///
/// `NotFound` means the file was already gone: the record described a file
/// that no longer exists, which is a safe dangling reference, so the record
/// is still removed. Any other failure leaves the candidate unresolved.
#[derive(Clone, Copy, PartialEq, Eq, Structural, Debug)]
pub enum DeleteOutcome {
    Deleted,
    NotFound,
    Failed,
}

/// The store ids to remove among the first `upto` candidates: everyone
/// whose file is gone (deleted now, or already missing).
pub open spec fn removed_upto(
    cands: Seq<ArchiveRecord>,
    outcomes: Seq<DeleteOutcome>,
    upto: int,
) -> Seq<i64>
    decreases upto,
{
    if upto <= 0 {
        Seq::empty()
    } else {
        removed_upto(cands, outcomes, upto - 1) + if outcomes[upto - 1] is Failed {
            Seq::empty()
        } else {
            seq![cands[upto - 1].id]
        }
    }
}

/// The store ids whose record must be removed: every candidate except those
/// whose file deletion failed for a reason other than the file being gone.
pub open spec fn removed_ids(cands: Seq<ArchiveRecord>, outcomes: Seq<DeleteOutcome>) -> Seq<i64> {
    removed_upto(cands, outcomes, cands.len() as int)
}

/// The unresolved candidates among the first `upto`: their file deletion
/// failed, their record stays, and the failure is surfaced to the caller.
pub open spec fn unresolved_upto(
    cands: Seq<ArchiveRecord>,
    outcomes: Seq<DeleteOutcome>,
    upto: int,
) -> Seq<i64>
    decreases upto,
{
    if upto <= 0 {
        Seq::empty()
    } else {
        unresolved_upto(cands, outcomes, upto - 1) + if outcomes[upto - 1] is Failed {
            seq![cands[upto - 1].id]
        } else {
            Seq::empty()
        }
    }
}

/// The store ids whose removal is still owed after the batch.
pub open spec fn unresolved_ids(cands: Seq<ArchiveRecord>, outcomes: Seq<DeleteOutcome>) -> Seq<
    i64,
> {
    unresolved_upto(cands, outcomes, cands.len() as int)
}

/// The result of one eviction batch: which records to delete from the
/// store, and which candidates could not be resolved.
pub struct EvictReport {
    pub remove: Vec<i64>,
    pub unresolved: Vec<i64>,
}

/// Decides the fate of every candidate of one eviction batch from the
/// outcome of its file deletion. A missing file is a non-fatal
/// reconciliation: the record is still removed. Any other failure skips
/// only that candidate; the rest of the batch is still processed.
pub fn evict_decisions(cands: &Vec<ArchiveRecord>, outcomes: &Vec<DeleteOutcome>) -> (rep:
    EvictReport)
    requires
        cands@.len() == outcomes@.len(),
    ensures
        rep.remove@ == removed_ids(cands@, outcomes@),
        rep.unresolved@ == unresolved_ids(cands@, outcomes@),
{
    let mut remove: Vec<i64> = Vec::new();
    let mut unresolved: Vec<i64> = Vec::new();
    let mut i: usize = 0;
    while i < cands.len()
        invariant
            cands@.len() == outcomes@.len(),
            0 <= i <= cands@.len(),
            remove@ == removed_upto(cands@, outcomes@, i as int),
            unresolved@ == unresolved_upto(cands@, outcomes@, i as int),
        decreases cands@.len() - i,
    {
        match outcomes[i] {
            DeleteOutcome::Failed => unresolved.push(cands[i].id),
            _ => remove.push(cands[i].id),
        }
        proof {
            assert(remove@ =~= removed_upto(cands@, outcomes@, i + 1));
            assert(unresolved@ =~= unresolved_upto(cands@, outcomes@, i + 1));
        }
        i = i + 1;
    }
    EvictReport { remove, unresolved }
}

proof fn lemma_partial_failure_upto(
    cands: Seq<ArchiveRecord>,
    outcomes: Seq<DeleteOutcome>,
    upto: int,
    i: int,
)
    requires
        cands.len() == outcomes.len(),
        0 <= i < upto <= cands.len(),
    ensures
        !(outcomes[i] is Failed) ==> removed_upto(cands, outcomes, upto).contains(cands[i].id),
        outcomes[i] is Failed ==> unresolved_upto(cands, outcomes, upto).contains(cands[i].id),
        removed_upto(cands, outcomes, upto).len() + unresolved_upto(cands, outcomes, upto).len()
            == upto,
    decreases upto,
{
    if upto > 0 {
        if i < upto - 1 {
            lemma_partial_failure_upto(cands, outcomes, upto - 1, i);
        } else {
            lemma_sum_upto(cands, outcomes, upto - 1);
        }
        if !(outcomes[i] is Failed) {
            let r = removed_upto(cands, outcomes, upto);
            let j = choose|j: int|
                0 <= j < removed_upto(cands, outcomes, upto - 1).len() && #[trigger] removed_upto(
                    cands,
                    outcomes,
                    upto - 1,
                )[j] == cands[i].id;
            if i < upto - 1 {
                assert(r[j] == cands[i].id);
            } else {
                assert(r[r.len() - 1] == cands[i].id);
            }
        } else {
            let u = unresolved_upto(cands, outcomes, upto);
            let j = choose|j: int|
                0 <= j < unresolved_upto(cands, outcomes, upto - 1).len()
                    && #[trigger] unresolved_upto(cands, outcomes, upto - 1)[j] == cands[i].id;
            if i < upto - 1 {
                assert(u[j] == cands[i].id);
            } else {
                assert(u[u.len() - 1] == cands[i].id);
            }
        }
    }
}

proof fn lemma_sum_upto(cands: Seq<ArchiveRecord>, outcomes: Seq<DeleteOutcome>, upto: int)
    requires
        cands.len() == outcomes.len(),
        0 <= upto <= cands.len(),
    ensures
        removed_upto(cands, outcomes, upto).len() + unresolved_upto(cands, outcomes, upto).len()
            == upto,
    decreases upto,
{
    if upto > 0 {
        lemma_sum_upto(cands, outcomes, upto - 1);
    }
}

/// Partial-failure resilience: in one eviction batch, every candidate whose
/// backing file was deleted or already missing has its record removed,
/// every candidate whose deletion failed otherwise is reported unresolved,
/// and every candidate ends up in exactly one of the two lists — one
/// failure never stops the rest of the batch.
pub proof fn lemma_partial_failure(
    cands: Seq<ArchiveRecord>,
    outcomes: Seq<DeleteOutcome>,
    i: int,
)
    requires
        cands.len() == outcomes.len(),
        0 <= i < cands.len(),
    ensures
        !(outcomes[i] is Failed) ==> removed_ids(cands, outcomes).contains(cands[i].id),
        outcomes[i] is Failed ==> unresolved_ids(cands, outcomes).contains(cands[i].id),
        removed_ids(cands, outcomes).len() + unresolved_ids(cands, outcomes).len() == cands.len(),
{
    lemma_partial_failure_upto(cands, outcomes, cands.len() as int, i);
}

} // verus!
