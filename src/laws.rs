//! What holds of every sequence of store operations, stated over the
//! table that the operations' contracts describe.

use vstd::prelude::*;

use crate::link::{bumped, fresh_link, Link, LinkView};
use crate::error::ShortyError;
use crate::store::{
    after_lookup, cleaned, config_error, create_outcome, is_stale_at, taken, LinkTable, StoreLimits,
};

verus! {

/// The table after `n` lookups of `id`.
pub open spec fn lookups(m: LinkTable, id: Seq<char>, n: nat) -> LinkTable
    decreases n,
{
    if n == 0 {
        m
    } else {
        after_lookup(lookups(m, id, (n - 1) as nat), id)
    }
}

/// A create that succeeds under an identifier found no link there that still
/// resolved; afterwards the identifier maps to the new link alone, and every
/// other identifier keeps its link.
pub proof fn lemma_create_keeps_ids_unique(before: LinkTable, l: LinkView, now: int)
    requires
        !taken(before, l.id, now),
    ensures
        before.insert(l.id, l)[l.id] == l,
        before.contains_key(l.id) ==> before[l.id].is_invalid_at(now),
        forall|k: Seq<char>|
            k != l.id ==> (#[trigger] before.insert(l.id, l).contains_key(k) == before.contains_key(
                k,
            ) && (before.contains_key(k) ==> before.insert(l.id, l)[k] == before[k])),
{
}

/// Each lookup of a stored link counts exactly one use: after `n` lookups
/// the count has grown by `n`, and nothing else about the link has changed.
pub proof fn lemma_lookups_count_each_use(m: LinkTable, id: Seq<char>, n: nat)
    requires
        m.contains_key(id),
        m[id].invocations + n <= i64::MAX,
    ensures
        lookups(m, id, n).contains_key(id),
        lookups(m, id, n)[id] == (LinkView { invocations: m[id].invocations + n, ..m[id] }),
        forall|k: Seq<char>| k != id ==> #[trigger] lookups(m, id, n).contains_key(k) == m.contains_key(k)
            && (m.contains_key(k) ==> lookups(m, id, n)[k] == m[k]),
    decreases n,
{
    if n > 0 {
        lemma_lookups_count_each_use(m, id, (n - 1) as nat);
    }
}

/// A link with a use bound of `max_uses` and no uses yet, looked up before
/// its time bound passes, resolves on exactly its first `max_uses` lookups.
pub proof fn lemma_use_limit(m: LinkTable, id: Seq<char>, j: nat, now: int)
    requires
        m.contains_key(id),
        m[id].invocations == 0,
        m[id].max_uses > 0,
        j <= i64::MAX,
        !m[id].expired_by_time(now),
    ensures
        taken(lookups(m, id, j), id, now) <==> j < m[id].max_uses,
{
    lemma_lookups_count_each_use(m, id, j);
}

/// A link whose use bound allows another lookup resolves while at most
/// `valid_for` milliseconds have passed since its creation, and no longer
/// once more have passed.
pub proof fn lemma_time_limit(m: LinkTable, id: Seq<char>, now: int)
    requires
        m.contains_key(id),
        m[id].valid_for > 0,
        !m[id].exhausted_by_use(),
    ensures
        now <= m[id].created_at + m[id].valid_for ==> taken(m, id, now),
        now > m[id].created_at + m[id].valid_for ==> !taken(m, id, now),
{
}

/// A use bound of 0 never runs out, whatever the count; a time bound of 0
/// never passes, whatever the time.
pub proof fn lemma_zero_means_unlimited(l: LinkView, now: int)
    ensures
        l.max_uses == 0 ==> !l.exhausted_by_use(),
        l.valid_for == 0 ==> !l.expired_by_time(now),
        l.max_uses == 0 && l.valid_for == 0 ==> !l.is_invalid_at(now),
{
}

/// Cleanup keeps exactly the links that are not stale: a link past its time
/// bound and a link used more often than allowed are removed, a link that
/// still resolves is kept, and so is a link with neither bound.
pub proof fn lemma_cleanup_removes_exactly_stale(m: LinkTable, now: int)
    ensures
        forall|k: Seq<char>| #[trigger]
            cleaned(m, now).contains_key(k) <==> m.contains_key(k) && !is_stale_at(m[k], now),
        forall|k: Seq<char>| #[trigger]
            cleaned(m, now).contains_key(k) ==> cleaned(m, now)[k] == m[k],
        forall|k: Seq<char>|
            m.contains_key(k) && (#[trigger] m[k]).expired_by_time(now) ==> !cleaned(
                m,
                now,
            ).contains_key(k),
        forall|k: Seq<char>|
            m.contains_key(k) && (#[trigger] m[k]).max_uses != 0 && m[k].invocations
                > m[k].max_uses ==> !cleaned(m, now).contains_key(k),
        forall|k: Seq<char>| #[trigger]
            taken(m, k, now) ==> cleaned(m, now).contains_key(k),
        forall|k: Seq<char>|
            m.contains_key(k) && (#[trigger] m[k]).max_uses == 0 && m[k].valid_for == 0
                ==> cleaned(m, now).contains_key(k),
{
}

/// A lookup that is refused because the use bound is reached leaves the link
/// stale, so the next cleanup removes it.
pub proof fn lemma_refused_lookup_leaves_stale(m: LinkTable, id: Seq<char>, now: int)
    requires
        m.contains_key(id),
        m[id].exhausted_by_use(),
        m[id].invocations < i64::MAX,
    ensures
        is_stale_at(after_lookup(m, id)[id], now),
        !cleaned(after_lookup(m, id), now).contains_key(id),
{
}

/// Every stale link is invalid, so cleanup never takes away a link that
/// still resolves.
pub proof fn lemma_stale_is_invalid(l: LinkView, now: int)
    ensures
        is_stale_at(l, now) ==> l.is_invalid_at(now),
{
}

/// Once a link is stored under `id`, a second create under `id` conflicts
/// exactly while that link still resolves; once it is invalid, by time or
/// by use, the second create may replace it.
pub proof fn lemma_conflict_then_reuse(m: LinkTable, l: LinkView, uses: nat, now: int)
    requires
        l.invocations + uses <= i64::MAX,
    ensures
        taken(lookups(m.insert(l.id, l), l.id, uses), l.id, now) <==> !(LinkView {
            invocations: l.invocations + uses,
            ..l
        }).is_invalid_at(now),
{
    lemma_lookups_count_each_use(m.insert(l.id, l), l.id, uses);
}

/// A create under a custom identifier whose settings pass the limits
/// conflicts while the link stored there still resolves, and leaves the
/// store as it was; once that link is invalid, by time or by use, the
/// create succeeds and the new link, unused, replaces it.
pub proof fn lemma_create_conflicts_or_replaces(
    before: LinkTable,
    after: LinkTable,
    limits: StoreLimits,
    link: Seq<char>,
    id: Seq<char>,
    max_uses: i64,
    valid_for: i64,
    now: int,
    r: Result<Link, ShortyError>,
)
    requires
        create_outcome(before, after, limits, link, Some(id), max_uses, valid_for, now, r),
        config_error(link, Some(id), limits.max_link_length as int, limits.max_custom_id_length as int) is None,
        before.contains_key(id),
    ensures
        !before[id].is_invalid_at(now) ==> r == Err::<Link, ShortyError>(ShortyError::LinkConflict)
            && after == before,
        before[id].is_invalid_at(now) ==> (r matches Ok(l) && l@.id == id && l@.redirect_to == link
            && l@.invocations == 0 && after.contains_key(id) && after[id] == l@),
{
}

/// A link just created with bounds of at least 0 resolves at its creation
/// time, to the destination it was created with.
pub proof fn lemma_round_trip(
    m: LinkTable,
    id: Seq<char>,
    link: Seq<char>,
    max_uses: int,
    valid_for: int,
    now: int,
)
    requires
        max_uses >= 0,
        valid_for >= 0,
    ensures
        taken(m.insert(id, fresh_link(id, link, max_uses, valid_for, now)), id, now),
        bumped(m.insert(id, fresh_link(id, link, max_uses, valid_for, now))[id]).redirect_to
            == link,
{
}

} // verus!
