use vstd::prelude::*;

use crate::config::Config;
use crate::error::ShortyError;
use crate::link::{bumped, fresh_link, Link, LinkConfig, LinkView};
use crate::util::{get_random_id, time_now, RANDOM_ID_RETRIES};

verus! {

/// The table of links, keyed by identifier.
pub type LinkTable = Map<Seq<char>, LinkView>;

/// `id` belongs to a link that still resolves at `now`.
pub open spec fn taken(m: LinkTable, id: Seq<char>, now: int) -> bool {
    m.contains_key(id) && !m[id].is_invalid_at(now)
}

/// The table after a lookup of `id`: a stored link counts one more use,
/// whether or not it still resolves.
pub open spec fn after_lookup(m: LinkTable, id: Seq<char>) -> LinkTable {
    if m.contains_key(id) {
        m.insert(id, bumped(m[id]))
    } else {
        m
    }
}

/// A link that cleanup removes at `now`: used more often than allowed, or
/// past its time bound.
pub open spec fn is_stale_at(l: LinkView, now: int) -> bool {
    (l.max_uses != 0 && l.invocations > l.max_uses) || (l.valid_for != 0 && l.created_at
        + l.valid_for < now)
}

/// The table after cleanup at `now`: the links that are not stale.
pub open spec fn cleaned(m: LinkTable, now: int) -> LinkTable {
    Map::new(|k: Seq<char>| m.contains_key(k) && !is_stale_at(m[k], now), |k: Seq<char>| m[k])
}

/// The table that storing `links` one after another into an empty store
/// gives.
pub open spec fn restored(links: Seq<LinkView>) -> LinkTable
    decreases links.len(),
{
    if links.len() == 0 {
        Map::empty()
    } else {
        restored(links.drop_last()).insert(links.last().id, links.last())
    }
}

/// Every one of a full round of random identifiers belongs to a link that
/// still resolves at `now`.
pub open spec fn ids_exhausted(m: LinkTable, now: int) -> bool {
    exists|c: Seq<Seq<char>>|
        c.len() == RANDOM_ID_RETRIES && forall|j: int|
            0 <= j < c.len() ==> (#[trigger] c[j]).len() == 6 && taken(m, c[j], now)
}

/// What a create at time `now` does: the error of invalid settings, else a
/// conflict exactly when a custom identifier belongs to a link that still
/// resolves, else the fresh link stored; without a custom identifier it
/// fails only when every random identifier drawn was taken.
pub open spec fn create_outcome(
    before: LinkTable,
    after: LinkTable,
    limits: StoreLimits,
    link: Seq<char>,
    custom_id: Option<Seq<char>>,
    max_uses: i64,
    valid_for: i64,
    now: int,
    r: Result<Link, ShortyError>,
) -> bool {
    let e = config_error(link, custom_id, limits.max_link_length as int, limits.max_custom_id_length as int);
    &&& r is Err ==> after == before
    &&& r matches Ok(l) ==> l@ == fresh_link(l@.id, link, max_uses as int, valid_for as int, now)
        && !taken(before, l@.id, now) && after == before.insert(l@.id, l@)
    &&& e is Some ==> r == Err::<Link, ShortyError>(e->0)
    &&& e is None && custom_id is Some ==> {
        &&& taken(before, custom_id->0, now) ==> r == Err::<Link, ShortyError>(ShortyError::LinkConflict)
        &&& !taken(before, custom_id->0, now) ==> r is Ok && r->Ok_0@.id == custom_id->0
    }
    &&& e is None && custom_id is None ==> (r is Ok || (r == Err::<Link, ShortyError>(
        ShortyError::RandomIDMaxRetriesExceeded,
    ) && ids_exhausted(before, now)))
    &&& custom_id is None ==> (r matches Ok(l) ==> l@.id.len() == 6)
}

/// The error that a create reports before it looks at the table, if any.
pub open spec fn config_error(
    link: Seq<char>,
    custom_id: Option<Seq<char>>,
    max_link_length: int,
    max_custom_id_length: int,
) -> Option<ShortyError> {
    if link.len() == 0 {
        Some(ShortyError::LinkEmpty)
    } else if link.len() > max_link_length {
        Some(ShortyError::LinkExceedsMaxLength)
    } else if custom_id is Some && custom_id->0.len() > max_custom_id_length {
        Some(ShortyError::CustomIDExceedsMaxLength)
    } else {
        None
    }
}

/// The settings a store creates links with.
#[derive(Clone, Copy)]
pub struct StoreLimits {
    /// The use bound of links created with default settings (0: unlimited).
    pub default_max_uses: i64,
    /// The time bound of links created with default settings (0: forever).
    pub default_valid_for: i64,
    /// The longest destination accepted, in characters.
    pub max_link_length: usize,
    /// The longest custom identifier accepted, in characters.
    pub max_custom_id_length: usize,
}

/// The registry of links. It owns the table: lookups count uses, creates
/// never overwrite a link that still resolves, and cleanup removes stale
/// links.
pub struct LinkStore {
    links: Vec<Link>,
    table: Ghost<LinkTable>,
    limits: StoreLimits,
}

impl View for LinkStore {
    type V = LinkTable;

    closed spec fn view(&self) -> LinkTable {
        self.table@
    }
}

impl LinkStore {
    /// The stored links and the table agree: each link is the table's entry
    /// for its identifier, each entry is a stored link, and no identifier is
    /// stored twice.
    pub closed spec fn wf(&self) -> bool {
        &&& forall|i: int|
            0 <= i < self.links@.len() ==> {
                &&& self.table@.contains_key(#[trigger] self.links@[i]@.id)
                &&& self.table@[self.links@[i]@.id] == self.links@[i]@
            }
        &&& forall|k: Seq<char>|
            #[trigger] self.table@.contains_key(k) ==> exists|i: int|
                0 <= i < self.links@.len() && #[trigger] self.links@[i]@.id == k
        &&& forall|i: int, j: int|
            0 <= i < j < self.links@.len() ==> #[trigger] self.links@[i]@.id
                != #[trigger] self.links@[j]@.id
        &&& self.table@.dom().finite()
        &&& self.table@.dom().len() == self.links@.len()
    }

    /// The settings this store creates links with.
    pub closed spec fn limits(&self) -> StoreLimits {
        self.limits
    }

    /// An empty store with the limits and defaults of `config`.
    pub fn new(config: &Config) -> (r: LinkStore)
        ensures
            r.wf(),
            r@ == Map::<Seq<char>, LinkView>::empty(),
            r.limits() == (StoreLimits {
                default_max_uses: config.default_max_uses,
                default_valid_for: config.default_valid_for,
                max_link_length: config.max_link_length,
                max_custom_id_length: config.max_custom_id_length,
            }),
    {
        LinkStore {
            links: Vec::new(),
            table: Ghost(Map::empty()),
            limits: StoreLimits {
                default_max_uses: config.default_max_uses,
                default_valid_for: config.default_valid_for,
                max_link_length: config.max_link_length,
                max_custom_id_length: config.max_custom_id_length,
            },
        }
    }

    /// The number of stored links, stale ones included.
    pub fn len(&self) -> (r: usize)
        requires
            self.wf(),
        ensures
            r == self@.dom().len(),
    {
        self.links.len()
    }

    /// The position of the link stored under `key`, if any.
    fn find(&self, key: &String) -> (r: Option<usize>)
        requires
            self.wf(),
        ensures
            match r {
                Some(i) => i < self.links@.len() && self.links@[i as int]@.id == key@
                    && self@.contains_key(key@) && self@[key@] == self.links@[i as int]@,
                None => !self@.contains_key(key@),
            },
    {
        let mut i: usize = 0;
        while i < self.links.len()
            invariant
                self.wf(),
                i <= self.links@.len(),
                forall|j: int| 0 <= j < i ==> #[trigger] self.links@[j]@.id != key@,
            decreases self.links@.len() - i,
        {
            if self.links[i].id == *key {
                assert(self.table@.contains_key(self.links@[i as int]@.id));
                return Some(i);
            }
            i = i + 1;
        }
        None
    }

    /// Whether `id` belongs to a link that still resolves at `now`.
    pub fn is_taken(&self, id: &str, now: i64) -> (r: bool)
        requires
            self.wf(),
        ensures
            r == taken(self@, id@, now as int),
    {
        let key = id.to_owned();
        match self.find(&key) {
            None => false,
            Some(i) => !self.links[i].is_invalid_at(now),
        }
    }

    /// Looks up `id` at time `now`. A stored link counts one more use, and is
    /// returned with the new count unless it was already invalid.
    pub fn get_at(&mut self, id: &str, now: i64) -> (r: Option<Link>)
        requires
            old(self).wf(),
        ensures
            final(self).wf(),
            final(self).limits() == old(self).limits(),
            final(self)@ == after_lookup(old(self)@, id@),
            r is Some <==> taken(old(self)@, id@, now as int),
            r matches Some(l) ==> l@ == bumped(old(self)@[id@]) && l@.id == id@,
    {
        let key = id.to_owned();
        match self.find(&key) {
            None => None,
            Some(i) => {
                let current = self.links[i].duplicate();
                let invalid = current.is_invalid_at(now);
                let mut updated = current.duplicate();
                if updated.invocations < i64::MAX {
                    updated.invocations = updated.invocations + 1;
                }
                let result = updated.duplicate();
                let ghost old_links = self.links@;
                self.links.set(i, updated);
                self.table = Ghost(self.table@.insert(key@, result@));
                proof {
                    assert(self.table@.dom() =~= old(self).table@.dom());
                    assert forall|k: Seq<char>| #[trigger]
                        self.table@.contains_key(k) implies exists|j: int|
                        0 <= j < self.links@.len() && #[trigger] self.links@[j]@.id == k by {
                        let j = choose|j: int|
                            0 <= j < old_links.len() && #[trigger] old_links[j]@.id == k;
                        assert(self.links@[j]@.id == k);
                    }
                }
                if invalid {
                    None
                } else {
                    Some(result)
                }
            },
        }
    }

    /// Looks up `id` now. A stored link counts one more use, and is returned
    /// with the new count unless it was already invalid.
    pub fn get(&mut self, id: &str) -> (r: Option<Link>)
        requires
            old(self).wf(),
        ensures
            final(self).wf(),
            final(self).limits() == old(self).limits(),
            final(self)@ == after_lookup(old(self)@, id@),
            !old(self)@.contains_key(id@) ==> r is None,
            r matches Some(l) ==> l@ == bumped(old(self)@[id@]) && l@.id == id@ && !old(
                self,
            )@[id@].exhausted_by_use(),
            old(self)@.contains_key(id@) && old(self)@[id@].valid_for == 0 ==> (r is Some
                <==> !old(self)@[id@].exhausted_by_use()),
    {
        let now = time_now();
        self.get_at(id, now)
    }

    /// Stores a new link under `id`, unless `id` belongs to a link that still
    /// resolves at `now`. A stored link that no longer resolves is replaced.
    fn place_link(
        &mut self,
        id: String,
        link: String,
        max_uses: i64,
        valid_for: i64,
        now: i64,
    ) -> (r: Result<Link, ShortyError>)
        requires
            old(self).wf(),
        ensures
            final(self).wf(),
            final(self).limits() == old(self).limits(),
            taken(old(self)@, id@, now as int) ==> r == Err::<Link, ShortyError>(
                ShortyError::LinkConflict,
            ) && final(self)@ == old(self)@,
            !taken(old(self)@, id@, now as int) ==> r is Ok,
            r matches Ok(l) ==> l@ == fresh_link(
                id@,
                link@,
                max_uses as int,
                valid_for as int,
                now as int,
            ) && final(self)@ == old(self)@.insert(id@, l@),
    {
        let existing = self.find(&id);
        if let Some(i) = existing {
            if !self.links[i].is_invalid_at(now) {
                return Err(ShortyError::LinkConflict);
            }
        }
        let created = Link { id, redirect_to: link, max_uses, invocations: 0, created_at: now, valid_for };
        let result = created.duplicate();
        self.put_link(created);
        Ok(result)
    }

    /// Stores `link` under its identifier, replacing what was stored there.
    pub fn put_link(&mut self, link: Link)
        requires
            old(self).wf(),
        ensures
            final(self).wf(),
            final(self).limits() == old(self).limits(),
            final(self)@ == old(self)@.insert(link@.id, link@),
    {
        let existing = self.find(&link.id);
        let ghost old_links = self.links@;
        let ghost created = link@;
        match existing {
            Some(i) => {
                self.links.set(i, link);
                self.table = Ghost(self.table@.insert(created.id, created));
                proof {
                    assert(self.table@.dom() =~= old(self).table@.dom());
                    assert forall|k: Seq<char>| #[trigger]
                        self.table@.contains_key(k) implies exists|j: int|
                        0 <= j < self.links@.len() && #[trigger] self.links@[j]@.id == k by {
                        let j = choose|j: int|
                            0 <= j < old_links.len() && #[trigger] old_links[j]@.id == k;
                        assert(self.links@[j]@.id == k);
                    }
                }
            },
            None => {
                self.links.push(link);
                self.table = Ghost(self.table@.insert(created.id, created));
                proof {
                    let n = old_links.len() as int;
                    assert(self.links@[n]@ == created);
                    assert forall|j: int| 0 <= j < n implies #[trigger] self.links@[j]@.id
                        != created.id by {
                        assert(self.links@[j] == old_links[j]);
                        assert(old(self).table@.contains_key(old_links[j]@.id));
                    }
                    assert forall|k: Seq<char>| #[trigger]
                        self.table@.contains_key(k) implies exists|j: int|
                        0 <= j < self.links@.len() && #[trigger] self.links@[j]@.id == k by {
                        if k != created.id {
                            let j = choose|j: int|
                                0 <= j < old_links.len() && #[trigger] old_links[j]@.id == k;
                            assert(self.links@[j] == old_links[j]);
                        } else {
                            assert(self.links@[n]@.id == k);
                        }
                    }
                    assert forall|i: int| 0 <= i < self.links@.len() implies {
                        &&& self.table@.contains_key(#[trigger] self.links@[i]@.id)
                        &&& self.table@[self.links@[i]@.id] == self.links@[i]@
                    } by {
                        if i < n {
                            assert(self.links@[i] == old_links[i]);
                            assert(old(self).table@.contains_key(old_links[i]@.id));
                        }
                    }
                }
            },
        }
    }

    /// A store with the limits and defaults of `config`, holding `links` as
    /// stored earlier; where two share an identifier, the later one stays.
    pub fn from_links(config: &Config, links: Vec<Link>) -> (r: LinkStore)
        ensures
            r.wf(),
            r@ == restored(links@.map_values(|l: Link| l@)),
            r.limits() == (StoreLimits {
                default_max_uses: config.default_max_uses,
                default_valid_for: config.default_valid_for,
                max_link_length: config.max_link_length,
                max_custom_id_length: config.max_custom_id_length,
            }),
    {
        let ghost views = links@.map_values(|l: Link| l@);
        let mut store = LinkStore::new(config);
        let mut i: usize = 0;
        while i < links.len()
            invariant
                store.wf(),
                i <= links@.len(),
                views == links@.map_values(|l: Link| l@),
                store@ == restored(views.subrange(0, i as int)),
                store.limits() == (StoreLimits {
                    default_max_uses: config.default_max_uses,
                    default_valid_for: config.default_valid_for,
                    max_link_length: config.max_link_length,
                    max_custom_id_length: config.max_custom_id_length,
                }),
            decreases links@.len() - i,
        {
            let l = links[i].duplicate();
            store.put_link(l);
            assert(views.subrange(0, i + 1).drop_last() =~= views.subrange(0, i as int));
            i = i + 1;
        }
        assert(views.subrange(0, links@.len() as int) =~= views);
        store
    }

    /// Every stored link, stale ones included, each once, in no set order.
    pub fn links(&self) -> (r: Vec<Link>)
        requires
            self.wf(),
        ensures
            r@.len() == self@.dom().len(),
            forall|i: int|
                0 <= i < r@.len() ==> self@.contains_key(#[trigger] r@[i]@.id) && self@[r@[i]@.id]
                    == r@[i]@,
            forall|k: Seq<char>|
                #[trigger] self@.contains_key(k) ==> exists|i: int| 0 <= i < r@.len() && #[trigger] r@[i]@.id == k,
            forall|i: int, j: int| 0 <= i < j < r@.len() ==> #[trigger] r@[i]@.id != #[trigger] r@[j]@.id,
    {
        let mut r: Vec<Link> = Vec::new();
        let mut i: usize = 0;
        while i < self.links.len()
            invariant
                self.wf(),
                i <= self.links@.len(),
                r@.len() == i,
                forall|j: int| 0 <= j < i ==> (#[trigger] r@[j])@ == self.links@[j]@,
            decreases self.links@.len() - i,
        {
            r.push(self.links[i].duplicate());
            i = i + 1;
        }
        proof {
            assert forall|i: int| 0 <= i < r@.len() implies self@.contains_key(#[trigger] r@[i]@.id)
                && self@[r@[i]@.id] == r@[i]@ by {
                assert(self.table@.contains_key(self.links@[i]@.id));
            }
            assert forall|k: Seq<char>| #[trigger] self@.contains_key(k) implies exists|i: int|
                0 <= i < r@.len() && #[trigger] r@[i]@.id == k by {
                let i = choose|i: int| 0 <= i < self.links@.len() && #[trigger] self.links@[i]@.id == k;
                assert(r@[i]@.id == k);
            }
            assert forall|i: int, j: int| 0 <= i < j < r@.len() implies #[trigger] r@[i]@.id
                != #[trigger] r@[j]@.id by {
                assert(r@[i]@ == self.links@[i]@);
                assert(r@[j]@ == self.links@[j]@);
            }
        }
        r
    }

    /// Each link in the table is stored under its own identifier.
    pub proof fn lemma_keys_are_ids(&self)
        requires
            self.wf(),
        ensures
            forall|k: Seq<char>| #[trigger] self@.contains_key(k) ==> self@[k].id == k,
    {
        assert forall|k: Seq<char>| #[trigger] self@.contains_key(k) implies self@[k].id == k by {
            let i = choose|i: int| 0 <= i < self.links@.len() && #[trigger] self.links@[i]@.id == k;
            assert(self.table@.contains_key(self.links@[i]@.id));
        }
    }

    /// Picks the first of `candidates` that belongs to no link resolving at
    /// `now`; fails when every one of them is taken.
    pub fn pick_free_id(&self, candidates: Vec<String>, now: i64) -> (r: Result<String, ShortyError>)
        requires
            self.wf(),
        ensures
            r matches Ok(id) ==> exists|k: int|
                0 <= k < candidates@.len() && id@ == #[trigger] candidates@[k]@ && !taken(
                    self@,
                    id@,
                    now as int,
                ) && forall|j: int|
                    0 <= j < k ==> taken(self@, #[trigger] candidates@[j]@, now as int),
            r is Err ==> r == Err::<String, ShortyError>(ShortyError::RandomIDMaxRetriesExceeded)
                && forall|j: int|
                0 <= j < candidates@.len() ==> taken(self@, #[trigger] candidates@[j]@, now as int),
    {
        let mut k: usize = 0;
        while k < candidates.len()
            invariant
                self.wf(),
                k <= candidates@.len(),
                forall|j: int| 0 <= j < k ==> taken(self@, #[trigger] candidates@[j]@, now as int),
            decreases candidates@.len() - k,
        {
            if !self.is_taken(candidates[k].as_str(), now) {
                let id = candidates[k].clone();
                return Ok(id);
            }
            k = k + 1;
        }
        Err(ShortyError::RandomIDMaxRetriesExceeded)
    }

    /// Creates a link from `config` at time `now`: the destination and the
    /// custom identifier are checked against the limits, the identifier is the
    /// custom one or a free random one, and a link that still resolves is
    /// never overwritten.
    pub fn create_link_with_config_at(&mut self, config: LinkConfig, now: i64) -> (r: Result<
        Link,
        ShortyError,
    >)
        requires
            old(self).wf(),
        ensures
            final(self).wf(),
            final(self).limits() == old(self).limits(),
            create_outcome(
                old(self)@,
                final(self)@,
                old(self).limits(),
                config.link@,
                config.custom_id.deep_view(),
                config.max_uses,
                config.valid_for,
                now as int,
                r,
            ),
    {
        let link_len = config.link.as_str().unicode_len();
        if link_len == 0 {
            return Err(ShortyError::LinkEmpty);
        }
        if link_len > self.limits.max_link_length {
            return Err(ShortyError::LinkExceedsMaxLength);
        }
        let id = match config.custom_id {
            Some(id) => {
                if id.as_str().unicode_len() > self.limits.max_custom_id_length {
                    return Err(ShortyError::CustomIDExceedsMaxLength);
                }
                id
            },
            None => match get_random_id(self, now) {
                Ok(id) => id,
                Err(e) => {
                    return Err(e);
                },
            },
        };
        self.place_link(id, config.link, config.max_uses, config.valid_for, now)
    }

    /// Creates a link from `config` now; see [`LinkStore::create_link_with_config_at`].
    pub fn create_link_with_config(&mut self, config: LinkConfig) -> (r: Result<Link, ShortyError>)
        requires
            old(self).wf(),
        ensures
            final(self).wf(),
            final(self).limits() == old(self).limits(),
            exists|t: i64|
                create_outcome(
                    old(self)@,
                    final(self)@,
                    old(self).limits(),
                    config.link@,
                    config.custom_id.deep_view(),
                    config.max_uses,
                    config.valid_for,
                    t as int,
                    r,
                ) && (r matches Ok(l) ==> l@.created_at == t),
    {
        let now = time_now();
        self.create_link_with_config_at(config, now)
    }

    /// Creates a link to `link` at time `now` with a random identifier and
    /// the store's default bounds.
    pub fn create_link_at(&mut self, link: String, now: i64) -> (r: Result<Link, ShortyError>)
        requires
            old(self).wf(),
        ensures
            final(self).wf(),
            final(self).limits() == old(self).limits(),
            create_outcome(
                old(self)@,
                final(self)@,
                old(self).limits(),
                link@,
                None,
                old(self).limits().default_max_uses,
                old(self).limits().default_valid_for,
                now as int,
                r,
            ),
    {
        let config = LinkConfig {
            link,
            custom_id: None,
            max_uses: self.limits.default_max_uses,
            valid_for: self.limits.default_valid_for,
        };
        self.create_link_with_config_at(config, now)
    }

    /// Creates a link to `link` now, with a random identifier and the store's
    /// default bounds.
    pub fn create_link(&mut self, link: String) -> (r: Result<Link, ShortyError>)
        requires
            old(self).wf(),
        ensures
            final(self).wf(),
            final(self).limits() == old(self).limits(),
            exists|t: i64|
                create_outcome(
                    old(self)@,
                    final(self)@,
                    old(self).limits(),
                    link@,
                    None,
                    old(self).limits().default_max_uses,
                    old(self).limits().default_valid_for,
                    t as int,
                    r,
                ) && (r matches Ok(l) ==> l@.created_at == t),
    {
        let now = time_now();
        self.create_link_at(link, now)
    }

    /// Removes the links that are stale at `now` and returns how many were
    /// removed. A link that still resolves is never removed.
    pub fn clean_at(&mut self, now: i64) -> (r: usize)
        requires
            old(self).wf(),
        ensures
            final(self).wf(),
            final(self).limits() == old(self).limits(),
            final(self)@ == cleaned(old(self)@, now as int),
            r == old(self)@.dom().len() - final(self)@.dom().len(),
    {
        let ghost table = self.table@;
        let ghost old_links = self.links@;
        let mut kept: Vec<Link> = Vec::new();
        let ghost mut kept_table: LinkTable = Map::empty();
        let mut i: usize = 0;
        while i < self.links.len()
            invariant
                self.wf(),
                self.table@ == table,
                self.links@ == old_links,
                i <= old_links.len(),
                kept_table.dom().finite(),
                kept_table.dom().len() == kept@.len(),
                kept@.len() <= i,
                forall|j: int|
                    0 <= j < kept@.len() ==> {
                        &&& kept_table.contains_key(#[trigger] kept@[j]@.id)
                        &&& kept_table[kept@[j]@.id] == kept@[j]@
                    },
                forall|k: Seq<char>|
                    #[trigger] kept_table.contains_key(k) ==> exists|j: int|
                        0 <= j < kept@.len() && #[trigger] kept@[j]@.id == k,
                forall|a: int, b: int|
                    0 <= a < b < kept@.len() ==> #[trigger] kept@[a]@.id != #[trigger] kept@[b]@.id,
                forall|k: Seq<char>| #[trigger]
                    kept_table.contains_key(k) ==> table.contains_key(k) && kept_table[k]
                        == table[k] && !is_stale_at(table[k], now as int) && exists|j: int|
                        0 <= j < i && #[trigger] old_links[j]@.id == k,
                forall|j: int|
                    0 <= j < i && !is_stale_at(#[trigger] old_links[j]@, now as int)
                        ==> kept_table.contains_key(old_links[j]@.id),
            decreases old_links.len() - i,
        {
            let stale = self.links[i].is_stale_at(now);
            if !stale {
                let l = self.links[i].duplicate();
                proof {
                    assert(table.contains_key(old_links[i as int]@.id));
                    if kept_table.contains_key(l@.id) {
                        let j = choose|j: int| 0 <= j < i && #[trigger] old_links[j]@.id == l@.id;
                        assert(old_links[j]@.id != old_links[i as int]@.id);
                    }
                    let n = kept@.len() as int;
                    assert forall|j: int| 0 <= j < n implies #[trigger] kept@[j]@.id != l@.id by {
                        assert(kept_table.contains_key(kept@[j]@.id));
                    }
                }
                let ghost before = kept@;
                kept.push(l);
                proof {
                    kept_table = kept_table.insert(l@.id, l@);
                    let n = before.len() as int;
                    assert(kept@[n] == l);
                    assert forall|j: int| 0 <= j < kept@.len() implies {
                        &&& kept_table.contains_key(#[trigger] kept@[j]@.id)
                        &&& kept_table[kept@[j]@.id] == kept@[j]@
                    } by {
                        if j < n {
                            assert(kept@[j] == before[j]);
                        }
                    }
                    assert forall|k: Seq<char>| #[trigger]
                        kept_table.contains_key(k) implies exists|j: int|
                        0 <= j < kept@.len() && #[trigger] kept@[j]@.id == k by {
                        if k != l@.id {
                            let j = choose|j: int| 0 <= j < before.len() && #[trigger] before[j]@.id == k;
                            assert(kept@[j] == before[j]);
                        } else {
                            assert(kept@[n]@.id == k);
                        }
                    }
                    assert forall|a: int, b: int|
                        0 <= a < b < kept@.len() implies #[trigger] kept@[a]@.id != #[trigger] kept@[b]@.id by {
                        assert(kept@[a] == before[a]);
                        if b < n {
                            assert(kept@[b] == before[b]);
                        }
                    }
                    assert forall|k: Seq<char>| #[trigger]
                        kept_table.contains_key(k) implies table.contains_key(k) && kept_table[k]
                        == table[k] && !is_stale_at(table[k], now as int) && exists|j: int|
                        0 <= j < i + 1 && #[trigger] old_links[j]@.id == k by {
                        if k == l@.id {
                            assert(old_links[i as int]@.id == k);
                        } else {
                            let j = choose|j: int| 0 <= j < i && #[trigger] old_links[j]@.id == k;
                            assert(old_links[j]@.id == k);
                        }
                    }
                }
            }
            i = i + 1;
        }
        proof {
            assert forall|k: Seq<char>|
                kept_table.contains_key(k) <==> #[trigger] cleaned(table, now as int).contains_key(k) by {
                if table.contains_key(k) && !is_stale_at(table[k], now as int) {
                    let j = choose|j: int| 0 <= j < old_links.len() && #[trigger] old_links[j]@.id == k;
                    assert(table[old_links[j]@.id] == old_links[j]@);
                }
            }
            assert(kept_table =~= cleaned(table, now as int));
        }
        let removed = self.links.len() - kept.len();
        self.links = kept;
        self.table = Ghost(kept_table);
        assert(self.links@ == kept@);
        removed
    }

    /// Removes the links that are stale now and returns how many were
    /// removed. A link that still resolves is never removed.
    pub fn clean(&mut self) -> (r: usize)
        requires
            old(self).wf(),
        ensures
            final(self).wf(),
            final(self).limits() == old(self).limits(),
            exists|t: i64| final(self)@ == cleaned(old(self)@, t as int),
            r == old(self)@.dom().len() - final(self)@.dom().len(),
    {
        let now = time_now();
        self.clean_at(now)
    }
}

} // verus!
