use vstd::prelude::*;

use crate::config::Config;
use crate::store::is_stale_at;
use crate::util::time_now;

verus! {

/// The mathematical content of a [`Link`]: its identifier and destination as
/// character sequences, its bounds and counters as integers.
pub struct LinkView {
    pub id: Seq<char>,
    pub redirect_to: Seq<char>,
    pub max_uses: int,
    pub invocations: int,
    pub created_at: int,
    pub valid_for: int,
}

impl LinkView {
    /// The link has outlived its time bound: `valid_for` is set and more than
    /// `valid_for` milliseconds have passed since creation.
    pub open spec fn expired_by_time(self, now: int) -> bool {
        self.valid_for != 0 && now - self.created_at > self.valid_for
    }

    /// The link has used up its use bound: `max_uses` is set and reached.
    pub open spec fn exhausted_by_use(self) -> bool {
        self.max_uses != 0 && self.invocations >= self.max_uses
    }

    /// The link must no longer resolve at time `now`.
    pub open spec fn is_invalid_at(self, now: int) -> bool {
        self.expired_by_time(now) || self.exhausted_by_use()
    }
}

/// A shortened link. All timestamps and durations are in milliseconds.
#[derive(Debug, Clone)]
pub struct Link {
    pub id: String,
    pub redirect_to: String,
    pub max_uses: i64,
    pub invocations: i64,
    pub created_at: i64,
    pub valid_for: i64,
}

impl View for Link {
    type V = LinkView;

    open spec fn view(&self) -> LinkView {
        LinkView {
            id: self.id@,
            redirect_to: self.redirect_to@,
            max_uses: self.max_uses as int,
            invocations: self.invocations as int,
            created_at: self.created_at as int,
            valid_for: self.valid_for as int,
        }
    }
}

impl Link {
    /// Whether the link must no longer resolve at time `now`.
    pub fn is_invalid_at(&self, now: i64) -> (r: bool)
        ensures
            r == self@.is_invalid_at(now as int),
    {
        let expired = self.valid_for != 0 && (now as i128) - (self.created_at as i128)
            > self.valid_for as i128;
        let used_up = self.max_uses != 0 && self.invocations >= self.max_uses;
        expired || used_up
    }

    /// Whether the link must no longer resolve now. Without a time bound
    /// only the use bound decides, whatever the time.
    pub fn is_invalid(&self) -> (r: bool)
        ensures
            self.valid_for == 0 ==> r == self@.exhausted_by_use(),
            self@.exhausted_by_use() ==> r,
            self.max_uses == 0 && self.valid_for == 0 ==> !r,
    {
        let now = time_now();
        self.is_invalid_at(now)
    }

    /// Whether cleanup removes the link at time `now`: it was used more
    /// often than allowed, or its time bound has passed.
    pub fn is_stale_at(&self, now: i64) -> (r: bool)
        ensures
            r == is_stale_at(self@, now as int),
    {
        (self.max_uses != 0 && self.invocations > self.max_uses) || (self.valid_for != 0
            && (self.created_at as i128) + (self.valid_for as i128) < now as i128)
    }

    /// The shortened link as a visitor uses it: the public URL, a `/`, and
    /// the identifier.
    pub fn formatted(&self, config: &Config) -> (r: String)
        ensures
            r@ == config.public_url@ + "/"@ + self.id@,
    {
        let mut r = config.public_url.clone();
        r.append("/");
        r.append(self.id.as_str());
        r
    }

    /// A field-by-field copy of the link.
    pub fn duplicate(&self) -> (r: Link)
        ensures
            r@ == self@,
    {
        Link {
            id: self.id.clone(),
            redirect_to: self.redirect_to.clone(),
            max_uses: self.max_uses,
            invocations: self.invocations,
            created_at: self.created_at,
            valid_for: self.valid_for,
        }
    }
}

/// The settings of a link to create. Without `custom_id` an identifier is
/// drawn at random; `max_uses` and `valid_for` of 0 mean unlimited.
#[derive(Debug, Clone)]
pub struct LinkConfig {
    /// The destination.
    pub link: String,
    /// The identifier asked for, if any.
    pub custom_id: Option<String>,
    /// How often the link may be resolved (0: unlimited).
    pub max_uses: i64,
    /// How long the link is valid for, in milliseconds (0: forever).
    pub valid_for: i64,
}

/// The link that a successful create stores: no uses yet, created at `now`.
pub open spec fn fresh_link(
    id: Seq<char>,
    redirect_to: Seq<char>,
    max_uses: int,
    valid_for: int,
    now: int,
) -> LinkView {
    LinkView { id, redirect_to, max_uses, invocations: 0, created_at: now, valid_for }
}

/// The link after one more lookup; the counter stops at the largest `i64`.
pub open spec fn bumped(l: LinkView) -> LinkView {
    LinkView {
        invocations: if l.invocations < i64::MAX { l.invocations + 1 } else { l.invocations },
        ..l
    }
}

} // verus!
