//! One poll cycle: record the start, fetch, keep the items modified after the
//! watermark, hand each of them out, wait for all of them, and move the
//! watermark to the start of the cycle. A failed fetch leaves the watermark
//! where it was.
use vstd::prelude::*;
use crate::instant::{parsed_instant, Instant};
use crate::item::Notification;

verus! {

/// Seconds to sleep between two cycles.
pub const POLL_INTERVAL_SECS: u64 = 30;

/// How an item stands against the watermark.
#[derive(Clone, Copy, Debug, PartialEq, Eq, Structural)]
pub enum Freshness {
    /// Modified strictly after the watermark: it is handed out.
    Fresh,
    /// Modified at or before the watermark: it was seen already.
    Stale,
    /// Its modification time is not an RFC 3339 date-time: an error of this
    /// item alone.
    Malformed,
}

/// How an item whose modification time parsed to `stamp` stands against `watermark`.
pub open spec fn freshness_of(stamp: Option<Instant>, watermark: Instant) -> Freshness {
    match stamp {
        Some(t) => if t.is_after(watermark) {
            Freshness::Fresh
        } else {
            Freshness::Stale
        },
        None => Freshness::Malformed,
    }
}

/// How item `n` stands against `watermark`.
pub open spec fn item_freshness(n: Notification, watermark: Instant) -> Freshness {
    freshness_of(parsed_instant(n.updated_at@), watermark)
}

/// Whether an item stands as `f` against `watermark`.
pub open spec fn stands_as(watermark: Instant, f: Freshness) -> spec_fn(Notification) -> bool {
    |n: Notification| item_freshness(n, watermark) == f
}

/// The items of `items` modified strictly after `watermark`, in feed order.
pub open spec fn fresh_items(items: Seq<Notification>, watermark: Instant) -> Seq<Notification> {
    items.filter(stands_as(watermark, Freshness::Fresh))
}

/// The items of `items` whose modification time does not parse, in feed order.
pub open spec fn malformed_items(items: Seq<Notification>, watermark: Instant) -> Seq<
    Notification,
> {
    items.filter(stands_as(watermark, Freshness::Malformed))
}

/// Decides how an item with parsed modification time `stamp` stands.
pub fn classify(stamp: Option<Instant>, watermark: Instant) -> (r: Freshness)
    ensures
        r == freshness_of(stamp, watermark),
{
    match stamp {
        Some(t) => if t.later_than(&watermark) {
            Freshness::Fresh
        } else {
            Freshness::Stale
        },
        None => Freshness::Malformed,
    }
}

/// What one fetch yields: the items to hand out, and those that could not be
/// judged because their modification time does not parse.
pub struct Selection {
    pub fresh: Vec<Notification>,
    pub malformed: Vec<Notification>,
}

/// Splits the fetched items against the watermark. Stale items are dropped.
pub fn select_fresh(items: Vec<Notification>, watermark: Instant) -> (r: Selection)
    ensures
        r.fresh@ == fresh_items(items@, watermark),
        r.malformed@ == malformed_items(items@, watermark),
{
    let ghost all = items@;
    let ghost is_fresh = stands_as(watermark, Freshness::Fresh);
    let ghost is_bad = stands_as(watermark, Freshness::Malformed);
    let mut rest = items;
    let mut fresh: Vec<Notification> = Vec::new();
    let mut malformed: Vec<Notification> = Vec::new();
    let total: usize = rest.len();
    let mut i: usize = 0;
    while rest.len() > 0
        invariant
            all.len() == total,
            is_fresh == stands_as(watermark, Freshness::Fresh),
            is_bad == stands_as(watermark, Freshness::Malformed),
            i + rest@.len() == all.len(),
            rest@ == all.subrange(i as int, all.len() as int),
            fresh@ == all.subrange(0, i as int).filter(is_fresh),
            malformed@ == all.subrange(0, i as int).filter(is_bad),
        decreases rest@.len(),
    {
        let n = rest.remove(0);
        proof {
            assert(all.subrange(0, i + 1) == all.subrange(0, i as int).push(n));
            all.subrange(0, i as int).lemma_filter_push(n, is_fresh);
            all.subrange(0, i as int).lemma_filter_push(n, is_bad);
        }
        let stamp = Instant::parse_rfc3339(n.updated_at.as_str());
        let f = classify(stamp, watermark);
        match f {
            Freshness::Fresh => fresh.push(n),
            Freshness::Stale => {},
            Freshness::Malformed => malformed.push(n),
        }
        i = i + 1;
    }
    assert(all.subrange(0, all.len() as int) == all);
    Selection { fresh, malformed }
}

/// The watermark after a cycle that began at `start` with watermark `before`:
/// `start` when the fetch succeeded, `before` when it failed.
pub open spec fn watermark_after(before: Instant, start: Instant, fetched: bool) -> Instant {
    if fetched {
        start
    } else {
        before
    }
}

/// Where the engine stands within a cycle.
#[derive(Clone, Copy, Debug, PartialEq, Eq, Structural)]
pub enum Phase {
    /// Between cycles.
    Idle,
    /// The fetch of a cycle that began at `cycle_start` is under way.
    Polling { cycle_start: Instant },
    /// `pending` items of a cycle that began at `cycle_start` are still being
    /// handed out.
    Dispatching { cycle_start: Instant, pending: usize },
}

/// The poll engine: the watermark and the phase of the current cycle.
#[derive(Clone, Copy, Debug)]
pub struct Engine {
    pub watermark: Instant,
    pub phase: Phase,
}

impl Phase {
    pub open spec fn wf(self) -> bool {
        match self {
            Phase::Idle => true,
            Phase::Polling { cycle_start } => cycle_start.wf(),
            Phase::Dispatching { cycle_start, .. } => cycle_start.wf(),
        }
    }
}

impl Engine {
    pub open spec fn wf(self) -> bool {
        self.watermark.wf() && self.phase.wf()
    }

    /// An engine between cycles, starting from `watermark`.
    pub fn new(watermark: Instant) -> (r: Engine)
        requires
            watermark.wf(),
        ensures
            r.wf(),
            r.watermark == watermark,
            r.phase == Phase::Idle,
    {
        Engine { watermark, phase: Phase::Idle }
    }

    /// Opens a cycle at `now`, taken before the fetch is sent, so that an
    /// item modified while the fetch is under way is not missed. Only an
    /// idle engine opens one; otherwise nothing changes and `false` comes back.
    pub fn begin_cycle(&mut self, now: Instant) -> (r: bool)
        requires
            old(self).wf(),
            now.wf(),
        ensures
            final(self).wf(),
            r == (old(self).phase == Phase::Idle),
            final(self).watermark == old(self).watermark,
            r ==> final(self).phase == (Phase::Polling { cycle_start: now }),
            !r ==> *final(self) == *old(self),
    {
        match self.phase {
            Phase::Idle => {
                self.phase = Phase::Polling { cycle_start: now };
                true
            },
            _ => false,
        }
    }

    /// Closes a cycle whose fetch failed: the watermark stays, and the next
    /// cycle tries again. Only a polling engine does so; otherwise nothing
    /// changes and `false` comes back.
    pub fn fetch_failed(&mut self) -> (r: bool)
        requires
            old(self).wf(),
        ensures
            final(self).wf(),
            r == (old(self).phase is Polling),
            r ==> final(self).phase == Phase::Idle,
            r ==> final(self).watermark == watermark_after(
                old(self).watermark,
                old(self).phase->Polling_cycle_start,
                false,
            ),
            final(self).watermark == old(self).watermark,
            !r ==> *final(self) == *old(self),
    {
        match self.phase {
            Phase::Polling { .. } => {
                self.phase = Phase::Idle;
                true
            },
            _ => false,
        }
    }

    /// Takes the fetched items: those modified after the watermark are to
    /// be handed out, and the engine waits for each of them. Only a polling
    /// engine takes them; otherwise nothing changes and `None` comes back.
    pub fn fetch_succeeded(&mut self, items: Vec<Notification>) -> (r: Option<Selection>)
        requires
            old(self).wf(),
        ensures
            final(self).wf(),
            r is Some == (old(self).phase is Polling),
            final(self).watermark == old(self).watermark,
            r is None ==> *final(self) == *old(self),
            r matches Some(sel) ==> {
                &&& sel.fresh@ == fresh_items(items@, old(self).watermark)
                &&& sel.malformed@ == malformed_items(items@, old(self).watermark)
                &&& final(self).phase == (Phase::Dispatching {
                    cycle_start: old(self).phase->Polling_cycle_start,
                    pending: sel.fresh@.len() as usize,
                })
            },
    {
        match self.phase {
            Phase::Polling { cycle_start } => {
                let sel = select_fresh(items, self.watermark);
                self.phase = Phase::Dispatching { cycle_start, pending: sel.fresh.len() };
                Some(sel)
            },
            _ => None,
        }
    }

    /// Records that one more item of the cycle has been handed out. Only a
    /// dispatching engine with items pending counts it; otherwise nothing
    /// changes and `false` comes back.
    pub fn item_dispatched(&mut self) -> (r: bool)
        requires
            old(self).wf(),
        ensures
            final(self).wf(),
            r == (old(self).phase is Dispatching && old(self).phase->pending > 0),
            final(self).watermark == old(self).watermark,
            r ==> final(self).phase == (Phase::Dispatching {
                cycle_start: old(self).phase->Dispatching_cycle_start,
                pending: (old(self).phase->pending - 1) as usize,
            }),
            !r ==> *final(self) == *old(self),
    {
        match self.phase {
            Phase::Dispatching { cycle_start, pending } => {
                if pending > 0 {
                    self.phase = Phase::Dispatching { cycle_start, pending: pending - 1 };
                    true
                } else {
                    false
                }
            },
            _ => false,
        }
    }

    /// Closes a cycle once every item has been handed out: the watermark
    /// moves to the start of the cycle, not to any item's time, and comes
    /// back to be persisted. While items are pending, or outside a dispatch,
    /// nothing changes and `None` comes back.
    pub fn finish_cycle(&mut self) -> (r: Option<Instant>)
        requires
            old(self).wf(),
        ensures
            final(self).wf(),
            r is Some == (old(self).phase is Dispatching && old(self).phase->pending == 0),
            r is None ==> *final(self) == *old(self),
            r matches Some(w) ==> {
                &&& w == watermark_after(
                    old(self).watermark,
                    old(self).phase->Dispatching_cycle_start,
                    true,
                )
                &&& final(self).watermark == w
                &&& final(self).phase == Phase::Idle
            },
    {
        match self.phase {
            Phase::Dispatching { cycle_start, pending } => {
                if pending == 0 {
                    self.watermark = cycle_start;
                    self.phase = Phase::Idle;
                    Some(cycle_start)
                } else {
                    None
                }
            },
            _ => None,
        }
    }
}

/// The items handed out by a cycle are exactly the fetched items whose
/// modification time parses to an instant strictly after the watermark.
pub proof fn lemma_fresh_exactly(items: Seq<Notification>, watermark: Instant, n: Notification)
    ensures
        fresh_items(items, watermark).contains(n) <==> items.contains(n) && (parsed_instant(
            n.updated_at@,
        ) matches Some(t) && t.is_after(watermark)),
{
    broadcast use vstd::seq_lib::group_filter_ensures;

    let p = stands_as(watermark, Freshness::Fresh);
    let fresh = items.filter(p);
    match parsed_instant(n.updated_at@) {
        Some(t) => {},
        None => {},
    }
    if items.contains(n) && p(n) {
        let j = choose|j: int| 0 <= j < items.len() && items[j] == n;
        assert(fresh.contains(items[j]));
    }
    if fresh.contains(n) {
        items.lemma_filter_contains_rev(p, n);
        let i = choose|i: int| 0 <= i < fresh.len() && fresh[i] == n;
        assert(p(fresh[i]));
    }
}

/// When nothing in the feed changes after a cycle that fetched successfully
/// and began at `start`, the next cycle over the same items hands none out.
pub proof fn lemma_second_cycle_quiet(items: Seq<Notification>, before: Instant, start: Instant)
    requires
        forall|i: int|
            0 <= i < items.len() ==> (parsed_instant(#[trigger] items[i].updated_at@) matches Some(
                t,
            ) ==> !t.is_after(start)),
    ensures
        fresh_items(items, watermark_after(before, start, true)).len() == 0,
{
    let p = stands_as(start, Freshness::Fresh);
    assert forall|i: int| 0 <= i < items.len() implies !p(items[i]) by {}
    items.lemma_all_neg_filter_empty(p);
}

/// A cycle whose fetch fails leaves the watermark where it was.
pub proof fn lemma_failed_cycle_keeps_watermark(before: Instant, start: Instant)
    ensures
        watermark_after(before, start, false) == before,
{
}

} // verus!
