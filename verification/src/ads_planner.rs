//! The ad-rotation planner: decides which ad asset plays next and tracks
//! its playback lifecycle for reporting.
//!
//! The planner holds the decision state only. The embedding application
//! performs the provider calls around it: it fetches the content listing
//! handed to [`AdsPlanner::new`], fetches the frames of the ad
//! [`AdsPlanner::next`] selects, and reports the lifecycle events that
//! `next` and [`AdsPlanner::finished`] return — reporting failures are its
//! to log and absorb, so playback never stalls because telemetry failed.

use vstd::prelude::*;

verus! {

/// Opaque identifier of an ad asset.
#[derive(Clone, Copy, PartialEq, Eq, Structural, Debug)]
pub struct AdId {
    /// The identifier's value.
    pub id: u128,
}

/// One entry of the ad provider's content listing: an ad and its label.
pub struct ContentItem {
    /// The ad's identifier.
    pub id: AdId,
    /// The ad's descriptive label; carried along, never consulted.
    pub label: String,
}

/// The ad currently in flight: its identifier and the time playback
/// started, for the finished-report. At most one per planner.
#[derive(Clone, Copy, PartialEq, Eq, Structural, Debug)]
pub struct ActiveItem {
    /// The playing ad.
    pub id: AdId,
    /// When its playback started, in the embedding layer's clock ticks.
    pub started: i64,
}

/// Why a planner could not be built.
#[derive(Clone, Copy, PartialEq, Eq, Structural, Debug)]
pub enum PlanError {
    /// The provider's content listing was empty: an unrecoverable
    /// configuration error, not a runtime-retryable condition.
    EmptyPlan,
}

/// The rotation plan a content listing arranges: the listed ads'
/// identifiers, in listing order.
pub open spec fn arranged(content: Seq<ContentItem>) -> Seq<AdId> {
    content.map_values(|item: ContentItem| item.id)
}

/// The ad-rotation planner: a client identity, an immutable nonempty
/// rotation plan, a round-robin cursor, and the ad currently in flight.
pub struct AdsPlanner {
    /// Identity of the client session the planner serves.
    pub client_id: u128,
    /// The rotation plan, built once from the provider's listing.
    pub plan: Vec<AdId>,
    /// Position of the next selection, always within the plan.
    pub cursor: usize,
    /// The ad whose playback was selected and not yet marked finished.
    pub active_item: Option<ActiveItem>,
}

impl AdsPlanner {
    /// The plan is nonempty and the cursor stays within it.
    pub open spec fn wf(self) -> bool {
        &&& self.plan@.len() > 0
        &&& self.cursor < self.plan@.len()
    }

    /// A planner for `client_id` over the provider's content listing, its
    /// plan the listed ads in listing order — no shuffling. An empty
    /// listing is refused.
    pub fn new(client_id: u128, content: Vec<ContentItem>) -> (r: Result<Self, PlanError>)
        ensures
            content@.len() == 0 <==> r is Err,
            r is Err ==> r == Result::<Self, PlanError>::Err(PlanError::EmptyPlan),
            r matches Ok(p) ==> {
                &&& p.wf()
                &&& p.client_id == client_id
                &&& p.plan@ == arranged(content@)
                &&& p.cursor == 0
                &&& p.active_item is None
            },
    {
        if content.len() == 0 {
            return Err(PlanError::EmptyPlan);
        }
        let mut plan: Vec<AdId> = Vec::new();
        let mut i: usize = 0;
        while i < content.len()
            invariant
                i <= content@.len(),
                plan@.len() == i,
                forall|k: int| 0 <= k < i ==> plan@[k] == content@[k].id,
            decreases content@.len() - i,
        {
            plan.push(content[i].id);
            i = i + 1;
        }
        proof {
            assert(plan@ =~= arranged(content@));
        }
        Ok(AdsPlanner { client_id, plan, cursor: 0, active_item: None })
    }

    /// Selects the ad to play next: the plan entry at the cursor, which
    /// then advances round-robin, wrapping at the plan's end. The selected
    /// ad becomes the active item with start time `now`. A still-active
    /// previous item never blocks progress: the selection is returned
    /// beside an anomaly flag that reports it, for the embedding layer to
    /// log.
    pub fn next(&mut self, now: i64) -> (r: (AdId, bool))
        requires
            old(self).wf(),
        ensures
            final(self).wf(),
            next_step(*old(self), now, *final(self), r.0, r.1),
    {
        let anomaly = self.active_item.is_some();
        let selected = self.plan[self.cursor];
        let len = self.plan.len();
        proof {
            lemma_cursor_advance(self.cursor as int, self.plan@.len() as int);
        }
        self.cursor = if self.cursor + 1 == len {
            0
        } else {
            self.cursor + 1
        };
        self.active_item = Some(ActiveItem { id: selected, started: now });
        (selected, anomaly)
    }

    /// Ends the active playback, if any: clears the active item and
    /// returns it, so the embedding layer can report the finished event
    /// with the recorded start time.
    pub fn finished(&mut self) -> (r: Option<ActiveItem>)
        ensures
            r == old(self).active_item,
            final(self).active_item is None,
            final(self).client_id == old(self).client_id,
            final(self).plan == old(self).plan,
            final(self).cursor == old(self).cursor,
    {
        let r = self.active_item;
        self.active_item = None;
        r
    }
}

/// The step relation of [`AdsPlanner::next`]: the selection is the plan
/// entry at the cursor, the cursor advances modulo the plan's length, the
/// selection becomes the active item, and the anomaly flag reports — and
/// nothing more — that an earlier selection was never marked finished.
pub open spec fn next_step(
    pre: AdsPlanner,
    now: i64,
    post: AdsPlanner,
    selected: AdId,
    anomaly: bool,
) -> bool {
    &&& selected == pre.plan@[pre.cursor as int]
    &&& anomaly == (pre.active_item is Some)
    &&& post.client_id == pre.client_id
    &&& post.plan == pre.plan
    &&& post.cursor == (pre.cursor + 1) % (pre.plan@.len() as int)
    &&& post.active_item == Some(ActiveItem { id: selected, started: now })
}

/// Advancing a cursor that stands within a plan of length `len` lands on
/// its round-robin successor: the next position, or the start at the
/// plan's end.
pub proof fn lemma_cursor_advance(c: int, len: int)
    requires
        0 <= c < len,
    ensures
        (c + 1) % len == if c + 1 < len {
            c + 1
        } else {
            0
        },
{
    if c + 1 < len {
        vstd::arithmetic::div_mod::lemma_small_mod((c + 1) as nat, len as nat);
    } else {
        vstd::arithmetic::div_mod::lemma_mod_self_0(len);
    }
}

/// A run of selections: `states` are the planner's states, and between
/// state `j` and `j + 1` one [`AdsPlanner::next`] call selected `sels[j]`
/// at time `nows[j]`, flagging `anomalies[j]`.
pub open spec fn selection_run(
    states: Seq<AdsPlanner>,
    nows: Seq<i64>,
    sels: Seq<AdId>,
    anomalies: Seq<bool>,
) -> bool {
    &&& states.len() == sels.len() + 1
    &&& nows.len() == sels.len()
    &&& anomalies.len() == sels.len()
    &&& forall|j: int|
        0 <= j < sels.len() ==> next_step(
            states[j],
            nows[j],
            #[trigger] states[j + 1],
            sels[j],
            anomalies[j],
        )
}

/// Along any run of selections from a fresh planner, the plan never
/// changes and the cursor counts the selections made, modulo the plan's
/// length.
pub proof fn lemma_cursor_schedule(
    states: Seq<AdsPlanner>,
    nows: Seq<i64>,
    sels: Seq<AdId>,
    anomalies: Seq<bool>,
    i: int,
)
    requires
        selection_run(states, nows, sels, anomalies),
        states[0].wf(),
        states[0].cursor == 0,
        0 <= i <= sels.len(),
    ensures
        states[i].plan == states[0].plan,
        states[i].cursor == i % (states[0].plan@.len() as int),
    decreases i,
{
    let len = states[0].plan@.len() as int;
    if i == 0 {
        vstd::arithmetic::div_mod::lemma_small_mod(0nat, len as nat);
    } else {
        lemma_cursor_schedule(states, nows, sels, anomalies, i - 1);
        let j = i - 1;
        assert(next_step(states[j], nows[j], states[j + 1], sels[j], anomalies[j]));
        assert(states[j + 1] == states[i]);
        vstd::arithmetic::div_mod::lemma_add_mod_noop_right(1, i - 1, len);
    }
}

/// Round-robin rotation: along any run of selections from a fresh planner
/// over a plan of length K, the k-th selection is the plan's entry at
/// k modulo K. So the first K selections return the plan's entries
/// exactly once each, in listing order, and the (K+1)-th selection wraps
/// back to the first entry.
pub proof fn lemma_round_robin(
    states: Seq<AdsPlanner>,
    nows: Seq<i64>,
    sels: Seq<AdId>,
    anomalies: Seq<bool>,
    k: int,
)
    requires
        selection_run(states, nows, sels, anomalies),
        states[0].wf(),
        states[0].cursor == 0,
        0 <= k < sels.len(),
    ensures
        sels[k] == states[0].plan@[k % (states[0].plan@.len() as int)],
        k < states[0].plan@.len() ==> sels[k] == states[0].plan@[k],
        k == states[0].plan@.len() ==> sels[k] == states[0].plan@[0],
{
    let len = states[0].plan@.len() as int;
    lemma_cursor_schedule(states, nows, sels, anomalies, k);
    assert(next_step(states[k], nows[k], states[k + 1], sels[k], anomalies[k]));
    if k < len {
        vstd::arithmetic::div_mod::lemma_small_mod(k as nat, len as nat);
    }
    if k == len {
        vstd::arithmetic::div_mod::lemma_mod_self_0(len);
    }
}

/// A selection never blocks on an unfinished predecessor: two consecutive
/// selections from any well-formed planner state — no `finished` call in
/// between, the first selection still active — still return the plan
/// entries at the cursor and at its successor, and leave the planner well
/// formed; the unfinished first selection surfaces only as the second
/// call's anomaly flag.
pub proof fn lemma_next_never_blocks(
    s0: AdsPlanner,
    now1: i64,
    s1: AdsPlanner,
    sel1: AdId,
    anomaly1: bool,
    now2: i64,
    s2: AdsPlanner,
    sel2: AdId,
    anomaly2: bool,
)
    requires
        s0.wf(),
        next_step(s0, now1, s1, sel1, anomaly1),
        s1.wf(),
        next_step(s1, now2, s2, sel2, anomaly2),
    ensures
        sel1 == s0.plan@[s0.cursor as int],
        sel2 == s0.plan@[(s0.cursor + 1) % (s0.plan@.len() as int)],
        anomaly2 == true,
        s2.wf(),
        s2.cursor == (s0.cursor + 2) % (s0.plan@.len() as int),
{
    let len = s0.plan@.len() as int;
    lemma_cursor_advance(s0.cursor as int, len);
    lemma_cursor_advance(s1.cursor as int, len);
    if s0.cursor + 1 < len {
        // the first advance did not wrap: the cursors count up plainly
        assert(s1.cursor == s0.cursor + 1);
        if s1.cursor + 1 < len {
            vstd::arithmetic::div_mod::lemma_small_mod((s0.cursor + 2) as nat, len as nat);
        } else {
            vstd::arithmetic::div_mod::lemma_mod_self_0(len);
        }
    } else {
        // the first advance wrapped: the second lands one past the start
        assert(s1.cursor == 0);
        vstd::arithmetic::div_mod::lemma_mod_add_multiples_vanish(1, len);
        if 1 < len {
            vstd::arithmetic::div_mod::lemma_small_mod(1nat, len as nat);
        } else {
            vstd::arithmetic::div_mod::lemma_mod_self_0(len);
        }
    }
}

} // verus!
