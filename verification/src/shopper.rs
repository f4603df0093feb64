use crate::geom::Vec2i;
use crate::inventory::Inventory;
use crate::items::Item;
use crate::level::{shelf_positions, shelf_positions_spec, shelves_in_bounds, Shelf};
use crate::rng;
use crate::spatial::{nearest, nearest_spec};
use crate::timers::{
    countdown_after, lemma_repeating_fire_count, lemma_sum_deltas_nonneg, repeating_after,
    repeating_fire_count, sum_deltas, CountdownTimer, RepeatingTimer,
};
use vstd::prelude::*;

verus! {

/// How many nearby pickups turn a shopper from Wandering to Panicked.
pub const PANIC_THRESHOLD: u32 = 5;

/// A pickup within this many world units of the player alarms a shopper.
pub const PANIC_RADIUS: i64 = 300;

/// How long a freshly spawned shopper wanders before picking a shelf.
pub const WANDER_DECISION_MS: u64 = 2000;

/// How long a shopper wanders after it is done taking from a shelf.
pub const WANDER_AFTER_TAKING_MS: u64 = 10000;

/// How long a shopper keeps taking from a shelf before wandering off.
pub const TAKING_DECISION_MS: u64 = 8000;

/// The repeating interval at which a Taking shopper extracts one item.
pub const EXTRACTION_PERIOD_MS: u64 = 1500;

/// A shopper picks its destination among this many nearest shelves.
pub const NEAREST_SHELF_CANDIDATES: usize = 5;

/// Each component of a random wander direction lies in this range.
pub const WANDER_DIRECTION_RANGE: i64 = 1000;

/// Impulse magnitude while wandering.
pub const WANDER_IMPULSE: u32 = 400;

/// Impulse magnitude while traveling to a shelf.
pub const TRAVEL_IMPULSE: u32 = 1000;

/// Impulse magnitude of a panicked stampede toward the player.
pub const PANIC_IMPULSE: u32 = 5000;

/// The four-state behavior cycle of an autonomous shopper. Panicked is
/// terminal by design: no transition leaves it.
#[derive(Clone, Copy, PartialEq, Eq, Structural, Debug)]
pub enum ShopperState {
    Wandering { timer: CountdownTimer, direction: Vec2i },
    Traveling { target_shelf: usize },
    Taking { timer: CountdownTimer, taking_timer: RepeatingTimer, target_shelf: usize },
    Panicked,
}

/// An autonomous shopper: the shelf it currently overlaps (set by the
/// sensor zones), its accumulated panic, its item ledger and its
/// behavior state. Its position belongs to the physics engine and is
/// read afresh each tick.
#[derive(Clone, Copy, PartialEq, Eq, Structural, Debug)]
pub struct Shopper {
    pub current_shelf: Option<usize>,
    pub panic_meter: u32,
    pub inventory: Inventory,
    pub state: ShopperState,
}

/// The movement a shopper asks of the physics engine this tick: a
/// direction, not yet normalized, and an impulse magnitude.
#[derive(Clone, Copy, PartialEq, Eq, Structural, Debug)]
pub struct MoveIntent {
    pub direction: Vec2i,
    pub impulse: u32,
}

/// Whether a shopper at `shopper_pos` is close enough to the player to
/// be alarmed by a pickup, compared in squared distance.
pub open spec fn within_panic_radius(shopper_pos: Vec2i, player_pos: Vec2i) -> bool {
    shopper_pos.dist_sq_spec(player_pos) <= PANIC_RADIUS * PANIC_RADIUS
}

/// What one pickup broadcast does to one shopper: the panic meter grows
/// by one within the radius and is untouched beyond it; nothing else of
/// the shopper changes. The meter never decreases.
pub open spec fn pickup_noted(pre: Shopper, post: Shopper, shopper_pos: Vec2i, player_pos: Vec2i) -> bool {
    &&& post.panic_meter == (if within_panic_radius(shopper_pos, player_pos) {
        pre.panic_meter + 1
    } else {
        pre.panic_meter as int
    })
    &&& post.state == pre.state
    &&& post.inventory == pre.inventory
    &&& post.current_shelf == pre.current_shelf
}

impl Shopper {
    /// A freshly spawned shopper: nothing tracked, no panic, empty
    /// inventory, wandering nowhere in particular until its first
    /// decision.
    pub open spec fn new_spec() -> Shopper {
        Shopper {
            current_shelf: None,
            panic_meter: 0,
            inventory: Inventory::empty_spec(),
            state: ShopperState::Wandering {
                timer: CountdownTimer::new_spec(WANDER_DECISION_MS),
                direction: Vec2i::zero_spec(),
            },
        }
    }

    pub fn new() -> (r: Shopper)
        ensures
            r == Shopper::new_spec(),
            r.wf(),
    {
        Shopper {
            current_shelf: None,
            panic_meter: 0,
            inventory: Inventory::new(),
            state: ShopperState::Wandering {
                timer: CountdownTimer::new(WANDER_DECISION_MS),
                direction: Vec2i::zero(),
            },
        }
    }

    /// Well-formed: a Taking shopper's extraction timer runs on the
    /// fixed extraction period.
    pub open spec fn wf(self) -> bool {
        match self.state {
            ShopperState::Taking { timer: _, taking_timer, target_shelf: _ } => taking_timer.wf()
                && taking_timer.period_ms == EXTRACTION_PERIOD_MS,
            _ => true,
        }
    }

    /// One pickup broadcast reached this shopper: if it stands within
    /// the panic radius of the player, its own panic meter grows by one.
    pub fn note_player_pickup(&mut self, self_pos: &Vec2i, player_pos: &Vec2i)
        requires
            self_pos.in_bounds(),
            player_pos.in_bounds(),
            old(self).panic_meter < u32::MAX,
        ensures
            pickup_noted(*old(self), *final(self), *self_pos, *player_pos),
            final(self).panic_meter >= old(self).panic_meter,
    {
        let d = self_pos.dist_sq(player_pos);
        if d <= PANIC_RADIUS * PANIC_RADIUS {
            self.panic_meter = self.panic_meter + 1;
        }
    }
}

/// The pickup broadcast fanned out to every shopper: each one compares
/// its own distance to the player and bumps its own meter, independently
/// of all others. `positions[i]` is the current position of
/// `shoppers[i]`.
pub fn broadcast_pickup(shoppers: &mut Vec<Shopper>, positions: &Vec<Vec2i>, player_pos: &Vec2i)
    requires
        old(shoppers)@.len() == positions@.len(),
        player_pos.in_bounds(),
        forall|i: int| 0 <= i < positions@.len() ==> (#[trigger] positions@[i]).in_bounds(),
        forall|i: int| 0 <= i < old(shoppers)@.len() ==> (#[trigger] old(shoppers)@[i]).panic_meter
            < u32::MAX,
    ensures
        final(shoppers)@.len() == old(shoppers)@.len(),
        forall|i: int|
            0 <= i < old(shoppers)@.len() ==> pickup_noted(
                old(shoppers)@[i],
                #[trigger] final(shoppers)@[i],
                positions@[i],
                *player_pos,
            ),
{
    let n = shoppers.len();
    let mut i: usize = 0;
    while i < n
        invariant
            n == old(shoppers)@.len(),
            shoppers@.len() == n,
            positions@.len() == n,
            0 <= i <= n,
            player_pos.in_bounds(),
            forall|t: int| 0 <= t < n ==> (#[trigger] positions@[t]).in_bounds(),
            forall|t: int| 0 <= t < n ==> (#[trigger] old(shoppers)@[t]).panic_meter < u32::MAX,
            forall|t: int|
                0 <= t < i ==> pickup_noted(
                    old(shoppers)@[t],
                    #[trigger] shoppers@[t],
                    positions@[t],
                    *player_pos,
                ),
            forall|t: int| i <= t < n ==> #[trigger] shoppers@[t] == old(shoppers)@[t],
        decreases n - i,
    {
        let mut s = shoppers[i];
        s.note_player_pickup(&positions[i], player_pos);
        shoppers.set(i, s);
        i = i + 1;
    }
}

/// What one state-machine evaluation does to a shopper, given its
/// position, the level's shelves and the elapsed frame time: the
/// transition table of the behavior cycle.
///
/// A Wandering shopper whose panic meter has reached the threshold
/// panics at once, pre-empting its decision timer. Otherwise its timer
/// counts down, and on elapsing it travels to a uniformly random pick
/// among the nearest shelves; with no shelves at all it stays Wandering
/// and retries on the next tick. A Traveling shopper starts Taking when
/// the sensors confirm it overlaps its target. A Taking shopper gains
/// one unit of the target's item on every extraction tick, and wanders
/// off in a random direction when its decision timer elapses. Panicked
/// is terminal. The panic meter and tracked shelf are never touched
/// here.
pub open spec fn step_post(
    pre: Shopper,
    post: Shopper,
    pos: Vec2i,
    shelves: Seq<Shelf>,
    delta_ms: u64,
) -> bool {
    &&& post.panic_meter == pre.panic_meter
    &&& post.current_shelf == pre.current_shelf
    &&& match pre.state {
        ShopperState::Wandering { timer, direction } => {
            &&& post.inventory == pre.inventory
            &&& if pre.panic_meter >= PANIC_THRESHOLD {
                post.state == ShopperState::Panicked
            } else if !timer.fires_spec(delta_ms) {
                post.state == (ShopperState::Wandering {
                    timer: timer.ticked_spec(delta_ms),
                    direction,
                })
            } else {
                let cands = nearest_spec(
                    pos,
                    shelf_positions_spec(shelves),
                    NEAREST_SHELF_CANDIDATES as int,
                );
                if cands.len() == 0 {
                    post.state == (ShopperState::Wandering {
                        timer: CountdownTimer { remaining_ms: 0, finished: false },
                        direction,
                    })
                } else {
                    post.state matches ShopperState::Traveling { target_shelf }
                        && cands.contains(target_shelf)
                }
            }
        },
        ShopperState::Traveling { target_shelf } => {
            &&& post.inventory == pre.inventory
            &&& if pre.current_shelf == Some(target_shelf) {
                post.state == (ShopperState::Taking {
                    timer: CountdownTimer::new_spec(TAKING_DECISION_MS),
                    taking_timer: RepeatingTimer::new_spec(EXTRACTION_PERIOD_MS),
                    target_shelf,
                })
            } else {
                post.state == pre.state
            }
        },
        ShopperState::Taking { timer, taking_timer, target_shelf } => {
            if timer.fires_spec(delta_ms) {
                &&& post.inventory == pre.inventory
                &&& post.state matches ShopperState::Wandering { timer: t2, direction }
                    && t2 == CountdownTimer::new_spec(WANDER_AFTER_TAKING_MS)
                    && -WANDER_DIRECTION_RANGE <= direction.x <= WANDER_DIRECTION_RANGE
                    && -WANDER_DIRECTION_RANGE <= direction.y <= WANDER_DIRECTION_RANGE
            } else {
                &&& post.state == (ShopperState::Taking {
                    timer: timer.ticked_spec(delta_ms),
                    taking_timer: taking_timer.ticked_spec(delta_ms),
                    target_shelf,
                })
                &&& post.inventory == (if taking_timer.fires_spec(delta_ms) && (
                target_shelf as int) < shelves.len() {
                    pre.inventory.plus_one_spec(shelves[target_shelf as int].main_item)
                } else {
                    pre.inventory
                })
            }
        },
        ShopperState::Panicked => {
            &&& post.state == ShopperState::Panicked
            &&& post.inventory == pre.inventory
        },
    }
}

/// Everything one state-machine evaluation asks of a shopper: its
/// extraction timer well formed, and room in its ledger for one more
/// unit should this tick extract one.
pub open spec fn step_ready(s: Shopper, shelves: Seq<Shelf>) -> bool {
    &&& s.wf()
    &&& match s.state {
        ShopperState::Taking { timer: _, taking_timer: _, target_shelf } => (target_shelf as int)
            < shelves.len() ==> s.inventory.count_spec(shelves[target_shelf as int].main_item)
            < u32::MAX,
        _ => true,
    }
}

impl Shopper {
    /// Advance this shopper's state machine by one tick. Each shopper
    /// reads only its own state, its position, and the read-only shelf
    /// table, so a whole crowd may be stepped in any order.
    pub fn step(&mut self, pos: &Vec2i, shelves: &Vec<Shelf>, delta_ms: u64)
        requires
            step_ready(*old(self), shelves@),
            pos.in_bounds(),
            shelves_in_bounds(shelves@),
            delta_ms <= u64::MAX - EXTRACTION_PERIOD_MS,
        ensures
            step_post(*old(self), *final(self), *pos, shelves@, delta_ms),
            final(self).wf(),
            old(self).state matches ShopperState::Wandering { .. } && old(self).panic_meter
                >= PANIC_THRESHOLD ==> final(self).state is Panicked,
    {
        match self.state {
            ShopperState::Wandering { timer, direction } => {
                if self.panic_meter >= PANIC_THRESHOLD {
                    // about to panic: pre-empts the decision timer
                    self.state = ShopperState::Panicked;
                    return ;
                }
                let mut timer = timer;
                let fired = timer.tick(delta_ms);
                if !fired {
                    self.state = ShopperState::Wandering { timer, direction };
                } else {
                    let positions = shelf_positions(shelves);
                    let cands = nearest(pos, &positions, NEAREST_SHELF_CANDIDATES);
                    if cands.len() == 0 {
                        // no shelf to pick: stay wandering, retry next tick
                        self.state = ShopperState::Wandering {
                            timer: CountdownTimer { remaining_ms: 0, finished: false },
                            direction,
                        };
                    } else {
                        let pick = rng::random_below(cands.len());
                        let target = cands[pick];
                        proof {
                            assert(nearest_spec(
                                *pos,
                                shelf_positions_spec(shelves@),
                                NEAREST_SHELF_CANDIDATES as int,
                            )[pick as int] == target);
                        }
                        self.state = ShopperState::Traveling { target_shelf: target };
                    }
                }
            },
            ShopperState::Traveling { target_shelf } => {
                let arrived = match self.current_shelf {
                    Some(s) => s == target_shelf,
                    None => false,
                };
                if arrived {
                    self.state = ShopperState::Taking {
                        timer: CountdownTimer::new(TAKING_DECISION_MS),
                        taking_timer: RepeatingTimer::new(EXTRACTION_PERIOD_MS),
                        target_shelf,
                    };
                }
            },
            ShopperState::Taking { timer, taking_timer, target_shelf } => {
                let mut timer = timer;
                let fired = timer.tick(delta_ms);
                if fired {
                    // wander off in a random direction
                    let dx = rng::random_in_range(-WANDER_DIRECTION_RANGE, WANDER_DIRECTION_RANGE);
                    let dy = rng::random_in_range(-WANDER_DIRECTION_RANGE, WANDER_DIRECTION_RANGE);
                    self.state = ShopperState::Wandering {
                        timer: CountdownTimer::new(WANDER_AFTER_TAKING_MS),
                        direction: Vec2i::new(dx, dy),
                    };
                } else {
                    let mut taking_timer = taking_timer;
                    let extracted = taking_timer.tick(delta_ms);
                    if extracted && target_shelf < shelves.len() {
                        let item = shelves[target_shelf].main_item;
                        self.inventory.add_one(item);
                    }
                    self.state = ShopperState::Taking { timer, taking_timer, target_shelf };
                }
            },
            ShopperState::Panicked => {
                // terminal by design: nothing to do
            },
        }
    }

    /// Whether one more evaluation is safe: the extraction timer well
    /// formed and room in the ledger for one more unit. A session never
    /// comes near the limit; a host can test this before stepping.
    pub fn ready_to_step(&self, shelves: &Vec<Shelf>) -> (r: bool)
        ensures
            r == step_ready(*self, shelves@),
    {
        let timers_ok = match self.state {
            ShopperState::Taking { timer: _, taking_timer, target_shelf: _ } => {
                taking_timer.period_ms == EXTRACTION_PERIOD_MS && taking_timer.elapsed_ms
                    < taking_timer.period_ms
            },
            _ => true,
        };
        let ledger_ok = match self.state {
            ShopperState::Taking { timer: _, taking_timer: _, target_shelf } => {
                if target_shelf < shelves.len() {
                    self.inventory.get(shelves[target_shelf].main_item) < u32::MAX
                } else {
                    true
                }
            },
            _ => true,
        };
        timers_ok && ledger_ok
    }

    /// The movement this shopper asks of the physics engine, given its
    /// own and the player's current position: along its direction while
    /// Wandering, toward its target shelf while Traveling, none while
    /// Taking, and straight at the player while Panicked. A Traveling
    /// shopper whose target no longer exists asks for nothing.
    pub fn movement_intent(&self, pos: &Vec2i, player_pos: &Vec2i, shelves: &Vec<Shelf>) -> (r:
        Option<MoveIntent>)
        requires
            pos.in_bounds(),
            player_pos.in_bounds(),
            shelves_in_bounds(shelves@),
        ensures
            r == movement_intent_spec(*self, *pos, *player_pos, shelves@),
    {
        match self.state {
            ShopperState::Wandering { timer: _, direction } => Some(
                MoveIntent { direction, impulse: WANDER_IMPULSE },
            ),
            ShopperState::Traveling { target_shelf } => {
                if target_shelf < shelves.len() {
                    let direction = pos.direction_to(&shelves[target_shelf].position);
                    Some(MoveIntent { direction, impulse: TRAVEL_IMPULSE })
                } else {
                    None
                }
            },
            ShopperState::Taking { .. } => None,
            ShopperState::Panicked => {
                let direction = pos.direction_to(player_pos);
                Some(MoveIntent { direction, impulse: PANIC_IMPULSE })
            },
        }
    }
}

/// One tick of the whole crowd: every shopper's state machine advances
/// against its own position and the shared read-only shelf table.
/// Updates are independent — each shopper reads and writes only itself —
/// so the order of this loop is immaterial. `positions[i]` is the
/// current position of `shoppers[i]`.
pub fn step_all(
    shoppers: &mut Vec<Shopper>,
    positions: &Vec<Vec2i>,
    shelves: &Vec<Shelf>,
    delta_ms: u64,
)
    requires
        old(shoppers)@.len() == positions@.len(),
        forall|i: int| 0 <= i < positions@.len() ==> (#[trigger] positions@[i]).in_bounds(),
        shelves_in_bounds(shelves@),
        delta_ms <= u64::MAX - EXTRACTION_PERIOD_MS,
        forall|i: int|
            0 <= i < old(shoppers)@.len() ==> step_ready(#[trigger] old(shoppers)@[i], shelves@),
    ensures
        final(shoppers)@.len() == old(shoppers)@.len(),
        forall|i: int|
            0 <= i < old(shoppers)@.len() ==> step_post(
                old(shoppers)@[i],
                #[trigger] final(shoppers)@[i],
                positions@[i],
                shelves@,
                delta_ms,
            ) && final(shoppers)@[i].wf(),
{
    let n = shoppers.len();
    let mut i: usize = 0;
    while i < n
        invariant
            n == old(shoppers)@.len(),
            shoppers@.len() == n,
            positions@.len() == n,
            0 <= i <= n,
            forall|t: int| 0 <= t < n ==> (#[trigger] positions@[t]).in_bounds(),
            shelves_in_bounds(shelves@),
            delta_ms <= u64::MAX - EXTRACTION_PERIOD_MS,
            forall|t: int| 0 <= t < n ==> step_ready(#[trigger] old(shoppers)@[t], shelves@),
            forall|t: int|
                0 <= t < i ==> step_post(
                    old(shoppers)@[t],
                    #[trigger] shoppers@[t],
                    positions@[t],
                    shelves@,
                    delta_ms,
                ) && shoppers@[t].wf(),
            forall|t: int| i <= t < n ==> #[trigger] shoppers@[t] == old(shoppers)@[t],
        decreases n - i,
    {
        let mut s = shoppers[i];
        s.step(&positions[i], shelves, delta_ms);
        shoppers.set(i, s);
        i = i + 1;
    }
}

/// A ghost record of one thing that can change a shopper between two
/// observations: one state-machine evaluation, or one pickup broadcast
/// reaching it.
pub enum ShopperEvent {
    Step { pos: Vec2i, shelves: Seq<Shelf>, delta_ms: u64 },
    Broadcast { shopper_pos: Vec2i, player_pos: Vec2i },
}

/// Whether `post` is a possible successor of `pre` under the event.
pub open spec fn shopper_evolves(pre: Shopper, post: Shopper, e: ShopperEvent) -> bool {
    match e {
        ShopperEvent::Step { pos, shelves, delta_ms } => step_post(
            pre,
            post,
            pos,
            shelves,
            delta_ms,
        ),
        ShopperEvent::Broadcast { shopper_pos, player_pos } => pickup_noted(
            pre,
            post,
            shopper_pos,
            player_pos,
        ),
    }
}

/// No single event lowers the panic meter: a step leaves it alone and a
/// broadcast can only raise it.
pub proof fn lemma_panic_event_monotone(pre: Shopper, post: Shopper, e: ShopperEvent)
    requires
        shopper_evolves(pre, post, e),
    ensures
        post.panic_meter >= pre.panic_meter,
{
}

proof fn lemma_panic_chain(states: Seq<Shopper>, events: Seq<ShopperEvent>, i: int, j: int)
    requires
        states.len() == events.len() + 1,
        forall|t: int|
            0 <= t < events.len() ==> shopper_evolves(
                #[trigger] states[t],
                states[t + 1],
                events[t],
            ),
        0 <= i <= j < states.len(),
    ensures
        states[i].panic_meter <= states[j].panic_meter,
    decreases j - i,
{
    if i < j {
        lemma_panic_chain(states, events, i, j - 1);
        lemma_panic_event_monotone(states[j - 1], states[j], events[j - 1]);
    }
}

/// Panic monotonicity: along any run of state-machine steps and pickup
/// broadcasts a shopper's panic meter never decreases; and a broadcast
/// that reaches a shopper beyond the panic radius of the player leaves
/// its meter exactly as it was.
pub proof fn lemma_panic_monotone(states: Seq<Shopper>, events: Seq<ShopperEvent>)
    requires
        states.len() == events.len() + 1,
        forall|t: int|
            0 <= t < events.len() ==> shopper_evolves(
                #[trigger] states[t],
                states[t + 1],
                events[t],
            ),
    ensures
        forall|i: int, j: int|
            0 <= i <= j < states.len() ==> #[trigger] states[i].panic_meter
                <= #[trigger] states[j].panic_meter,
        forall|t: int|
            #![trigger events[t]]
            0 <= t < events.len() ==> (match events[t] {
                ShopperEvent::Broadcast { shopper_pos, player_pos } => !within_panic_radius(
                    shopper_pos,
                    player_pos,
                ) ==> states[t + 1].panic_meter == states[t].panic_meter,
                _ => true,
            }),
{
    assert forall|i: int, j: int| 0 <= i <= j < states.len() implies states[i].panic_meter
        <= states[j].panic_meter by {
        lemma_panic_chain(states, events, i, j);
    }
}

proof fn lemma_taking_gains_rec(
    states: Seq<Shopper>,
    pos: Vec2i,
    shelves: Seq<Shelf>,
    deltas: Seq<u64>,
    t0: CountdownTimer,
    e0: RepeatingTimer,
    target: usize,
)
    requires
        states.len() == deltas.len() + 1,
        forall|i: int|
            0 <= i < deltas.len() ==> step_post(
                #[trigger] states[i],
                states[i + 1],
                pos,
                shelves,
                deltas[i],
            ),
        states[0].state == (ShopperState::Taking {
            timer: t0,
            taking_timer: e0,
            target_shelf: target,
        }),
        e0.wf(),
        (target as int) < shelves.len(),
        !t0.finished,
        sum_deltas(deltas) < t0.remaining_ms,
        states[0].inventory.count_spec(shelves[target as int].main_item) + deltas.len()
            <= u32::MAX,
    ensures
        states.last().state == (ShopperState::Taking {
            timer: countdown_after(t0, deltas),
            taking_timer: repeating_after(e0, deltas),
            target_shelf: target,
        }),
        states.last().inventory.count_spec(shelves[target as int].main_item) == states[0].inventory.count_spec(
            shelves[target as int].main_item,
        ) + repeating_fire_count(e0, deltas),
        forall|it: Item|
            it != shelves[target as int].main_item ==> states.last().inventory.count_spec(it)
                == states[0].inventory.count_spec(it),
    decreases deltas.len(),
{
    let item = shelves[target as int].main_item;
    if deltas.len() == 0 {
        assert(states.last() == states[0]);
    } else {
        let d = deltas.first();
        lemma_sum_deltas_nonneg(deltas.drop_first());
        assert(sum_deltas(deltas) == d + sum_deltas(deltas.drop_first()));
        assert(step_post(states[0], states[1], pos, shelves, d));
        assert(!t0.fires_spec(d));
        let t1 = t0.ticked_spec(d);
        let e1 = e0.ticked_spec(d);
        vstd::arithmetic::div_mod::lemma_mod_bound(e0.elapsed_ms + d, e0.period_ms as int);
        let states2 = states.drop_first();
        let deltas2 = deltas.drop_first();
        assert(forall|i: int|
            0 <= i < deltas2.len() ==> step_post(
                #[trigger] states2[i],
                states2[i + 1],
                pos,
                shelves,
                deltas2[i],
            )) by {
            assert(forall|i: int|
                0 <= i < deltas2.len() ==> states2[i] == states[i + 1] && states2[i + 1]
                    == states[i + 2] && deltas2[i] == #[trigger] deltas[i + 1]);
        }
        lemma_taking_gains_rec(states2, pos, shelves, deltas2, t1, e1, target);
        assert(states2.last() == states.last());
        assert(countdown_after(t0, deltas) == countdown_after(t1, deltas2));
        assert(repeating_after(e0, deltas) == repeating_after(e1, deltas2));
    }
}

/// Taking yields exactly one item per extraction tick: a shopper that
/// stays in Taking at a live shelf through a run of ticks, each tick no
/// longer than the extraction period, gains exactly one unit of the
/// target's item per full period of accumulated time — total elapsed
/// time divided by the period, so five units over a full eight-second
/// window with the fixed period of 1.5 s — and no other count moves.
pub proof fn lemma_taking_gains(
    states: Seq<Shopper>,
    pos: Vec2i,
    shelves: Seq<Shelf>,
    deltas: Seq<u64>,
    t0: CountdownTimer,
    e0: RepeatingTimer,
    target: usize,
)
    requires
        states.len() == deltas.len() + 1,
        forall|i: int|
            0 <= i < deltas.len() ==> step_post(
                #[trigger] states[i],
                states[i + 1],
                pos,
                shelves,
                deltas[i],
            ),
        states[0].state == (ShopperState::Taking {
            timer: t0,
            taking_timer: e0,
            target_shelf: target,
        }),
        e0.wf(),
        e0.elapsed_ms == 0,
        (target as int) < shelves.len(),
        !t0.finished,
        sum_deltas(deltas) < t0.remaining_ms,
        forall|i: int| 0 <= i < deltas.len() ==> #[trigger] deltas[i] <= e0.period_ms,
        states[0].inventory.count_spec(shelves[target as int].main_item) + deltas.len()
            <= u32::MAX,
    ensures
        states.last().state matches ShopperState::Taking { timer: t, taking_timer: e, target_shelf: g }
            && g == target,
        states.last().inventory.count_spec(shelves[target as int].main_item) == states[0].inventory.count_spec(
            shelves[target as int].main_item,
        ) + sum_deltas(deltas) / (e0.period_ms as int),
        forall|it: Item|
            it != shelves[target as int].main_item ==> states.last().inventory.count_spec(it)
                == states[0].inventory.count_spec(it),
{
    lemma_taking_gains_rec(states, pos, shelves, deltas, t0, e0, target);
    lemma_repeating_fire_count(e0, deltas);
}

/// The movement a shopper in a given state asks for: its wander
/// direction, the way to its target shelf, nothing while taking, or a
/// stampede straight at the player.
pub open spec fn movement_intent_spec(
    shopper: Shopper,
    pos: Vec2i,
    player_pos: Vec2i,
    shelves: Seq<Shelf>,
) -> Option<MoveIntent> {
    match shopper.state {
        ShopperState::Wandering { timer: _, direction } => Some(
            MoveIntent { direction, impulse: WANDER_IMPULSE },
        ),
        ShopperState::Traveling { target_shelf } => if (target_shelf as int) < shelves.len() {
            Some(
                MoveIntent {
                    direction: Vec2i::sub_spec(shelves[target_shelf as int].position, pos),
                    impulse: TRAVEL_IMPULSE,
                },
            )
        } else {
            None
        },
        ShopperState::Taking { .. } => None,
        ShopperState::Panicked => Some(
            MoveIntent { direction: Vec2i::sub_spec(player_pos, pos), impulse: PANIC_IMPULSE },
        ),
    }
}

} // verus!
