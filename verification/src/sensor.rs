use vstd::prelude::*;

verus! {

/// A trigger region attached to one shelf. The host's collision pass
/// reports when an agent enters or leaves it; the zone itself only names
/// the shelf that owns it, as an index into the level's shelf table.
#[derive(Clone, Copy, PartialEq, Eq, Structural, Debug)]
pub struct SensorZone {
    pub owner: usize,
}

/// One edge-triggered proximity signal from the collision pass.
#[derive(Clone, Copy, PartialEq, Eq, Structural, Debug)]
pub enum SensorEvent {
    Enter { owner: usize },
    Exit { owner: usize },
}

/// What one proximity signal does to an agent's tracked shelf: entering
/// a zone points the agent at the owning shelf; leaving clears the
/// reference only if it still names that shelf, so zones of another
/// shelf cannot clobber it.
pub open spec fn apply_event(current: Option<usize>, event: SensorEvent) -> Option<usize> {
    match event {
        SensorEvent::Enter { owner } => Some(owner),
        SensorEvent::Exit { owner } => if current == Some(owner) {
            None
        } else {
            current
        },
    }
}

/// The tracked shelf after a whole sequence of proximity signals.
pub open spec fn apply_events(current: Option<usize>, events: Seq<SensorEvent>) -> Option<usize>
    decreases events.len(),
{
    if events.len() == 0 {
        current
    } else {
        apply_events(apply_event(current, events.first()), events.drop_first())
    }
}

/// The agent entered a zone: it now tracks the owning shelf. Entering
/// the same zone again is a no-op in effect.
pub fn on_enter(current_shelf: &mut Option<usize>, zone: &SensorZone)
    ensures
        *final(current_shelf) == apply_event(
            *old(current_shelf),
            SensorEvent::Enter { owner: zone.owner },
        ),
        *final(current_shelf) == Some(zone.owner),
{
    *current_shelf = Some(zone.owner);
}

/// The agent left a zone: the tracked shelf is cleared only if it still
/// names the zone's owner; a stale exit is silently ignored.
pub fn on_exit(current_shelf: &mut Option<usize>, zone: &SensorZone)
    ensures
        *final(current_shelf) == apply_event(
            *old(current_shelf),
            SensorEvent::Exit { owner: zone.owner },
        ),
{
    match *current_shelf {
        Some(s) => {
            if s == zone.owner {
                *current_shelf = None;
            }
        },
        None => {},
    }
}

/// Entering a shelf's zone and later leaving it always ends with no
/// tracked shelf, as long as no zone of a different shelf was entered in
/// between: any number of repeated enters of the same shelf in the
/// middle changes nothing.
pub proof fn lemma_sensor_symmetry(
    current: Option<usize>,
    owner: usize,
    mid: Seq<SensorEvent>,
)
    requires
        forall|i: int| 0 <= i < mid.len() ==> mid[i] == (SensorEvent::Enter { owner }),
    ensures
        apply_events(
            current,
            seq![SensorEvent::Enter { owner }] + mid + seq![SensorEvent::Exit { owner }],
        ) is None,
{
    let events = seq![SensorEvent::Enter { owner }] + mid + seq![SensorEvent::Exit { owner }];
    assert(events.first() == (SensorEvent::Enter { owner }));
    assert(events.drop_first() =~= mid + seq![SensorEvent::Exit { owner }]);
    lemma_tracked_until_exit(owner, mid);
}

/// Helper for the symmetry law: once the shelf is tracked, a run of
/// repeated enters of the same shelf followed by its exit ends with no
/// tracked shelf.
proof fn lemma_tracked_until_exit(owner: usize, mid: Seq<SensorEvent>)
    requires
        forall|i: int| 0 <= i < mid.len() ==> mid[i] == (SensorEvent::Enter { owner }),
    ensures
        apply_events(Some(owner), mid + seq![SensorEvent::Exit { owner }]) is None,
    decreases mid.len(),
{
    let events = mid + seq![SensorEvent::Exit { owner }];
    if mid.len() == 0 {
        assert(events.first() == (SensorEvent::Exit { owner }));
        assert(events.drop_first() =~= Seq::<SensorEvent>::empty());
        assert(apply_event(Some(owner), events.first()) is None);
        assert(apply_events(None::<usize>, events.drop_first()) is None);
    } else {
        assert(events.first() == mid[0]);
        assert(events.drop_first() =~= mid.drop_first() + seq![SensorEvent::Exit { owner }]);
        assert forall|i: int|
            0 <= i < mid.drop_first().len() implies mid.drop_first()[i] == (SensorEvent::Enter {
            owner,
        }) by {
            assert(mid.drop_first()[i] == mid[i + 1]);
        }
        lemma_tracked_until_exit(owner, mid.drop_first());
    }
}

} // verus!
