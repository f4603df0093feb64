use shopping_sim::geom::Vec2i;
use shopping_sim::items::Item;
use shopping_sim::level::Shelf;
use shopping_sim::shopper::{
    broadcast_pickup, step_all, MoveIntent, Shopper, ShopperState, EXTRACTION_PERIOD_MS,
    PANIC_IMPULSE, TAKING_DECISION_MS, TRAVEL_IMPULSE, WANDER_IMPULSE,
};
use shopping_sim::spatial::nearest;
use shopping_sim::timers::{CountdownTimer, RepeatingTimer};

fn demo_shelves() -> Vec<Shelf> {
    vec![
        Shelf { main_item: Item::InstantRamen, position: Vec2i::new(0, 600) },
        Shelf { main_item: Item::ToiletPaper, position: Vec2i::new(0, 350) },
        Shelf { main_item: Item::Soap, position: Vec2i::new(0, 100) },
        Shelf { main_item: Item::CannedTuna, position: Vec2i::new(0, -150) },
        Shelf { main_item: Item::ToiletPaper, position: Vec2i::new(0, -400) },
    ]
}

fn wandering_about_to_decide() -> Shopper {
    let mut s = Shopper::new();
    s.state = ShopperState::Wandering {
        timer: CountdownTimer::new(0),
        direction: Vec2i::new(1, 0),
    };
    s
}

fn fresh_taking(target: usize) -> Shopper {
    let mut s = Shopper::new();
    s.state = ShopperState::Taking {
        timer: CountdownTimer::new(TAKING_DECISION_MS),
        taking_timer: RepeatingTimer::new(EXTRACTION_PERIOD_MS),
        target_shelf: target,
    };
    s
}

#[test]
fn panic_preempts_the_decision_timer() {
    let shelves = demo_shelves();
    let mut s = Shopper::new();
    s.panic_meter = 5;
    // decision timer still has its full two seconds to run
    s.step(&Vec2i::new(300, 100), &shelves, 1);
    assert!(matches!(s.state, ShopperState::Panicked));
}

#[test]
fn high_panic_preempts_even_an_elapsed_timer() {
    let shelves = demo_shelves();
    let mut s = wandering_about_to_decide();
    s.panic_meter = 9;
    s.step(&Vec2i::new(300, 100), &shelves, 1000);
    assert!(matches!(s.state, ShopperState::Panicked));
}

#[test]
fn below_threshold_keeps_wandering() {
    let shelves = demo_shelves();
    let mut s = Shopper::new();
    s.panic_meter = 4;
    s.step(&Vec2i::new(300, 100), &shelves, 100);
    assert!(matches!(s.state, ShopperState::Wandering { .. }));
}

#[test]
fn decision_picks_one_of_the_five_nearest_shelves() {
    let mut shelves = demo_shelves();
    // two distant shelves that must never be picked from (300, 100)
    shelves.push(Shelf { main_item: Item::Soap, position: Vec2i::new(9000, 9000) });
    shelves.push(Shelf { main_item: Item::Soap, position: Vec2i::new(-9000, 9000) });
    let pos = Vec2i::new(300, 100);
    let mut positions: Vec<Vec2i> = Vec::new();
    for s in &shelves {
        positions.push(s.position);
    }
    let candidates = nearest(&pos, &positions, 5);
    for _ in 0..200 {
        let mut s = wandering_about_to_decide();
        s.step(&pos, &shelves, 50);
        match s.state {
            ShopperState::Traveling { target_shelf } => {
                assert!(candidates.contains(&target_shelf));
            }
            ref other => panic!("expected Traveling, got {:?}", other),
        }
    }
}

#[test]
fn decision_over_five_nearest_is_roughly_uniform() {
    fastrand::seed(0x5eed_cafe);
    let shelves = demo_shelves();
    let pos = Vec2i::new(300, 100);
    let mut counts = [0usize; 5];
    for _ in 0..10000 {
        let mut s = wandering_about_to_decide();
        s.step(&pos, &shelves, 50);
        match s.state {
            ShopperState::Traveling { target_shelf } => counts[target_shelf] += 1,
            ref other => panic!("expected Traveling, got {:?}", other),
        }
    }
    for &c in &counts {
        assert!(c >= 1800 && c <= 2200, "selection frequencies not roughly uniform: {:?}", counts);
    }
}

#[test]
fn empty_shelf_set_defers_the_decision() {
    let shelves: Vec<Shelf> = Vec::new();
    let mut s = wandering_about_to_decide();
    s.step(&Vec2i::new(0, 0), &shelves, 100);
    assert!(matches!(s.state, ShopperState::Wandering { .. }));
    // it retries on the next tick, still without crashing
    s.step(&Vec2i::new(0, 0), &shelves, 100);
    assert!(matches!(s.state, ShopperState::Wandering { .. }));
}

#[test]
fn deferred_decision_succeeds_once_shelves_exist() {
    let mut s = wandering_about_to_decide();
    s.step(&Vec2i::new(0, 0), &Vec::new(), 100);
    assert!(matches!(s.state, ShopperState::Wandering { .. }));
    s.step(&Vec2i::new(0, 0), &demo_shelves(), 100);
    assert!(matches!(s.state, ShopperState::Traveling { .. }));
}

#[test]
fn sensor_confirmed_arrival_starts_taking() {
    let shelves = demo_shelves();
    let mut s = Shopper::new();
    s.state = ShopperState::Traveling { target_shelf: 2 };
    s.current_shelf = Some(2);
    s.step(&Vec2i::new(10, 100), &shelves, 16);
    match s.state {
        ShopperState::Taking { timer, taking_timer, target_shelf } => {
            assert_eq!(target_shelf, 2);
            assert_eq!(timer.remaining(), TAKING_DECISION_MS);
            assert_eq!(taking_timer.period_ms, EXTRACTION_PERIOD_MS);
        }
        ref other => panic!("expected Taking, got {:?}", other),
    }
}

#[test]
fn traveling_waits_until_the_sensors_confirm() {
    let shelves = demo_shelves();
    let mut s = Shopper::new();
    s.state = ShopperState::Traveling { target_shelf: 2 };
    s.current_shelf = None;
    s.step(&Vec2i::new(10, 100), &shelves, 16);
    assert!(matches!(s.state, ShopperState::Traveling { target_shelf: 2 }));
    // overlapping some other shelf does not count as arrival
    s.current_shelf = Some(1);
    s.step(&Vec2i::new(10, 100), &shelves, 16);
    assert!(matches!(s.state, ShopperState::Traveling { target_shelf: 2 }));
}

#[test]
fn taking_for_eight_seconds_yields_five_units() {
    let shelves = demo_shelves();
    let mut s = fresh_taking(2);
    let pos = Vec2i::new(10, 100);
    // 80 frames of 100 ms: the decision timer elapses on the 80th
    for _ in 0..80 {
        s.step(&pos, &shelves, 100);
    }
    assert_eq!(s.inventory.get(Item::Soap), 5);
    assert!(matches!(s.state, ShopperState::Wandering { .. }));
    assert_eq!(s.inventory.get(Item::ToiletPaper), 0);
    assert_eq!(s.inventory.get(Item::CannedTuna), 0);
    assert_eq!(s.inventory.get(Item::InstantRamen), 0);
}

#[test]
fn taking_boundary_at_exact_period_multiples() {
    let shelves = demo_shelves();
    let mut s = fresh_taking(3);
    let pos = Vec2i::new(10, -150);
    // five whole extraction periods: one unit on each
    for expected in 1..=5u32 {
        s.step(&pos, &shelves, EXTRACTION_PERIOD_MS);
        assert_eq!(s.inventory.get(Item::CannedTuna), expected);
    }
    assert!(matches!(s.state, ShopperState::Taking { .. }));
    // the remaining 500 ms of the window end it without another unit
    s.step(&pos, &shelves, 500);
    assert_eq!(s.inventory.get(Item::CannedTuna), 5);
    assert!(matches!(s.state, ShopperState::Wandering { .. }));
}

#[test]
fn taking_from_a_vanished_shelf_yields_nothing() {
    let shelves = demo_shelves();
    let mut s = fresh_taking(99);
    let pos = Vec2i::new(0, 0);
    for _ in 0..40 {
        s.step(&pos, &shelves, 100);
    }
    assert_eq!(s.inventory.get(Item::ToiletPaper), 0);
    assert_eq!(s.inventory.get(Item::CannedTuna), 0);
    assert_eq!(s.inventory.get(Item::InstantRamen), 0);
    assert_eq!(s.inventory.get(Item::Soap), 0);
}

#[test]
fn panicked_is_terminal() {
    let shelves = demo_shelves();
    let mut s = Shopper::new();
    s.state = ShopperState::Panicked;
    for _ in 0..50 {
        s.step(&Vec2i::new(0, 0), &shelves, 1000);
        assert!(matches!(s.state, ShopperState::Panicked));
    }
}

#[test]
fn stepping_never_changes_the_panic_meter() {
    let shelves = demo_shelves();
    let mut s = wandering_about_to_decide();
    s.panic_meter = 3;
    for _ in 0..20 {
        s.step(&Vec2i::new(300, 100), &shelves, 250);
        assert_eq!(s.panic_meter, 3);
    }
}

#[test]
fn movement_intents_follow_the_state() {
    let shelves = demo_shelves();
    let pos = Vec2i::new(300, 100);
    let player = Vec2i::new(-50, 20);

    let mut s = Shopper::new();
    s.state = ShopperState::Wandering {
        timer: CountdownTimer::new(2000),
        direction: Vec2i::new(7, -9),
    };
    assert_eq!(
        s.movement_intent(&pos, &player, &shelves),
        Some(MoveIntent { direction: Vec2i::new(7, -9), impulse: WANDER_IMPULSE })
    );

    s.state = ShopperState::Traveling { target_shelf: 2 };
    assert_eq!(
        s.movement_intent(&pos, &player, &shelves),
        Some(MoveIntent { direction: Vec2i::new(-300, 0), impulse: TRAVEL_IMPULSE })
    );

    // a target that no longer exists asks for nothing
    s.state = ShopperState::Traveling { target_shelf: 42 };
    assert_eq!(s.movement_intent(&pos, &player, &shelves), None);

    s.state = ShopperState::Taking {
        timer: CountdownTimer::new(TAKING_DECISION_MS),
        taking_timer: RepeatingTimer::new(EXTRACTION_PERIOD_MS),
        target_shelf: 2,
    };
    assert_eq!(s.movement_intent(&pos, &player, &shelves), None);

    s.state = ShopperState::Panicked;
    assert_eq!(
        s.movement_intent(&pos, &player, &shelves),
        Some(MoveIntent { direction: Vec2i::new(-350, -80), impulse: PANIC_IMPULSE })
    );
}

#[test]
fn a_whole_crowd_steps_independently() {
    let shelves = demo_shelves();
    let positions = vec![Vec2i::new(300, 100), Vec2i::new(-300, -100), Vec2i::new(0, 95)];
    let mut crowd = vec![Shopper::new(), Shopper::new(), Shopper::new()];
    crowd[1].panic_meter = 5;
    crowd[2].state = ShopperState::Traveling { target_shelf: 2 };
    crowd[2].current_shelf = Some(2);
    assert!(crowd.iter().all(|s| s.ready_to_step(&shelves)));
    step_all(&mut crowd, &positions, &shelves, 16);
    assert!(matches!(crowd[0].state, ShopperState::Wandering { .. }));
    assert!(matches!(crowd[1].state, ShopperState::Panicked));
    assert!(matches!(crowd[2].state, ShopperState::Taking { .. }));
}

#[test]
fn broadcast_raises_only_nearby_meters() {
    let player = Vec2i::new(0, 0);
    let mut shoppers = vec![Shopper::new(), Shopper::new(), Shopper::new()];
    shoppers[1].panic_meter = 2;
    let positions = vec![
        Vec2i::new(300, 0),  // exactly at the radius: alarmed
        Vec2i::new(100, 50), // well inside: alarmed
        Vec2i::new(301, 0),  // just beyond: untouched
    ];
    broadcast_pickup(&mut shoppers, &positions, &player);
    assert_eq!(shoppers[0].panic_meter, 1);
    assert_eq!(shoppers[1].panic_meter, 3);
    assert_eq!(shoppers[2].panic_meter, 0);
}

#[test]
fn repeated_broadcasts_accumulate_monotonically() {
    let player = Vec2i::new(0, 0);
    let mut shoppers = vec![Shopper::new()];
    let positions = vec![Vec2i::new(10, 10)];
    let mut last = 0;
    for _ in 0..6 {
        broadcast_pickup(&mut shoppers, &positions, &player);
        assert!(shoppers[0].panic_meter >= last);
        last = shoppers[0].panic_meter;
    }
    assert_eq!(last, 6);
}
