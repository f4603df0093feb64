use shopping_sim::sensor::{on_enter, on_exit, SensorZone};

#[test]
fn enter_then_exit_clears_the_tracked_shelf() {
    let mut current: Option<usize> = None;
    let zone = SensorZone { owner: 3 };
    on_enter(&mut current, &zone);
    assert_eq!(current, Some(3));
    on_exit(&mut current, &zone);
    assert_eq!(current, None);
}

#[test]
fn repeated_enters_of_the_same_shelf_are_idempotent() {
    let mut current: Option<usize> = None;
    let zone_front = SensorZone { owner: 2 };
    let zone_back = SensorZone { owner: 2 };
    on_enter(&mut current, &zone_front);
    on_enter(&mut current, &zone_back);
    on_enter(&mut current, &zone_front);
    assert_eq!(current, Some(2));
    on_exit(&mut current, &zone_back);
    assert_eq!(current, None);
}

#[test]
fn stale_exit_is_ignored() {
    let mut current: Option<usize> = Some(7);
    let other = SensorZone { owner: 4 };
    on_exit(&mut current, &other);
    assert_eq!(current, Some(7));
}

#[test]
fn exit_with_nothing_tracked_is_a_no_op() {
    let mut current: Option<usize> = None;
    on_exit(&mut current, &SensorZone { owner: 0 });
    assert_eq!(current, None);
}

#[test]
fn entering_another_shelf_replaces_the_tracked_one() {
    let mut current: Option<usize> = None;
    on_enter(&mut current, &SensorZone { owner: 1 });
    on_enter(&mut current, &SensorZone { owner: 5 });
    assert_eq!(current, Some(5));
    // the exit of the first shelf's zone must not clobber the new one
    on_exit(&mut current, &SensorZone { owner: 1 });
    assert_eq!(current, Some(5));
    on_exit(&mut current, &SensorZone { owner: 5 });
    assert_eq!(current, None);
}
