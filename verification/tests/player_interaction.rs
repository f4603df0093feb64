use shopping_sim::geom::Vec2i;
use shopping_sim::items::Item;
use shopping_sim::level::Shelf;
use shopping_sim::player::{player_interact, Player};
use shopping_sim::sensor::{on_enter, on_exit, SensorZone};
use shopping_sim::shopper::Shopper;

fn shelves() -> Vec<Shelf> {
    vec![
        Shelf { main_item: Item::ToiletPaper, position: Vec2i::new(0, 350) },
        Shelf { main_item: Item::Soap, position: Vec2i::new(0, 100) },
    ]
}

#[test]
fn interact_with_no_shelf_is_a_silent_no_op() {
    let shelves = shelves();
    let mut player = Player::new();
    let r = player.interact(&shelves);
    assert!(r.is_none());
    assert_eq!(player.inventory.get(Item::ToiletPaper), 0);
    assert_eq!(player.inventory.get(Item::Soap), 0);
}

#[test]
fn interact_takes_one_unit_of_the_overlapped_shelf() {
    let shelves = shelves();
    let mut player = Player::new();
    player.current_shelf = Some(1);
    let r = player.interact(&shelves);
    assert!(r.is_some());
    assert_eq!(player.inventory.get(Item::Soap), 1);
    assert_eq!(player.inventory.get(Item::ToiletPaper), 0);
    // still overlapping: another press takes another unit
    assert!(player.interact(&shelves).is_some());
    assert_eq!(player.inventory.get(Item::Soap), 2);
}

#[test]
fn interact_with_a_vanished_shelf_is_a_no_op() {
    let shelves = shelves();
    let mut player = Player::new();
    player.current_shelf = Some(9);
    let r = player.interact(&shelves);
    assert!(r.is_none());
    assert_eq!(player.inventory.get(Item::ToiletPaper), 0);
    assert_eq!(player.inventory.get(Item::Soap), 0);
}

#[test]
fn the_sensor_zones_drive_the_player_too() {
    let shelves = shelves();
    let mut player = Player::new();
    on_enter(&mut player.current_shelf, &SensorZone { owner: 0 });
    assert!(player.interact(&shelves).is_some());
    assert_eq!(player.inventory.get(Item::ToiletPaper), 1);
    on_exit(&mut player.current_shelf, &SensorZone { owner: 0 });
    assert!(player.interact(&shelves).is_none());
    assert_eq!(player.inventory.get(Item::ToiletPaper), 1);
}

#[test]
fn a_pickup_broadcasts_panic_to_nearby_shoppers() {
    let shelves = shelves();
    let mut player = Player::new();
    player.current_shelf = Some(0);
    let player_pos = Vec2i::new(0, 320);
    let mut shoppers = vec![Shopper::new(), Shopper::new()];
    let positions = vec![Vec2i::new(0, 340), Vec2i::new(0, -900)];
    let picked = player_interact(&mut player, &shelves, &mut shoppers, &positions, &player_pos);
    assert!(picked);
    assert_eq!(player.inventory.get(Item::ToiletPaper), 1);
    assert_eq!(shoppers[0].panic_meter, 1);
    assert_eq!(shoppers[1].panic_meter, 0);
}

#[test]
fn a_failed_interaction_broadcasts_nothing() {
    let shelves = shelves();
    let mut player = Player::new();
    let player_pos = Vec2i::new(0, 320);
    let mut shoppers = vec![Shopper::new()];
    let positions = vec![Vec2i::new(0, 340)];
    let picked = player_interact(&mut player, &shelves, &mut shoppers, &positions, &player_pos);
    assert!(!picked);
    assert_eq!(shoppers[0].panic_meter, 0);
}

#[test]
fn five_nearby_pickups_panic_a_wandering_shopper() {
    let shelves = shelves();
    let mut player = Player::new();
    player.current_shelf = Some(0);
    let player_pos = Vec2i::new(0, 320);
    let mut shoppers = vec![Shopper::new()];
    let positions = vec![Vec2i::new(0, 340)];
    for _ in 0..5 {
        assert!(player_interact(&mut player, &shelves, &mut shoppers, &positions, &player_pos));
    }
    assert_eq!(shoppers[0].panic_meter, 5);
    let mut s = shoppers[0];
    s.step(&positions[0], &shelves, 16);
    assert!(matches!(s.state, shopping_sim::shopper::ShopperState::Panicked));
}
