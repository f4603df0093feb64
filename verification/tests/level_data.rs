use shopping_sim::geom::Vec2i;
use shopping_sim::items::Item;
use shopping_sim::level::{
    build_shelves, demo_checkout_spawns, demo_objectives, demo_shelf_spawns, demo_shopper_spawns,
    shelf_positions, ShelfOrientation,
};

#[test]
fn demo_shelves_match_the_arena_layout() {
    let spawns = demo_shelf_spawns();
    assert_eq!(spawns.len(), 5);
    assert_eq!(spawns[0].position, Vec2i::new(0, 600));
    assert_eq!(spawns[0].main_item, Item::InstantRamen);
    assert_eq!(spawns[1].position, Vec2i::new(0, 350));
    assert_eq!(spawns[1].main_item, Item::ToiletPaper);
    assert_eq!(spawns[2].position, Vec2i::new(0, 100));
    assert_eq!(spawns[2].main_item, Item::Soap);
    assert_eq!(spawns[3].position, Vec2i::new(0, -150));
    assert_eq!(spawns[3].main_item, Item::CannedTuna);
    assert_eq!(spawns[4].position, Vec2i::new(0, -400));
    assert_eq!(spawns[4].main_item, Item::ToiletPaper);
    assert!(spawns.iter().all(|s| s.orientation == ShelfOrientation::Horizontal));
}

#[test]
fn build_shelves_keeps_order_items_and_positions() {
    let spawns = demo_shelf_spawns();
    let shelves = build_shelves(&spawns);
    assert_eq!(shelves.len(), spawns.len());
    for (shelf, spawn) in shelves.iter().zip(spawns.iter()) {
        assert_eq!(shelf.main_item, spawn.main_item);
        assert_eq!(shelf.position, spawn.position);
    }
}

#[test]
fn shelf_positions_line_up_with_their_shelves() {
    let shelves = build_shelves(&demo_shelf_spawns());
    let positions = shelf_positions(&shelves);
    assert_eq!(positions.len(), shelves.len());
    for (p, s) in positions.iter().zip(shelves.iter()) {
        assert_eq!(*p, s.position);
    }
}

#[test]
fn demo_shoppers_and_counters() {
    let shoppers = demo_shopper_spawns();
    assert_eq!(shoppers.len(), 2);
    assert_eq!(shoppers[0].position, Vec2i::new(300, 100));
    assert_eq!(shoppers[1].position, Vec2i::new(-300, -100));

    let counters = demo_checkout_spawns();
    assert_eq!(counters.len(), 3);
    assert_eq!(counters[0].position, Vec2i::new(600, -300));
    assert_eq!(counters[1].position, Vec2i::new(600, 0));
    assert_eq!(counters[2].position, Vec2i::new(600, 300));
}

#[test]
fn demo_objectives_demand_three_of_the_four_items() {
    let objectives = demo_objectives();
    assert_eq!(objectives.required(Item::ToiletPaper), 12);
    assert_eq!(objectives.required(Item::CannedTuna), 8);
    assert_eq!(objectives.required(Item::InstantRamen), 0);
    assert_eq!(objectives.required(Item::Soap), 9);
}
