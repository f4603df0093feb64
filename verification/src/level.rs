use crate::geom::Vec2i;
use crate::inventory::Objectives;
use crate::items::Item;
use vstd::prelude::*;

verus! {

/// How a static fixture is laid out in the arena. Orientation only
/// affects how the host draws and collides the fixture; the decision
/// logic reads positions alone.
#[derive(Clone, Copy, PartialEq, Eq, Structural, Debug)]
pub enum ShelfOrientation {
    Horizontal,
    Vertical,
}

/// A static fixture holding one purchasable item kind, created at level
/// start and immutable thereafter.
#[derive(Clone, Copy, PartialEq, Eq, Structural, Debug)]
pub struct Shelf {
    pub main_item: Item,
    pub position: Vec2i,
}

/// A request to create one shelf at level start.
#[derive(Clone, Copy, PartialEq, Eq, Structural, Debug)]
pub struct SpawnShelf {
    pub position: Vec2i,
    pub orientation: ShelfOrientation,
    pub main_item: Item,
}

/// A request to create one autonomous shopper at level start.
#[derive(Clone, Copy, PartialEq, Eq, Structural, Debug)]
pub struct SpawnShopper {
    pub position: Vec2i,
}

/// A request to create one checkout counter at level start. Counters are
/// scenery: they block movement but take no part in any decision.
#[derive(Clone, Copy, PartialEq, Eq, Structural, Debug)]
pub struct SpawnCheckoutCounter {
    pub position: Vec2i,
    pub orientation: ShelfOrientation,
}

/// Every shelf position lies within the arena's coordinate limit.
pub open spec fn shelves_in_bounds(shelves: Seq<Shelf>) -> bool {
    forall|i: int| 0 <= i < shelves.len() ==> (#[trigger] shelves[i]).position.in_bounds()
}

/// The positions of the shelves, in enumeration order.
pub open spec fn shelf_positions_spec(shelves: Seq<Shelf>) -> Seq<Vec2i> {
    shelves.map_values(|s: Shelf| s.position)
}

/// Extract the shelf positions for the spatial query, in enumeration
/// order.
pub fn shelf_positions(shelves: &Vec<Shelf>) -> (r: Vec<Vec2i>)
    ensures
        r@ == shelf_positions_spec(shelves@),
{
    let mut r: Vec<Vec2i> = Vec::new();
    let mut i: usize = 0;
    while i < shelves.len()
        invariant
            0 <= i <= shelves@.len(),
            r@.len() == i,
            forall|t: int| 0 <= t < i ==> r@[t] == shelves@[t].position,
        decreases shelves@.len() - i,
    {
        r.push(shelves[i].position);
        i = i + 1;
    }
    proof {
        assert(r@ =~= shelf_positions_spec(shelves@));
    }
    r
}

/// The shelves of one spawn request each, in order. This is the data
/// half of shelf creation; the host spawns the bodies and sensors.
pub fn build_shelves(spawns: &Vec<SpawnShelf>) -> (r: Vec<Shelf>)
    ensures
        r@.len() == spawns@.len(),
        forall|i: int|
            0 <= i < spawns@.len() ==> (#[trigger] r@[i]) == (Shelf {
                main_item: spawns@[i].main_item,
                position: spawns@[i].position,
            }),
{
    let mut r: Vec<Shelf> = Vec::new();
    let mut i: usize = 0;
    while i < spawns.len()
        invariant
            0 <= i <= spawns@.len(),
            r@.len() == i,
            forall|t: int|
                0 <= t < i ==> (#[trigger] r@[t]) == (Shelf {
                    main_item: spawns@[t].main_item,
                    position: spawns@[t].position,
                }),
        decreases spawns@.len() - i,
    {
        let s = &spawns[i];
        r.push(Shelf { main_item: s.main_item, position: s.position });
        i = i + 1;
    }
    r
}

/// The demo arena's shelf layout: five horizontal shelves in a column.
pub fn demo_shelf_spawns() -> (r: Vec<SpawnShelf>)
    ensures
        r@.len() == 5,
        r@[0] == (SpawnShelf {
            position: Vec2i { x: 0, y: 600 },
            orientation: ShelfOrientation::Horizontal,
            main_item: Item::InstantRamen,
        }),
        r@[1] == (SpawnShelf {
            position: Vec2i { x: 0, y: 350 },
            orientation: ShelfOrientation::Horizontal,
            main_item: Item::ToiletPaper,
        }),
        r@[2] == (SpawnShelf {
            position: Vec2i { x: 0, y: 100 },
            orientation: ShelfOrientation::Horizontal,
            main_item: Item::Soap,
        }),
        r@[3] == (SpawnShelf {
            position: Vec2i { x: 0, y: -150i64 },
            orientation: ShelfOrientation::Horizontal,
            main_item: Item::CannedTuna,
        }),
        r@[4] == (SpawnShelf {
            position: Vec2i { x: 0, y: -400i64 },
            orientation: ShelfOrientation::Horizontal,
            main_item: Item::ToiletPaper,
        }),
{
    let mut r: Vec<SpawnShelf> = Vec::new();
    r.push(SpawnShelf {
        position: Vec2i { x: 0, y: 600 },
        orientation: ShelfOrientation::Horizontal,
        main_item: Item::InstantRamen,
    });
    r.push(SpawnShelf {
        position: Vec2i { x: 0, y: 350 },
        orientation: ShelfOrientation::Horizontal,
        main_item: Item::ToiletPaper,
    });
    r.push(SpawnShelf {
        position: Vec2i { x: 0, y: 100 },
        orientation: ShelfOrientation::Horizontal,
        main_item: Item::Soap,
    });
    r.push(SpawnShelf {
        position: Vec2i { x: 0, y: -150i64 },
        orientation: ShelfOrientation::Horizontal,
        main_item: Item::CannedTuna,
    });
    r.push(SpawnShelf {
        position: Vec2i { x: 0, y: -400i64 },
        orientation: ShelfOrientation::Horizontal,
        main_item: Item::ToiletPaper,
    });
    r
}

/// The demo arena's two shopper spawn points.
pub fn demo_shopper_spawns() -> (r: Vec<SpawnShopper>)
    ensures
        r@.len() == 2,
        r@[0] == (SpawnShopper { position: Vec2i { x: 300, y: 100 } }),
        r@[1] == (SpawnShopper { position: Vec2i { x: -300i64, y: -100i64 } }),
{
    let mut r: Vec<SpawnShopper> = Vec::new();
    r.push(SpawnShopper { position: Vec2i { x: 300, y: 100 } });
    r.push(SpawnShopper { position: Vec2i { x: -300i64, y: -100i64 } });
    r
}

/// The demo arena's three checkout counters along the east wall.
pub fn demo_checkout_spawns() -> (r: Vec<SpawnCheckoutCounter>)
    ensures
        r@.len() == 3,
        r@[0] == (SpawnCheckoutCounter {
            position: Vec2i { x: 600, y: -300i64 },
            orientation: ShelfOrientation::Horizontal,
        }),
        r@[1] == (SpawnCheckoutCounter {
            position: Vec2i { x: 600, y: 0 },
            orientation: ShelfOrientation::Horizontal,
        }),
        r@[2] == (SpawnCheckoutCounter {
            position: Vec2i { x: 600, y: 300 },
            orientation: ShelfOrientation::Horizontal,
        }),
{
    let mut r: Vec<SpawnCheckoutCounter> = Vec::new();
    r.push(SpawnCheckoutCounter {
        position: Vec2i { x: 600, y: -300i64 },
        orientation: ShelfOrientation::Horizontal,
    });
    r.push(SpawnCheckoutCounter {
        position: Vec2i { x: 600, y: 0 },
        orientation: ShelfOrientation::Horizontal,
    });
    r.push(SpawnCheckoutCounter {
        position: Vec2i { x: 600, y: 300 },
        orientation: ShelfOrientation::Horizontal,
    });
    r
}

/// The level's required item counts: twelve toilet paper, eight canned
/// tuna, nine soap; instant ramen is optional.
pub fn demo_objectives() -> (r: Objectives)
    ensures
        r.required_spec(Item::ToiletPaper) == 12,
        r.required_spec(Item::CannedTuna) == 8,
        r.required_spec(Item::InstantRamen) == 0,
        r.required_spec(Item::Soap) == 9,
{
    Objectives::new(12, 8, 0, 9)
}

} // verus!
