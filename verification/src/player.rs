use crate::geom::Vec2i;
use crate::inventory::Inventory;
use crate::level::Shelf;
use crate::shopper::{broadcast_pickup, pickup_noted, Shopper};
use vstd::prelude::*;

verus! {

/// The player-controlled shopper: the shelf it currently overlaps (set
/// by the sensor zones) and its item ledger. Movement is the host's
/// business.
#[derive(Clone, Copy, PartialEq, Eq, Structural, Debug)]
pub struct Player {
    pub current_shelf: Option<usize>,
    pub inventory: Inventory,
}

/// The broadcast signal emitted once per successful player pickup; every
/// shopper near the player answers it by raising its panic meter.
#[derive(Clone, Copy, PartialEq, Eq, Structural, Debug)]
pub struct PlayerPickedItem;

/// Whether an interact command takes an item: the player must overlap a
/// shelf, and that shelf must still exist.
pub open spec fn pickup_happens(p: Player, shelves: Seq<Shelf>) -> bool {
    match p.current_shelf {
        Some(s) => (s as int) < shelves.len(),
        None => false,
    }
}

impl Player {
    pub open spec fn new_spec() -> Player {
        Player { current_shelf: None, inventory: Inventory::empty_spec() }
    }

    pub fn new() -> (r: Player)
        ensures
            r == Player::new_spec(),
    {
        Player { current_shelf: None, inventory: Inventory::new() }
    }

    /// The interact command: if the player overlaps a shelf, take one
    /// unit of its item and hand back the panic signal to broadcast;
    /// with no shelf at hand it is silently a no-op, not an error.
    pub fn interact(&mut self, shelves: &Vec<Shelf>) -> (r: Option<PlayerPickedItem>)
        requires
            (match old(self).current_shelf {
                Some(s) => (s as int) < shelves@.len() ==> old(self).inventory.count_spec(
                    shelves@[s as int].main_item,
                ) < u32::MAX,
                None => true,
            }),
        ensures
            r is Some <==> pickup_happens(*old(self), shelves@),
            final(self).current_shelf == old(self).current_shelf,
            (match old(self).current_shelf {
                Some(s) => if (s as int) < shelves@.len() {
                    final(self).inventory == old(self).inventory.plus_one_spec(
                        shelves@[s as int].main_item,
                    )
                } else {
                    final(self).inventory == old(self).inventory
                },
                None => final(self).inventory == old(self).inventory,
            }),
    {
        match self.current_shelf {
            Some(s) => {
                if s < shelves.len() {
                    let item = shelves[s].main_item;
                    self.inventory.add_one(item);
                    Some(PlayerPickedItem)
                } else {
                    None
                }
            },
            None => None,
        }
    }
}

/// The whole player interaction: take one unit from the overlapped
/// shelf, if any, and on success broadcast the pickup to every shopper,
/// each of which raises its own panic meter if it stands within the
/// panic radius of the player. `shopper_positions[i]` is the current
/// position of `shoppers[i]`.
pub fn player_interact(
    player: &mut Player,
    shelves: &Vec<Shelf>,
    shoppers: &mut Vec<Shopper>,
    shopper_positions: &Vec<Vec2i>,
    player_pos: &Vec2i,
) -> (picked: bool)
    requires
        (match old(player).current_shelf {
            Some(s) => (s as int) < shelves@.len() ==> old(player).inventory.count_spec(
                shelves@[s as int].main_item,
            ) < u32::MAX,
            None => true,
        }),
        old(shoppers)@.len() == shopper_positions@.len(),
        player_pos.in_bounds(),
        forall|i: int|
            0 <= i < shopper_positions@.len() ==> (#[trigger] shopper_positions@[i]).in_bounds(),
        forall|i: int|
            0 <= i < old(shoppers)@.len() ==> (#[trigger] old(shoppers)@[i]).panic_meter
                < u32::MAX,
    ensures
        picked == pickup_happens(*old(player), shelves@),
        final(player).current_shelf == old(player).current_shelf,
        (match old(player).current_shelf {
            Some(s) => if (s as int) < shelves@.len() {
                final(player).inventory == old(player).inventory.plus_one_spec(
                    shelves@[s as int].main_item,
                )
            } else {
                final(player).inventory == old(player).inventory
            },
            None => final(player).inventory == old(player).inventory,
        }),
        final(shoppers)@.len() == old(shoppers)@.len(),
        picked ==> forall|i: int|
            0 <= i < old(shoppers)@.len() ==> pickup_noted(
                old(shoppers)@[i],
                #[trigger] final(shoppers)@[i],
                shopper_positions@[i],
                *player_pos,
            ),
        !picked ==> final(shoppers)@ == old(shoppers)@,
{
    let r = player.interact(shelves);
    match r {
        Some(_) => {
            broadcast_pickup(shoppers, shopper_positions, player_pos);
            true
        },
        None => false,
    }
}

} // verus!
