use crate::items::Item;
use vstd::prelude::*;

verus! {

/// A per-agent ledger of how many units of each item kind the agent
/// holds. Created empty at spawn and only ever incremented.
#[derive(Clone, Copy, PartialEq, Eq, Structural, Debug)]
pub struct Inventory {
    pub toilet_paper: u32,
    pub canned_tuna: u32,
    pub instant_ramen: u32,
    pub soap: u32,
}

impl Inventory {
    /// The count held of one item kind.
    pub open spec fn count_spec(self, item: Item) -> u32 {
        match item {
            Item::ToiletPaper => self.toilet_paper,
            Item::CannedTuna => self.canned_tuna,
            Item::InstantRamen => self.instant_ramen,
            Item::Soap => self.soap,
        }
    }

    pub open spec fn empty_spec() -> Inventory {
        Inventory { toilet_paper: 0, canned_tuna: 0, instant_ramen: 0, soap: 0 }
    }

    pub fn new() -> (r: Inventory)
        ensures
            r == Inventory::empty_spec(),
            forall|i: Item| r.count_spec(i) == 0,
    {
        Inventory { toilet_paper: 0, canned_tuna: 0, instant_ramen: 0, soap: 0 }
    }

    pub fn get(&self, item: Item) -> (r: u32)
        ensures
            r == self.count_spec(item),
    {
        match item {
            Item::ToiletPaper => self.toilet_paper,
            Item::CannedTuna => self.canned_tuna,
            Item::InstantRamen => self.instant_ramen,
            Item::Soap => self.soap,
        }
    }
}

impl Default for Inventory {
    /// An agent spawns with an empty ledger.
    fn default() -> (r: Inventory)
        ensures
            r == Inventory::empty_spec(),
    {
        Inventory::new()
    }
}

impl Inventory {

    /// The ledger with one more unit of `item`.
    pub open spec fn plus_one_spec(self, item: Item) -> Inventory {
        match item {
            Item::ToiletPaper => Inventory { toilet_paper: (self.toilet_paper + 1) as u32, ..self },
            Item::CannedTuna => Inventory { canned_tuna: (self.canned_tuna + 1) as u32, ..self },
            Item::InstantRamen => Inventory {
                instant_ramen: (self.instant_ramen + 1) as u32,
                ..self
            },
            Item::Soap => Inventory { soap: (self.soap + 1) as u32, ..self },
        }
    }

    /// Take one unit of `item`: its count grows by one and no other count
    /// changes.
    pub fn add_one(&mut self, item: Item)
        requires
            old(self).count_spec(item) < u32::MAX,
        ensures
            *final(self) == old(self).plus_one_spec(item),
            final(self).count_spec(item) == old(self).count_spec(item) + 1,
            forall|j: Item| j != item ==> final(self).count_spec(j) == old(self).count_spec(j),
    {
        match item {
            Item::ToiletPaper => self.toilet_paper = self.toilet_paper + 1,
            Item::CannedTuna => self.canned_tuna = self.canned_tuna + 1,
            Item::InstantRamen => self.instant_ramen = self.instant_ramen + 1,
            Item::Soap => self.soap = self.soap + 1,
        }
    }
}

/// The level's required item counts, fixed for the level's lifetime. A
/// kind that is not demanded has a required count of zero.
#[derive(Clone, Copy, PartialEq, Eq, Structural, Debug)]
pub struct Objectives {
    pub toilet_paper: u32,
    pub canned_tuna: u32,
    pub instant_ramen: u32,
    pub soap: u32,
}

impl Objectives {
    /// The required count of one item kind.
    pub open spec fn required_spec(self, item: Item) -> u32 {
        match item {
            Item::ToiletPaper => self.toilet_paper,
            Item::CannedTuna => self.canned_tuna,
            Item::InstantRamen => self.instant_ramen,
            Item::Soap => self.soap,
        }
    }

    pub fn new(toilet_paper: u32, canned_tuna: u32, instant_ramen: u32, soap: u32) -> (r:
        Objectives)
        ensures
            r.required_spec(Item::ToiletPaper) == toilet_paper,
            r.required_spec(Item::CannedTuna) == canned_tuna,
            r.required_spec(Item::InstantRamen) == instant_ramen,
            r.required_spec(Item::Soap) == soap,
    {
        Objectives { toilet_paper, canned_tuna, instant_ramen, soap }
    }

    pub fn required(&self, item: Item) -> (r: u32)
        ensures
            r == self.required_spec(item),
    {
        match item {
            Item::ToiletPaper => self.toilet_paper,
            Item::CannedTuna => self.canned_tuna,
            Item::InstantRamen => self.instant_ramen,
            Item::Soap => self.soap,
        }
    }

    /// Whether `item` is demanded at all; listings show demanded kinds
    /// ahead of the rest.
    pub fn demands(&self, item: Item) -> (r: bool)
        ensures
            r == (self.required_spec(item) > 0),
    {
        self.required(item) > 0
    }

    /// An inventory meets the objectives when it holds at least the
    /// required count of every item kind.
    pub open spec fn satisfied_by(self, inv: Inventory) -> bool {
        forall|i: Item| inv.count_spec(i) >= self.required_spec(i)
    }
}

/// True exactly when `inventory` holds at least the required count of
/// every item kind in `objectives`.
pub fn objectives_satisfied(inventory: &Inventory, objectives: &Objectives) -> (r: bool)
    ensures
        r == objectives.satisfied_by(*inventory),
{
    let ok = inventory.toilet_paper >= objectives.toilet_paper && inventory.canned_tuna
        >= objectives.canned_tuna && inventory.instant_ramen >= objectives.instant_ramen
        && inventory.soap >= objectives.soap;
    proof {
        if ok {
            assert forall|i: Item| inventory.count_spec(i) >= objectives.required_spec(i) by {
                match i {
                    Item::ToiletPaper => {},
                    Item::CannedTuna => {},
                    Item::InstantRamen => {},
                    Item::Soap => {},
                }
            }
        } else {
            if inventory.toilet_paper < objectives.toilet_paper {
                assert(inventory.count_spec(Item::ToiletPaper) < objectives.required_spec(
                    Item::ToiletPaper,
                ));
            } else if inventory.canned_tuna < objectives.canned_tuna {
                assert(inventory.count_spec(Item::CannedTuna) < objectives.required_spec(
                    Item::CannedTuna,
                ));
            } else if inventory.instant_ramen < objectives.instant_ramen {
                assert(inventory.count_spec(Item::InstantRamen) < objectives.required_spec(
                    Item::InstantRamen,
                ));
            } else {
                assert(inventory.count_spec(Item::Soap) < objectives.required_spec(Item::Soap));
            }
        }
    }
    ok
}

} // verus!
