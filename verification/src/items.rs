use vstd::prelude::*;

verus! {

/// The closed set of purchasable item kinds a shelf can hold.
#[derive(Clone, Copy, PartialEq, Eq, Structural, Debug, Hash)]
pub enum Item {
    ToiletPaper,
    CannedTuna,
    InstantRamen,
    Soap,
}

impl Item {
    /// The display label of an item kind, as a sequence of characters.
    pub open spec fn label_spec(self) -> Seq<char> {
        match self {
            Item::ToiletPaper => "Toilet Paper"@,
            Item::CannedTuna => "Canned Tuna"@,
            Item::InstantRamen => "Instant Ramen"@,
            Item::Soap => "Soap"@,
        }
    }

    /// Human-readable label shown on shelves and in inventory listings.
    pub fn label(&self) -> (r: String)
        ensures
            r@ == self.label_spec(),
    {
        match self {
            Item::ToiletPaper => "Toilet Paper".to_owned(),
            Item::CannedTuna => "Canned Tuna".to_owned(),
            Item::InstantRamen => "Instant Ramen".to_owned(),
            Item::Soap => "Soap".to_owned(),
        }
    }
}

} // verus!
