//! A record that describes an asset.
use vstd::prelude::*;

verus! {

/// The name, number and cost of an asset, the cost in the ledger's own
/// measure of balance.
#[derive(Default, Debug)]
pub struct AssetDetails<BalanceOf> {
    asset_name: Vec<u8>,
    asset_number: u32,
    asset_cost: BalanceOf,
}

impl<BalanceOf> AssetDetails<BalanceOf> {
    /// The bytes of the asset's name.
    pub closed spec fn name(&self) -> Seq<u8> {
        self.asset_name@
    }

    /// The asset's number.
    pub closed spec fn number(&self) -> u32 {
        self.asset_number
    }

    /// What the asset costs.
    pub closed spec fn cost(&self) -> BalanceOf {
        self.asset_cost
    }

    /// The record of an asset with the given name, number and cost.
    pub fn new(asset_name: Vec<u8>, asset_number: u32, asset_cost: BalanceOf) -> (details: Self)
        ensures
            details.name() == asset_name@,
            details.number() == asset_number,
            details.cost() == asset_cost,
    {
        AssetDetails { asset_name, asset_number, asset_cost }
    }

    /// Takes the record apart into its name, number and cost.
    pub fn into_parts(self) -> (parts: (Vec<u8>, u32, BalanceOf))
        ensures
            parts.0@ == self.name(),
            parts.1 == self.number(),
            parts.2 == self.cost(),
    {
        (self.asset_name, self.asset_number, self.asset_cost)
    }
}

} // verus!
