use vstd::prelude::*;

verus! {

/// A small integer tag naming a fungible asset class the vault can custody.
/// Membership in the vault's asset registry decides whether a deposit of the
/// asset is admitted.
#[derive(Clone, Copy, Debug, PartialEq, Eq, Structural)]
pub struct AssetId(pub u32);

} // verus!
