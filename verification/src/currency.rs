//! Amounts of the network's currencies.

use vstd::prelude::*;

verus! {

/// The denominations in which amounts are shown: the main network's token
/// and stake, and those of the test network.
#[derive(Clone, Copy, Debug, PartialEq, Eq, Structural)]
pub enum CurrencyDenom {
    Nym,
    Nymt,
    Nyx,
    Nyxt,
}

/// An amount in whole units of a denomination, kept as the decimal text in
/// which it is shown.
#[derive(Clone, Debug, PartialEq, Eq)]
pub struct MajorCurrencyAmount {
    pub amount: String,
    pub denom: CurrencyDenom,
}

/// What a [`MajorCurrencyAmount`] holds, as mathematical values.
pub struct MajorCurrencyAmountView {
    pub amount: Seq<char>,
    pub denom: CurrencyDenom,
}

impl View for MajorCurrencyAmount {
    type V = MajorCurrencyAmountView;

    open spec fn view(&self) -> MajorCurrencyAmountView {
        MajorCurrencyAmountView { amount: self.amount@, denom: self.denom }
    }
}

} // verus!
