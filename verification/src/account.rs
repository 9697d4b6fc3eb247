//! The records a wallet keeps of an account.

use vstd::prelude::*;
use crate::currency::{CurrencyDenom, MajorCurrencyAmount, MajorCurrencyAmountView};

verus! {

/// An account: its address as a client, the address of the contract it deals
/// with, and the denomination it is held in.
#[derive(Clone, Debug, PartialEq, Eq)]
pub struct Account {
    pub contract_address: String,
    pub client_address: String,
    pub denom: CurrencyDenom,
}

/// What an [`Account`] holds, as mathematical values.
pub struct AccountView {
    pub contract_address: Seq<char>,
    pub client_address: Seq<char>,
    pub denom: CurrencyDenom,
}

impl View for Account {
    type V = AccountView;

    open spec fn view(&self) -> AccountView {
        AccountView {
            contract_address: self.contract_address@,
            client_address: self.client_address@,
            denom: self.denom,
        }
    }
}

impl Account {
    /// The account made of exactly the three values given.
    pub fn new(contract_address: String, client_address: String, denom: CurrencyDenom) -> (account:
        Account)
        ensures
            account == (Account { contract_address, client_address, denom }),
    {
        Account { contract_address, client_address, denom }
    }
}

/// An account together with the mnemonic it was derived from.
#[derive(Clone, Debug, PartialEq, Eq)]
pub struct AccountWithMnemonic {
    pub account: Account,
    pub mnemonic: String,
}

/// What an [`AccountWithMnemonic`] holds, as mathematical values.
pub struct AccountWithMnemonicView {
    pub account: AccountView,
    pub mnemonic: Seq<char>,
}

impl View for AccountWithMnemonic {
    type V = AccountWithMnemonicView;

    open spec fn view(&self) -> AccountWithMnemonicView {
        AccountWithMnemonicView { account: self.account@, mnemonic: self.mnemonic@ }
    }
}

/// A balance: the amount, and the text in which it is shown.
#[derive(Clone, Debug, PartialEq, Eq)]
pub struct Balance {
    pub amount: MajorCurrencyAmount,
    pub printable_balance: String,
}

/// What a [`Balance`] holds, as mathematical values.
pub struct BalanceView {
    pub amount: MajorCurrencyAmountView,
    pub printable_balance: Seq<char>,
}

impl View for Balance {
    type V = BalanceView;

    open spec fn view(&self) -> BalanceView {
        BalanceView { amount: self.amount@, printable_balance: self.printable_balance@ }
    }
}

} // verus!
