//! The three states of a bank account, by its balance.

use vstd::prelude::*;

verus! {

/// The states an account can be in.
#[derive(Debug, Clone, Copy, PartialEq, Eq, Structural)]
pub enum Stato {
    /// The balance is below the lower limit.
    Rosso,
    /// The balance is between the two limits.
    Argento,
    /// The balance is at or above the upper limit.
    Oro,
}

/// The behaviour of an account in the red state.
#[derive(Debug, Clone, Copy)]
pub struct StatoRosso;

/// The behaviour of an account in the silver state.
#[derive(Debug, Clone, Copy)]
pub struct StatoArgento;

/// The behaviour of an account in the gold state.
#[derive(Debug, Clone, Copy)]
pub struct StatoOro;

impl StatoRosso {
    pub fn stato(&self) -> (stato: Stato)
        ensures
            stato == Stato::Rosso,
    {
        Stato::Rosso
    }

    /// A red account cannot withdraw.
    pub fn puo_prelevare(&self) -> (si: bool)
        ensures
            !si,
    {
        false
    }

    /// A red account earns no interest.
    pub fn matura_interessi(&self) -> (si: bool)
        ensures
            !si,
    {
        false
    }
}

impl StatoArgento {
    pub fn stato(&self) -> (stato: Stato)
        ensures
            stato == Stato::Argento,
    {
        Stato::Argento
    }

    /// A silver account can withdraw.
    pub fn puo_prelevare(&self) -> (si: bool)
        ensures
            si,
    {
        true
    }

    /// A silver account earns no interest.
    pub fn matura_interessi(&self) -> (si: bool)
        ensures
            !si,
    {
        false
    }
}

impl StatoOro {
    pub fn stato(&self) -> (stato: Stato)
        ensures
            stato == Stato::Oro,
    {
        Stato::Oro
    }

    /// A gold account can withdraw.
    pub fn puo_prelevare(&self) -> (si: bool)
        ensures
            si,
    {
        true
    }

    /// A gold account earns interest.
    pub fn matura_interessi(&self) -> (si: bool)
        ensures
            si,
    {
        true
    }
}

} // verus!
