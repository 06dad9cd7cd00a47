//! The outcome of an auction and the write-once slot that publishes it.

use vstd::prelude::*;

verus! {

/// What an `Esito` holds, as specification values.
pub struct VistaEsito {
    /// The winning bidder, or `None` when the reserve price was not met.
    pub vincitore: Option<usize>,
    /// The final price.
    pub prezzo: nat,
    /// The product's description.
    pub prodotto: Seq<char>,
}

/// The final record of an auction: winner (or none), price and product.
#[derive(Debug, Clone, PartialEq, Eq)]
pub struct Esito {
    vincitore: Option<usize>,
    prezzo: u64,
    prodotto: String,
}

impl View for Esito {
    type V = VistaEsito;

    closed spec fn view(&self) -> VistaEsito {
        VistaEsito {
            vincitore: self.vincitore,
            prezzo: self.prezzo as nat,
            prodotto: self.prodotto@,
        }
    }
}

impl Esito {
    pub fn new(vincitore: Option<usize>, prezzo: u64, prodotto: String) -> (esito: Self)
        ensures
            esito@ == (VistaEsito { vincitore, prezzo: prezzo as nat, prodotto: prodotto@ }),
    {
        Esito { vincitore, prezzo, prodotto }
    }

    /// The winning bidder, or `None` when nobody won.
    pub fn get_vincitore(&self) -> (vincitore: Option<usize>)
        ensures
            vincitore == self@.vincitore,
    {
        self.vincitore
    }

    pub fn get_prezzo(&self) -> (prezzo: u64)
        ensures
            prezzo as nat == self@.prezzo,
    {
        self.prezzo
    }

    pub fn get_prodotto(&self) -> (prodotto: &String)
        ensures
            prodotto@ == self@.prodotto,
    {
        &self.prodotto
    }

    /// A copy of this record.
    pub fn copia(&self) -> (copia: Self)
        ensures
            copia@ == self@,
    {
        Esito { vincitore: self.vincitore, prezzo: self.prezzo, prodotto: self.prodotto.clone() }
    }
}

/// The slot through which the auctioneer publishes the outcome. It starts
/// empty, takes one value, and keeps it: a second write changes nothing.
#[derive(Debug, Clone, PartialEq, Eq)]
pub struct MemoriaCondivisa {
    contenuto: Option<Esito>,
}

impl View for MemoriaCondivisa {
    type V = Option<VistaEsito>;

    closed spec fn view(&self) -> Option<VistaEsito> {
        match self.contenuto {
            Some(esito) => Some(esito@),
            None => None,
        }
    }
}

impl MemoriaCondivisa {
    /// An empty slot.
    pub fn new() -> (memoria: Self)
        ensures
            memoria@ is None,
    {
        MemoriaCondivisa { contenuto: None }
    }

    /// Writes the outcome if the slot is empty, and says whether it did. A
    /// slot that already holds an outcome is left as it is.
    pub fn pubblica(&mut self, esito: Esito) -> (scritto: bool)
        ensures
            scritto == (old(self)@ is None),
            final(self)@ == if old(self)@ is None {
                Some(esito@)
            } else {
                old(self)@
            },
    {
        if self.contenuto.is_none() {
            self.contenuto = Some(esito);
            true
        } else {
            false
        }
    }

    /// The published outcome, or `None` while the auction is running. Reading
    /// changes nothing, so every read after publication gives the same value.
    pub fn leggi(&self) -> (letto: Option<&Esito>)
        ensures
            match letto {
                Some(esito) => self@ == Some(esito@),
                None => self@ is None,
            },
    {
        self.contenuto.as_ref()
    }

    /// Whether an outcome has been published.
    pub fn pubblicata(&self) -> (piena: bool)
        ensures
            piena == (self@ is Some),
    {
        self.contenuto.is_some()
    }
}

} // verus!
