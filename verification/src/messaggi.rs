//! The values exchanged between the auctioneer and the bidders.

use vstd::prelude::*;

verus! {

/// The payload of a message from a bidder: a bid, or a withdrawal.
#[derive(Debug, Clone, Copy, PartialEq, Eq, Structural)]
pub enum Partecipazione {
    /// The bidder leaves the auction.
    Ritiro,
    /// The bidder offers the given price. A bid of zero sent before the first
    /// round is the presence signal.
    Partecipa(u64),
}

impl Partecipazione {
    /// The offered price, or `None` for a withdrawal.
    pub fn ottieni_valore(&self) -> (valore: Option<u64>)
        ensures
            valore == self.valore(),
    {
        match self {
            Partecipazione::Partecipa(valore) => Some(*valore),
            Partecipazione::Ritiro => None,
        }
    }

    /// Replaces the offered price. A withdrawal stays a withdrawal.
    pub fn imposta_valore(&mut self, nuovo_valore: u64)
        ensures
            *final(self) == match *old(self) {
                Partecipazione::Partecipa(_) => Partecipazione::Partecipa(nuovo_valore),
                Partecipazione::Ritiro => Partecipazione::Ritiro,
            },
    {
        match self {
            Partecipazione::Partecipa(_) => {
                *self = Partecipazione::Partecipa(nuovo_valore);
            },
            Partecipazione::Ritiro => {},
        }
    }

    /// The offered price as a specification value.
    pub open spec fn valore(&self) -> Option<u64> {
        match *self {
            Partecipazione::Partecipa(valore) => Some(valore),
            Partecipazione::Ritiro => None,
        }
    }

    /// Whether this payload is the presence signal, a bid of zero.
    pub open spec fn presenza(&self) -> bool {
        *self == Partecipazione::Partecipa(0)
    }

    /// Whether this payload is the presence signal.
    pub fn is_presenza(&self) -> (presente: bool)
        ensures
            presente == self.presenza(),
    {
        match self {
            Partecipazione::Partecipa(valore) => *valore == 0,
            Partecipazione::Ritiro => false,
        }
    }
}

/// What a `FromTx` holds, as specification values.
pub struct VistaFromTx {
    pub id: usize,
    pub partecipazione: Partecipazione,
    pub nome_prodotto: Seq<char>,
}

/// A message from a bidder to the auctioneer.
#[derive(Debug, Clone, PartialEq, Eq)]
pub struct FromTx {
    id: usize,
    partecipazione: Partecipazione,
    nome_prodotto: String,
}

impl View for FromTx {
    type V = VistaFromTx;

    closed spec fn view(&self) -> VistaFromTx {
        VistaFromTx {
            id: self.id,
            partecipazione: self.partecipazione,
            nome_prodotto: self.nome_prodotto@,
        }
    }
}

impl FromTx {
    pub fn new(id: usize, partecipazione: Partecipazione, nome_prodotto: String) -> (messaggio:
        Self)
        ensures
            messaggio@.id == id,
            messaggio@.partecipazione == partecipazione,
            messaggio@.nome_prodotto == nome_prodotto@,
    {
        FromTx { id, partecipazione, nome_prodotto }
    }

    pub fn get_id(&self) -> (id: usize)
        ensures
            id == self@.id,
    {
        self.id
    }

    pub fn get_partecipazione(&self) -> (partecipazione: &Partecipazione)
        ensures
            *partecipazione == self@.partecipazione,
    {
        &self.partecipazione
    }

    pub fn get_nome_prodotto(&self) -> (nome: &String)
        ensures
            nome@ == self@.nome_prodotto,
    {
        &self.nome_prodotto
    }
}

/// The three kinds of message that the auctioneer sends.
#[derive(Debug, Clone, Copy, PartialEq, Eq, Structural)]
pub enum Etichetta {
    /// An ordinary price update of a round.
    Turno,
    /// The auction is over and the item is sold.
    Fine,
    /// The auction is over and the reserve price was not met.
    Nessuno,
}

/// The tag of the message that ends an auction with a sale.
pub open spec fn etichetta_fine() -> Seq<char> {
    seq!['F', 'i', 'n', 'e']
}

/// The tag of the message that ends an auction without a sale.
pub open spec fn etichetta_nessuno() -> Seq<char> {
    seq!['N', 'e', 's', 's', 'u', 'n', 'o']
}

/// The kind of a message with the given tag: the two control tags end the
/// auction, any other text names the product of an ordinary update.
pub open spec fn etichetta_di(nome: Seq<char>) -> Etichetta {
    if nome == etichetta_fine() {
        Etichetta::Fine
    } else if nome == etichetta_nessuno() {
        Etichetta::Nessuno
    } else {
        Etichetta::Turno
    }
}

/// What a `FromRx` holds, as specification values.
pub struct VistaFromRx {
    pub prezzo: u64,
    pub nome_prodotto: Seq<char>,
}

/// A message from the auctioneer to one bidder: the current price, and the
/// product's name or one of the two control tags.
#[derive(Debug, Clone, PartialEq, Eq)]
pub struct FromRx {
    nome_prodotto: String,
    prezzo: u64,
}

impl View for FromRx {
    type V = VistaFromRx;

    closed spec fn view(&self) -> VistaFromRx {
        VistaFromRx { prezzo: self.prezzo, nome_prodotto: self.nome_prodotto@ }
    }
}

impl FromRx {
    pub fn new(prezzo: u64, nome_prodotto: String) -> (messaggio: Self)
        ensures
            messaggio@.prezzo == prezzo,
            messaggio@.nome_prodotto == nome_prodotto@,
    {
        FromRx { prezzo, nome_prodotto }
    }

    pub fn get_prezzo(&self) -> (prezzo: u64)
        ensures
            prezzo == self@.prezzo,
    {
        self.prezzo
    }

    pub fn get_nome_prodotto(&self) -> (nome: &String)
        ensures
            nome@ == self@.nome_prodotto,
    {
        &self.nome_prodotto
    }

    /// The message that ends an auction with a sale at the given price.
    pub fn fine(prezzo: u64) -> (messaggio: Self)
        ensures
            messaggio@.prezzo == prezzo,
            messaggio@.nome_prodotto == etichetta_fine(),
    {
        proof {
            reveal_strlit("Fine");
        }
        let nome = "Fine".to_owned();
        assert(nome@ =~= etichetta_fine());
        FromRx { prezzo, nome_prodotto: nome }
    }

    /// The message that ends an auction without a sale; it carries the
    /// reserve price.
    pub fn nessuno(prezzo: u64) -> (messaggio: Self)
        ensures
            messaggio@.prezzo == prezzo,
            messaggio@.nome_prodotto == etichetta_nessuno(),
    {
        proof {
            reveal_strlit("Nessuno");
        }
        let nome = "Nessuno".to_owned();
        assert(nome@ =~= etichetta_nessuno());
        FromRx { prezzo, nome_prodotto: nome }
    }

    /// The kind of this message, read from its tag.
    pub fn etichetta(&self) -> (etichetta: Etichetta)
        ensures
            etichetta == etichetta_di(self@.nome_prodotto),
    {
        proof {
            reveal_strlit("Fine");
            reveal_strlit("Nessuno");
        }
        let fine = "Fine".to_owned();
        let nessuno = "Nessuno".to_owned();
        assert(fine@ =~= etichetta_fine());
        assert(nessuno@ =~= etichetta_nessuno());
        if self.nome_prodotto == fine {
            Etichetta::Fine
        } else if self.nome_prodotto == nessuno {
            Etichetta::Nessuno
        } else {
            Etichetta::Turno
        }
    }
}

} // verus!
