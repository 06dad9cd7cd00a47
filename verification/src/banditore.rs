//! The auctioneer: the state machine that runs an ascending-price auction.
//!
//! The auctioneer waits until every bidder has announced itself, broadcasts
//! the floor price, and then runs rounds: it collects one message from every
//! active bidder, keeps the highest bid, drops the bidders that withdrew, and
//! either raises the price and starts the next round or, when nobody is left,
//! settles the sale against the reserve price and publishes the outcome.
//!
//! `transizione` is the whole protocol as a function from state and message
//! to next state and action. `Banditore::ricevi_con` computes it.

use crate::casuale::intero_tra;
use crate::esito::{Esito, MemoriaCondivisa, VistaEsito};
use crate::messaggi::{
    etichetta_fine, etichetta_nessuno, FromRx, FromTx, Partecipazione, VistaFromTx,
};
use vstd::prelude::*;

verus! {

/// The smallest amount by which the auctioneer raises the price between rounds.
pub const INCREMENTO_MINIMO: u64 = 1;

/// The largest amount by which the auctioneer raises the price between rounds.
pub const INCREMENTO_MASSIMO: u64 = 50;

/// The phases of an auction.
#[derive(Debug, Clone, Copy, PartialEq, Eq, Structural)]
pub enum Fase {
    /// Waiting for the presence signal of every bidder.
    Presenze,
    /// Collecting the messages of a round.
    Turno,
    /// The outcome is published; nothing changes any more.
    Conclusa,
}

/// The state of an auction, as specification values.
pub struct StatoAsta {
    /// The number of bidders, fixed for the whole auction.
    pub partecipanti: nat,
    /// The product's description.
    pub prodotto: Seq<char>,
    /// The floor price: the price of the first round.
    pub minimo: nat,
    /// The reserve price: below it nothing is sold.
    pub riserva: nat,
    pub fase: Fase,
    /// The presence signals seen so far.
    pub presenze: nat,
    /// The active set: `attivi[i]` says whether bidder `i` still takes part.
    pub attivi: Seq<bool>,
    /// The messages still expected in the current round.
    pub attesi: nat,
    /// The current price.
    pub prezzo: nat,
    /// The bidder whose bid set the current price; bidder 0 before any bid.
    pub vincitore: usize,
    /// The published outcome, if any.
    pub esito: Option<VistaEsito>,
}

/// What the caller has to do after handing a message to the auctioneer, as
/// specification values.
pub enum VistaAzione {
    /// Nothing to send: receive the next message.
    Attendi,
    /// Send an ordinary price update to each of `destinatari`.
    Diffondi { prezzo: nat, nome: Seq<char>, destinatari: Seq<usize> },
    /// Send the terminal message to each of `destinatari` and stop.
    Concludi { prezzo: nat, nome: Seq<char>, destinatari: Seq<usize> },
}

/// The ids of the active bidders, in ascending order.
pub open spec fn destinatari(attivi: Seq<bool>) -> Seq<usize>
    decreases attivi.len(),
{
    if attivi.len() == 0 {
        Seq::empty()
    } else if attivi.last() {
        destinatari(attivi.drop_last()).push((attivi.len() - 1) as usize)
    } else {
        destinatari(attivi.drop_last())
    }
}

/// The ids of all `n` bidders, in ascending order.
pub open spec fn tutti(n: nat) -> Seq<usize> {
    Seq::new(n, |i: int| i as usize)
}

/// The state in which an auction starts.
pub open spec fn stato_iniziale(partecipanti: nat, prodotto: Seq<char>, minimo: nat, riserva: nat)
    -> StatoAsta {
    StatoAsta {
        partecipanti,
        prodotto,
        minimo,
        riserva,
        fase: Fase::Presenze,
        presenze: 0,
        attivi: Seq::new(partecipanti, |i: int| true),
        attesi: 0,
        prezzo: minimo,
        vincitore: 0,
        esito: None,
    }
}

/// Whether the message is a bid that beats the current price. Only such a bid
/// is accepted: a bid equal to the current price leaves the leader in place.
pub open spec fn accettata(s: StatoAsta, m: VistaFromTx) -> bool {
    m.partecipazione matches Partecipazione::Partecipa(valore) && valore > s.prezzo
}

/// The effect of one message of a round on price, leader and active set. A
/// withdrawal removes its sender from the active set and touches nothing
/// else; an accepted bid sets price and leader.
pub open spec fn applica(s: StatoAsta, m: VistaFromTx) -> StatoAsta {
    match m.partecipazione {
        Partecipazione::Ritiro => StatoAsta {
            attivi: if m.id < s.attivi.len() {
                s.attivi.update(m.id as int, false)
            } else {
                s.attivi
            },
            ..s
        },
        Partecipazione::Partecipa(valore) => if valore > s.prezzo {
            StatoAsta { prezzo: valore as nat, vincitore: m.id, ..s }
        } else {
            s
        },
    }
}

/// The outcome of an auction whose rounds ended in state `s`: below the
/// reserve price nobody wins and the price is the reserve price; otherwise
/// the leader wins at the current price.
pub open spec fn riconcilia(s: StatoAsta) -> VistaEsito {
    if s.prezzo < s.riserva {
        VistaEsito { vincitore: None, prezzo: s.riserva, prodotto: s.prodotto }
    } else {
        VistaEsito { vincitore: Some(s.vincitore), prezzo: s.prezzo, prodotto: s.prodotto }
    }
}

/// Whether message `m` in state `s` closes a round that leaves bidders in the
/// active set, so that the price is raised by a fresh increment.
pub open spec fn serve_incremento(s: StatoAsta, m: VistaFromTx) -> bool {
    s.fase == Fase::Turno && s.attesi <= 1 && destinatari(applica(s, m).attivi).len() > 0
}

/// The protocol: the state after message `m` arrives in state `s`, and the
/// action that the auctioneer takes. `incremento` is the amount by which the
/// price is raised if the message closes a round with bidders left.
pub open spec fn transizione(s: StatoAsta, m: VistaFromTx, incremento: nat) -> (
    StatoAsta,
    VistaAzione,
) {
    match s.fase {
        Fase::Presenze => {
            if !m.partecipazione.presenza() {
                (s, VistaAzione::Attendi)
            } else if s.presenze + 1 < s.partecipanti {
                (StatoAsta { presenze: s.presenze + 1, ..s }, VistaAzione::Attendi)
            } else {
                (
                    StatoAsta {
                        fase: Fase::Turno,
                        presenze: s.presenze + 1,
                        attesi: destinatari(s.attivi).len(),
                        ..s
                    },
                    VistaAzione::Diffondi {
                        prezzo: s.prezzo,
                        nome: s.prodotto,
                        destinatari: destinatari(s.attivi),
                    },
                )
            }
        },
        Fase::Turno => {
            let t = applica(s, m);
            if s.attesi > 1 {
                (StatoAsta { attesi: (s.attesi - 1) as nat, ..t }, VistaAzione::Attendi)
            } else if destinatari(t.attivi).len() == 0 {
                let esito = riconcilia(t);
                (
                    StatoAsta { fase: Fase::Conclusa, attesi: 0, esito: Some(esito), ..t },
                    VistaAzione::Concludi {
                        prezzo: esito.prezzo,
                        nome: if esito.vincitore is Some {
                            etichetta_fine()
                        } else {
                            etichetta_nessuno()
                        },
                        destinatari: tutti(s.partecipanti),
                    },
                )
            } else {
                (
                    StatoAsta {
                        prezzo: t.prezzo + incremento,
                        attesi: destinatari(t.attivi).len(),
                        ..t
                    },
                    VistaAzione::Diffondi {
                        prezzo: t.prezzo + incremento,
                        nome: s.prodotto,
                        destinatari: destinatari(t.attivi),
                    },
                )
            }
        },
        Fase::Conclusa => (s, VistaAzione::Attendi),
    }
}

impl StatoAsta {
    /// The states that an auction can be in.
    pub open spec fn valido(self) -> bool {
        &&& 1 <= self.partecipanti <= usize::MAX
        &&& self.attivi.len() == self.partecipanti
        &&& self.presenze <= self.partecipanti
        &&& self.prezzo >= self.minimo
        &&& match self.fase {
            Fase::Presenze => {
                &&& self.presenze < self.partecipanti
                &&& self.attivi == Seq::new(self.partecipanti, |i: int| true)
                &&& self.prezzo == self.minimo
                &&& self.esito is None
            },
            Fase::Turno => {
                &&& self.presenze == self.partecipanti
                &&& self.attesi >= 1
                &&& self.esito is None
            },
            Fase::Conclusa => {
                &&& self.presenze == self.partecipanti
                &&& destinatari(self.attivi).len() == 0
                &&& self.esito == Some(riconcilia(self))
            },
        }
    }

    /// Whether bidder `id` is in the active set.
    pub open spec fn attivo(self, id: usize) -> bool {
        id < self.attivi.len() && self.attivi[id as int]
    }
}

/// What the caller has to do after handing a message to the auctioneer.
#[derive(Debug, Clone, PartialEq, Eq)]
pub enum Azione {
    /// Nothing to send: receive the next message.
    Attendi,
    /// Send a copy of `messaggio`, an ordinary price update, to each bidder
    /// in `destinatari`.
    Diffondi { messaggio: FromRx, destinatari: Vec<usize> },
    /// Send a copy of `messaggio`, which ends the auction, to each bidder in
    /// `destinatari`, and stop.
    Concludi { messaggio: FromRx, destinatari: Vec<usize> },
}

impl View for Azione {
    type V = VistaAzione;

    open spec fn view(&self) -> VistaAzione {
        match *self {
            Azione::Attendi => VistaAzione::Attendi,
            Azione::Diffondi { messaggio, destinatari } => VistaAzione::Diffondi {
                prezzo: messaggio@.prezzo as nat,
                nome: messaggio@.nome_prodotto,
                destinatari: destinatari@,
            },
            Azione::Concludi { messaggio, destinatari } => VistaAzione::Concludi {
                prezzo: messaggio@.prezzo as nat,
                nome: messaggio@.nome_prodotto,
                destinatari: destinatari@,
            },
        }
    }
}

/// The auctioneer of one auction.
#[derive(Debug)]
pub struct Banditore {
    numero_partecipanti: usize,
    descrizione_prodotto: String,
    prezzo_minimo: u64,
    prezzo_riserva: u64,
    memoria_condivisa: MemoriaCondivisa,
    fase: Fase,
    presenze: usize,
    attivi: Vec<bool>,
    n_attivi: usize,
    attesi: usize,
    prezzo_attuale: u64,
    id_attuale: usize,
}

impl View for Banditore {
    type V = StatoAsta;

    closed spec fn view(&self) -> StatoAsta {
        StatoAsta {
            partecipanti: self.numero_partecipanti as nat,
            prodotto: self.descrizione_prodotto@,
            minimo: self.prezzo_minimo as nat,
            riserva: self.prezzo_riserva as nat,
            fase: self.fase,
            presenze: self.presenze as nat,
            attivi: self.attivi@,
            attesi: self.attesi as nat,
            prezzo: self.prezzo_attuale as nat,
            vincitore: self.id_attuale,
            esito: self.memoria_condivisa@,
        }
    }
}

impl Banditore {
    /// The invariant of the auctioneer: its state is one that an auction can
    /// be in.
    pub closed spec fn inv(&self) -> bool {
        &&& self@.valido()
        &&& self.n_attivi == destinatari(self.attivi@).len()
    }

    /// An auctioneer for `numero_partecipanti` bidders, waiting for their
    /// presence signals.
    pub fn new(
        numero_partecipanti: usize,
        descrizione_prodotto: String,
        prezzo_minimo: u64,
        prezzo_riserva: u64,
    ) -> (banditore: Self)
        requires
            numero_partecipanti >= 1,
        ensures
            banditore.inv(),
            banditore@ == stato_iniziale(
                numero_partecipanti as nat,
                descrizione_prodotto@,
                prezzo_minimo as nat,
                prezzo_riserva as nat,
            ),
    {
        let mut attivi: Vec<bool> = Vec::new();
        let mut i: usize = 0;
        while i < numero_partecipanti
            invariant
                i <= numero_partecipanti,
                attivi@ == Seq::new(i as nat, |k: int| true),
                destinatari(attivi@).len() == i,
            decreases numero_partecipanti - i,
        {
            let ghost prima = attivi@;
            attivi.push(true);
            assert(attivi@.drop_last() == prima);
            i += 1;
        }
        Banditore {
            numero_partecipanti,
            descrizione_prodotto,
            prezzo_minimo,
            prezzo_riserva,
            memoria_condivisa: MemoriaCondivisa::new(),
            fase: Fase::Presenze,
            presenze: 0,
            attivi,
            n_attivi: numero_partecipanti,
            attesi: 0,
            prezzo_attuale: prezzo_minimo,
            id_attuale: 0,
        }
    }

    /// The auctioneer's state is one that an auction can be in.
    pub proof fn stato_valido(&self)
        requires
            self.inv(),
        ensures
            self@.valido(),
    {
    }

    /// The number of bidders that the auction started with.
    pub fn get_numero_partecipanti(&self) -> (n: usize)
        ensures
            n == self@.partecipanti,
    {
        self.numero_partecipanti
    }

    pub fn get_descrizione_prodotto(&self) -> (descrizione: &String)
        ensures
            descrizione@ == self@.prodotto,
    {
        &self.descrizione_prodotto
    }

    pub fn get_prezzo_minimo(&self) -> (prezzo: u64)
        ensures
            prezzo == self@.minimo,
    {
        self.prezzo_minimo
    }

    pub fn get_prezzo_riserva(&self) -> (prezzo: u64)
        ensures
            prezzo == self@.riserva,
    {
        self.prezzo_riserva
    }

    /// The current price.
    pub fn get_prezzo_attuale(&self) -> (prezzo: u64)
        ensures
            prezzo == self@.prezzo,
    {
        self.prezzo_attuale
    }

    /// The bidder whose bid set the current price.
    pub fn get_id_attuale(&self) -> (id: usize)
        ensures
            id == self@.vincitore,
    {
        self.id_attuale
    }

    pub fn get_fase(&self) -> (fase: Fase)
        ensures
            fase == self@.fase,
    {
        self.fase
    }

    /// The slot that holds the outcome once the auction is over.
    pub fn get_memoria_condivisa(&self) -> (memoria: &MemoriaCondivisa)
        ensures
            memoria@ == self@.esito,
    {
        &self.memoria_condivisa
    }

    /// The number of bidders in the active set.
    pub fn numero_attivi(&self) -> (n: usize)
        requires
            self.inv(),
        ensures
            n == destinatari(self@.attivi).len(),
    {
        self.n_attivi
    }

    /// Whether bidder `id` is in the active set.
    pub fn is_attivo(&self, id: usize) -> (attivo: bool)
        ensures
            attivo == self@.attivo(id),
    {
        id < self.attivi.len() && self.attivi[id]
    }

    /// The ids of the active bidders, in ascending order.
    pub fn elenco_attivi(&self) -> (elenco: Vec<usize>)
        ensures
            elenco@ == destinatari(self@.attivi),
    {
        let mut elenco: Vec<usize> = Vec::new();
        let mut i: usize = 0;
        while i < self.attivi.len()
            invariant
                i <= self.attivi.len(),
                elenco@ == destinatari(self.attivi@.take(i as int)),
            decreases self.attivi.len() - i,
        {
            assert(self.attivi@.take(i + 1).drop_last() == self.attivi@.take(i as int));
            if self.attivi[i] {
                elenco.push(i);
            }
            i += 1;
        }
        assert(self.attivi@.take(i as int) == self.attivi@);
        elenco
    }

    /// The ids of all the bidders, in ascending order.
    fn elenco_tutti(&self) -> (elenco: Vec<usize>)
        ensures
            elenco@ == tutti(self@.partecipanti),
    {
        let mut elenco: Vec<usize> = Vec::new();
        let mut i: usize = 0;
        while i < self.numero_partecipanti
            invariant
                i <= self.numero_partecipanti,
                elenco@ == tutti(i as nat),
            decreases self.numero_partecipanti - i,
        {
            elenco.push(i);
            i += 1;
        }
        elenco
    }

    /// Whether `messaggio` closes a round that leaves bidders in the active
    /// set, so that the price is raised by a fresh increment.
    pub fn chiude_con_superstiti(&self, messaggio: &FromTx) -> (serve: bool)
        requires
            self.inv(),
        ensures
            serve == serve_incremento(self@, messaggio@),
    {
        if self.fase != Fase::Turno || self.attesi > 1 {
            return false;
        }
        let id = messaggio.get_id();
        match messaggio.get_partecipazione() {
            Partecipazione::Ritiro => {
                if id < self.attivi.len() && self.attivi[id] {
                    proof {
                        ritiro_accorcia(self.attivi@, id as int);
                    }
                    self.n_attivi > 1
                } else {
                    assert(id < self.attivi.len() ==> self.attivi@.update(id as int, false)
                        == self.attivi@);
                    self.n_attivi > 0
                }
            },
            Partecipazione::Partecipa(_) => self.n_attivi > 0,
        }
    }

    /// Hands a message from a bidder to the auctioneer, which moves to the
    /// next state of the protocol and says what to send. `incremento` is the
    /// amount by which the price is raised if the message closes a round with
    /// bidders left; it is not used otherwise.
    pub fn ricevi_con(&mut self, messaggio: &FromTx, incremento: u64) -> (azione: Azione)
        requires
            old(self).inv(),
            transizione(old(self)@, messaggio@, incremento as nat).0.prezzo <= u64::MAX,
        ensures
            final(self).inv(),
            final(self)@ == transizione(old(self)@, messaggio@, incremento as nat).0,
            azione@ == transizione(old(self)@, messaggio@, incremento as nat).1,
    {
        let ghost s = self@;
        let ghost m = messaggio@;
        match self.fase {
            Fase::Presenze => {
                if !messaggio.get_partecipazione().is_presenza() {
                    return Azione::Attendi;
                }
                self.presenze = self.presenze + 1;
                if self.presenze < self.numero_partecipanti {
                    assert(self@ == StatoAsta { presenze: s.presenze + 1, ..s });
                    return Azione::Attendi;
                }
                self.fase = Fase::Turno;
                self.attesi = self.n_attivi;
                let destinatari = self.elenco_attivi();
                let messaggio = FromRx::new(self.prezzo_attuale, self.descrizione_prodotto.clone());
                proof {
                    tutti_attivi(s.partecipanti);
                    assert(self@ == transizione(s, m, incremento as nat).0);
                }
                Azione::Diffondi { messaggio, destinatari }
            },
            Fase::Turno => {
                let id = messaggio.get_id();
                match messaggio.get_partecipazione() {
                    Partecipazione::Ritiro => {
                        if id < self.attivi.len() && self.attivi[id] {
                            proof {
                                ritiro_accorcia(self.attivi@, id as int);
                            }
                            self.attivi.set(id, false);
                            self.n_attivi = self.n_attivi - 1;
                        } else {
                            assert(id < self.attivi.len() ==> self.attivi@.update(id as int, false)
                                == self.attivi@);
                        }
                    },
                    Partecipazione::Partecipa(valore) => {
                        if *valore > self.prezzo_attuale {
                            self.prezzo_attuale = *valore;
                            self.id_attuale = id;
                        }
                    },
                }
                let ghost t = applica(s, m);
                assert(self@ == t);
                if self.attesi > 1 {
                    self.attesi = self.attesi - 1;
                    assert(self@ == transizione(s, m, incremento as nat).0);
                    return Azione::Attendi;
                }
                if self.n_attivi == 0 {
                    let venduto = self.prezzo_attuale >= self.prezzo_riserva;
                    let esito = if venduto {
                        Esito::new(
                            Some(self.id_attuale),
                            self.prezzo_attuale,
                            self.descrizione_prodotto.clone(),
                        )
                    } else {
                        Esito::new(None, self.prezzo_riserva, self.descrizione_prodotto.clone())
                    };
                    assert(esito@ == riconcilia(t));
                    let messaggio = if venduto {
                        FromRx::fine(self.prezzo_attuale)
                    } else {
                        FromRx::nessuno(self.prezzo_riserva)
                    };
                    self.memoria_condivisa.pubblica(esito);
                    self.fase = Fase::Conclusa;
                    self.attesi = 0;
                    let destinatari = self.elenco_tutti();
                    assert(self@ == transizione(s, m, incremento as nat).0);
                    return Azione::Concludi { messaggio, destinatari };
                }
                self.prezzo_attuale = self.prezzo_attuale + incremento;
                self.attesi = self.n_attivi;
                let destinatari = self.elenco_attivi();
                let messaggio = FromRx::new(self.prezzo_attuale, self.descrizione_prodotto.clone());
                assert(self@ == transizione(s, m, incremento as nat).0);
                Azione::Diffondi { messaggio, destinatari }
            },
            Fase::Conclusa => Azione::Attendi,
        }
    }

    /// Hands a message from a bidder to the auctioneer, as `ricevi_con` does,
    /// with the increment drawn at random between `INCREMENTO_MINIMO` and
    /// `INCREMENTO_MASSIMO` when the message closes a round with bidders
    /// left.
    pub fn ricevi(&mut self, messaggio: &FromTx) -> (azione: Azione)
        requires
            old(self).inv(),
            serve_incremento(old(self)@, messaggio@) ==> applica(old(self)@, messaggio@).prezzo
                + INCREMENTO_MASSIMO <= u64::MAX,
        ensures
            final(self).inv(),
            exists|incremento: nat|
                {
                    &&& INCREMENTO_MINIMO <= incremento <= INCREMENTO_MASSIMO
                    &&& final(self)@ == #[trigger] transizione(old(self)@, messaggio@, incremento).0
                    &&& azione@ == transizione(old(self)@, messaggio@, incremento).1
                },
    {
        let incremento = if self.chiude_con_superstiti(messaggio) {
            intero_tra(INCREMENTO_MINIMO, INCREMENTO_MASSIMO)
        } else {
            INCREMENTO_MINIMO
        };
        proof {
            prezzo_dopo(self@, messaggio@, incremento as nat);
        }
        self.ricevi_con(messaggio, incremento)
    }
}

/// Setting an entry of the active set to false removes at most one bidder
/// from the list of active bidders.
pub proof fn ritiro_accorcia(attivi: Seq<bool>, id: int)
    requires
        0 <= id < attivi.len(),
    ensures
        destinatari(attivi.update(id, false)).len() + (if attivi[id] {
            1nat
        } else {
            0nat
        }) == destinatari(attivi).len(),
    decreases attivi.len(),
{
    let dopo = attivi.update(id, false);
    if id == attivi.len() - 1 {
        assert(dopo.drop_last() == attivi.drop_last());
    } else {
        assert(dopo.drop_last() == attivi.drop_last().update(id, false));
        ritiro_accorcia(attivi.drop_last(), id);
    }
}

/// When every bidder is active, the active bidders are all the bidders.
proof fn tutti_attivi(n: nat)
    ensures
        destinatari(Seq::new(n, |i: int| true)) == tutti(n),
    decreases n,
{
    let attivi = Seq::new(n, |i: int| true);
    if n > 0 {
        assert(attivi.drop_last() == Seq::new((n - 1) as nat, |i: int| true));
        tutti_attivi((n - 1) as nat);
        assert(tutti((n - 1) as nat).push((n - 1) as usize) == tutti(n));
    } else {
        assert(tutti(n) == Seq::<usize>::empty());
    }
}

/// The price after a transition: the price after the message, raised by the
/// increment exactly when the message closes a round with bidders left.
pub proof fn prezzo_dopo(s: StatoAsta, m: VistaFromTx, incremento: nat)
    requires
        s.valido(),
    ensures
        transizione(s, m, incremento).0.prezzo == if serve_incremento(s, m) {
            applica(s, m).prezzo + incremento
        } else if s.fase == Fase::Turno {
            applica(s, m).prezzo
        } else {
            s.prezzo
        },
        applica(s, m).prezzo == s.prezzo || (m.partecipazione matches Partecipazione::Partecipa(
            valore,
        ) && applica(s, m).prezzo == valore),
{
}

} // verus!
