//! The bidder: the state machine of one participant of an auction.
//!
//! A bidder announces itself, then answers every price update with a bid or
//! with its withdrawal. Once withdrawn it sends nothing more and waits for
//! the message that ends the auction; it then reads the outcome and reports.
//!
//! `reazione` is the bidder's side of the protocol as a function from state
//! and message to next state and reaction. `Partecipante::ricevi_con`
//! computes it.

use crate::casuale::intero_tra;
use crate::esito::{MemoriaCondivisa, VistaEsito};
use crate::messaggi::{
    etichetta_di, Etichetta, FromRx, FromTx, Partecipazione, VistaFromRx, VistaFromTx,
};
use vstd::prelude::*;

verus! {

/// The lowest ceiling that a bidder draws for its raise.
pub const AGGRESSIVITA_MINIMA: u64 = 80;

/// The highest ceiling that a bidder draws for its raise.
pub const AGGRESSIVITA_MASSIMA: u64 = 120;

/// The lowest raise that a bidder can draw.
pub const RILANCIO_MINIMO: u64 = 1;

/// A bidder that draws a raise below this threshold withdraws.
pub const SOGLIA_RILANCIO: u64 = 50;

/// The states of a bidder.
#[derive(Debug, Clone, Copy, PartialEq, Eq, Structural)]
pub enum StatoPartecipante {
    /// Created; the presence signal has not been sent yet.
    InAttesa,
    /// Taking part: every price update is answered.
    InGara,
    /// Withdrawn: waiting for the end of the auction.
    Ritirato,
    /// The auction is over for this bidder.
    Terminato,
}

/// What a bidder reports when the auction is over.
#[derive(Debug, Clone, Copy, PartialEq, Eq, Structural)]
pub enum Rapporto {
    /// This bidder won, and pays the given price.
    Vittoria { prezzo: u64 },
    /// The item was sold to somebody else.
    Sconfitta,
    /// The reserve price was not met: nobody won.
    NessunaVendita,
}

/// What a bidder does on a message, as specification values.
pub enum VistaReazione {
    /// Send this message to the auctioneer.
    Invia(VistaFromTx),
    /// Nothing to do: receive the next message.
    Attendi,
    /// Stop, with this report.
    Termina(Rapporto),
}

/// What a bidder does on a message.
#[derive(Debug, Clone, PartialEq, Eq)]
pub enum Reazione {
    /// Send this message to the auctioneer.
    Invia(FromTx),
    /// Nothing to do: receive the next message.
    Attendi,
    /// Stop, with this report.
    Termina(Rapporto),
}

impl View for Reazione {
    type V = VistaReazione;

    open spec fn view(&self) -> VistaReazione {
        match *self {
            Reazione::Invia(messaggio) => VistaReazione::Invia(messaggio@),
            Reazione::Attendi => VistaReazione::Attendi,
            Reazione::Termina(rapporto) => VistaReazione::Termina(rapporto),
        }
    }
}

/// A bidder's answer to a price: with a raise below the threshold it
/// withdraws, otherwise it bids the price plus the raise.
pub open spec fn decisione(prezzo: u64, rilancio: u64) -> Partecipazione {
    if rilancio < SOGLIA_RILANCIO {
        Partecipazione::Ritiro
    } else {
        Partecipazione::Partecipa((prezzo + rilancio) as u64)
    }
}

/// What bidder `id` reports on a terminal message, given the outcome that it
/// reads. After a sale it has won if the outcome names it, at the outcome's
/// price; after no sale nobody has won.
pub open spec fn rapporto_finale(id: usize, etichetta: Etichetta, esito: Option<VistaEsito>)
    -> Rapporto {
    match etichetta {
        Etichetta::Nessuno => Rapporto::NessunaVendita,
        _ => match esito {
            Some(e) => if e.vincitore == Some(id) {
                Rapporto::Vittoria { prezzo: e.prezzo as u64 }
            } else {
                Rapporto::Sconfitta
            },
            None => Rapporto::Sconfitta,
        },
    }
}

/// The bidder's side of the protocol: the state of bidder `id` after message
/// `m` arrives in state `stato`, and what the bidder does. `rilancio` is the
/// raise drawn for this message; `esito` is what the outcome slot holds.
pub open spec fn reazione(
    stato: StatoPartecipante,
    id: usize,
    m: VistaFromRx,
    rilancio: u64,
    esito: Option<VistaEsito>,
) -> (StatoPartecipante, VistaReazione) {
    let etichetta = etichetta_di(m.nome_prodotto);
    match stato {
        StatoPartecipante::InAttesa => (stato, VistaReazione::Attendi),
        StatoPartecipante::Terminato => (stato, VistaReazione::Attendi),
        StatoPartecipante::InGara => if etichetta == Etichetta::Turno {
            let scelta = decisione(m.prezzo, rilancio);
            (
                if scelta == Partecipazione::Ritiro {
                    StatoPartecipante::Ritirato
                } else {
                    StatoPartecipante::InGara
                },
                VistaReazione::Invia(
                    VistaFromTx { id, partecipazione: scelta, nome_prodotto: m.nome_prodotto },
                ),
            )
        } else {
            (
                StatoPartecipante::Terminato,
                VistaReazione::Termina(rapporto_finale(id, etichetta, esito)),
            )
        },
        StatoPartecipante::Ritirato => if etichetta == Etichetta::Turno {
            (stato, VistaReazione::Attendi)
        } else {
            (
                StatoPartecipante::Terminato,
                VistaReazione::Termina(rapporto_finale(id, etichetta, esito)),
            )
        },
    }
}

/// Whether a raise is drawn for message `m` in state `stato`: only a bidder
/// that takes part answers a price update.
pub open spec fn serve_rilancio(stato: StatoPartecipante, m: VistaFromRx) -> bool {
    stato == StatoPartecipante::InGara && etichetta_di(m.nome_prodotto) == Etichetta::Turno
}

/// What a `Partecipante` holds, as specification values.
pub struct VistaPartecipante {
    pub id: usize,
    pub stato: StatoPartecipante,
}

/// One participant of an auction.
#[derive(Debug, Clone, PartialEq, Eq)]
pub struct Partecipante {
    id: usize,
    stato: StatoPartecipante,
}

impl View for Partecipante {
    type V = VistaPartecipante;

    closed spec fn view(&self) -> VistaPartecipante {
        VistaPartecipante { id: self.id, stato: self.stato }
    }
}

impl Partecipante {
    /// A bidder with the given id that has not announced itself yet.
    pub fn new(id: usize) -> (partecipante: Self)
        ensures
            partecipante@ == (VistaPartecipante { id, stato: StatoPartecipante::InAttesa }),
    {
        Partecipante { id, stato: StatoPartecipante::InAttesa }
    }

    pub fn get_id(&self) -> (id: usize)
        ensures
            id == self@.id,
    {
        self.id
    }

    pub fn get_stato(&self) -> (stato: StatoPartecipante)
        ensures
            stato == self@.stato,
    {
        self.stato
    }

    /// Starts the bidder: returns the presence signal to send, a bid of zero
    /// with this bidder's id, and begins to take part. A bidder that was
    /// started before is left as it is and sends the signal again.
    pub fn avvio(&mut self) -> (presenza: FromTx)
        ensures
            final(self)@.id == old(self)@.id,
            final(self)@.stato == if old(self)@.stato == StatoPartecipante::InAttesa {
                StatoPartecipante::InGara
            } else {
                old(self)@.stato
            },
            presenza@ == (VistaFromTx {
                id: old(self)@.id,
                partecipazione: Partecipazione::Partecipa(0),
                nome_prodotto: Seq::empty(),
            }),
    {
        if self.stato == StatoPartecipante::InAttesa {
            self.stato = StatoPartecipante::InGara;
        }
        FromTx::new(self.id, Partecipazione::Partecipa(0), String::new())
    }

    /// The bidder's answer to a price, given the raise that it drew.
    pub fn decidi(prezzo: u64, rilancio: u64) -> (scelta: Partecipazione)
        requires
            rilancio >= SOGLIA_RILANCIO ==> prezzo + rilancio <= u64::MAX,
        ensures
            scelta == decisione(prezzo, rilancio),
    {
        if rilancio < SOGLIA_RILANCIO {
            Partecipazione::Ritiro
        } else {
            Partecipazione::Partecipa(prezzo + rilancio)
        }
    }

    /// Whether a raise is drawn for `messaggio`.
    pub fn risponde_a(&self, messaggio: &FromRx) -> (serve: bool)
        ensures
            serve == serve_rilancio(self@.stato, messaggio@),
    {
        self.stato == StatoPartecipante::InGara && messaggio.etichetta() == Etichetta::Turno
    }

    /// Hands a message from the auctioneer to the bidder, which moves to its
    /// next state and says what to do. `rilancio` is the raise drawn for this
    /// message; it is used only by a bidder that answers a price update.
    /// `memoria` is the outcome slot, read only on a terminal message.
    pub fn ricevi_con(&mut self, messaggio: &FromRx, rilancio: u64, memoria: &MemoriaCondivisa)
        -> (risposta: Reazione)
        requires
            serve_rilancio(old(self)@.stato, messaggio@) && rilancio >= SOGLIA_RILANCIO
                ==> messaggio@.prezzo + rilancio <= u64::MAX,
        ensures
            final(self)@.id == old(self)@.id,
            final(self)@.stato == reazione(
                old(self)@.stato,
                old(self)@.id,
                messaggio@,
                rilancio,
                memoria@,
            ).0,
            risposta@ == reazione(
                old(self)@.stato,
                old(self)@.id,
                messaggio@,
                rilancio,
                memoria@,
            ).1,
    {
        let etichetta = messaggio.etichetta();
        match self.stato {
            StatoPartecipante::InAttesa => Reazione::Attendi,
            StatoPartecipante::Terminato => Reazione::Attendi,
            StatoPartecipante::InGara => {
                if etichetta == Etichetta::Turno {
                    let scelta = Self::decidi(messaggio.get_prezzo(), rilancio);
                    if scelta == Partecipazione::Ritiro {
                        self.stato = StatoPartecipante::Ritirato;
                    }
                    Reazione::Invia(
                        FromTx::new(self.id, scelta, messaggio.get_nome_prodotto().clone()),
                    )
                } else {
                    self.stato = StatoPartecipante::Terminato;
                    Reazione::Termina(Self::leggi_esito(self.id, etichetta, memoria))
                }
            },
            StatoPartecipante::Ritirato => {
                if etichetta == Etichetta::Turno {
                    Reazione::Attendi
                } else {
                    self.stato = StatoPartecipante::Terminato;
                    Reazione::Termina(Self::leggi_esito(self.id, etichetta, memoria))
                }
            },
        }
    }

    /// Hands a message from the auctioneer to the bidder, as `ricevi_con`
    /// does, with the raise drawn at random: first a ceiling between
    /// `AGGRESSIVITA_MINIMA` and `AGGRESSIVITA_MASSIMA`, then the raise
    /// between `RILANCIO_MINIMO` and that ceiling.
    pub fn ricevi(&mut self, messaggio: &FromRx, memoria: &MemoriaCondivisa) -> (risposta:
        Reazione)
        requires
            serve_rilancio(old(self)@.stato, messaggio@) ==> messaggio@.prezzo
                + AGGRESSIVITA_MASSIMA <= u64::MAX,
        ensures
            final(self)@.id == old(self)@.id,
            exists|rilancio: u64|
                {
                    &&& RILANCIO_MINIMO <= rilancio <= AGGRESSIVITA_MASSIMA
                    &&& final(self)@.stato == (#[trigger] reazione(
                        old(self)@.stato,
                        old(self)@.id,
                        messaggio@,
                        rilancio,
                        memoria@,
                    )).0
                    &&& risposta@ == reazione(
                        old(self)@.stato,
                        old(self)@.id,
                        messaggio@,
                        rilancio,
                        memoria@,
                    ).1
                },
    {
        let rilancio = if self.risponde_a(messaggio) {
            let massimo = intero_tra(AGGRESSIVITA_MINIMA, AGGRESSIVITA_MASSIMA);
            intero_tra(RILANCIO_MINIMO, massimo)
        } else {
            RILANCIO_MINIMO
        };
        self.ricevi_con(messaggio, rilancio, memoria)
    }

    /// The owning channel closed before a message came: the bidder takes it
    /// as the end of an auction without a sale, and stops.
    pub fn canale_chiuso(&mut self) -> (rapporto: Rapporto)
        ensures
            final(self)@.id == old(self)@.id,
            final(self)@.stato == StatoPartecipante::Terminato,
            rapporto == Rapporto::NessunaVendita,
    {
        self.stato = StatoPartecipante::Terminato;
        Rapporto::NessunaVendita
    }

    /// Reads the outcome slot and says what bidder `id` reports.
    fn leggi_esito(id: usize, etichetta: Etichetta, memoria: &MemoriaCondivisa) -> (rapporto:
        Rapporto)
        ensures
            rapporto == rapporto_finale(id, etichetta, memoria@),
    {
        match etichetta {
            Etichetta::Nessuno => Rapporto::NessunaVendita,
            _ => match memoria.leggi() {
                Some(esito) => {
                    if esito.get_vincitore() == Some(id) {
                        Rapporto::Vittoria { prezzo: esito.get_prezzo() }
                    } else {
                        Rapporto::Sconfitta
                    }
                },
                None => Rapporto::Sconfitta,
            },
        }
    }
}

/// One step of a withdrawn bidder's wait for the end of the auction: an
/// ordinary price update is ignored and the wait goes on (`None`); a
/// terminal message ends it with the bidder's report.
pub fn attesa_fine(x: &mut Partecipante, messaggio: &FromRx, memoria: &MemoriaCondivisa) -> (fine:
    Option<Rapporto>)
    requires
        old(x)@.stato == StatoPartecipante::Ritirato,
    ensures
        final(x)@.id == old(x)@.id,
        match etichetta_di(messaggio@.nome_prodotto) {
            Etichetta::Turno => fine is None && final(x)@.stato == StatoPartecipante::Ritirato,
            etichetta => fine == Some(rapporto_finale(old(x)@.id, etichetta, memoria@))
                && final(x)@.stato == StatoPartecipante::Terminato,
        },
{
    match x.ricevi_con(messaggio, RILANCIO_MINIMO, memoria) {
        Reazione::Termina(rapporto) => Some(rapporto),
        _ => None,
    }
}

/// A bidder that has withdrawn, or for which the auction is over, sends
/// nothing more, whatever it receives, and never takes part again.
pub proof fn ritirato_tace(
    stato: StatoPartecipante,
    id: usize,
    m: VistaFromRx,
    rilancio: u64,
    esito: Option<VistaEsito>,
)
    requires
        stato == StatoPartecipante::Ritirato || stato == StatoPartecipante::Terminato,
    ensures
        !(reazione(stato, id, m, rilancio, esito).1 is Invia),
        reazione(stato, id, m, rilancio, esito).0 == StatoPartecipante::Ritirato || reazione(
            stato,
            id,
            m,
            rilancio,
            esito,
        ).0 == StatoPartecipante::Terminato,
{
}

/// A bidder sends its withdrawal exactly when it moves from taking part to
/// withdrawn, and it reports exactly when it stops.
pub proof fn ritiro_e_termine(
    stato: StatoPartecipante,
    id: usize,
    m: VistaFromRx,
    rilancio: u64,
    esito: Option<VistaEsito>,
)
    ensures
        ({
            let (dopo, risposta) = reazione(stato, id, m, rilancio, esito);
            &&& (risposta matches VistaReazione::Invia(inviato) && inviato.partecipazione
                == Partecipazione::Ritiro) <==> (stato == StatoPartecipante::InGara && dopo
                == StatoPartecipante::Ritirato)
            &&& risposta matches VistaReazione::Invia(inviato) ==> inviato.id == id
            &&& risposta is Termina <==> (stato != StatoPartecipante::Terminato && dopo
                == StatoPartecipante::Terminato)
        }),
{
}

/// One message that reaches a bidder, with the raise drawn for it and what
/// the outcome slot holds when it arrives.
pub struct Arrivo {
    pub messaggio: VistaFromRx,
    pub rilancio: u64,
    pub esito: Option<VistaEsito>,
}

/// The state of bidder `id` after the arrivals of a run that began in state
/// `stato`.
pub open spec fn stato_dopo(stato: StatoPartecipante, id: usize, arrivi: Seq<Arrivo>)
    -> StatoPartecipante
    decreases arrivi.len(),
{
    if arrivi.len() == 0 {
        stato
    } else {
        reazione(
            stato_dopo(stato, id, arrivi.drop_last()),
            id,
            arrivi.last().messaggio,
            arrivi.last().rilancio,
            arrivi.last().esito,
        ).0
    }
}

/// What bidder `id` does on arrival `k` of a run that began in state `stato`.
pub open spec fn reazione_a(stato: StatoPartecipante, id: usize, arrivi: Seq<Arrivo>, k: int)
    -> VistaReazione {
    reazione(
        stato_dopo(stato, id, arrivi.take(k)),
        id,
        arrivi[k].messaggio,
        arrivi[k].rilancio,
        arrivi[k].esito,
    ).1
}

/// A bidder that has sent its withdrawal never sends another message: no
/// later arrival of the run makes it send anything, and it never takes part
/// again.
pub proof fn dopo_il_ritiro_tace(
    stato: StatoPartecipante,
    id: usize,
    arrivi: Seq<Arrivo>,
    i: int,
    k: int,
)
    requires
        0 <= i < k < arrivi.len(),
        reazione_a(stato, id, arrivi, i) matches VistaReazione::Invia(inviato)
            && inviato.partecipazione == Partecipazione::Ritiro,
    ensures
        !(reazione_a(stato, id, arrivi, k) is Invia),
        stato_dopo(stato, id, arrivi.take(k)) == StatoPartecipante::Ritirato || stato_dopo(
            stato,
            id,
            arrivi.take(k),
        ) == StatoPartecipante::Terminato,
    decreases k - i,
{
    assert(arrivi.take(k).drop_last() == arrivi.take(k - 1));
    assert(arrivi.take(k).last() == arrivi[k - 1]);
    if k - 1 > i {
        dopo_il_ritiro_tace(stato, id, arrivi, i, k - 1);
    }
    ritirato_tace(
        stato_dopo(stato, id, arrivi.take(k)),
        id,
        arrivi[k].messaggio,
        arrivi[k].rilancio,
        arrivi[k].esito,
    );
}

} // verus!
