//! Whole runs of an auction, and what holds of every run.
//!
//! A run is the sequence of messages that reach the auctioneer, each with the
//! increment that the auctioneer would draw on it. `esegui` folds
//! `transizione` over a run; the theorems below are proved by induction on
//! the run.

use crate::banditore::{
    accettata, applica, destinatari, ritiro_accorcia, serve_incremento, stato_iniziale,
    transizione, Fase, StatoAsta, VistaAzione,
};
use crate::messaggi::{Partecipazione, VistaFromTx};
use vstd::prelude::*;

verus! {

/// One step of a run: a message, and the increment drawn for it.
pub struct Evento {
    pub messaggio: VistaFromTx,
    pub incremento: nat,
}

/// The state that the auction reaches from `s` after the events of a run.
pub open spec fn esegui(s: StatoAsta, eventi: Seq<Evento>) -> StatoAsta
    decreases eventi.len(),
{
    if eventi.len() == 0 {
        s
    } else {
        transizione(
            esegui(s, eventi.drop_last()),
            eventi.last().messaggio,
            eventi.last().incremento,
        ).0
    }
}

/// The action that the auctioneer takes on event `k` of a run from `s`.
pub open spec fn azione(s: StatoAsta, eventi: Seq<Evento>, k: int) -> VistaAzione {
    transizione(esegui(s, eventi.take(k)), eventi[k].messaggio, eventi[k].incremento).1
}

/// The number of presence signals among the messages of a run.
pub open spec fn numero_presenze(eventi: Seq<Evento>) -> nat
    decreases eventi.len(),
{
    if eventi.len() == 0 {
        0
    } else if eventi.last().messaggio.partecipazione.presenza() {
        numero_presenze(eventi.drop_last()) + 1
    } else {
        numero_presenze(eventi.drop_last())
    }
}

/// The best bid of a run, and what was added to the price after it.
pub struct Riepilogo {
    /// Sender and value of the last accepted bid, if a bid was accepted.
    pub migliore: Option<(usize, nat)>,
    /// The sum of the increments applied since that bid, or since the start
    /// if no bid was accepted.
    pub rialzi: nat,
}

/// The best bid of a run from `s`, and the increments applied after it.
pub open spec fn riepilogo(s: StatoAsta, eventi: Seq<Evento>) -> Riepilogo
    decreases eventi.len(),
{
    if eventi.len() == 0 {
        Riepilogo { migliore: None, rialzi: 0 }
    } else {
        let prima = esegui(s, eventi.drop_last());
        let finora = riepilogo(s, eventi.drop_last());
        let m = eventi.last().messaggio;
        let dopo = if prima.fase == Fase::Turno && accettata(prima, m) {
            Riepilogo { migliore: Some((m.id, applica(prima, m).prezzo)), rialzi: 0 }
        } else {
            finora
        };
        if serve_incremento(prima, m) {
            Riepilogo { rialzi: dopo.rialzi + eventi.last().incremento, ..dopo }
        } else {
            dopo
        }
    }
}

/// A transition leads from a valid state to a valid state.
pub proof fn transizione_valida(s: StatoAsta, m: VistaFromTx, incremento: nat)
    requires
        s.valido(),
    ensures
        transizione(s, m, incremento).0.valido(),
{
    if s.fase == Fase::Presenze {
        attivi_elencati(s.attivi);
        if s.attivi.len() > 0 {
            assert(s.attivi[0]);
            assert(destinatari(s.attivi).contains(0usize));
        }
    }
}

/// The state after any run from a valid state is valid.
pub proof fn esegui_valido(s: StatoAsta, eventi: Seq<Evento>)
    requires
        s.valido(),
    ensures
        esegui(s, eventi).valido(),
    decreases eventi.len(),
{
    if eventi.len() > 0 {
        esegui_valido(s, eventi.drop_last());
        transizione_valida(
            esegui(s, eventi.drop_last()),
            eventi.last().messaggio,
            eventi.last().incremento,
        );
    }
}

/// The list of active bidders holds each active bidder once, in ascending
/// order, and nobody else.
pub proof fn attivi_elencati(attivi: Seq<bool>)
    requires
        attivi.len() <= usize::MAX,
    ensures
        forall|id: usize|
            destinatari(attivi).contains(id) <==> (id < attivi.len() && attivi[id as int]),
        forall|i: int, j: int|
            0 <= i < j < destinatari(attivi).len() ==> destinatari(attivi)[i] < destinatari(
                attivi,
            )[j],
        forall|i: int| 0 <= i < destinatari(attivi).len() ==> destinatari(attivi)[i] < attivi.len(),
    decreases attivi.len(),
{
    if attivi.len() > 0 {
        let corto = attivi.drop_last();
        let resto = destinatari(corto);
        let ultimo = (attivi.len() - 1) as usize;
        let elenco = destinatari(attivi);
        attivi_elencati(corto);
        assert(elenco == if attivi.last() {
            resto.push(ultimo)
        } else {
            resto
        });
        assert forall|id: usize|
            elenco.contains(id) <==> (id < attivi.len() && attivi[id as int]) by {
            if id < attivi.len() - 1 {
                assert(corto[id as int] == attivi[id as int]);
            }
            if elenco.contains(id) {
                let k = choose|k: int| 0 <= k < elenco.len() && elenco[k] == id;
                if k < resto.len() {
                    assert(resto[k] == id);
                }
            }
            if id < attivi.len() && attivi[id as int] {
                if id == ultimo {
                    assert(elenco[resto.len() as int] == id);
                } else {
                    let k = choose|k: int| 0 <= k < resto.len() && resto[k] == id;
                    assert(elenco[k] == id);
                }
            }
        }
    }
}

/// While the auction waits for the bidders, it has counted exactly the
/// presence signals of the run; it leaves that phase when, and only when,
/// their number reaches the number of bidders.
pub proof fn fase_presenze(
    partecipanti: nat,
    prodotto: Seq<char>,
    minimo: nat,
    riserva: nat,
    eventi: Seq<Evento>,
)
    requires
        1 <= partecipanti <= usize::MAX,
    ensures
        ({
            let s = esegui(stato_iniziale(partecipanti, prodotto, minimo, riserva), eventi);
            &&& s.fase == Fase::Presenze <==> numero_presenze(eventi) < partecipanti
            &&& s.fase == Fase::Presenze ==> s.presenze == numero_presenze(eventi)
        }),
    decreases eventi.len(),
{
    let s0 = stato_iniziale(partecipanti, prodotto, minimo, riserva);
    if eventi.len() > 0 {
        let prima = esegui(s0, eventi.drop_last());
        let e = eventi.last();
        fase_presenze(partecipanti, prodotto, minimo, riserva, eventi.drop_last());
        esegui_valido(s0, eventi.drop_last());
        corsa_monotona(s0, eventi.drop_last());
        assert(esegui(s0, eventi) == transizione(prima, e.messaggio, e.incremento).0);
        assert(prima.partecipanti == partecipanti);
    }
}

/// The first round does not begin before every bidder has announced itself:
/// an event on which the auctioneer sends anything is preceded by, or is
/// itself, the presence signal that completes the count, and the first such
/// event is that very signal.
pub proof fn nessun_turno_prima_delle_presenze(
    partecipanti: nat,
    prodotto: Seq<char>,
    minimo: nat,
    riserva: nat,
    eventi: Seq<Evento>,
    k: int,
)
    requires
        1 <= partecipanti <= usize::MAX,
        0 <= k < eventi.len(),
        !(azione(stato_iniziale(partecipanti, prodotto, minimo, riserva), eventi, k)
            is Attendi),
    ensures
        numero_presenze(eventi.take(k + 1)) >= partecipanti,
        numero_presenze(eventi.take(k)) < partecipanti ==> {
            &&& numero_presenze(eventi.take(k + 1)) == partecipanti
            &&& eventi[k].messaggio.partecipazione.presenza()
            &&& azione(stato_iniziale(partecipanti, prodotto, minimo, riserva), eventi, k)
                is Diffondi
        },
{
    let s0 = stato_iniziale(partecipanti, prodotto, minimo, riserva);
    let prima = eventi.take(k);
    let fino = eventi.take(k + 1);
    fase_presenze(partecipanti, prodotto, minimo, riserva, prima);
    fase_presenze(partecipanti, prodotto, minimo, riserva, fino);
    esegui_valido(s0, prima);
    corsa_monotona(s0, prima);
    assert(fino.drop_last() == prima);
    assert(fino.last() == eventi[k]);
    assert(esegui(s0, fino) == transizione(
        esegui(s0, prima),
        eventi[k].messaggio,
        eventi[k].incremento,
    ).0);
}

/// One transition never lowers the price, never adds a bidder to the active
/// set, and never leads back to an earlier phase.
pub proof fn passo_monotono(s: StatoAsta, m: VistaFromTx, incremento: nat)
    requires
        s.valido(),
    ensures
        transizione(s, m, incremento).0.prezzo >= s.prezzo,
        forall|id: usize| transizione(s, m, incremento).0.attivo(id) ==> s.attivo(id),
        destinatari(transizione(s, m, incremento).0.attivi).len() <= destinatari(s.attivi).len(),
        s.fase != Fase::Presenze ==> transizione(s, m, incremento).0.fase != Fase::Presenze,
        s.fase == Fase::Conclusa ==> transizione(s, m, incremento).0.fase == Fase::Conclusa,
        transizione(s, m, incremento).0.partecipanti == s.partecipanti,
        transizione(s, m, incremento).0.prodotto == s.prodotto,
        transizione(s, m, incremento).0.minimo == s.minimo,
        transizione(s, m, incremento).0.riserva == s.riserva,
{
    if s.fase == Fase::Turno && m.partecipazione == Partecipazione::Ritiro && m.id
        < s.attivi.len() {
        ritiro_accorcia(s.attivi, m.id as int);
    }
}

/// Across a run the price never falls, the active set never grows, and the
/// phases follow one another in order.
pub proof fn corsa_monotona(s: StatoAsta, eventi: Seq<Evento>)
    requires
        s.valido(),
    ensures
        esegui(s, eventi).prezzo >= s.prezzo,
        forall|id: usize| esegui(s, eventi).attivo(id) ==> s.attivo(id),
        destinatari(esegui(s, eventi).attivi).len() <= destinatari(s.attivi).len(),
        s.fase != Fase::Presenze ==> esegui(s, eventi).fase != Fase::Presenze,
        s.fase == Fase::Conclusa ==> esegui(s, eventi).fase == Fase::Conclusa,
        esegui(s, eventi).partecipanti == s.partecipanti,
        esegui(s, eventi).prodotto == s.prodotto,
        esegui(s, eventi).minimo == s.minimo,
        esegui(s, eventi).riserva == s.riserva,
    decreases eventi.len(),
{
    if eventi.len() > 0 {
        corsa_monotona(s, eventi.drop_last());
        esegui_valido(s, eventi.drop_last());
        passo_monotono(
            esegui(s, eventi.drop_last()),
            eventi.last().messaggio,
            eventi.last().incremento,
        );
    }
}

/// A run can be cut in two: the state after the whole run is the state
/// reached by the second part from the state after the first.
pub proof fn esegui_a_tratti(s: StatoAsta, eventi: Seq<Evento>, k: int)
    requires
        0 <= k <= eventi.len(),
    ensures
        esegui(s, eventi) == esegui(esegui(s, eventi.take(k)), eventi.skip(k)),
    decreases eventi.len(),
{
    if k == eventi.len() {
        assert(eventi.take(k) == eventi);
        assert(eventi.skip(k).len() == 0);
    } else {
        assert(eventi.drop_last().take(k) == eventi.take(k));
        assert(eventi.skip(k).drop_last() == eventi.drop_last().skip(k));
        assert(eventi.skip(k).last() == eventi.last());
        esegui_a_tratti(s, eventi.drop_last(), k);
    }
}

/// Between two points of a run the price does not fall:
/// the price after `j` events is at least the price after `i <= j` events.
pub proof fn prezzo_non_decrescente(s: StatoAsta, eventi: Seq<Evento>, i: int, j: int)
    requires
        s.valido(),
        0 <= i <= j <= eventi.len(),
    ensures
        esegui(s, eventi.take(i)).prezzo <= esegui(s, eventi.take(j)).prezzo,
{
    let fino_a_j = eventi.take(j);
    assert(fino_a_j.take(i) == eventi.take(i));
    esegui_a_tratti(s, fino_a_j, i);
    esegui_valido(s, eventi.take(i));
    corsa_monotona(esegui(s, eventi.take(i)), fino_a_j.skip(i));
}

/// Between two points of a run the active set does not grow: a bidder that is
/// active after `j` events was active after `i <= j` events.
pub proof fn attivi_non_crescono(s: StatoAsta, eventi: Seq<Evento>, i: int, j: int, id: usize)
    requires
        s.valido(),
        0 <= i <= j <= eventi.len(),
        esegui(s, eventi.take(j)).attivo(id),
    ensures
        esegui(s, eventi.take(i)).attivo(id),
        destinatari(esegui(s, eventi.take(j)).attivi).len() <= destinatari(
            esegui(s, eventi.take(i)).attivi,
        ).len(),
{
    let fino_a_j = eventi.take(j);
    assert(fino_a_j.take(i) == eventi.take(i));
    esegui_a_tratti(s, fino_a_j, i);
    esegui_valido(s, eventi.take(i));
    corsa_monotona(esegui(s, eventi.take(i)), fino_a_j.skip(i));
}

/// Every ordinary price update goes to the bidders that are active after the
/// transition, once each, and to nobody else.
pub proof fn diffusione_agli_attivi(s: StatoAsta, m: VistaFromTx, incremento: nat)
    requires
        s.valido(),
    ensures
        transizione(s, m, incremento).1 matches VistaAzione::Diffondi {
            prezzo,
            nome,
            destinatari: elenco,
        } ==> {
            &&& elenco == destinatari(transizione(s, m, incremento).0.attivi)
            &&& prezzo == transizione(s, m, incremento).0.prezzo
            &&& nome == s.prodotto
            &&& transizione(s, m, incremento).0.fase == Fase::Turno
            &&& transizione(s, m, incremento).0.attesi == elenco.len()
            &&& forall|id: usize|
                elenco.contains(id) <==> transizione(s, m, incremento).0.attivo(id)
            &&& forall|i: int, j: int| 0 <= i < j < elenco.len() ==> elenco[i] < elenco[j]
        },
{
    attivi_elencati(transizione(s, m, incremento).0.attivi);
}

/// Once a bidder's withdrawal has been taken in a round, no later ordinary
/// price update of the run is addressed to that bidder.
pub proof fn nessun_turno_dopo_il_ritiro(s: StatoAsta, eventi: Seq<Evento>, i: int, k: int)
    requires
        s.valido(),
        0 <= i < k < eventi.len(),
        esegui(s, eventi.take(i)).fase == Fase::Turno,
        eventi[i].messaggio.partecipazione == Partecipazione::Ritiro,
    ensures
        azione(s, eventi, k) matches VistaAzione::Diffondi { destinatari: elenco, .. }
            ==> !elenco.contains(eventi[i].messaggio.id),
{
    let id = eventi[i].messaggio.id;
    let prima = esegui(s, eventi.take(i));
    let dopo = esegui(s, eventi.take(i + 1));
    assert(eventi.take(i + 1).drop_last() == eventi.take(i));
    assert(eventi.take(i + 1).last() == eventi[i]);
    esegui_valido(s, eventi.take(i));
    assert(!dopo.attivo(id));
    // The bidder stays out of the active set up to and including event `k`.
    let fino_a_k = eventi.take(k + 1);
    assert(fino_a_k.drop_last() == eventi.take(k));
    assert(fino_a_k.last() == eventi[k]);
    assert(fino_a_k.take(i + 1) == eventi.take(i + 1));
    assert(fino_a_k.take(k + 1) == fino_a_k);
    if esegui(s, fino_a_k).attivo(id) {
        attivi_non_crescono(s, fino_a_k, i + 1, k + 1, id);
    }
    esegui_valido(s, eventi.take(k));
    diffusione_agli_attivi(esegui(s, eventi.take(k)), eventi[k].messaggio, eventi[k].incremento);
}

/// The transition that ends the auction settles the sale against the reserve
/// price: if the price reached by the rounds is below the reserve, nobody
/// wins and the outcome's price is the reserve price; otherwise the leader
/// of the rounds wins at the price reached. The terminal message goes to
/// every bidder and carries the outcome's price.
pub proof fn esito_riconciliato(s: StatoAsta, m: VistaFromTx, incremento: nat)
    requires
        s.valido(),
        s.fase == Fase::Turno,
        transizione(s, m, incremento).0.fase == Fase::Conclusa,
    ensures
        ({
            let finale = transizione(s, m, incremento).0;
            let esito = finale.esito->Some_0;
            &&& finale.esito is Some
            &&& esito.prodotto == s.prodotto
            &&& finale.prezzo < s.riserva ==> esito.vincitore is None && esito.prezzo == s.riserva
            &&& finale.prezzo >= s.riserva ==> esito.vincitore == Some(finale.vincitore)
                && esito.prezzo == finale.prezzo
            &&& transizione(s, m, incremento).1 matches VistaAzione::Concludi {
                prezzo,
                nome,
                destinatari: elenco,
            } && prezzo == esito.prezzo && elenco.len() == s.partecipanti
        }),
{
}

/// Price and leader of a run from the start of an auction, in terms of its
/// bids. If a bid was accepted, the leader is the sender of the last accepted
/// bid and the price is that bid plus the increments applied after it;
/// otherwise the leader is bidder 0 and the price is the floor price plus
/// the increments applied.
pub proof fn prezzo_dalle_offerte(
    partecipanti: nat,
    prodotto: Seq<char>,
    minimo: nat,
    riserva: nat,
    eventi: Seq<Evento>,
)
    requires
        1 <= partecipanti <= usize::MAX,
    ensures
        ({
            let s0 = stato_iniziale(partecipanti, prodotto, minimo, riserva);
            let s = esegui(s0, eventi);
            match riepilogo(s0, eventi).migliore {
                Some((id, valore)) => s.vincitore == id && s.prezzo == valore + riepilogo(
                    s0,
                    eventi,
                ).rialzi,
                None => s.vincitore == 0 && s.prezzo == minimo + riepilogo(s0, eventi).rialzi,
            }
        }),
    decreases eventi.len(),
{
    let s0 = stato_iniziale(partecipanti, prodotto, minimo, riserva);
    if eventi.len() > 0 {
        prezzo_dalle_offerte(partecipanti, prodotto, minimo, riserva, eventi.drop_last());
        esegui_valido(s0, eventi.drop_last());
    }
}

/// The last accepted bid of a run is its highest: every bid accepted earlier
/// in the run is strictly lower.
pub proof fn offerta_piu_alta(
    partecipanti: nat,
    prodotto: Seq<char>,
    minimo: nat,
    riserva: nat,
    eventi: Seq<Evento>,
    j: int,
)
    requires
        1 <= partecipanti <= usize::MAX,
        0 <= j < eventi.len(),
        esegui(stato_iniziale(partecipanti, prodotto, minimo, riserva), eventi.take(j)).fase
            == Fase::Turno,
        accettata(
            esegui(stato_iniziale(partecipanti, prodotto, minimo, riserva), eventi.take(j)),
            eventi[j].messaggio,
        ),
    ensures
        ({
            let s0 = stato_iniziale(partecipanti, prodotto, minimo, riserva);
            let offerta = eventi[j].messaggio.partecipazione->Partecipa_0;
            &&& riepilogo(s0, eventi).migliore matches Some((_, valore)) && offerta <= valore
            &&& offerta <= esegui(s0, eventi).prezzo
        }),
    decreases eventi.len(),
{
    let s0 = stato_iniziale(partecipanti, prodotto, minimo, riserva);
    let prima = eventi.drop_last();
    esegui_valido(s0, prima);
    prezzo_dalle_offerte(partecipanti, prodotto, minimo, riserva, prima);
    prezzo_dalle_offerte(partecipanti, prodotto, minimo, riserva, eventi);
    if j == eventi.len() - 1 {
        assert(eventi.take(j) == prima);
    } else {
        assert(prima.take(j) == eventi.take(j));
        offerta_piu_alta(partecipanti, prodotto, minimo, riserva, prima, j);
        passo_monotono(esegui(s0, prima), eventi.last().messaggio, eventi.last().incremento);
    }
}

/// Accepted bids rise strictly: of two bids accepted in a run, the later is
/// the higher.
pub proof fn offerte_crescenti(
    partecipanti: nat,
    prodotto: Seq<char>,
    minimo: nat,
    riserva: nat,
    eventi: Seq<Evento>,
    i: int,
    j: int,
)
    requires
        1 <= partecipanti <= usize::MAX,
        0 <= i < j < eventi.len(),
        esegui(stato_iniziale(partecipanti, prodotto, minimo, riserva), eventi.take(i)).fase
            == Fase::Turno,
        accettata(
            esegui(stato_iniziale(partecipanti, prodotto, minimo, riserva), eventi.take(i)),
            eventi[i].messaggio,
        ),
        esegui(stato_iniziale(partecipanti, prodotto, minimo, riserva), eventi.take(j)).fase
            == Fase::Turno,
        accettata(
            esegui(stato_iniziale(partecipanti, prodotto, minimo, riserva), eventi.take(j)),
            eventi[j].messaggio,
        ),
    ensures
        eventi[i].messaggio.partecipazione->Partecipa_0
            < eventi[j].messaggio.partecipazione->Partecipa_0,
{
    let fino_a_j = eventi.take(j);
    assert(fino_a_j.take(i) == eventi.take(i));
    assert(fino_a_j[i] == eventi[i]);
    offerta_piu_alta(partecipanti, prodotto, minimo, riserva, fino_a_j, i);
}

/// The outcome of a finished auction, in terms of the bids of its run. Below
/// the reserve price nobody wins and the price is the reserve price. From the
/// reserve price on, if a bid was accepted, the winner is the sender of the
/// last accepted bid, which is the highest, and the price is that bid plus
/// the increments applied after it.
pub proof fn esito_dalle_offerte(
    partecipanti: nat,
    prodotto: Seq<char>,
    minimo: nat,
    riserva: nat,
    eventi: Seq<Evento>,
)
    requires
        1 <= partecipanti <= usize::MAX,
        esegui(stato_iniziale(partecipanti, prodotto, minimo, riserva), eventi).fase
            == Fase::Conclusa,
    ensures
        ({
            let s0 = stato_iniziale(partecipanti, prodotto, minimo, riserva);
            let s = esegui(s0, eventi);
            let esito = s.esito->Some_0;
            &&& s.esito is Some
            &&& s.prezzo < riserva ==> esito.vincitore is None && esito.prezzo == riserva
            &&& s.prezzo >= riserva ==> match riepilogo(s0, eventi).migliore {
                Some((id, valore)) => esito.vincitore == Some(id) && esito.prezzo == valore
                    + riepilogo(s0, eventi).rialzi,
                None => esito.vincitore == Some(0usize) && esito.prezzo == minimo + riepilogo(
                    s0,
                    eventi,
                ).rialzi,
            }
        }),
{
    let s0 = stato_iniziale(partecipanti, prodotto, minimo, riserva);
    esegui_valido(s0, eventi);
    corsa_monotona(s0, eventi);
    prezzo_dalle_offerte(partecipanti, prodotto, minimo, riserva, eventi);
}

/// The outcome is written once: it appears with the transition that ends the
/// auction, and from then on no message changes the state, so every later
/// reading of the outcome gives the same value.
pub proof fn esito_scritto_una_volta(s: StatoAsta, eventi: Seq<Evento>)
    requires
        s.valido(),
        s.esito is Some,
    ensures
        esegui(s, eventi) == s,
        forall|k: int| 0 <= k < eventi.len() ==> azione(s, eventi, k) is Attendi,
    decreases eventi.len(),
{
    if eventi.len() > 0 {
        esito_scritto_una_volta(s, eventi.drop_last());
        assert forall|k: int| 0 <= k < eventi.len() implies azione(s, eventi, k) is Attendi by {
            if k < eventi.len() - 1 {
                assert(eventi.drop_last().take(k) == eventi.take(k));
                assert(azione(s, eventi.drop_last(), k) is Attendi);
            } else {
                assert(eventi.take(k) == eventi.drop_last());
            }
        }
    }
}

/// An outcome appears only with the action that ends the auction, and until
/// then the slot is empty.
pub proof fn esito_solo_alla_fine(s: StatoAsta, m: VistaFromTx, incremento: nat)
    requires
        s.valido(),
    ensures
        s.esito is None <==> s.fase != Fase::Conclusa,
        (s.esito is None && transizione(s, m, incremento).0.esito is Some) <==> transizione(
            s,
            m,
            incremento,
        ).1 is Concludi,
{
}

/// The state after the messages of a round have had their effect on price,
/// leader and active set, one after the other.
pub open spec fn applica_tutti(s: StatoAsta, messaggi: Seq<VistaFromTx>) -> StatoAsta
    decreases messaggi.len(),
{
    if messaggi.len() == 0 {
        s
    } else {
        applica(applica_tutti(s, messaggi.drop_last()), messaggi.last())
    }
}

/// The events that carry the given messages, each with increment `incremento`.
pub open spec fn eventi_con(messaggi: Seq<VistaFromTx>, incremento: nat) -> Seq<Evento> {
    Seq::new(messaggi.len(), |k: int| Evento { messaggio: messaggi[k], incremento })
}

/// Whether `m` is a bid of `valore` sent by bidder `id`.
pub open spec fn offerta_di(m: VistaFromTx, id: usize, valore: nat) -> bool {
    m.id == id && (m.partecipazione matches Partecipazione::Partecipa(v) && v == valore)
}

/// Whether `m` is the withdrawal of bidder `id`.
pub open spec fn ritiro_di(m: VistaFromTx, id: int) -> bool {
    m.id == id && m.partecipazione == Partecipazione::Ritiro
}

/// Whether one of the messages is the withdrawal of bidder `id`.
pub open spec fn si_ritira(messaggi: Seq<VistaFromTx>, id: int) -> bool {
    exists|k: int| 0 <= k < messaggi.len() && #[trigger] ritiro_di(messaggi[k], id)
}

/// What a round leaves behind does not depend on the order in which its
/// messages arrive, but for the choice among equal bids. The price is the
/// highest of the price before and the bids of the round; a bidder is
/// active exactly if it was active and none of the messages is its
/// withdrawal; the leader stays if no bid beat the price, and otherwise is
/// the sender of a bid at the new price.
pub proof fn turno_senza_ordine(s: StatoAsta, messaggi: Seq<VistaFromTx>)
    ensures
        ({
            let t = applica_tutti(s, messaggi);
            &&& t.prezzo >= s.prezzo
            &&& forall|k: int, id: usize, valore: nat|
                0 <= k < messaggi.len() && #[trigger] offerta_di(messaggi[k], id, valore)
                    ==> valore <= t.prezzo
            &&& t.prezzo == s.prezzo ==> t.vincitore == s.vincitore
            &&& t.prezzo != s.prezzo ==> exists|k: int|
                0 <= k < messaggi.len() && #[trigger] offerta_di(
                    messaggi[k],
                    t.vincitore,
                    t.prezzo,
                )
            &&& t.attivi.len() == s.attivi.len()
            &&& forall|i: int|
                0 <= i < s.attivi.len() ==> (#[trigger] t.attivi[i] <==> s.attivi[i] && !si_ritira(
                    messaggi,
                    i,
                ))
            &&& t.fase == s.fase
            &&& t.attesi == s.attesi
            &&& t.esito == s.esito
            &&& t.partecipanti == s.partecipanti
            &&& t.riserva == s.riserva
            &&& t.minimo == s.minimo
            &&& t.prodotto == s.prodotto
            &&& t.presenze == s.presenze
        }),
    decreases messaggi.len(),
{
    if messaggi.len() > 0 {
        let prima = messaggi.drop_last();
        let ultimo = messaggi.last();
        let p = applica_tutti(s, prima);
        let t = applica_tutti(s, messaggi);
        turno_senza_ordine(s, prima);
        assert forall|k: int| 0 <= k < prima.len() implies prima[k] == messaggi[k] by {}
        assert(messaggi[messaggi.len() - 1] == ultimo);
        if t.prezzo != s.prezzo {
            if accettata(p, ultimo) {
                assert(offerta_di(messaggi[messaggi.len() - 1], t.vincitore, t.prezzo));
            } else {
                let k = choose|k: int|
                    0 <= k < prima.len() && #[trigger] offerta_di(prima[k], p.vincitore, p.prezzo);
                assert(offerta_di(messaggi[k], t.vincitore, t.prezzo));
            }
        }
        assert forall|k: int, id: usize, valore: nat|
            0 <= k < messaggi.len() && #[trigger] offerta_di(
                messaggi[k],
                id,
                valore,
            ) implies valore <= t.prezzo by {
            if k < prima.len() {
                assert(offerta_di(prima[k], id, valore));
            }
        }
        assert forall|i: int| 0 <= i < s.attivi.len() implies (#[trigger] t.attivi[i]
            <==> s.attivi[i] && !si_ritira(messaggi, i)) by {
            assert(p.attivi[i] <==> s.attivi[i] && !si_ritira(prima, i));
            if si_ritira(prima, i) {
                let k = choose|k: int| 0 <= k < prima.len() && #[trigger] ritiro_di(prima[k], i);
                assert(ritiro_di(messaggi[k], i));
            }
            if ritiro_di(ultimo, i) {
                assert(ritiro_di(messaggi[messaggi.len() - 1], i));
            }
            if si_ritira(messaggi, i) {
                let k = choose|k: int|
                    0 <= k < messaggi.len() && #[trigger] ritiro_di(messaggi[k], i);
                if k < prima.len() {
                    assert(ritiro_di(prima[k], i));
                }
            }
        }
    }
}

/// Two rounds with the same messages, in whatever order, leave the same
/// price and the same active set.
pub proof fn turno_permutato(s: StatoAsta, a: Seq<VistaFromTx>, b: Seq<VistaFromTx>)
    requires
        a.to_multiset() == b.to_multiset(),
    ensures
        applica_tutti(s, a).prezzo == applica_tutti(s, b).prezzo,
        applica_tutti(s, a).attivi == applica_tutti(s, b).attivi,
{
    let ta = applica_tutti(s, a);
    let tb = applica_tutti(s, b);
    turno_senza_ordine(s, a);
    turno_senza_ordine(s, b);
    stessi_messaggi(a, b);
    stessi_messaggi(b, a);
    if ta.prezzo != s.prezzo {
        let k = choose|k: int|
            0 <= k < a.len() && #[trigger] offerta_di(a[k], ta.vincitore, ta.prezzo);
        assert(a.contains(a[k]));
        let j = choose|j: int| 0 <= j < b.len() && b[j] == a[k];
        assert(offerta_di(b[j], ta.vincitore, ta.prezzo));
    }
    if tb.prezzo != s.prezzo {
        let k = choose|k: int|
            0 <= k < b.len() && #[trigger] offerta_di(b[k], tb.vincitore, tb.prezzo);
        assert(b.contains(b[k]));
        let j = choose|j: int| 0 <= j < a.len() && a[j] == b[k];
        assert(offerta_di(a[j], tb.vincitore, tb.prezzo));
    }
    assert forall|i: int| 0 <= i < ta.attivi.len() implies ta.attivi[i] == tb.attivi[i] by {
        if si_ritira(a, i) {
            let k = choose|k: int| 0 <= k < a.len() && #[trigger] ritiro_di(a[k], i);
            assert(a.contains(a[k]));
            let j = choose|j: int| 0 <= j < b.len() && b[j] == a[k];
            assert(ritiro_di(b[j], i));
        }
        if si_ritira(b, i) {
            let k = choose|k: int| 0 <= k < b.len() && #[trigger] ritiro_di(b[k], i);
            assert(b.contains(b[k]));
            let j = choose|j: int| 0 <= j < a.len() && a[j] == b[k];
            assert(ritiro_di(a[j], i));
        }
    }
    assert(ta.attivi =~= tb.attivi);
}

/// Every message of a round occurs in any other round with the same
/// messages.
proof fn stessi_messaggi(a: Seq<VistaFromTx>, b: Seq<VistaFromTx>)
    requires
        a.to_multiset() == b.to_multiset(),
    ensures
        forall|x: VistaFromTx| a.contains(x) ==> b.contains(x),
{
    a.to_multiset_ensures();
    b.to_multiset_ensures();
    assert forall|x: VistaFromTx| a.contains(x) implies b.contains(x) by {
        assert(a.to_multiset().count(x) > 0);
        assert(b.to_multiset().count(x) > 0);
    }
}

/// While a round is open, the auctioneer only takes the messages in: after
/// fewer messages than the round expects, the state is what `applica_tutti`
/// gives, with that many messages fewer to wait for, and nothing was sent.
pub proof fn turno_aperto(s: StatoAsta, messaggi: Seq<VistaFromTx>, incremento: nat)
    requires
        s.valido(),
        s.fase == Fase::Turno,
        messaggi.len() < s.attesi,
    ensures
        esegui(s, eventi_con(messaggi, incremento)) == (StatoAsta {
            attesi: (s.attesi - messaggi.len()) as nat,
            ..applica_tutti(s, messaggi)
        }),
        forall|k: int|
            0 <= k < messaggi.len() ==> azione(s, eventi_con(messaggi, incremento), k) is Attendi,
    decreases messaggi.len(),
{
    let eventi = eventi_con(messaggi, incremento);
    if messaggi.len() > 0 {
        let prima = messaggi.drop_last();
        turno_aperto(s, prima, incremento);
        turno_senza_ordine(s, prima);
        assert(eventi.drop_last() == eventi_con(prima, incremento));
        assert(eventi.last().messaggio == messaggi.last());
        assert forall|k: int| 0 <= k < messaggi.len() implies azione(s, eventi, k) is Attendi by {
            if k < prima.len() {
                assert(eventi.take(k) == eventi_con(prima, incremento).take(k));
                assert(azione(s, eventi_con(prima, incremento), k) is Attendi);
            } else {
                assert(eventi.take(k) == eventi.drop_last());
            }
        }
    }
}

} // verus!
