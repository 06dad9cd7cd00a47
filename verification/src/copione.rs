//! Running an auction from a script: the messages that reach the auctioneer,
//! each with the increment to apply if it closes a round. No thread, no
//! channel and no random draw is involved, so a script always gives the same
//! auction.

use crate::banditore::{applica, prezzo_dopo, serve_incremento, transizione, Azione, Banditore};
use crate::messaggi::{FromTx, Partecipazione};
use crate::storia::{azione, esegui, Evento};
use vstd::prelude::*;

verus! {

/// The events of a script, as specification values.
pub open spec fn eventi_di(copione: Seq<(FromTx, u64)>) -> Seq<Evento> {
    Seq::new(
        copione.len(),
        |k: int| Evento { messaggio: copione[k].0@, incremento: copione[k].1 as nat },
    )
}

/// Whether the price after message `m` with increment `incremento` in the
/// auctioneer's state fits in a `u64`.
pub fn prezzo_rappresentabile(banditore: &Banditore, m: &FromTx, incremento: u64) -> (si: bool)
    requires
        banditore.inv(),
    ensures
        si == (transizione(banditore@, m@, incremento as nat).0.prezzo <= u64::MAX),
{
    proof {
        banditore.stato_valido();
        prezzo_dopo(banditore@, m@, incremento as nat);
    }
    let prezzo = banditore.get_prezzo_attuale();
    if !banditore.chiude_con_superstiti(m) {
        return true;
    }
    let raggiunto = match m.get_partecipazione() {
        Partecipazione::Partecipa(valore) => if *valore > prezzo {
            *valore
        } else {
            prezzo
        },
        Partecipazione::Ritiro => prezzo,
    };
    assert(raggiunto == applica(banditore@, m@).prezzo);
    assert(serve_incremento(banditore@, m@));
    raggiunto <= u64::MAX - incremento
}

/// Hands the messages of a script to the auctioneer, one after the other, and
/// returns the actions that it takes. The run stops before the end of the
/// script only at a message that would raise the price beyond what a `u64`
/// holds; the auctioneer is then in the state before that message.
pub fn conduci(banditore: &mut Banditore, copione: &Vec<(FromTx, u64)>) -> (azioni: Vec<Azione>)
    requires
        old(banditore).inv(),
    ensures
        final(banditore).inv(),
        azioni@.len() <= copione@.len(),
        final(banditore)@ == esegui(
            old(banditore)@,
            eventi_di(copione@).take(azioni@.len() as int),
        ),
        forall|k: int|
            0 <= k < azioni@.len() ==> (#[trigger] azioni@[k])@ == azione(
                old(banditore)@,
                eventi_di(copione@),
                k,
            ),
        azioni@.len() < copione@.len() ==> transizione(
            final(banditore)@,
            copione@[azioni@.len() as int].0@,
            copione@[azioni@.len() as int].1 as nat,
        ).0.prezzo > u64::MAX,
{
    let ghost inizio = banditore@;
    let ghost eventi = eventi_di(copione@);
    let mut azioni: Vec<Azione> = Vec::new();
    let mut i: usize = 0;
    assert(eventi.take(0).len() == 0);
    while i < copione.len()
        invariant
            i <= copione@.len(),
            banditore.inv(),
            azioni@.len() == i,
            inizio == old(banditore)@,
            eventi == eventi_di(copione@),
            banditore@ == esegui(inizio, eventi.take(i as int)),
            forall|k: int| 0 <= k < i ==> (#[trigger] azioni@[k])@ == azione(inizio, eventi, k),
        decreases copione@.len() - i,
    {
        let messaggio = &copione[i].0;
        let incremento = copione[i].1;
        if !prezzo_rappresentabile(banditore, messaggio, incremento) {
            return azioni;
        }
        proof {
            let fino = eventi.take(i + 1);
            assert(fino.drop_last() == eventi.take(i as int));
            assert(fino.last() == eventi[i as int]);
            assert(eventi[i as int].messaggio == messaggio@);
        }
        let fatta = banditore.ricevi_con(messaggio, incremento);
        azioni.push(fatta);
        i += 1;
    }
    assert(eventi.take(i as int) == eventi);
    azioni
}

} // verus!
