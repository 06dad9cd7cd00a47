use esercizi::banditore::{Azione, Banditore, Fase, INCREMENTO_MASSIMO, INCREMENTO_MINIMO};
use esercizi::copione::{conduci, prezzo_rappresentabile};
use esercizi::esito::{Esito, MemoriaCondivisa};
use esercizi::messaggi::{Etichetta, FromRx, FromTx, Partecipazione};

fn presenza(id: usize) -> FromTx {
    FromTx::new(id, Partecipazione::Partecipa(0), String::new())
}

fn offerta(id: usize, valore: u64) -> FromTx {
    FromTx::new(id, Partecipazione::Partecipa(valore), String::from("Prova"))
}

fn ritiro(id: usize) -> FromTx {
    FromTx::new(id, Partecipazione::Ritiro, String::from("Prova"))
}

fn avviata(n: usize, minimo: u64, riserva: u64) -> Banditore {
    let mut b = Banditore::new(n, String::from("Prova"), minimo, riserva);
    for id in 0..n {
        let azione = b.ricevi_con(&presenza(id), 1);
        if id + 1 < n {
            assert_eq!(azione, Azione::Attendi);
        } else {
            assert_eq!(
                azione,
                Azione::Diffondi {
                    messaggio: FromRx::new(minimo, String::from("Prova")),
                    destinatari: (0..n).collect(),
                }
            );
        }
    }
    b
}

#[test]
fn banditore_nuovo() {
    let b = Banditore::new(5, String::from("Prova"), 10, 1000);
    assert_eq!(b.get_numero_partecipanti(), 5);
    assert_eq!(b.get_descrizione_prodotto(), "Prova");
    assert_eq!(b.get_prezzo_minimo(), 10);
    assert_eq!(b.get_prezzo_riserva(), 1000);
    assert_eq!(b.get_prezzo_attuale(), 10);
    assert_eq!(b.get_id_attuale(), 0);
    assert_eq!(b.get_fase(), Fase::Presenze);
    assert_eq!(b.numero_attivi(), 5);
    assert_eq!(b.elenco_attivi(), vec![0, 1, 2, 3, 4]);
    assert!(b.get_memoria_condivisa().leggi().is_none());
}

#[test]
fn nessun_turno_prima_di_tutte_le_presenze() {
    let mut b = Banditore::new(3, String::from("Prova"), 10, 100);
    assert_eq!(b.ricevi_con(&presenza(2), 1), Azione::Attendi);
    assert_eq!(b.get_fase(), Fase::Presenze);
    // Anything but a presence signal is dropped while waiting.
    assert_eq!(b.ricevi_con(&offerta(1, 500), 1), Azione::Attendi);
    assert_eq!(b.ricevi_con(&ritiro(1), 1), Azione::Attendi);
    assert_eq!(b.get_fase(), Fase::Presenze);
    assert_eq!(b.get_prezzo_attuale(), 10);
    assert_eq!(b.numero_attivi(), 3);
    assert_eq!(b.ricevi_con(&presenza(0), 1), Azione::Attendi);
    assert_eq!(b.get_fase(), Fase::Presenze);
    let azione = b.ricevi_con(&presenza(1), 1);
    assert_eq!(
        azione,
        Azione::Diffondi {
            messaggio: FromRx::new(10, String::from("Prova")),
            destinatari: vec![0, 1, 2],
        }
    );
    assert_eq!(b.get_fase(), Fase::Turno);
}

#[test]
fn scenario_un_solo_partecipante_si_ritira() {
    let mut b = avviata(1, 10, 1000);
    assert!(!b.chiude_con_superstiti(&ritiro(0)));
    let azione = b.ricevi_con(&ritiro(0), 1);
    assert_eq!(
        azione,
        Azione::Concludi { messaggio: FromRx::nessuno(1000), destinatari: vec![0] }
    );
    assert_eq!(b.get_fase(), Fase::Conclusa);
    assert_eq!(b.numero_attivi(), 0);
    assert_eq!(b.get_prezzo_attuale(), 10);
    let esito = b.get_memoria_condivisa().leggi().expect("published");
    assert_eq!(esito.get_vincitore(), None);
    assert_eq!(esito.get_prezzo(), 1000);
    assert_eq!(esito.get_prodotto(), "Prova");
}

#[test]
fn scenario_tre_partecipanti() {
    let mut b = avviata(3, 10, 10);
    // Round 1: bidder 0 bids +20, bidder 1 bids +5, bidder 2 withdraws.
    assert_eq!(b.ricevi_con(&offerta(0, 30), 7), Azione::Attendi);
    assert_eq!(b.get_prezzo_attuale(), 30);
    assert_eq!(b.get_id_attuale(), 0);
    assert_eq!(b.ricevi_con(&offerta(1, 15), 7), Azione::Attendi);
    assert_eq!(b.get_prezzo_attuale(), 30);
    assert_eq!(b.get_id_attuale(), 0);
    assert!(b.chiude_con_superstiti(&ritiro(2)));
    let azione = b.ricevi_con(&ritiro(2), 7);
    assert_eq!(
        azione,
        Azione::Diffondi {
            messaggio: FromRx::new(37, String::from("Prova")),
            destinatari: vec![0, 1],
        }
    );
    assert!(!b.is_attivo(2));
    assert_eq!(b.numero_attivi(), 2);
    // Round 2 is between bidders 0 and 1 only.
    assert_eq!(b.ricevi_con(&offerta(1, 42), 3), Azione::Attendi);
    assert_eq!(b.get_id_attuale(), 1);
    let azione = b.ricevi_con(&offerta(0, 57), 3);
    assert_eq!(
        azione,
        Azione::Diffondi {
            messaggio: FromRx::new(60, String::from("Prova")),
            destinatari: vec![0, 1],
        }
    );
    assert_eq!(b.get_id_attuale(), 0);
    // Round 3: both withdraw.
    assert_eq!(b.ricevi_con(&ritiro(0), 9), Azione::Attendi);
    let azione = b.ricevi_con(&ritiro(1), 9);
    assert_eq!(
        azione,
        Azione::Concludi { messaggio: FromRx::fine(60), destinatari: vec![0, 1, 2] }
    );
    let esito = b.get_memoria_condivisa().leggi().expect("published");
    let vincitore = esito.get_vincitore().expect("sold");
    assert!(vincitore == 0 || vincitore == 1);
    assert_eq!(vincitore, 0);
    assert!(esito.get_prezzo() >= 30);
    assert_eq!(esito.get_prezzo(), 60);
}

#[test]
fn offerta_pari_non_cambia_il_capofila() {
    let mut b = avviata(2, 10, 0);
    assert_eq!(b.ricevi_con(&offerta(1, 50), 1), Azione::Attendi);
    assert_eq!(b.get_id_attuale(), 1);
    // An equal bid comes later: the leader stays.
    let azione = b.ricevi_con(&offerta(0, 50), 5);
    assert_eq!(b.get_id_attuale(), 1);
    assert_eq!(
        azione,
        Azione::Diffondi {
            messaggio: FromRx::new(55, String::from("Prova")),
            destinatari: vec![0, 1],
        }
    );
    // A bid equal to the current price is not accepted either.
    assert_eq!(b.ricevi_con(&offerta(0, 55), 1), Azione::Attendi);
    assert_eq!(b.get_id_attuale(), 1);
    assert_eq!(b.get_prezzo_attuale(), 55);
}

#[test]
fn prezzo_non_scende_e_attivi_non_crescono() {
    let mut b = avviata(3, 100, 0);
    let messaggi = [
        (offerta(0, 90), 4),
        (offerta(1, 120), 4),
        (ritiro(2), 4),
        (offerta(0, 1), 2),
        (ritiro(1), 2),
        (offerta(0, 500), 6),
        (ritiro(0), 6),
    ];
    let mut prezzo = b.get_prezzo_attuale();
    let mut attivi = b.numero_attivi();
    for (messaggio, incremento) in messaggi.iter() {
        b.ricevi_con(messaggio, *incremento);
        assert!(b.get_prezzo_attuale() >= prezzo);
        assert!(b.numero_attivi() <= attivi);
        prezzo = b.get_prezzo_attuale();
        attivi = b.numero_attivi();
    }
    assert_eq!(b.get_fase(), Fase::Conclusa);
    // 120, then +4, +2, then 500 accepted, then +6.
    assert_eq!(prezzo, 506);
}

#[test]
fn chi_si_ritira_non_riceve_altri_turni() {
    let mut b = avviata(3, 10, 0);
    assert_eq!(b.ricevi_con(&ritiro(1), 1), Azione::Attendi);
    assert_eq!(b.ricevi_con(&offerta(0, 20), 1), Azione::Attendi);
    let mut azione = b.ricevi_con(&offerta(2, 30), 1);
    for giro in 0..5u64 {
        match &azione {
            Azione::Diffondi { destinatari, .. } => {
                assert_eq!(destinatari, &vec![0, 2]);
            }
            altro => panic!("unexpected action {:?}", altro),
        }
        assert_eq!(b.ricevi_con(&offerta(0, 100 + 10 * giro), 1), Azione::Attendi);
        azione = b.ricevi_con(&offerta(2, 100 + 10 * giro), 1);
    }
}

#[test]
fn vendita_al_prezzo_di_riserva() {
    // The price reached equals the reserve: the sale stands.
    let mut b = avviata(1, 50, 50);
    let azione = b.ricevi_con(&ritiro(0), 1);
    assert_eq!(azione, Azione::Concludi { messaggio: FromRx::fine(50), destinatari: vec![0] });
    let esito = b.get_memoria_condivisa().leggi().expect("published");
    // Nobody bid: the leader is still bidder 0, at the floor price.
    assert_eq!(esito.get_vincitore(), Some(0));
    assert_eq!(esito.get_prezzo(), 50);
}

#[test]
fn riserva_non_raggiunta_dopo_offerte() {
    let mut b = avviata(2, 10, 200);
    b.ricevi_con(&offerta(1, 60), 1);
    assert_eq!(
        b.ricevi_con(&ritiro(0), 10),
        Azione::Diffondi { messaggio: FromRx::new(70, String::from("Prova")), destinatari: vec![1] }
    );
    let azione = b.ricevi_con(&ritiro(1), 1);
    assert_eq!(azione, Azione::Concludi { messaggio: FromRx::nessuno(200), destinatari: vec![0, 1] });
    let esito = b.get_memoria_condivisa().leggi().expect("published");
    assert_eq!(esito.get_vincitore(), None);
    assert_eq!(esito.get_prezzo(), 200);
}

#[test]
fn esito_scritto_una_volta() {
    let mut b = avviata(1, 10, 5);
    b.ricevi_con(&ritiro(0), 1);
    let primo = b.get_memoria_condivisa().leggi().expect("published").copia();
    // Nothing that arrives later changes the outcome or the state.
    assert_eq!(b.ricevi_con(&offerta(0, 9999), 50), Azione::Attendi);
    assert_eq!(b.ricevi_con(&presenza(0), 50), Azione::Attendi);
    assert_eq!(b.ricevi_con(&ritiro(0), 50), Azione::Attendi);
    assert_eq!(b.ricevi(&offerta(0, 9999)), Azione::Attendi);
    assert_eq!(b.get_fase(), Fase::Conclusa);
    assert_eq!(b.get_prezzo_attuale(), 10);
    for _ in 0..3 {
        assert_eq!(b.get_memoria_condivisa().leggi(), Some(&primo));
    }
}

#[test]
fn messaggi_di_sconosciuti() {
    let mut b = avviata(2, 10, 0);
    // A withdrawal of a bidder that does not exist removes nobody, but
    // counts as one of the round's messages.
    assert_eq!(b.ricevi_con(&ritiro(7), 1), Azione::Attendi);
    assert_eq!(b.numero_attivi(), 2);
    let azione = b.ricevi_con(&ritiro(0), 2);
    assert_eq!(
        azione,
        Azione::Diffondi { messaggio: FromRx::new(12, String::from("Prova")), destinatari: vec![1] }
    );
    // A second withdrawal of the same bidder removes nobody either.
    let azione = b.ricevi_con(&ritiro(0), 2);
    assert_eq!(
        azione,
        Azione::Diffondi { messaggio: FromRx::new(14, String::from("Prova")), destinatari: vec![1] }
    );
}

#[test]
fn incremento_casuale_nei_limiti() {
    let mut visti = Vec::new();
    for _ in 0..300 {
        let mut b = avviata(1, 10, 0);
        let azione = b.ricevi(&offerta(0, 100));
        let prezzo = b.get_prezzo_attuale();
        assert!(prezzo >= 100 + INCREMENTO_MINIMO);
        assert!(prezzo <= 100 + INCREMENTO_MASSIMO);
        if !visti.contains(&prezzo) {
            visti.push(prezzo);
        }
        assert_eq!(
            azione,
            Azione::Diffondi {
                messaggio: FromRx::new(prezzo, String::from("Prova")),
                destinatari: vec![0],
            }
        );
    }
    // The increments are drawn, not fixed.
    assert!(visti.len() > 1);
}

#[test]
fn ricevi_senza_incremento() {
    let mut b = Banditore::new(2, String::from("Prova"), 10, 0);
    assert_eq!(b.ricevi(&presenza(0)), Azione::Attendi);
    assert_eq!(
        b.ricevi(&presenza(1)),
        Azione::Diffondi { messaggio: FromRx::new(10, String::from("Prova")), destinatari: vec![0, 1] }
    );
    assert_eq!(b.ricevi(&offerta(0, 40)), Azione::Attendi);
    assert_eq!(b.get_prezzo_attuale(), 40);
}

#[test]
fn messaggi_e_etichette() {
    let m = FromRx::new(12, String::from("Prova"));
    assert_eq!(m.get_prezzo(), 12);
    assert_eq!(m.get_nome_prodotto(), "Prova");
    assert_eq!(m.etichetta(), Etichetta::Turno);
    assert_eq!(FromRx::fine(7).etichetta(), Etichetta::Fine);
    assert_eq!(FromRx::fine(7).get_nome_prodotto(), "Fine");
    assert_eq!(FromRx::fine(7).get_prezzo(), 7);
    assert_eq!(FromRx::nessuno(8).etichetta(), Etichetta::Nessuno);
    assert_eq!(FromRx::nessuno(8).get_nome_prodotto(), "Nessuno");
    assert_eq!(FromRx::new(1, String::from("fine")).etichetta(), Etichetta::Turno);
    assert_eq!(FromRx::new(1, String::new()).etichetta(), Etichetta::Turno);

    let t = FromTx::new(3, Partecipazione::Partecipa(15), String::from("Prova"));
    assert_eq!(t.get_id(), 3);
    assert_eq!(*t.get_partecipazione(), Partecipazione::Partecipa(15));
    assert_eq!(t.get_nome_prodotto(), "Prova");
}

#[test]
fn partecipazione_valore() {
    let mut p = Partecipazione::Partecipa(5);
    assert_eq!(p.ottieni_valore(), Some(5));
    assert!(!p.is_presenza());
    p.imposta_valore(0);
    assert_eq!(p, Partecipazione::Partecipa(0));
    assert!(p.is_presenza());
    let mut r = Partecipazione::Ritiro;
    assert_eq!(r.ottieni_valore(), None);
    assert!(!r.is_presenza());
    r.imposta_valore(9);
    assert_eq!(r, Partecipazione::Ritiro);
}

#[test]
fn memoria_condivisa_si_scrive_una_volta() {
    let mut m = MemoriaCondivisa::new();
    assert!(!m.pubblicata());
    assert!(m.leggi().is_none());
    let primo = Esito::new(Some(2), 80, String::from("Prova"));
    assert!(m.pubblica(primo.copia()));
    assert!(m.pubblicata());
    assert_eq!(m.leggi(), Some(&primo));
    // A second write is refused and changes nothing.
    assert!(!m.pubblica(Esito::new(None, 1, String::from("Altro"))));
    assert_eq!(m.leggi(), Some(&primo));
    assert_eq!(m.leggi(), Some(&primo));
    assert_eq!(primo.get_vincitore(), Some(2));
    assert_eq!(primo.get_prezzo(), 80);
    assert_eq!(primo.get_prodotto(), "Prova");
}

#[test]
fn copione_dei_tre_partecipanti() {
    let mut b = Banditore::new(3, String::from("Prova"), 10, 10);
    let copione = vec![
        (presenza(0), 0),
        (presenza(1), 0),
        (presenza(2), 0),
        (offerta(0, 30), 7),
        (offerta(1, 15), 7),
        (ritiro(2), 7),
        (ritiro(0), 9),
        (ritiro(1), 9),
        (offerta(1, 9999), 9),
    ];
    let azioni = conduci(&mut b, &copione);
    assert_eq!(azioni.len(), copione.len());
    let attese = vec![
        Azione::Attendi,
        Azione::Attendi,
        Azione::Diffondi {
            messaggio: FromRx::new(10, String::from("Prova")),
            destinatari: vec![0, 1, 2],
        },
        Azione::Attendi,
        Azione::Attendi,
        Azione::Diffondi {
            messaggio: FromRx::new(37, String::from("Prova")),
            destinatari: vec![0, 1],
        },
        Azione::Attendi,
        Azione::Concludi { messaggio: FromRx::fine(37), destinatari: vec![0, 1, 2] },
        Azione::Attendi,
    ];
    assert_eq!(azioni, attese);
    let esito = b.get_memoria_condivisa().leggi().expect("published");
    assert_eq!(esito.get_vincitore(), Some(0));
    // The highest bid, 30, plus the increment applied after it.
    assert_eq!(esito.get_prezzo(), 37);
}

#[test]
fn copione_si_ferma_dove_il_prezzo_non_sta_in_u64() {
    let mut b = Banditore::new(1, String::from("Prova"), 10, 0);
    let copione = vec![
        (presenza(0), 0),
        (offerta(0, u64::MAX - 5), 5),
        (offerta(0, u64::MAX - 5), 1),
        (ritiro(0), 1),
    ];
    assert!(prezzo_rappresentabile(&b, &copione[0].0, 50));
    let azioni = conduci(&mut b, &copione);
    // The second bid would close a round at a price of u64::MAX + 1.
    assert_eq!(azioni.len(), 2);
    assert_eq!(b.get_prezzo_attuale(), u64::MAX);
    assert_eq!(b.get_fase(), Fase::Turno);
    assert!(!prezzo_rappresentabile(&b, &copione[2].0, 1));
    assert!(prezzo_rappresentabile(&b, &copione[3].0, 1));
    assert_eq!(
        conduci(&mut b, &vec![(ritiro(0), 50)]),
        vec![Azione::Concludi { messaggio: FromRx::fine(u64::MAX), destinatari: vec![0] }]
    );
}

#[test]
fn copione_vuoto() {
    let mut b = Banditore::new(2, String::from("Prova"), 10, 0);
    assert_eq!(conduci(&mut b, &Vec::new()), Vec::new());
    assert_eq!(b.get_fase(), Fase::Presenze);
}
