use esercizi::esito::{Esito, MemoriaCondivisa};
use esercizi::messaggi::{FromRx, FromTx, Partecipazione};
use esercizi::partecipante::{
    attesa_fine, Partecipante, Rapporto, Reazione, StatoPartecipante, AGGRESSIVITA_MASSIMA,
    SOGLIA_RILANCIO,
};

fn turno(prezzo: u64) -> FromRx {
    FromRx::new(prezzo, String::from("Prova"))
}

fn memoria(vincitore: Option<usize>, prezzo: u64) -> MemoriaCondivisa {
    let mut m = MemoriaCondivisa::new();
    assert!(m.pubblica(Esito::new(vincitore, prezzo, String::from("Prova"))));
    m
}

#[test]
fn partecipante_annuncia_la_presenza() {
    let mut p = Partecipante::new(4);
    assert_eq!(p.get_id(), 4);
    assert_eq!(p.get_stato(), StatoPartecipante::InAttesa);
    let presenza = p.avvio();
    assert_eq!(presenza, FromTx::new(4, Partecipazione::Partecipa(0), String::new()));
    assert_eq!(p.get_stato(), StatoPartecipante::InGara);
}

#[test]
fn decisione_sulla_soglia() {
    assert_eq!(Partecipante::decidi(100, SOGLIA_RILANCIO - 1), Partecipazione::Ritiro);
    assert_eq!(Partecipante::decidi(100, 1), Partecipazione::Ritiro);
    assert_eq!(Partecipante::decidi(100, SOGLIA_RILANCIO), Partecipazione::Partecipa(150));
    assert_eq!(Partecipante::decidi(100, 120), Partecipazione::Partecipa(220));
    assert_eq!(Partecipante::decidi(0, 50), Partecipazione::Partecipa(50));
}

#[test]
fn partecipante_rilancia_e_resta_in_gara() {
    let vuota = MemoriaCondivisa::new();
    let mut p = Partecipante::new(1);
    p.avvio();
    let risposta = p.ricevi_con(&turno(10), 70, &vuota);
    assert_eq!(
        risposta,
        Reazione::Invia(FromTx::new(1, Partecipazione::Partecipa(80), String::from("Prova")))
    );
    assert_eq!(p.get_stato(), StatoPartecipante::InGara);
}

#[test]
fn partecipante_ritirato_tace() {
    let vuota = MemoriaCondivisa::new();
    let mut p = Partecipante::new(1);
    p.avvio();
    let risposta = p.ricevi_con(&turno(10), 49, &vuota);
    assert_eq!(
        risposta,
        Reazione::Invia(FromTx::new(1, Partecipazione::Ritiro, String::from("Prova")))
    );
    assert_eq!(p.get_stato(), StatoPartecipante::Ritirato);
    // Price updates that still arrive are ignored, whatever was drawn.
    for rilancio in [1, 49, 50, 120] {
        assert_eq!(p.ricevi_con(&turno(500), rilancio, &vuota), Reazione::Attendi);
        assert_eq!(p.get_stato(), StatoPartecipante::Ritirato);
    }
    assert_eq!(p.ricevi(&turno(500), &vuota), Reazione::Attendi);
    assert_eq!(attesa_fine(&mut p, &turno(500), &vuota), None);
    assert_eq!(p.get_stato(), StatoPartecipante::Ritirato);
}

#[test]
fn rapporto_del_vincitore() {
    let m = memoria(Some(1), 90);
    let mut p = Partecipante::new(1);
    p.avvio();
    p.ricevi_con(&turno(10), 1, &m);
    assert_eq!(attesa_fine(&mut p, &FromRx::fine(90), &m), Some(Rapporto::Vittoria { prezzo: 90 }));
    assert_eq!(p.get_stato(), StatoPartecipante::Terminato);
}

#[test]
fn rapporto_di_chi_perde() {
    let m = memoria(Some(0), 90);
    let mut p = Partecipante::new(1);
    p.avvio();
    p.ricevi_con(&turno(10), 1, &m);
    assert_eq!(attesa_fine(&mut p, &FromRx::fine(90), &m), Some(Rapporto::Sconfitta));
    assert_eq!(p.get_stato(), StatoPartecipante::Terminato);
}

#[test]
fn rapporto_senza_vendita() {
    let m = memoria(None, 1000);
    let mut p = Partecipante::new(0);
    p.avvio();
    p.ricevi_con(&turno(10), 1, &m);
    assert_eq!(
        p.ricevi_con(&FromRx::nessuno(1000), 1, &m),
        Reazione::Termina(Rapporto::NessunaVendita)
    );
    assert_eq!(p.get_stato(), StatoPartecipante::Terminato);
}

#[test]
fn fine_mentre_e_in_gara() {
    // A terminal message reaches a bidder that never withdrew.
    let m = memoria(Some(3), 70);
    let mut p = Partecipante::new(3);
    p.avvio();
    assert_eq!(
        p.ricevi_con(&FromRx::fine(70), 100, &m),
        Reazione::Termina(Rapporto::Vittoria { prezzo: 70 })
    );
    assert_eq!(p.get_stato(), StatoPartecipante::Terminato);
    // Once stopped, it does nothing more.
    assert_eq!(p.ricevi_con(&turno(10), 100, &m), Reazione::Attendi);
    assert_eq!(p.ricevi_con(&FromRx::fine(70), 100, &m), Reazione::Attendi);
    assert_eq!(p.get_stato(), StatoPartecipante::Terminato);
}

#[test]
fn fine_con_memoria_vuota() {
    let vuota = MemoriaCondivisa::new();
    let mut p = Partecipante::new(0);
    p.avvio();
    assert_eq!(p.ricevi_con(&FromRx::fine(70), 1, &vuota), Reazione::Termina(Rapporto::Sconfitta));
}

#[test]
fn canale_chiuso_vale_nessuna_vendita() {
    let mut p = Partecipante::new(0);
    p.avvio();
    assert_eq!(p.canale_chiuso(), Rapporto::NessunaVendita);
    assert_eq!(p.get_stato(), StatoPartecipante::Terminato);
}

#[test]
fn prima_dell_avvio_non_risponde() {
    let vuota = MemoriaCondivisa::new();
    let mut p = Partecipante::new(0);
    assert!(!p.risponde_a(&turno(10)));
    assert_eq!(p.ricevi_con(&turno(10), 100, &vuota), Reazione::Attendi);
    assert_eq!(p.get_stato(), StatoPartecipante::InAttesa);
}

#[test]
fn rilancio_casuale_nei_limiti() {
    let vuota = MemoriaCondivisa::new();
    let mut ritiri = 0;
    let mut offerte = 0;
    for _ in 0..400 {
        let mut p = Partecipante::new(2);
        p.avvio();
        assert!(p.risponde_a(&turno(1000)));
        match p.ricevi(&turno(1000), &vuota) {
            Reazione::Invia(messaggio) => {
                assert_eq!(messaggio.get_id(), 2);
                assert_eq!(messaggio.get_nome_prodotto(), "Prova");
                match messaggio.get_partecipazione() {
                    Partecipazione::Ritiro => {
                        ritiri += 1;
                        assert_eq!(p.get_stato(), StatoPartecipante::Ritirato);
                    }
                    Partecipazione::Partecipa(valore) => {
                        offerte += 1;
                        assert!(*valore >= 1000 + SOGLIA_RILANCIO);
                        assert!(*valore <= 1000 + AGGRESSIVITA_MASSIMA);
                        assert_eq!(p.get_stato(), StatoPartecipante::InGara);
                    }
                }
            }
            altro => panic!("unexpected reaction {:?}", altro),
        }
    }
    assert_eq!(ritiri + offerte, 400);
    assert!(ritiri > 0);
    assert!(offerte > 0);
}
