use esercizi::game_space::{CampoGioco, Cella, Posizione, QUANTITA};
use esercizi::player::{
    direzione_da, wall, Direzione, EsitoMossa, Player, FORZA_MASSIMA, FORZA_MINIMA,
};

fn campo(dimensione: usize, riga: usize, colonna: usize) -> CampoGioco {
    CampoGioco::vuoto(dimensione, Posizione { riga, colonna })
}

#[test]
fn test_nuovo_player() {
    let campo = campo(5, 2, 3);
    let player = Player::nuovo(&campo);
    assert_eq!(player.mosse, 25);
    assert!(player.forza >= 1 && player.forza <= 100);
    assert!(
        player.posizione.riga < campo.dimensione && player.posizione.colonna < campo.dimensione
    );
}

#[test]
fn nuovo_player_sta_dove_dice_il_campo() {
    let mut forze = Vec::new();
    let mut direzioni = Vec::new();
    for _ in 0..300 {
        let campo = campo(4, 1, 2);
        let player = Player::nuovo(&campo);
        assert_eq!(player.posizione.riga, 1);
        assert_eq!(player.posizione.colonna, 2);
        assert_eq!(player.mosse, 16);
        assert!(player.forza >= FORZA_MINIMA && player.forza <= FORZA_MASSIMA);
        if !forze.contains(&player.forza) {
            forze.push(player.forza);
        }
        if !direzioni.contains(&player.direzione) {
            direzioni.push(player.direzione);
        }
    }
    // Strength and heading are drawn, not fixed.
    assert!(forze.len() > 1);
    assert!(direzioni.len() > 1);
}

#[test]
fn campo_vuoto() {
    let c = campo(3, 0, 0);
    assert_eq!(c.dimensione, 3);
    assert_eq!(c.celle.len(), 3);
    for riga in c.celle.iter() {
        assert_eq!(riga.len(), 3);
        for cella in riga.iter() {
            assert_eq!(*cella, Cella::Vuota);
        }
    }
}

#[test]
fn posiziona_cibo_e_veleno() {
    let mut c = campo(3, 0, 0);
    c.posiziona((1, 2), true);
    c.posiziona((2, 0), false);
    assert_eq!(c.leggi(1, 2), Cella::Cibo(10));
    assert_eq!(c.leggi(2, 0), Cella::Veleno(10));
    assert_eq!(c.leggi(0, 0), Cella::Vuota);
    assert_eq!(QUANTITA, 10);
    // A later object replaces an earlier one.
    c.posiziona((1, 2), false);
    assert_eq!(c.leggi(1, 2), Cella::Veleno(10));
    let pieni = c.celle.iter().flatten().filter(|x| **x != Cella::Vuota).count();
    assert_eq!(pieni, 2);
}

#[test]
fn posizione_ammessa_esclude_precedente_e_giocatore() {
    assert!(CampoGioco::posizione_ammessa((1, 1), (0, 0), (2, 2)));
    assert!(!CampoGioco::posizione_ammessa((0, 0), (0, 0), (2, 2)));
    assert!(!CampoGioco::posizione_ammessa((2, 2), (0, 0), (2, 2)));
    assert!(CampoGioco::posizione_ammessa((0, 2), (0, 0), (2, 2)));
    assert!(CampoGioco::posizione_ammessa((2, 0), (0, 0), (2, 2)));
}

#[test]
fn descrizione_del_campo() {
    let mut c = campo(3, 1, 1);
    c.posiziona((0, 2), true);
    c.posiziona((2, 0), false);
    assert_eq!(c.descrizione(), "O O $ \nO P O \n- O O \n");
    // The player hides what lies under it.
    c.posiziona((1, 1), true);
    assert_eq!(c.descrizione(), "O O $ \nO P O \n- O O \n");
    assert_eq!(c.descrizione().lines().count(), 3);
}

#[test]
fn direzioni() {
    assert_eq!(direzione_da(0), Direzione::Su);
    assert_eq!(direzione_da(1), Direzione::Giu);
    assert_eq!(direzione_da(2), Direzione::Destra);
    assert_eq!(direzione_da(3), Direzione::Sinistra);
    assert_eq!(direzione_da(99), Direzione::Sinistra);
    assert_eq!(wall(&Direzione::Su), Direzione::Giu);
    assert_eq!(wall(&Direzione::Giu), Direzione::Su);
    assert_eq!(wall(&Direzione::Destra), Direzione::Sinistra);
    assert_eq!(wall(&Direzione::Sinistra), Direzione::Destra);
}

#[test]
fn mossa_nella_direzione_chiesta() {
    let mut c = campo(3, 1, 1);
    let mut p = Player::con(&c, Direzione::Su, 20);
    assert_eq!(p.mosse, 9);
    assert_eq!(p.muovi_con(&mut c, Direzione::Destra, false, Direzione::Su), EsitoMossa::InCorso);
    assert_eq!((p.posizione.riga, p.posizione.colonna), (1, 2));
    assert_eq!((c.player_position.riga, c.player_position.colonna), (1, 2));
    assert_eq!(p.direzione, Direzione::Destra);
    assert_eq!(p.mosse, 8);
    assert_eq!(p.forza, 20);
    assert_eq!(p.muovi_con(&mut c, Direzione::Su, false, Direzione::Su), EsitoMossa::InCorso);
    assert_eq!((p.posizione.riga, p.posizione.colonna), (0, 2));
    assert_eq!(p.muovi_con(&mut c, Direzione::Sinistra, false, Direzione::Su), EsitoMossa::InCorso);
    assert_eq!((p.posizione.riga, p.posizione.colonna), (0, 1));
    assert_eq!(p.muovi_con(&mut c, Direzione::Giu, false, Direzione::Su), EsitoMossa::InCorso);
    assert_eq!((p.posizione.riga, p.posizione.colonna), (1, 1));
    assert_eq!(p.mosse, 5);
}

#[test]
fn mossa_contro_il_muro() {
    let mut c = campo(2, 0, 0);
    let mut p = Player::con(&c, Direzione::Destra, 20);
    // At the wall the player stays and reverses the heading it had.
    assert_eq!(p.muovi_con(&mut c, Direzione::Su, false, Direzione::Giu), EsitoMossa::InCorso);
    assert_eq!((p.posizione.riga, p.posizione.colonna), (0, 0));
    assert_eq!(p.direzione, Direzione::Sinistra);
    assert_eq!(p.mosse, 3);
    assert_eq!(p.muovi_con(&mut c, Direzione::Sinistra, false, Direzione::Giu), EsitoMossa::InCorso);
    assert_eq!((p.posizione.riga, p.posizione.colonna), (0, 0));
    assert_eq!(p.direzione, Direzione::Destra);
    let mut c = campo(2, 1, 1);
    let mut p = Player::con(&c, Direzione::Su, 20);
    assert_eq!(p.muovi_con(&mut c, Direzione::Giu, false, Direzione::Su), EsitoMossa::InCorso);
    assert_eq!((p.posizione.riga, p.posizione.colonna), (1, 1));
    assert_eq!(p.direzione, Direzione::Giu);
    assert_eq!(p.muovi_con(&mut c, Direzione::Destra, false, Direzione::Su), EsitoMossa::InCorso);
    assert_eq!((p.posizione.riga, p.posizione.colonna), (1, 1));
    assert_eq!(p.direzione, Direzione::Su);
}

#[test]
fn mossa_deviata() {
    let mut c = campo(3, 1, 1);
    c.posiziona((1, 1), true);
    let mut p = Player::con(&c, Direzione::Su, 20);
    assert_eq!(p.muovi_con(&mut c, Direzione::Destra, true, Direzione::Sinistra), EsitoMossa::InCorso);
    // The player turns but stays, and eats what lies under it.
    assert_eq!((p.posizione.riga, p.posizione.colonna), (1, 1));
    assert_eq!(p.direzione, Direzione::Sinistra);
    assert_eq!(p.mosse, 8);
    assert_eq!(p.forza, 30);
    assert_eq!(c.leggi(1, 1), Cella::Vuota);
}

#[test]
fn cibo_e_veleno() {
    let mut c = campo(3, 1, 0);
    c.posiziona((1, 1), true);
    c.posiziona((1, 2), false);
    c.scrivi(0, 2, Cella::Cibo(5));
    let mut p = Player::con(&c, Direzione::Su, 15);
    assert_eq!(p.muovi_con(&mut c, Direzione::Destra, false, Direzione::Su), EsitoMossa::InCorso);
    assert_eq!(p.forza, 25);
    assert_eq!(c.leggi(1, 1), Cella::Vuota);
    assert_eq!(p.muovi_con(&mut c, Direzione::Destra, false, Direzione::Su), EsitoMossa::InCorso);
    assert_eq!(p.forza, 15);
    assert_eq!(c.leggi(1, 2), Cella::Vuota);
    // A portion of another size is cleared without effect.
    assert_eq!(p.muovi_con(&mut c, Direzione::Su, false, Direzione::Su), EsitoMossa::InCorso);
    assert_eq!(p.forza, 15);
    assert_eq!(c.leggi(0, 2), Cella::Vuota);
}

#[test]
fn veleno_mortale() {
    let mut c = campo(3, 1, 0);
    c.posiziona((1, 1), false);
    let mut p = Player::con(&c, Direzione::Su, 10);
    assert_eq!(p.muovi_con(&mut c, Direzione::Destra, false, Direzione::Su), EsitoMossa::Perso);
    assert_eq!(p.forza, 0);
    assert_eq!(p.mosse, 8);
    // The player stays where it was; the cell is cleared all the same.
    assert_eq!((p.posizione.riga, p.posizione.colonna), (1, 0));
    assert_eq!((c.player_position.riga, c.player_position.colonna), (1, 0));
    assert_eq!(c.leggi(1, 1), Cella::Vuota);
    assert_eq!(p.direzione, Direzione::Destra);
}

#[test]
fn vittoria_senza_mosse() {
    let mut c = campo(1, 0, 0);
    let mut p = Player::con(&c, Direzione::Su, 5);
    assert_eq!(p.mosse, 1);
    assert_eq!(p.muovi_con(&mut c, Direzione::Su, false, Direzione::Su), EsitoMossa::InCorso);
    assert_eq!(p.mosse, 0);
    assert_eq!(p.muovi_con(&mut c, Direzione::Su, false, Direzione::Su), EsitoMossa::Vinto);
    assert_eq!(p.mosse, 0);
    assert_eq!(p.forza, 5);
    assert_eq!(p.muovi(&mut c, Direzione::Giu), EsitoMossa::Vinto);
}

#[test]
fn mossa_casuale() {
    let mut andate = 0;
    let mut deviate = 0;
    for _ in 0..300 {
        let mut c = campo(3, 1, 1);
        c.posiziona((0, 1), true);
        let mut p = Player::con(&c, Direzione::Giu, 50);
        let esito = p.muovi(&mut c, Direzione::Su);
        assert_eq!(esito, EsitoMossa::InCorso);
        assert_eq!(p.mosse, 8);
        let qui = (p.posizione.riga, p.posizione.colonna);
        if qui == (0, 1) {
            // The move went where it was asked to.
            andate += 1;
            assert_eq!(p.forza, 60);
            assert_eq!(p.direzione, Direzione::Su);
        } else {
            deviate += 1;
            assert_eq!(qui, (1, 1));
            assert_eq!(p.forza, 50);
        }
        assert_eq!((c.player_position.riga, c.player_position.colonna), qui);
    }
    assert!(andate > 0);
    assert!(deviate > 0);
}
