use esercizi::razionali::Razionali;

#[test]
fn test_somma() {
    let raz1 = Razionali::new(1, 2);
    let raz2 = Razionali::new(1, 3);
    let risultato = raz1.somma(&raz2);
    assert_eq!(risultato.num(), 5);
    assert_eq!(risultato.denum(), 6);
}

#[test]
fn test_prodotto() {
    let raz1 = Razionali::new(2, 3);
    let raz2 = Razionali::new(3, 4);
    let risultato = raz1.prodotto(&raz2);
    assert_eq!(risultato.num(), 1);
    assert_eq!(risultato.denum(), 2);
}

#[test]
fn test_somma_razionali() {
    let a = Razionali::new(1, 2);
    let b = Razionali::new(1, 3);
    let r = a + b;
    assert_eq!(r, Razionali::new(5, 6));
}

#[test]
fn test_moltiplicazione_razionali() {
    let a = Razionali::new(2, 3);
    let b = Razionali::new(3, 4);
    let r = a * b;
    assert_eq!(r, Razionali::new(1, 2));
}

#[test]
fn test_moltiplicazione_i32_razionale() {
    let a = Razionali::new(2, 3);
    let b = 4;
    let r = a * b;
    assert_eq!(r, Razionali::new(8, 3));
}

#[test]
fn test_somma_i32_razionale() {
    let a = Razionali::new(2, 3);
    let b = 4;
    let r = a + b;
    assert_eq!(r, Razionali::new(14, 3));
}

#[test]
fn razionali_new_non_riduce() {
    let r = Razionali::new(2, 4);
    assert_eq!(r.num(), 2);
    assert_eq!(r.denum(), 4);
}

#[test]
fn mcd_di_euclide() {
    assert_eq!(Razionali::mcd(12, 18), 6);
    assert_eq!(Razionali::mcd(18, 12), 6);
    assert_eq!(Razionali::mcd(7, 0), 7);
    assert_eq!(Razionali::mcd(0, 7), 7);
    assert_eq!(Razionali::mcd(0, 0), 0);
    assert_eq!(Razionali::mcd(17, 5), 1);
    // With a negative argument the result keeps a sign.
    assert_eq!(Razionali::mcd(4, -6), -2);
    assert_eq!(Razionali::mcd(-4, 6), 2);
}

#[test]
fn minterm_riduce_e_conserva_i_segni() {
    assert_eq!(Razionali::minterm(6, 8), Razionali::new(3, 4));
    assert_eq!(Razionali::minterm(-6, 8), Razionali::new(-3, 4));
    assert_eq!(Razionali::minterm(6, -8), Razionali::new(3, -4));
    assert_eq!(Razionali::minterm(-6, -8), Razionali::new(-3, -4));
    assert_eq!(Razionali::minterm(0, 5), Razionali::new(0, 1));
    assert_eq!(Razionali::minterm(5, 0), Razionali::new(1, 0));
}

#[test]
fn somma_e_prodotto_in_minimi_termini() {
    let mezzo = Razionali::new(1, 2);
    assert_eq!(mezzo.somma(&Razionali::new(1, 2)), Razionali::new(1, 1));
    assert_eq!(mezzo.somma(&Razionali::new(-1, 2)), Razionali::new(0, 1));
    assert_eq!(mezzo.prodotto(&Razionali::new(2, 1)), Razionali::new(1, 1));
    assert_eq!(Razionali::new(2, 4).prodotto(&Razionali::new(2, 4)), Razionali::new(1, 4));
    assert_eq!(Razionali::new(-1, 3).prodotto(&Razionali::new(3, 5)), Razionali::new(-1, 5));
}

#[test]
fn somma_con_operatore_usa_il_minimo_multiplo() {
    assert_eq!(Razionali::new(1, 4) + Razionali::new(1, 6), Razionali::new(5, 12));
    assert_eq!(Razionali::new(1, 2) + Razionali::new(1, 2), Razionali::new(1, 1));
    assert_eq!(Razionali::new(3, 4) + Razionali::new(-3, 4), Razionali::new(0, 1));
}

#[test]
fn operatori_con_intero_non_riducono() {
    assert_eq!(Razionali::new(2, 4) + 1, Razionali::new(6, 4));
    assert_eq!(Razionali::new(2, 4) * 2, Razionali::new(4, 4));
    assert_eq!(Razionali::new(1, 2) + 0, Razionali::new(1, 2));
    assert_eq!(Razionali::new(1, 2) * 0, Razionali::new(0, 2));
}

#[test]
fn somma_e_prodotto_commutano() {
    let coppie = [((1, 2), (1, 3)), ((2, 3), (3, 4)), ((-5, 6), (7, 8)), ((0, 1), (4, 9))];
    for ((a, b), (c, d)) in coppie {
        let x = Razionali::new(a, b);
        let y = Razionali::new(c, d);
        assert_eq!(x.somma(&y), y.somma(&x));
        assert_eq!(x.prodotto(&y), y.prodotto(&x));
    }
}
