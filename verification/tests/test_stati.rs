use esercizi::stati::{Stato, StatoArgento, StatoOro, StatoRosso};

#[test]
fn stati_dei_conti() {
    assert_eq!(StatoRosso.stato(), Stato::Rosso);
    assert_eq!(StatoArgento.stato(), Stato::Argento);
    assert_eq!(StatoOro.stato(), Stato::Oro);
}

#[test]
fn cosa_permette_ogni_stato() {
    assert!(!StatoRosso.puo_prelevare());
    assert!(!StatoRosso.matura_interessi());
    assert!(StatoArgento.puo_prelevare());
    assert!(!StatoArgento.matura_interessi());
    assert!(StatoOro.puo_prelevare());
    assert!(StatoOro.matura_interessi());
}
