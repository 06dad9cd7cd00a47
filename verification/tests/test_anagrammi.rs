use esercizi::anagrammi::sono_anagrammi;

#[test]
fn test_sono_anagrammi_anagrammi() {
    assert_eq!(sono_anagrammi("listen", "silent"), true);
    assert_eq!(sono_anagrammi("debit card", "bad credit"), true);
    assert_eq!(sono_anagrammi("rail safety", "fairy tales"), true);
}

#[test]
fn test_sono_anagrammi_non_anagrammi() {
    assert_eq!(sono_anagrammi("hello", "world"), false);
    assert_eq!(sono_anagrammi("abc", "def"), false);
    assert_eq!(sono_anagrammi("rust", "trust"), false);
}

#[test]
fn test_sono_anagrammi_stringhe_diverse_lunghezza() {
    assert_eq!(sono_anagrammi("hello", "helloworld"), false);
    assert_eq!(sono_anagrammi("abc", "abcd"), false);
}

#[test]
fn anagrammi_di_testi_vuoti() {
    assert!(sono_anagrammi("", ""));
    assert!(!sono_anagrammi("", "a"));
    assert!(!sono_anagrammi("a", ""));
}

#[test]
fn anagrammi_contano_le_ripetizioni() {
    assert!(sono_anagrammi("aab", "aba"));
    assert!(!sono_anagrammi("aab", "abb"));
    assert!(!sono_anagrammi("aab", "abc"));
}

#[test]
fn anagrammi_distinguono_maiuscole_e_spazi() {
    assert!(!sono_anagrammi("Listen", "silent"));
    assert!(!sono_anagrammi("a b", "ab_"));
}

#[test]
fn anagrammi_oltre_ascii() {
    assert!(sono_anagrammi("però", "òrep"));
    assert!(!sono_anagrammi("però", "pero"));
    // Same length in bytes, different characters.
    assert!(!sono_anagrammi("é", "ab"));
}

#[test]
fn anagrammi_e_simmetrica() {
    let coppie = [("listen", "silent"), ("abc", "abd"), ("", "x"), ("aa", "a")];
    for (a, b) in coppie {
        assert_eq!(sono_anagrammi(a, b), sono_anagrammi(b, a));
        assert!(sono_anagrammi(a, a));
    }
}
