//! Counting the vowels of a text, one counter for each of `a e i o u`.

use vstd::prelude::*;

verus! {

/// The position of a character among the vowels `a e i o u`, upper or lower
/// case, or `None` for any other character.
pub open spec fn vocale(c: char) -> Option<int> {
    if c == 'a' || c == 'A' {
        Some(0)
    } else if c == 'e' || c == 'E' {
        Some(1)
    } else if c == 'i' || c == 'I' {
        Some(2)
    } else if c == 'o' || c == 'O' {
        Some(3)
    } else if c == 'u' || c == 'U' {
        Some(4)
    } else {
        None
    }
}

/// How many characters of `s` are the vowel at position `k`.
pub open spec fn occorrenze(s: Seq<char>, k: int) -> nat
    decreases s.len(),
{
    if s.len() == 0 {
        0
    } else if vocale(s.last()) == Some(k) {
        occorrenze(s.drop_last(), k) + 1
    } else {
        occorrenze(s.drop_last(), k)
    }
}

/// The five counters of a text, in the order `a e i o u`.
pub open spec fn conteggio(s: Seq<char>) -> (int, int, int, int, int) {
    (
        occorrenze(s, 0) as int,
        occorrenze(s, 1) as int,
        occorrenze(s, 2) as int,
        occorrenze(s, 3) as int,
        occorrenze(s, 4) as int,
    )
}

/// The counters after one more character.
pub open spec fn aggiorna(c: char, acc: (int, int, int, int, int)) -> (int, int, int, int, int) {
    let k = vocale(c);
    if k == Some(0int) {
        (acc.0 + 1, acc.1, acc.2, acc.3, acc.4)
    } else if k == Some(1int) {
        (acc.0, acc.1 + 1, acc.2, acc.3, acc.4)
    } else if k == Some(2int) {
        (acc.0, acc.1, acc.2 + 1, acc.3, acc.4)
    } else if k == Some(3int) {
        (acc.0, acc.1, acc.2, acc.3 + 1, acc.4)
    } else if k == Some(4int) {
        (acc.0, acc.1, acc.2, acc.3, acc.4 + 1)
    } else {
        acc
    }
}

/// No vowel occurs more often than the text is long.
pub proof fn occorrenze_limitate(s: Seq<char>, k: int)
    ensures
        occorrenze(s, k) <= s.len(),
    decreases s.len(),
{
    if s.len() > 0 {
        occorrenze_limitate(s.drop_last(), k);
    }
}

/// The number of vowels of a text, as five named counters.
#[derive(Debug, PartialEq)]
pub struct NumVocali {
    a: i32,
    e: i32,
    i: i32,
    o: i32,
    u: i32,
}

/// The number of vowels of a text, as a tuple in the order `a e i o u`.
#[derive(Debug, PartialEq)]
pub struct TuplaVocali(i32, i32, i32, i32, i32);

impl View for NumVocali {
    type V = (int, int, int, int, int);

    closed spec fn view(&self) -> (int, int, int, int, int) {
        (self.a as int, self.e as int, self.i as int, self.o as int, self.u as int)
    }
}

impl View for TuplaVocali {
    type V = (int, int, int, int, int);

    closed spec fn view(&self) -> (int, int, int, int, int) {
        (self.0 as int, self.1 as int, self.2 as int, self.3 as int, self.4 as int)
    }
}

impl NumVocali {
    pub fn new(a: i32, e: i32, i: i32, o: i32, u: i32) -> (r: Self)
        ensures
            r@ == (a as int, e as int, i as int, o as int, u as int),
    {
        NumVocali { a, e, i, o, u }
    }

    /// Counts the vowels of `s`.
    pub fn num_vocali_struct(s: &String) -> (r: NumVocali)
        requires
            s@.len() <= i32::MAX,
        ensures
            r@ == conteggio(s@),
    {
        let n_vocali = conta_vocali(s);
        Self::new(n_vocali.0, n_vocali.1, n_vocali.2, n_vocali.3, n_vocali.4)
    }
}

impl TuplaVocali {
    pub fn new(a: i32, e: i32, i: i32, o: i32, u: i32) -> (r: Self)
        ensures
            r@ == (a as int, e as int, i as int, o as int, u as int),
    {
        TuplaVocali(a, e, i, o, u)
    }

    /// Counts the vowels of `s`.
    pub fn num_vocali_tuple(s: &String) -> (r: TuplaVocali)
        requires
            s@.len() <= i32::MAX,
        ensures
            r@ == conteggio(s@),
    {
        let n_vocali = conta_vocali(s);
        Self::new(n_vocali.0, n_vocali.1, n_vocali.2, n_vocali.3, n_vocali.4)
    }
}

/// Folds `check_char` over the characters of `s`, from five zeros.
fn conta_vocali(s: &String) -> (r: (i32, i32, i32, i32, i32))
    requires
        s@.len() <= i32::MAX,
    ensures
        (r.0 as int, r.1 as int, r.2 as int, r.3 as int, r.4 as int) == conteggio(s@),
{
    let mut acc: (i32, i32, i32, i32, i32) = (0, 0, 0, 0, 0);
    let testo = s.as_str();
    for c in it: testo.chars()
        invariant
            it.seq() == s@,
            s@.len() <= i32::MAX,
            (acc.0 as int, acc.1 as int, acc.2 as int, acc.3 as int, acc.4 as int) == conteggio(
                s@.take(it.index() as int),
            ),
    {
        proof {
            let prima = s@.take(it.index() as int);
            let dopo = s@.take(it.index() + 1);
            assert(dopo.drop_last() == prima);
            assert(dopo.last() == c);
            occorrenze_limitate(prima, 0);
            occorrenze_limitate(prima, 1);
            occorrenze_limitate(prima, 2);
            occorrenze_limitate(prima, 3);
            occorrenze_limitate(prima, 4);
        }
        acc = check_char(&c, &acc);
    }
    assert(s@.take(s@.len() as int) == s@);
    acc
}

/// Adds one to the counter of `c` if `c` is a vowel, upper or lower case.
pub fn check_char(c: &char, acc: &(i32, i32, i32, i32, i32)) -> (r: (i32, i32, i32, i32, i32))
    requires
        acc.0 < i32::MAX,
        acc.1 < i32::MAX,
        acc.2 < i32::MAX,
        acc.3 < i32::MAX,
        acc.4 < i32::MAX,
    ensures
        (r.0 as int, r.1 as int, r.2 as int, r.3 as int, r.4 as int) == aggiorna(
            *c,
            (acc.0 as int, acc.1 as int, acc.2 as int, acc.3 as int, acc.4 as int),
        ),
{
    let c = *c;
    if c == 'a' || c == 'A' {
        (acc.0 + 1, acc.1, acc.2, acc.3, acc.4)
    } else if c == 'e' || c == 'E' {
        (acc.0, acc.1 + 1, acc.2, acc.3, acc.4)
    } else if c == 'i' || c == 'I' {
        (acc.0, acc.1, acc.2 + 1, acc.3, acc.4)
    } else if c == 'o' || c == 'O' {
        (acc.0, acc.1, acc.2, acc.3 + 1, acc.4)
    } else if c == 'u' || c == 'U' {
        (acc.0, acc.1, acc.2, acc.3, acc.4 + 1)
    } else {
        *acc
    }
}

} // verus!
