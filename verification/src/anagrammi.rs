//! Anagrams: whether two texts hold the same characters, each as often.

use std::collections::HashMap;
use vstd::prelude::*;
use vstd::string::StrSliceExecFns;

verus! {

/// How often character `c` occurs in `s`.
pub open spec fn quante(s: Seq<char>, c: char) -> nat
    decreases s.len(),
{
    if s.len() == 0 {
        0
    } else if s.last() == c {
        quante(s.drop_last(), c) + 1
    } else {
        quante(s.drop_last(), c)
    }
}

/// Two texts are anagrams of each other when they hold the same characters,
/// each as often in one as in the other.
pub open spec fn anagrammi(a: Seq<char>, b: Seq<char>) -> bool {
    a.to_multiset() =~= b.to_multiset()
}

/// The number under which a character is counted.
pub open spec fn codice(c: char) -> u32 {
    c as u32
}

/// `quante` counts what the multiset of the text counts.
pub proof fn quante_nel_multinsieme(s: Seq<char>, c: char)
    ensures
        quante(s, c) == s.to_multiset().count(c),
    decreases s.len(),
{
    broadcast use vstd::seq_lib::group_to_multiset_ensures;

    if s.len() > 0 {
        quante_nel_multinsieme(s.drop_last(), c);
        assert(s == s.drop_last().push(s.last()));
    }
}

/// Two texts are anagrams exactly when every character occurs in both
/// equally often; anagrams have the same length.
pub proof fn anagrammi_per_conteggio(a: Seq<char>, b: Seq<char>)
    ensures
        anagrammi(a, b) <==> (forall|c: char| #[trigger] quante(a, c) == quante(b, c)),
        anagrammi(a, b) ==> a.len() == b.len(),
{
    broadcast use vstd::seq_lib::group_to_multiset_ensures;

    assert forall|c: char|
        #[trigger] quante(a, c) == a.to_multiset().count(c) && quante(b, c)
            == b.to_multiset().count(c) by {
        quante_nel_multinsieme(a, c);
        quante_nel_multinsieme(b, c);
    }
    if forall|c: char| #[trigger] quante(a, c) == quante(b, c) {
        assert forall|c: char| a.to_multiset().count(c) == b.to_multiset().count(c) by {
            assert(quante(a, c) == quante(b, c));
        }
    }
    if anagrammi(a, b) {
        assert forall|c: char| #[trigger] quante(a, c) == quante(b, c) by {
            assert(quante(a, c) == a.to_multiset().count(c));
        }
        a.to_multiset_ensures();
        b.to_multiset_ensures();
        assert(a.len() == a.to_multiset().len());
        assert(b.len() == b.to_multiset().len());
    }
}

/// Different characters are counted under different numbers.
pub proof fn codice_iniettivo(c: char, d: char)
    ensures
        codice(c) == codice(d) <==> c == d,
{
}

/// The number under which `c` is counted.
fn chiave_di(c: char) -> (chiave: u32)
    ensures
        chiave == codice(c),
{
    c as u32
}

/// A character occurs in a text at most as often as the text is long, in a
/// prefix no more often than in the whole, and at least once exactly when
/// the text contains it.
pub proof fn quante_limitate(s: Seq<char>, n: int, c: char)
    requires
        0 <= n <= s.len(),
    ensures
        quante(s, c) <= s.len(),
        quante(s.take(n), c) <= quante(s, c),
        quante(s, c) > 0 <==> s.contains(c),
    decreases s.len(),
{
    if s.len() > 0 {
        let corto = s.drop_last();
        if n < s.len() {
            quante_limitate(corto, n, c);
            assert(corto.take(n) == s.take(n));
        } else {
            quante_limitate(corto, 0, c);
            assert(s.take(n) == s);
        }
        if corto.contains(c) {
            let k = choose|k: int| 0 <= k < corto.len() && corto[k] == c;
            assert(s[k] == c);
        }
        if s.contains(c) && s.last() != c {
            let k = choose|k: int| 0 <= k < s.len() && s[k] == c;
            assert(corto[k] == c);
        }
    } else {
        assert(s.take(n) == s);
    }
}

/// Says whether `str1` and `str2` are anagrams of each other. Every
/// character counts, spaces and upper case included.
pub fn sono_anagrammi(str1: &str, str2: &str) -> (uguali: bool)
    requires
        str1@.len() <= i32::MAX,
    ensures
        uguali == anagrammi(str1@, str2@),
{
    broadcast use vstd::std_specs::hash::group_hash_axioms;

    proof {
        anagrammi_per_conteggio(str1@, str2@);
    }
    if str1.unicode_len() != str2.unicode_len() {
        return false;
    }
    let mut char_count: HashMap<u32, i32> = HashMap::new();
    // Count the characters of the first text.
    for c in it: str1.chars()
        invariant
            it.seq() == str1@,
            str1@.len() <= i32::MAX,
            forall|d: char|
                char_count@.contains_key(#[trigger] codice(d)) <==> quante(
                    str1@.take(it.index() as int),
                    d,
                ) > 0,
            forall|d: char|
                char_count@.contains_key(#[trigger] codice(d)) ==> char_count@[codice(d)]
                    == quante(str1@.take(it.index() as int), d),
    {
        let ghost prima = str1@.take(it.index() as int);
        let ghost dopo = str1@.take(it.index() + 1);
        proof {
            assert(dopo.drop_last() == prima);
            assert(dopo.last() == c);
            quante_limitate(prima, 0, c);
            assert(char_count@.contains_key(codice(c)) <==> quante(prima, c) > 0);
        }
        let chiave = chiave_di(c);
        let finora = match char_count.get(&chiave) {
            Some(val) => *val,
            None => 0,
        };
        char_count.insert(chiave, finora + 1);
        proof {
            assert forall|d: char|
                char_count@.contains_key(#[trigger] codice(d)) <==> quante(dopo, d) > 0 by {
                if d != c {
                    codice_iniettivo(c, d);
                }
            }
            assert forall|d: char|
                char_count@.contains_key(#[trigger] codice(d)) implies char_count@[codice(d)]
                    == quante(dopo, d) by {
                if d != c {
                    codice_iniettivo(c, d);
                }
            }
        }
    }
    assert(str1@.take(str1@.len() as int) == str1@);
    // Take away the characters of the second text.
    for c in it: str2.chars()
        invariant
            it.seq() == str2@,
            forall|d: char|
                char_count@.contains_key(#[trigger] codice(d)) <==> quante(str1@, d) > 0,
            forall|d: char|
                char_count@.contains_key(#[trigger] codice(d)) ==> char_count@[codice(d)]
                    == quante(str1@, d) - quante(str2@.take(it.index() as int), d),
            forall|d: char| #[trigger]
                quante(str2@.take(it.index() as int), d) <= quante(str1@, d),
            !anagrammi(str1@, str2@) <==> exists|d: char| #[trigger]
                quante(str1@, d) != quante(str2@, d),
    {
        let ghost prima = str2@.take(it.index() as int);
        let ghost dopo = str2@.take(it.index() + 1);
        proof {
            assert(dopo.drop_last() == prima);
            assert(dopo.last() == c);
            quante_limitate(str2@, it.index() + 1, c);
            assert(char_count@.contains_key(codice(c)) <==> quante(str1@, c) > 0);
            assert(quante(prima, c) <= quante(str1@, c));
        }
        let chiave = chiave_di(c);
        match char_count.get(&chiave) {
            Some(val) => {
                let resto = *val - 1;
                if resto < 0 {
                    assert(quante(str1@, c) != quante(str2@, c));
                    return false;
                }
                char_count.insert(chiave, resto);
            },
            None => {
                assert(quante(str1@, c) != quante(str2@, c));
                return false;
            },
        }
        proof {
            assert forall|d: char|
                char_count@.contains_key(#[trigger] codice(d)) <==> quante(str1@, d) > 0 by {
                if d != c {
                    codice_iniettivo(c, d);
                }
            }
            assert forall|d: char|
                char_count@.contains_key(#[trigger] codice(d)) implies char_count@[codice(d)]
                    == quante(str1@, d) - quante(dopo, d) by {
                if d != c {
                    codice_iniettivo(c, d);
                }
            }
            assert forall|d: char| #[trigger] quante(dopo, d) <= quante(str1@, d) by {
                assert(quante(prima, d) <= quante(str1@, d));
            }
        }
    }
    assert(str2@.take(str2@.len() as int) == str2@);
    // Every count must be back at zero.
    for c in it: str1.chars()
        invariant
            it.seq() == str1@,
            forall|d: char|
                char_count@.contains_key(#[trigger] codice(d)) <==> quante(str1@, d) > 0,
            forall|d: char|
                char_count@.contains_key(#[trigger] codice(d)) ==> char_count@[codice(d)]
                    == quante(str1@, d) - quante(str2@, d),
            forall|d: char| #[trigger] quante(str2@, d) <= quante(str1@, d),
            forall|k: int|
                0 <= k < it.index() ==> quante(str1@, #[trigger] str1@[k]) == quante(
                    str2@,
                    str1@[k],
                ),
            !anagrammi(str1@, str2@) <==> exists|d: char| #[trigger]
                quante(str1@, d) != quante(str2@, d),
    {
        proof {
            assert(str1@[it.index() as int] == c);
            quante_limitate(str1@, 0, c);
            assert(char_count@.contains_key(codice(c)));
        }
        let chiave = chiave_di(c);
        match char_count.get(&chiave) {
            Some(val) => {
                if *val != 0 {
                    assert(quante(str1@, c) != quante(str2@, c));
                    return false;
                }
            },
            None => {
                return false;
            },
        }
    }
    proof {
        assert forall|d: char| #[trigger] quante(str1@, d) == quante(str2@, d) by {
            quante_limitate(str1@, 0, d);
            if quante(str1@, d) > 0 {
                let k = choose|k: int| 0 <= k < str1@.len() && str1@[k] == d;
                assert(quante(str1@, str1@[k]) == quante(str2@, str1@[k]));
            } else {
                assert(quante(str2@, d) <= quante(str1@, d));
            }
        }
    }
    true
}

} // verus!
