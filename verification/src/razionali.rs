//! Rational numbers over `i32`, with sum and product in lowest terms.

use vstd::arithmetic::div_mod::{lemma_fundamental_div_mod, lemma_mod_pos_bound};
use vstd::prelude::*;
use vstd::std_specs::ops::{AddSpec, MulSpec};

verus! {

/// The absolute value of an integer.
pub open spec fn assoluto(x: int) -> int {
    if x >= 0 {
        x
    } else {
        -x
    }
}

/// The quotient of `a` by `b`, rounded towards zero.
pub open spec fn quoto(a: int, b: int) -> int {
    if a >= 0 {
        a / b
    } else {
        -((-a) / b)
    }
}

/// The remainder of `a` by `b` that goes with `quoto`: it has the sign of `a`.
pub open spec fn resto(a: int, b: int) -> int {
    if a >= 0 {
        a % b
    } else {
        -((-a) % b)
    }
}

/// The product of `k` and `q`.
pub open spec fn multiplo(k: int, q: int) -> int {
    k * q
}

/// Whether `k` divides `n`: `n` is a multiple of `k`.
pub open spec fn divide(k: int, n: int) -> bool {
    exists|q: int| n == #[trigger] multiplo(k, q)
}

/// The result of Euclid's algorithm on `a` and `b`. Up to its sign it is
/// their greatest common divisor: see `mcd_divide` and `mcd_massimo`.
pub open spec fn mcd_di(a: int, b: int) -> int
    decreases assoluto(b),
    via mcd_di_termina
{
    if b == 0 {
        a
    } else {
        mcd_di(b, resto(a, b))
    }
}

#[via_fn]
proof fn mcd_di_termina(a: int, b: int) {
    if b != 0 {
        resto_e_quoto(a, b);
    }
}

/// The fraction `num / denum` in lowest terms: both divided by their
/// greatest common divisor, each keeping its sign.
pub open spec fn ridotta(num: int, denum: int) -> (int, int) {
    let g = mcd_di(assoluto(num), assoluto(denum));
    (quoto(num, g), quoto(denum, g))
}

/// Quotient and remainder: `a` is `quoto * b + resto`, the remainder is
/// smaller than `b` in absolute value, and the quotient is no larger than
/// `a` in absolute value.
pub proof fn resto_e_quoto(a: int, b: int)
    requires
        b != 0,
    ensures
        a == quoto(a, b) * b + resto(a, b),
        assoluto(resto(a, b)) < assoluto(b),
        assoluto(quoto(a, b)) <= assoluto(a),
        a >= 0 ==> resto(a, b) >= 0,
        a <= 0 ==> resto(a, b) <= 0,
{
    let x = assoluto(a);
    let q = x / b;
    let r = x % b;
    lemma_fundamental_div_mod(x, b);
    assert(0 <= r < assoluto(b)) by {
        if b > 0 {
            lemma_mod_pos_bound(x, b);
        } else {
            assert(0 <= x % b < -b) by (nonlinear_arith)
                requires
                    b < 0,
            ;
        }
    }
    assert(assoluto(q) <= x && (x == 0 ==> r == 0)) by (nonlinear_arith)
        requires
            x == b * q + r,
            0 <= r < assoluto(b),
            x >= 0,
            b != 0,
    ;
    assert(a == quoto(a, b) * b + resto(a, b)) by (nonlinear_arith)
        requires
            x == b * q + r,
            x == assoluto(a),
            resto(a, b) == (if a >= 0 {
                r
            } else {
                -r
            }),
            quoto(a, b) == (if a >= 0 {
                q
            } else {
                -q
            }),
    ;
}

/// A common divisor of two numbers divides every sum of their multiples.
pub proof fn divide_combinazione(k: int, a: int, b: int, x: int, y: int)
    requires
        divide(k, a),
        divide(k, b),
    ensures
        divide(k, x * a + y * b),
{
    let qa = choose|q: int| a == multiplo(k, q);
    let qb = choose|q: int| b == multiplo(k, q);
    assert(x * a + y * b == k * (x * qa + y * qb)) by (nonlinear_arith)
        requires
            a == k * qa,
            b == k * qb,
    ;
    assert(x * a + y * b == multiplo(k, x * qa + y * qb));
}

/// The result of Euclid's algorithm divides both numbers.
pub proof fn mcd_divide(a: int, b: int)
    ensures
        divide(mcd_di(a, b), a),
        divide(mcd_di(a, b), b),
    decreases assoluto(b),
{
    let g = mcd_di(a, b);
    if b == 0 {
        assert(a == multiplo(g, 1));
        assert(b == multiplo(g, 0));
    } else {
        resto_e_quoto(a, b);
        mcd_divide(b, resto(a, b));
        divide_combinazione(g, b, resto(a, b), quoto(a, b), 1);
        assert(quoto(a, b) * b + 1 * resto(a, b) == a);
    }
}

/// Every common divisor of two numbers divides the result of Euclid's
/// algorithm on them: the result is the greatest common divisor.
pub proof fn mcd_massimo(a: int, b: int, k: int)
    requires
        divide(k, a),
        divide(k, b),
    ensures
        divide(k, mcd_di(a, b)),
    decreases assoluto(b),
{
    if b != 0 {
        resto_e_quoto(a, b);
        divide_combinazione(k, a, b, 1, -quoto(a, b));
        assert(1 * a + (-quoto(a, b)) * b == resto(a, b)) by (nonlinear_arith)
            requires
                a == quoto(a, b) * b + resto(a, b),
        ;
        mcd_massimo(b, resto(a, b), k);
    }
}

/// On numbers that are not negative Euclid's algorithm gives a result that is
/// not negative, and zero only for two zeros.
pub proof fn mcd_non_negativo(a: int, b: int)
    requires
        a >= 0,
        b >= 0,
    ensures
        mcd_di(a, b) >= 0,
        mcd_di(a, b) == 0 <==> (a == 0 && b == 0),
        mcd_di(a, b) <= if a >= b {
            a
        } else {
            b
        },
    decreases assoluto(b),
{
    if b != 0 {
        resto_e_quoto(a, b);
        mcd_non_negativo(b, resto(a, b));
    }
}

/// Dividing by a positive divisor is exact: the quotient times the divisor
/// gives the number back.
pub proof fn quoto_esatto(n: int, g: int)
    requires
        g > 0,
        divide(g, n),
    ensures
        quoto(n, g) * g == n,
        resto(n, g) == 0,
{
    let q = choose|q: int| n == multiplo(g, q);
    resto_e_quoto(n, g);
    let r = resto(n, g);
    let t = quoto(n, g);
    assert(r == 0) by (nonlinear_arith)
        requires
            n == g * q,
            n == t * g + r,
            -g < r < g,
            g > 0,
    ;
}

/// A fraction in lowest terms has the value of the fraction it came from:
/// numerator and denominator are those of the fraction given, both divided by the
/// same positive number.
pub proof fn ridotta_stesso_valore(num: int, denum: int)
    requires
        num != 0 || denum != 0,
    ensures
        ({
            let g = mcd_di(assoluto(num), assoluto(denum));
            &&& g > 0
            &&& ridotta(num, denum).0 * g == num
            &&& ridotta(num, denum).1 * g == denum
            &&& ridotta(num, denum).0 * denum == ridotta(num, denum).1 * num
        }),
{
    let g = mcd_di(assoluto(num), assoluto(denum));
    mcd_non_negativo(assoluto(num), assoluto(denum));
    mcd_divide(assoluto(num), assoluto(denum));
    divide_segno(g, num);
    divide_segno(g, denum);
    quoto_esatto(num, g);
    quoto_esatto(denum, g);
    let p = ridotta(num, denum).0;
    let q = ridotta(num, denum).1;
    assert(p * denum == q * num) by (nonlinear_arith)
        requires
            p * g == num,
            q * g == denum,
    ;
}

/// What divides the absolute value of a number divides the number.
pub proof fn divide_segno(k: int, n: int)
    ensures
        divide(k, assoluto(n)) <==> divide(k, n),
{
    if divide(k, assoluto(n)) {
        let q = choose|q: int| assoluto(n) == multiplo(k, q);
        let w = if n >= 0 {
            q
        } else {
            -q
        };
        assert(n == k * w) by (nonlinear_arith)
            requires
                assoluto(n) == k * q,
                w == (if n >= 0 {
                    q
                } else {
                    -q
                }),
        ;
        assert(n == multiplo(k, w));
    }
    if divide(k, n) {
        let q = choose|q: int| n == multiplo(k, q);
        let w = if n >= 0 {
            q
        } else {
            -q
        };
        assert(assoluto(n) == k * w) by (nonlinear_arith)
            requires
                n == k * q,
                w == (if n >= 0 {
                    q
                } else {
                    -q
                }),
        ;
        assert(assoluto(n) == multiplo(k, w));
    }
}

/// A fraction in lowest terms cannot be reduced: the only common divisors of
/// its numerator and denominator are 1 and -1.
pub proof fn ridotta_ai_minimi_termini(num: int, denum: int, k: int)
    requires
        num != 0 || denum != 0,
        divide(k, ridotta(num, denum).0),
        divide(k, ridotta(num, denum).1),
    ensures
        k == 1 || k == -1,
{
    let g = mcd_di(assoluto(num), assoluto(denum));
    let p = ridotta(num, denum).0;
    let q = ridotta(num, denum).1;
    ridotta_stesso_valore(num, denum);
    let x = choose|x: int| p == multiplo(k, x);
    let y = choose|y: int| q == multiplo(k, y);
    assert(num == (k * g) * x) by (nonlinear_arith)
        requires
            p * g == num,
            p == k * x,
    ;
    assert(denum == (k * g) * y) by (nonlinear_arith)
        requires
            q * g == denum,
            q == k * y,
    ;
    assert(num == multiplo(k * g, x));
    assert(denum == multiplo(k * g, y));
    let kg = k * g;
    divide_segno(kg, num);
    divide_segno(kg, denum);
    mcd_massimo(assoluto(num), assoluto(denum), kg);
    let z = choose|z: int| g == multiplo(kg, z);
    assert(k == 1 || k == -1) by (nonlinear_arith)
        requires
            g == (k * g) * z,
            g > 0,
    ;
}

/// A rational number: a numerator and a denominator.
#[derive(Debug, PartialEq)]
pub struct Razionali {
    num: i32,
    denum: i32,
}

impl View for Razionali {
    type V = (int, int);

    /// Numerator and denominator.
    closed spec fn view(&self) -> (int, int) {
        (self.num as int, self.denum as int)
    }
}

/// Whether an integer fits in an `i32` and has an absolute value that does.
pub open spec fn rappresentabile(x: int) -> bool {
    i32::MIN < x <= i32::MAX
}

/// The numerator and denominator of the sum of two fractions, before they are
/// reduced: `a/b + c/d = (a*d + c*b) / (b*d)`.
pub open spec fn somma_grezza(x: (int, int), y: (int, int)) -> (int, int) {
    (x.0 * y.1 + y.0 * x.1, x.1 * y.1)
}

/// The numerator and denominator of the product of two fractions, before they
/// are reduced: `a/b * c/d = (a*c) / (b*d)`.
pub open spec fn prodotto_grezzo(x: (int, int), y: (int, int)) -> (int, int) {
    (x.0 * y.0, x.1 * y.1)
}

/// Whether the sum of two fractions can be computed in `i32`: every product
/// and the sum fit, and numerator and denominator are not both zero.
pub open spec fn somma_calcolabile(x: (int, int), y: (int, int)) -> bool {
    &&& rappresentabile(x.0 * y.1)
    &&& rappresentabile(y.0 * x.1)
    &&& rappresentabile(somma_grezza(x, y).0)
    &&& rappresentabile(somma_grezza(x, y).1)
    &&& (somma_grezza(x, y).0 != 0 || somma_grezza(x, y).1 != 0)
}

/// Whether the product of two fractions can be computed in `i32`: both
/// products fit, and they are not both zero.
pub open spec fn prodotto_calcolabile(x: (int, int), y: (int, int)) -> bool {
    &&& rappresentabile(prodotto_grezzo(x, y).0)
    &&& rappresentabile(prodotto_grezzo(x, y).1)
    &&& (prodotto_grezzo(x, y).0 != 0 || prodotto_grezzo(x, y).1 != 0)
}

/// The absolute value of `x`.
fn valore_assoluto(x: i32) -> (r: i32)
    requires
        x > i32::MIN,
    ensures
        r == assoluto(x as int),
{
    if x >= 0 {
        x
    } else {
        -x
    }
}

impl Razionali {
    /// The fraction with the given numerator and denominator, as they are.
    pub fn new(num: i32, denum: i32) -> (r: Self)
        ensures
            r@ == (num as int, denum as int),
    {
        Razionali { num, denum }
    }

    /// The numerator.
    pub fn num(&self) -> (n: i32)
        ensures
            n == self@.0,
    {
        self.num
    }

    /// The denominator.
    pub fn denum(&self) -> (d: i32)
        ensures
            d == self@.1,
    {
        self.denum
    }

    /// The sum of two fractions, in lowest terms.
    pub fn somma(&self, other: &Razionali) -> (r: Razionali)
        requires
            somma_calcolabile(self@, other@),
        ensures
            r@ == ridotta(somma_grezza(self@, other@).0, somma_grezza(self@, other@).1),
    {
        let nuovo_num = self.num * other.denum + other.num * self.denum;
        let nuovo_denum = self.denum * other.denum;
        Razionali::minterm(nuovo_num, nuovo_denum)
    }

    /// The product of two fractions, in lowest terms.
    pub fn prodotto(&self, other: &Razionali) -> (r: Razionali)
        requires
            prodotto_calcolabile(self@, other@),
        ensures
            r@ == ridotta(prodotto_grezzo(self@, other@).0, prodotto_grezzo(self@, other@).1),
    {
        let nuovo_num = self.num * other.num;
        let nuovo_denum = self.denum * other.denum;
        Razionali::minterm(nuovo_num, nuovo_denum)
    }

    /// The fraction `num / denum` in lowest terms.
    pub fn minterm(num: i32, denum: i32) -> (r: Razionali)
        requires
            num > i32::MIN,
            denum > i32::MIN,
            num != 0 || denum != 0,
        ensures
            r@ == ridotta(num as int, denum as int),
    {
        let mcd = Razionali::mcd(valore_assoluto(num), valore_assoluto(denum));
        proof {
            mcd_non_negativo(assoluto(num as int), assoluto(denum as int));
            resto_e_quoto(num as int, mcd as int);
            resto_e_quoto(denum as int, mcd as int);
        }
        Razionali { num: num / mcd, denum: denum / mcd }
    }

    /// Euclid's algorithm on `a` and `b`.
    pub fn mcd(a: i32, b: i32) -> (r: i32)
        requires
            a > i32::MIN,
            b > i32::MIN,
        ensures
            r == mcd_di(a as int, b as int),
            r > i32::MIN,
        decreases assoluto(b as int),
    {
        if b == 0 {
            a
        } else {
            proof {
                resto_e_quoto(a as int, b as int);
            }
            Razionali::mcd(b, a % b)
        }
    }
}

/// The sum of two fractions as the `+` operator computes it: over the least
/// common multiple of the denominators, then reduced.
pub open spec fn somma_su_multiplo(x: (int, int), y: (int, int)) -> (int, int) {
    let g = mcd_di(x.1, y.1);
    let m = quoto(x.1 * y.1, g);
    ridotta(x.0 * quoto(m, x.1) + y.0 * quoto(m, y.1), m)
}

/// Whether `+` can compute the sum of two fractions in `i32`: both
/// denominators differ from zero and every intermediate result fits.
pub open spec fn somma_su_multiplo_calcolabile(x: (int, int), y: (int, int)) -> bool {
    let g = mcd_di(x.1, y.1);
    let m = quoto(x.1 * y.1, g);
    &&& x.1 != 0
    &&& y.1 != 0
    &&& rappresentabile(x.1)
    &&& rappresentabile(y.1)
    &&& rappresentabile(x.1 * y.1)
    &&& rappresentabile(m)
    &&& rappresentabile(x.0 * quoto(m, x.1))
    &&& rappresentabile(y.0 * quoto(m, y.1))
    &&& rappresentabile(x.0 * quoto(m, x.1) + y.0 * quoto(m, y.1))
    &&& (m != 0 || x.0 * quoto(m, x.1) + y.0 * quoto(m, y.1) != 0)
}

impl core::ops::Add for Razionali {
    type Output = Razionali;

    /// The sum of two fractions, in lowest terms.
    fn add(self, rhs: Razionali) -> (r: Razionali) {
        proof {
            mcd_zero(self.denum as int, rhs.denum as int);
            resto_e_quoto(self.denum * rhs.denum, mcd_di(self.denum as int, rhs.denum as int));
        }
        let g = Razionali::mcd(self.denum, rhs.denum);
        let mcd = self.denum * rhs.denum / g;
        proof {
            resto_e_quoto(mcd as int, self.denum as int);
            resto_e_quoto(mcd as int, rhs.denum as int);
        }
        let num = self.num * (mcd / self.denum) + rhs.num * (mcd / rhs.denum);
        Razionali::minterm(num, mcd)
    }
}

impl vstd::std_specs::ops::AddSpecImpl for Razionali {
    open spec fn obeys_add_spec() -> bool {
        true
    }

    open spec fn add_req(self, rhs: Razionali) -> bool {
        somma_su_multiplo_calcolabile(self@, rhs@)
    }

    closed spec fn add_spec(self, rhs: Razionali) -> Razionali {
        Razionali {
            num: somma_su_multiplo(self@, rhs@).0 as i32,
            denum: somma_su_multiplo(self@, rhs@).1 as i32,
        }
    }
}

/// What `+` gives on two fractions: their sum over the least common multiple
/// of the denominators, in lowest terms.
pub proof fn somma_operatore(x: Razionali, y: Razionali)
    requires
        somma_su_multiplo_calcolabile(x@, y@),
    ensures
        AddSpec::<Razionali>::add_spec(x, y)@ == somma_su_multiplo(x@, y@),
{
    let g = mcd_di(x@.1, y@.1);
    let m = quoto(x@.1 * y@.1, g);
    let n = x@.0 * quoto(m, x@.1) + y@.0 * quoto(m, y@.1);
    ridotta_in_i32(n, m);
}

/// Reducing a fraction does not make its terms larger in absolute value.
pub proof fn ridotta_in_i32(num: int, denum: int)
    requires
        num != 0 || denum != 0,
    ensures
        assoluto(ridotta(num, denum).0) <= assoluto(num),
        assoluto(ridotta(num, denum).1) <= assoluto(denum),
{
    let g = mcd_di(assoluto(num), assoluto(denum));
    mcd_non_negativo(assoluto(num), assoluto(denum));
    resto_e_quoto(num, g);
    resto_e_quoto(denum, g);
}

/// Euclid's algorithm gives zero only on two zeros.
pub proof fn mcd_zero(a: int, b: int)
    ensures
        mcd_di(a, b) == 0 <==> (a == 0 && b == 0),
    decreases assoluto(b),
{
    if b != 0 {
        resto_e_quoto(a, b);
        mcd_zero(b, resto(a, b));
    }
}

impl core::ops::Add<i32> for Razionali {
    type Output = Razionali;

    /// The sum of a fraction and an integer, over the fraction's denominator.
    /// The result is not reduced.
    fn add(self, rhs: i32) -> (r: Razionali) {
        Razionali::new(self.num + (rhs * self.denum), self.denum)
    }
}

impl vstd::std_specs::ops::AddSpecImpl<i32> for Razionali {
    open spec fn obeys_add_spec() -> bool {
        true
    }

    open spec fn add_req(self, rhs: i32) -> bool {
        &&& i32::MIN <= rhs * self@.1 <= i32::MAX
        &&& i32::MIN <= self@.0 + rhs * self@.1 <= i32::MAX
    }

    closed spec fn add_spec(self, rhs: i32) -> Razionali {
        Razionali { num: (self.num + rhs * self.denum) as i32, denum: self.denum }
    }
}

/// What `+` gives on a fraction and an integer: `a/b + n = (a + n*b) / b`.
pub proof fn somma_intero_operatore(x: Razionali, n: i32)
    requires
        i32::MIN <= x@.0 + n * x@.1 <= i32::MAX,
    ensures
        AddSpec::<i32>::add_spec(x, n)@ == (x@.0 + n * x@.1, x@.1),
{
}

impl core::ops::Mul for Razionali {
    type Output = Razionali;

    /// The product of two fractions, in lowest terms.
    fn mul(self, rhs: Razionali) -> (r: Razionali) {
        let num = self.num * rhs.num;
        let denum = self.denum * rhs.denum;
        proof {
            ridotta_in_i32(num as int, denum as int);
        }
        Razionali::minterm(num, denum)
    }
}

impl vstd::std_specs::ops::MulSpecImpl for Razionali {
    open spec fn obeys_mul_spec() -> bool {
        true
    }

    open spec fn mul_req(self, rhs: Razionali) -> bool {
        prodotto_calcolabile(self@, rhs@)
    }

    closed spec fn mul_spec(self, rhs: Razionali) -> Razionali {
        Razionali {
            num: ridotta(self.num * rhs.num, self.denum * rhs.denum).0 as i32,
            denum: ridotta(self.num * rhs.num, self.denum * rhs.denum).1 as i32,
        }
    }
}

/// What `*` gives on two fractions: their product in lowest terms.
pub proof fn prodotto_operatore(x: Razionali, y: Razionali)
    requires
        prodotto_calcolabile(x@, y@),
    ensures
        MulSpec::<Razionali>::mul_spec(x, y)@ == ridotta(
            prodotto_grezzo(x@, y@).0,
            prodotto_grezzo(x@, y@).1,
        ),
{
    ridotta_in_i32(prodotto_grezzo(x@, y@).0, prodotto_grezzo(x@, y@).1);
}

impl core::ops::Mul<i32> for Razionali {
    type Output = Razionali;

    /// The product of a fraction and an integer. The result is not reduced.
    fn mul(self, rhs: i32) -> (r: Razionali) {
        Razionali::new(self.num * rhs, self.denum)
    }
}

impl vstd::std_specs::ops::MulSpecImpl<i32> for Razionali {
    open spec fn obeys_mul_spec() -> bool {
        true
    }

    open spec fn mul_req(self, rhs: i32) -> bool {
        i32::MIN <= self@.0 * rhs <= i32::MAX
    }

    closed spec fn mul_spec(self, rhs: i32) -> Razionali {
        Razionali { num: (self.num * rhs) as i32, denum: self.denum }
    }
}

/// What `*` gives on a fraction and an integer: `a/b * n = (a*n) / b`.
pub proof fn prodotto_intero_operatore(x: Razionali, n: i32)
    requires
        i32::MIN <= x@.0 * n <= i32::MAX,
    ensures
        MulSpec::<i32>::mul_spec(x, n)@ == (x@.0 * n, x@.1),
{
}

} // verus!
