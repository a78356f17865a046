//! Fixed-point currency amounts, stored as a signed count of centavos.

use crate::decimal::{analisar, escrever, escrever_decimal, ler_decimal, ErroParse};
use core::cmp::Ordering;
use vstd::prelude::*;
use vstd::std_specs::cmp::{PartialOrdSpec, PartialOrdSpecImpl};
use vstd::std_specs::ops::{AddSpecImpl, MulSpecImpl, SubSpecImpl};

verus! {

/// An amount of money, held as a whole number of centavos (1/100 of a real).
///
/// Amounts are equal, and ordered, as their counts of centavos are.
#[derive(Debug, Clone, Copy, PartialEq, Eq, Structural, Ord)]
pub struct Money(i64);

impl View for Money {
    type V = int;

    /// The amount in centavos.
    closed spec fn view(&self) -> int {
        self.0 as int
    }
}

/// What `Money::parse` returns for a text whose reading is `lido`.
pub open spec fn resultado_parse(
    lido: Result<i64, ErroParse>,
    r: Result<Money, ErroParse>,
) -> bool {
    match lido {
        Ok(c) => r matches Ok(m) && m@ == c,
        Err(e) => r == Err::<Money, ErroParse>(e),
    }
}

impl Money {
    /// The amount with `c` centavos.
    pub closed spec fn de_centavos(c: int) -> Money {
        Money(c as i64)
    }

    /// Every amount fits the 64-bit signed range.
    pub proof fn lema_limites(self)
        ensures
            i64::MIN <= self@ <= i64::MAX,
    {
    }

    /// Two amounts with the same count of centavos are the same amount.
    pub proof fn lema_igualdade(self, outro: Money)
        ensures
            (self@ == outro@) <==> (self == outro),
    {
    }

    /// `de_centavos` and the view are inverse to each other.
    pub proof fn lema_de_centavos(c: int)
        requires
            i64::MIN <= c <= i64::MAX,
        ensures
            Money::de_centavos(c)@ == c,
    {
    }

    /// Amounts are in a total order, that of their centavos: any two are
    /// comparable, two that are each no more than the other are equal, and
    /// the order carries over from pair to pair.
    pub proof fn lema_ordem_total(a: Money, b: Money, c: Money)
        ensures
            PartialOrdSpec::partial_cmp_spec(&a, &b) is Some,
            PartialOrdSpec::partial_cmp_spec(&a, &b) == Some(Ordering::Equal) <==> a == b,
            PartialOrdSpec::partial_cmp_spec(&a, &b) == Some(Ordering::Less)
                <==> PartialOrdSpec::partial_cmp_spec(&b, &a) == Some(Ordering::Greater),
            PartialOrdSpec::partial_cmp_spec(&a, &b) == Some(Ordering::Less)
                && PartialOrdSpec::partial_cmp_spec(&b, &c) == Some(Ordering::Less)
                ==> PartialOrdSpec::partial_cmp_spec(&a, &c) == Some(Ordering::Less),
    {
    }

    /// The amount of zero centavos.
    pub fn zero() -> (m: Money)
        ensures
            m@ == 0,
    {
        Money(0)
    }

    /// An amount of whole reais.
    pub fn from_reais(reais: i64) -> (m: Money)
        requires
            i64::MIN <= reais * 100 <= i64::MAX,
        ensures
            m@ == reais * 100,
    {
        Money(reais * 100)
    }

    /// An amount given directly in centavos.
    pub fn from_centavos(centavos: i64) -> (m: Money)
        ensures
            m@ == centavos,
    {
        Money(centavos)
    }

    /// The amount in centavos.
    pub fn to_centavos(self) -> (c: i64)
        ensures
            c == self@,
    {
        self.0
    }

    /// Reads an amount written in decimal, with at most two places after
    /// the point. White space around it is ignored and an empty text is
    /// zero; `analisar` gives the grammar and each error.
    pub fn parse(s: &str) -> (r: Result<Money, ErroParse>)
        ensures
            resultado_parse(analisar(s@), r),
    {
        match ler_decimal(s) {
            Ok(c) => Ok(Money(c)),
            Err(e) => Err(e),
        }
    }

    /// The amount written as reais, a point and two digits of centavos. A
    /// `-` stands in front of reais below zero; `escrever` gives every
    /// character.
    pub fn to_string(&self) -> (s: String)
        ensures
            s@ == escrever(self@),
    {
        escrever_decimal(self.0)
    }
}

impl core::ops::Add for Money {
    type Output = Money;

    fn add(self, outro: Money) -> (r: Money)
        ensures
            r@ == self@ + outro@,
    {
        Money(self.0 + outro.0)
    }
}

impl AddSpecImpl for Money {
    open spec fn obeys_add_spec() -> bool {
        true
    }

    /// The sum has to fit 64 signed bits.
    open spec fn add_req(self, outro: Money) -> bool {
        i64::MIN <= self@ + outro@ <= i64::MAX
    }

    open spec fn add_spec(self, outro: Money) -> Money {
        Money::de_centavos(self@ + outro@)
    }
}

impl core::ops::Sub for Money {
    type Output = Money;

    fn sub(self, outro: Money) -> (r: Money)
        ensures
            r@ == self@ - outro@,
    {
        Money(self.0 - outro.0)
    }
}

impl SubSpecImpl for Money {
    open spec fn obeys_sub_spec() -> bool {
        true
    }

    /// The difference has to fit 64 signed bits.
    open spec fn sub_req(self, outro: Money) -> bool {
        i64::MIN <= self@ - outro@ <= i64::MAX
    }

    open spec fn sub_spec(self, outro: Money) -> Money {
        Money::de_centavos(self@ - outro@)
    }
}

impl core::ops::Mul<i32> for Money {
    type Output = Money;

    fn mul(self, vezes: i32) -> (r: Money)
        ensures
            r@ == self@ * vezes,
    {
        Money(self.0 * (vezes as i64))
    }
}

impl MulSpecImpl<i32> for Money {
    open spec fn obeys_mul_spec() -> bool {
        true
    }

    /// The product has to fit 64 signed bits.
    open spec fn mul_req(self, vezes: i32) -> bool {
        i64::MIN <= self@ * vezes <= i64::MAX
    }

    open spec fn mul_spec(self, vezes: i32) -> Money {
        Money::de_centavos(self@ * vezes)
    }
}

impl PartialOrd for Money {
    fn partial_cmp(&self, outro: &Money) -> (r: Option<Ordering>) {
        if self.0 < outro.0 {
            Some(Ordering::Less)
        } else if self.0 == outro.0 {
            Some(Ordering::Equal)
        } else {
            Some(Ordering::Greater)
        }
    }
}

impl PartialOrdSpecImpl for Money {
    open spec fn obeys_partial_cmp_spec() -> bool {
        true
    }

    /// Amounts are ordered by their centavos.
    open spec fn partial_cmp_spec(&self, outro: &Money) -> Option<Ordering> {
        if self@ < outro@ {
            Some(Ordering::Less)
        } else if self@ == outro@ {
            Some(Ordering::Equal)
        } else {
            Some(Ordering::Greater)
        }
    }
}

} // verus!
