//! Decimal amounts as text: the grammar that turns a line of text into a
//! count of hundredths, and the canonical two-place writing of such a count.

use crate::texto::{
    aparar, bytes_ate_tres, caracteres, comprimento_utf8, inteiro_com_sinal, inteiro_i64,
    lema_comprimento_minimo, ler_inteiro, limites_aparados, valor_digitos,
};
use vstd::prelude::*;

verus! {

/// Why a text is not an amount.
#[derive(Debug, Clone, Copy, PartialEq, Eq, Structural)]
pub enum ErroParse {
    /// What stands before the decimal point is not an integer.
    ParteInteiraInvalida,
    /// What stands after the decimal point is not a number.
    ParteFracionariaInvalida,
    /// More than two places after the decimal point.
    CasasDecimaisDemais,
    /// A text without decimal point that is not an integer.
    NumeroInvalido,
}

impl ErroParse {
    /// The message that tells the error to the user.
    pub open spec fn texto_da_mensagem(self) -> Seq<char> {
        match self {
            ErroParse::ParteInteiraInvalida => "Invalid reais part"@,
            ErroParse::ParteFracionariaInvalida => "Invalid cents part"@,
            ErroParse::CasasDecimaisDemais => "Too many decimal places"@,
            ErroParse::NumeroInvalido => "Invalid number"@,
        }
    }

    /// The message that tells the error to the user.
    pub fn mensagem(&self) -> (m: &'static str)
        ensures
            m@ == self.texto_da_mensagem(),
    {
        match self {
            ErroParse::ParteInteiraInvalida => "Invalid reais part",
            ErroParse::ParteFracionariaInvalida => "Invalid cents part",
            ErroParse::CasasDecimaisDemais => "Too many decimal places",
            ErroParse::NumeroInvalido => "Invalid number",
        }
    }
}

/// Index of the first `.` at or after `i`, or the length of `s` when there
/// is none.
pub open spec fn posicao_ponto(s: Seq<char>, i: int) -> int
    decreases s.len() - i,
{
    if i < 0 || i >= s.len() {
        s.len() as int
    } else if s[i] == '.' {
        i
    } else {
        posicao_ponto(s, i + 1)
    }
}

/// The first `.` at or after `i` stands within `s`, at or after `i`, with
/// no other `.` between `i` and it.
pub proof fn lema_posicao_ponto(s: Seq<char>, i: int)
    requires
        0 <= i <= s.len(),
    ensures
        i <= posicao_ponto(s, i) <= s.len(),
        posicao_ponto(s, i) < s.len() ==> s[posicao_ponto(s, i)] == '.',
        forall|k: int| i <= k < posicao_ponto(s, i) ==> s[k] != '.',
    decreases s.len() - i,
{
    if i < s.len() && s[i] != '.' {
        lema_posicao_ponto(s, i + 1);
    }
}

/// The hundredths that the text after the decimal point stands for.
/// Nothing is zero, one place counts tenths, two places count hundredths;
/// the places are counted in bytes of UTF-8.
pub open spec fn centavos_da_fracao(f: Seq<char>) -> Result<int, ErroParse> {
    let n = comprimento_utf8(f);
    if n == 0 {
        Ok(0)
    } else if n == 1 {
        match inteiro_i64(f) {
            Some(d) => Ok(d * 10),
            None => Err(ErroParse::ParteFracionariaInvalida),
        }
    } else if n == 2 {
        match inteiro_i64(f) {
            Some(c) => Ok(c as int),
            None => Err(ErroParse::ParteFracionariaInvalida),
        }
    } else {
        Err(ErroParse::CasasDecimaisDemais)
    }
}

/// `total` with the sign applied, where the result fits 64 signed bits;
/// `erro` where it does not.
pub open spec fn com_sinal(negativo: bool, total: int, erro: ErroParse) -> Result<i64, ErroParse> {
    let v = if negativo {
        -total
    } else {
        total
    };
    if i64::MIN <= v <= i64::MAX {
        Ok(v as i64)
    } else {
        Err(erro)
    }
}

/// The count of hundredths that `texto` stands for.
///
/// White space at both ends is ignored and an empty text is zero. A leading
/// `-` negates the whole amount. What follows is an integer, or an integer,
/// a `.` and at most two places; the integer and the two places may carry a
/// sign of their own. An amount that does not fit 64 signed bits is reported
/// as an invalid integer.
pub open spec fn analisar(texto: Seq<char>) -> Result<i64, ErroParse> {
    let t = aparar(texto);
    if t.len() == 0 {
        Ok(0)
    } else {
        let negativo = t[0] == '-';
        let corpo = if negativo {
            t.skip(1)
        } else {
            t
        };
        let p = posicao_ponto(corpo, 0);
        if p < corpo.len() {
            match inteiro_i64(corpo.take(p)) {
                None => Err(ErroParse::ParteInteiraInvalida),
                Some(reais) => match centavos_da_fracao(corpo.skip(p + 1)) {
                    Err(e) => Err(e),
                    Ok(c) => com_sinal(negativo, reais * 100 + c, ErroParse::ParteInteiraInvalida),
                },
            }
        } else {
            match inteiro_i64(corpo) {
                None => Err(ErroParse::NumeroInvalido),
                Some(reais) => com_sinal(negativo, reais * 100, ErroParse::NumeroInvalido),
            }
        }
    }
}

/// The character that writes the decimal digit `d`.
pub open spec fn caractere_digito(d: int) -> char {
    (d + 0x30) as char
}

/// The decimal digits of `n`, most significant first, without leading zeros.
pub open spec fn digitos_de(n: int) -> Seq<char>
    decreases n,
{
    if n < 10 {
        seq![caractere_digito(n)]
    } else {
        digitos_de(n / 10).push(caractere_digito(n % 10))
    }
}

/// The decimal writing of `v`, with `-` in front of a negative number.
pub open spec fn inteiro_escrito(v: int) -> Seq<char> {
    if v < 0 {
        seq!['-'] + digitos_de(-v)
    } else {
        digitos_de(v)
    }
}

/// `v / d` rounded towards zero.
pub open spec fn quociente_truncado(v: int, d: int) -> int {
    if v >= 0 {
        v / d
    } else {
        -((-v) / d)
    }
}

/// The remainder of the magnitude of `v` by `d`.
pub open spec fn resto_absoluto(v: int, d: int) -> int {
    if v >= 0 {
        v % d
    } else {
        (-v) % d
    }
}

/// The two-place writing of `v` hundredths: the units, rounded towards
/// zero and with their sign, a `.`, and the hundredths left over, without
/// sign and on two digits. The sign is that of the units alone: an amount
/// below zero that has no unit is written from zero units, without sign.
pub open spec fn escrever(v: int) -> Seq<char> {
    let c = resto_absoluto(v, 100);
    inteiro_escrito(quociente_truncado(v, 100)) + seq![
        '.',
        caractere_digito(c / 10),
        caractere_digito(c % 10),
    ]
}

/// Index of the first `.` in `v[ini..fim]`, or `fim` when there is none.
fn achar_ponto(v: &Vec<char>, ini: usize, fim: usize) -> (p: usize)
    requires
        ini <= fim <= v.len(),
    ensures
        ini <= p <= fim,
        p - ini == posicao_ponto(v@.subrange(ini as int, fim as int), 0),
{
    let ghost s = v@.subrange(ini as int, fim as int);
    let mut p: usize = ini;
    while p < fim && v[p] != '.'
        invariant
            ini <= p <= fim <= v.len(),
            s == v@.subrange(ini as int, fim as int),
            posicao_ponto(s, 0) == posicao_ponto(s, p - ini),
        decreases fim - p,
    {
        p += 1;
    }
    p
}

/// `total` with the sign applied, where the result fits 64 signed bits.
fn aplicar_sinal(negativo: bool, total: i128, erro: ErroParse) -> (r: Result<i64, ErroParse>)
    requires
        -0x7fff_ffff_ffff_ffff_ffff <= total <= 0x7fff_ffff_ffff_ffff_ffff,
    ensures
        r == com_sinal(negativo, total as int, erro),
{
    let v: i128 = if negativo {
        -total
    } else {
        total
    };
    if v < i64::MIN as i128 || v > i64::MAX as i128 {
        Err(erro)
    } else {
        Ok(v as i64)
    }
}

/// Reads the text after the decimal point, `v[ini..fim]`, as hundredths.
fn ler_fracao(v: &Vec<char>, ini: usize, fim: usize) -> (r: Result<i64, ErroParse>)
    requires
        ini <= fim <= v.len(),
    ensures
        match centavos_da_fracao(v@.subrange(ini as int, fim as int)) {
            Ok(c) => r == Ok::<i64, ErroParse>(c as i64) && -100 < c < 100,
            Err(e) => r == Err::<i64, ErroParse>(e),
        },
{
    let ghost f = v@.subrange(ini as int, fim as int);
    let n = bytes_ate_tres(v, ini, fim);
    if n == 0 {
        Ok(0)
    } else if n == 1 {
        proof {
            lema_comprimento_minimo(f);
            lema_inteiro_curto(f);
        }
        match ler_inteiro(v, ini, fim) {
            Some(d) => Ok(d * 10),
            None => Err(ErroParse::ParteFracionariaInvalida),
        }
    } else if n == 2 {
        proof {
            lema_comprimento_minimo(f);
            lema_inteiro_curto(f);
        }
        match ler_inteiro(v, ini, fim) {
            Some(c) => Ok(c),
            None => Err(ErroParse::ParteFracionariaInvalida),
        }
    } else {
        Err(ErroParse::CasasDecimaisDemais)
    }
}

/// An integer written with one character is a digit; one written with two
/// is between -9 and 99.
pub proof fn lema_inteiro_curto(s: Seq<char>)
    requires
        s.len() <= 2,
    ensures
        inteiro_com_sinal(s) matches Some(v) ==> (s.len() == 1 ==> 0 <= v <= 9) && -9 <= v <= 99,
{
    reveal_with_fuel(valor_digitos, 3);
}

/// Reads the characters `v` as a count of hundredths.
pub fn ler_decimal_de(v: &Vec<char>) -> (r: Result<i64, ErroParse>)
    ensures
        r == analisar(v@),
{
    let (a, fim) = limites_aparados(v);
    if a == fim {
        return Ok(0);
    }
    let ghost t = v@.subrange(a as int, fim as int);
    let negativo = v[a] == '-';
    let ini = if negativo {
        a + 1
    } else {
        a
    };
    let ghost corpo = v@.subrange(ini as int, fim as int);
    assert(corpo == if negativo {
        t.skip(1)
    } else {
        t
    });
    let p = achar_ponto(v, ini, fim);
    if p < fim {
        assert(corpo.take(p - ini) == v@.subrange(ini as int, p as int));
        assert(corpo.skip(p - ini + 1) == v@.subrange(p + 1, fim as int));
        let reais = match ler_inteiro(v, ini, p) {
            Some(x) => x,
            None => {
                return Err(ErroParse::ParteInteiraInvalida);
            },
        };
        let centavos = match ler_fracao(v, p + 1, fim) {
            Ok(c) => c,
            Err(e) => {
                return Err(e);
            },
        };
        aplicar_sinal(
            negativo,
            reais as i128 * 100 + centavos as i128,
            ErroParse::ParteInteiraInvalida,
        )
    } else {
        match ler_inteiro(v, ini, fim) {
            Some(reais) => aplicar_sinal(negativo, reais as i128 * 100, ErroParse::NumeroInvalido),
            None => Err(ErroParse::NumeroInvalido),
        }
    }
}

/// Reads `s` as a count of hundredths.
pub fn ler_decimal(s: &str) -> (r: Result<i64, ErroParse>)
    ensures
        r == analisar(s@),
{
    let v = caracteres(s);
    ler_decimal_de(&v)
}

/// The text of one decimal digit.
fn texto_digito(d: u8) -> (r: &'static str)
    requires
        d <= 9,
    ensures
        r@ == seq![caractere_digito(d as int)],
{
    proof {
        reveal_strlit("0");
        reveal_strlit("1");
        reveal_strlit("2");
        reveal_strlit("3");
        reveal_strlit("4");
        reveal_strlit("5");
        reveal_strlit("6");
        reveal_strlit("7");
        reveal_strlit("8");
        reveal_strlit("9");
    }
    let r = match d {
        0 => "0",
        1 => "1",
        2 => "2",
        3 => "3",
        4 => "4",
        5 => "5",
        6 => "6",
        7 => "7",
        8 => "8",
        _ => "9",
    };
    r
}

/// Appends the decimal digits of `n` to `s`.
fn anexar_natural(n: u64, s: &mut String)
    ensures
        final(s)@ == old(s)@ + digitos_de(n as int),
    decreases n,
{
    if n >= 10 {
        anexar_natural(n / 10, s);
    }
    s.append(texto_digito((n % 10) as u8));
}

/// Writes `v` in decimal, with `-` in front of a negative number.
pub fn escrever_inteiro(v: i64) -> (r: String)
    ensures
        r@ == inteiro_escrito(v as int),
{
    let mut s = String::new();
    if v < 0 {
        proof {
            reveal_strlit("-");
        }
        s.append("-");
        let mag: u64 = if v == i64::MIN {
            9223372036854775808
        } else {
            (-v) as u64
        };
        anexar_natural(mag, &mut s);
    } else {
        anexar_natural(v as u64, &mut s);
    }
    s
}

/// Writes `v` hundredths with two decimal places.
pub fn escrever_decimal(v: i64) -> (r: String)
    ensures
        r@ == escrever(v as int),
{
    let mag: u64 = if v >= 0 {
        v as u64
    } else if v == i64::MIN {
        9223372036854775808
    } else {
        (-v) as u64
    };
    let q = mag / 100;
    let c = mag % 100;
    let mut s = String::new();
    if v < 0 && q > 0 {
        proof {
            reveal_strlit("-");
        }
        s.append("-");
    }
    anexar_natural(q, &mut s);
    proof {
        reveal_strlit(".");
    }
    s.append(".");
    s.append(texto_digito((c / 10) as u8));
    s.append(texto_digito((c % 10) as u8));
    s
}

} // verus!
