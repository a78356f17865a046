//! Text as sequences of characters: whitespace, decimal digits and the
//! integer syntax shared by every parser of the library.

use vstd::prelude::*;
use vstd::utf8::encode_utf8;

verus! {

/// Largest magnitude a 64-bit signed integer can have (that of `i64::MIN`).
pub const MAGNITUDE_MAXIMA: u64 = 9223372036854775808;

/// Whether `c` is white space: the characters of Unicode's `White_Space`
/// property, which are the ones trimmed from both ends of an input line.
pub open spec fn eh_espaco(c: char) -> bool {
    let u = c as u32;
    ||| 0x09 <= u <= 0x0D
    ||| u == 0x20
    ||| u == 0x85
    ||| u == 0xA0
    ||| u == 0x1680
    ||| 0x2000 <= u <= 0x200A
    ||| u == 0x2028
    ||| u == 0x2029
    ||| u == 0x202F
    ||| u == 0x205F
    ||| u == 0x3000
}

/// Index of the first character at or after `i` that is not white space,
/// or the length of `s` when there is none.
pub open spec fn primeiro_visivel(s: Seq<char>, i: int) -> int
    decreases s.len() - i,
{
    if i < 0 || i >= s.len() {
        s.len() as int
    } else if !eh_espaco(s[i]) {
        i
    } else {
        primeiro_visivel(s, i + 1)
    }
}

/// One past the index of the last character before `j` that is not white
/// space, or 0 when there is none.
pub open spec fn fim_visivel(s: Seq<char>, j: int) -> int
    decreases j,
{
    if j <= 0 || j > s.len() {
        0
    } else if !eh_espaco(s[j - 1]) {
        j
    } else {
        fim_visivel(s, j - 1)
    }
}

/// `s` without the white space at its two ends.
pub open spec fn aparar(s: Seq<char>) -> Seq<char> {
    let i = primeiro_visivel(s, 0);
    if i >= s.len() {
        Seq::empty()
    } else {
        s.subrange(i, fim_visivel(s, s.len() as int))
    }
}

/// The number of bytes that `s` takes in UTF-8, which is the length that a
/// string reports of itself.
pub open spec fn comprimento_utf8(s: Seq<char>) -> int {
    encode_utf8(s).len() as int
}

/// Whether `c` is one of the ten ASCII decimal digits.
pub open spec fn eh_digito(c: char) -> bool {
    '0' <= c <= '9'
}

/// The value of the decimal digit `c`.
pub open spec fn valor_digito(c: char) -> int {
    c as u32 - 0x30
}

/// Whether `s` is made of decimal digits only.
pub open spec fn so_digitos(s: Seq<char>) -> bool {
    forall|i: int| 0 <= i < s.len() ==> eh_digito(#[trigger] s[i])
}

/// The number that the decimal digits `s` write, most significant first.
pub open spec fn valor_digitos(s: Seq<char>) -> int
    decreases s.len(),
{
    if s.len() == 0 {
        0
    } else {
        10 * valor_digitos(s.drop_last()) + valor_digito(s.last())
    }
}

/// The integer that `s` writes: an optional `+` or `-`, then one or more
/// decimal digits and nothing else. No bound on the size.
pub open spec fn inteiro_com_sinal(s: Seq<char>) -> Option<int> {
    if s.len() > 0 && (s[0] == '-' || s[0] == '+') {
        let d = s.skip(1);
        if d.len() > 0 && so_digitos(d) {
            Some(
                if s[0] == '-' {
                    -valor_digitos(d)
                } else {
                    valor_digitos(d)
                },
            )
        } else {
            None
        }
    } else if s.len() > 0 && so_digitos(s) {
        Some(valor_digitos(s))
    } else {
        None
    }
}

/// The integer that `s` writes, where it fits 64 signed bits.
pub open spec fn inteiro_i64(s: Seq<char>) -> Option<i64> {
    match inteiro_com_sinal(s) {
        Some(v) => if i64::MIN <= v <= i64::MAX {
            Some(v as i64)
        } else {
            None
        },
        None => None,
    }
}

/// The integer that `s` writes, where it fits 32 signed bits.
pub open spec fn inteiro_i32(s: Seq<char>) -> Option<i32> {
    match inteiro_com_sinal(s) {
        Some(v) => if i32::MIN <= v <= i32::MAX {
            Some(v as i32)
        } else {
            None
        },
        None => None,
    }
}

/// The integer that `s` writes, where it fits 32 unsigned bits. A `+` may
/// stand in front of the digits, a `-` may not, not even in front of zero.
pub open spec fn inteiro_u32(s: Seq<char>) -> Option<u32> {
    if s.len() > 0 && s[0] == '-' {
        None
    } else {
        match inteiro_com_sinal(s) {
            Some(v) => if 0 <= v <= u32::MAX {
                Some(v as u32)
            } else {
                None
            },
            None => None,
        }
    }
}

/// The number that the digits `s` write, where `s` is not empty, holds
/// digits only and the number is at most `MAGNITUDE_MAXIMA`.
pub open spec fn magnitude(s: Seq<char>) -> Option<u64> {
    if s.len() > 0 && so_digitos(s) && valor_digitos(s) <= MAGNITUDE_MAXIMA {
        Some(valor_digitos(s) as u64)
    } else {
        None
    }
}

/// Whether `s` holds nothing but white space.
pub open spec fn so_espacos(s: Seq<char>) -> bool {
    forall|i: int| 0 <= i < s.len() ==> eh_espaco(#[trigger] s[i])
}

/// From `i` to the first character that is not white space there is
/// nothing but white space.
pub proof fn lema_primeiro_visivel(s: Seq<char>, i: int)
    requires
        0 <= i <= s.len(),
    ensures
        i <= primeiro_visivel(s, i) <= s.len(),
        primeiro_visivel(s, i) < s.len() ==> !eh_espaco(s[primeiro_visivel(s, i)]),
        forall|k: int| i <= k < primeiro_visivel(s, i) ==> eh_espaco(#[trigger] s[k]),
    decreases s.len() - i,
{
    if i < s.len() && eh_espaco(s[i]) {
        lema_primeiro_visivel(s, i + 1);
    }
}

/// From the last character that is not white space to `j` there is nothing
/// but white space.
pub proof fn lema_fim_visivel(s: Seq<char>, j: int)
    requires
        0 <= j <= s.len(),
    ensures
        0 <= fim_visivel(s, j) <= j,
        fim_visivel(s, j) > 0 ==> !eh_espaco(s[fim_visivel(s, j) - 1]),
        forall|k: int| fim_visivel(s, j) <= k < j ==> eh_espaco(#[trigger] s[k]),
    decreases j,
{
    if j > 0 && eh_espaco(s[j - 1]) {
        lema_fim_visivel(s, j - 1);
    }
}

/// Trimming takes white space away from both ends and nothing else: `s` is
/// white space, then `aparar(s)`, then white space, and `aparar(s)` neither
/// starts nor ends with white space.
pub proof fn lema_aparar(s: Seq<char>)
    ensures
        aparar(s).len() == 0 <==> so_espacos(s),
        aparar(s).len() > 0 ==> !eh_espaco(aparar(s).first()) && !eh_espaco(aparar(s).last()),
        ({
            let i = primeiro_visivel(s, 0);
            let j = if aparar(s).len() > 0 {
                fim_visivel(s, s.len() as int)
            } else {
                i
            };
            &&& 0 <= i <= j <= s.len()
            &&& so_espacos(s.take(i))
            &&& so_espacos(s.skip(j))
            &&& s == s.take(i) + aparar(s) + s.skip(j)
        }),
{
    lema_primeiro_visivel(s, 0);
    lema_fim_visivel(s, s.len() as int);
}

/// A text that neither starts nor ends with white space is left as it is.
pub proof fn lema_aparar_mantem(s: Seq<char>)
    requires
        s.len() > 0,
        !eh_espaco(s.first()),
        !eh_espaco(s.last()),
    ensures
        aparar(s) == s,
{
}

/// Digits write a number that is not negative.
pub proof fn lema_valor_nao_negativo(s: Seq<char>)
    requires
        so_digitos(s),
    ensures
        valor_digitos(s) >= 0,
    decreases s.len(),
{
    if s.len() > 0 {
        lema_valor_nao_negativo(s.drop_last());
    }
}

/// A prefix of a run of digits writes a number no larger than the whole run.
pub proof fn lema_prefixo_nao_maior(s: Seq<char>, k: int)
    requires
        so_digitos(s),
        0 <= k <= s.len(),
    ensures
        0 <= valor_digitos(s.take(k)) <= valor_digitos(s),
    decreases s.len(),
{
    lema_valor_nao_negativo(s.take(k));
    if k < s.len() {
        lema_prefixo_nao_maior(s.drop_last(), k);
        assert(s.drop_last().take(k) == s.take(k));
    } else {
        assert(s.take(k) == s);
    }
}

/// Every character takes at least one byte.
pub proof fn lema_comprimento_minimo(s: Seq<char>)
    ensures
        comprimento_utf8(s) >= s.len(),
    decreases s.len(),
{
    if s.len() > 0 {
        lema_comprimento_minimo(s.drop_first());
    }
}

/// Whether `c` is white space.
pub fn espaco(c: char) -> (r: bool)
    ensures
        r == eh_espaco(c),
{
    let u: u32 = c as u32;
    (0x09 <= u && u <= 0x0D) || u == 0x20 || u == 0x85 || u == 0xA0 || u == 0x1680 || (0x2000 <= u
        && u <= 0x200A) || u == 0x2028 || u == 0x2029 || u == 0x202F || u == 0x205F || u == 0x3000
}

/// The value of `c` as a decimal digit, if it is one.
pub fn digito(c: char) -> (r: Option<u8>)
    ensures
        r is Some <==> eh_digito(c),
        r matches Some(d) ==> d == valor_digito(c) && d <= 9,
{
    let u: u32 = c as u32;
    if 0x30 <= u && u <= 0x39 {
        Some((u - 0x30) as u8)
    } else {
        None
    }
}

/// The characters of `s`, in order.
pub fn caracteres(s: &str) -> (v: Vec<char>)
    ensures
        v@ == s@,
{
    let mut v: Vec<char> = Vec::new();
    for c in it: s.chars()
        invariant
            it.seq() == s@,
            v@ == s@.take(it.index() as int),
    {
        v.push(c);
    }
    v
}

/// The bounds of `v` without the white space at its two ends: the trimmed
/// text is `v[ini..fim]`.
pub fn limites_aparados(v: &Vec<char>) -> (r: (usize, usize))
    ensures
        r.0 <= r.1 <= v.len(),
        v@.subrange(r.0 as int, r.1 as int) == aparar(v@),
{
    let n = v.len();
    let mut ini: usize = 0;
    while ini < n && espaco(v[ini])
        invariant
            n == v.len(),
            ini <= n,
            primeiro_visivel(v@, 0) == primeiro_visivel(v@, ini as int),
        decreases n - ini,
    {
        ini += 1;
    }
    if ini == n {
        return (n, n);
    }
    let mut fim: usize = n;
    while espaco(v[fim - 1])
        invariant
            n == v.len(),
            !eh_espaco(v@[ini as int]),
            ini < fim <= n,
            primeiro_visivel(v@, 0) == ini,
            fim_visivel(v@, n as int) == fim_visivel(v@, fim as int),
        decreases fim,
    {
        fim -= 1;
    }
    (ini, fim)
}

/// The number of bytes that `v[ini..fim]` takes in UTF-8, counted up to 3:
/// 3 stands for three bytes or more.
pub fn bytes_ate_tres(v: &Vec<char>, ini: usize, fim: usize) -> (n: usize)
    requires
        ini <= fim <= v.len(),
    ensures
        n <= 3,
        n < 3 ==> n == comprimento_utf8(v@.subrange(ini as int, fim as int)),
        n == 3 ==> comprimento_utf8(v@.subrange(ini as int, fim as int)) >= 3,
{
    proof {
        reveal_with_fuel(encode_utf8, 3);
    }
    let chars = fim - ini;
    if chars == 0 {
        0
    } else if chars == 1 {
        let u: u32 = v[ini] as u32;
        if u < 0x80 {
            1
        } else if u < 0x800 {
            2
        } else {
            3
        }
    } else if chars == 2 {
        let a: u32 = v[ini] as u32;
        let b: u32 = v[ini + 1] as u32;
        if a < 0x80 && b < 0x80 {
            2
        } else {
            3
        }
    } else {
        3
    }
}

/// Reads the digits `v[ini..fim]` as a number of at most `MAGNITUDE_MAXIMA`.
pub fn ler_digitos(v: &Vec<char>, ini: usize, fim: usize) -> (r: Option<u64>)
    requires
        ini <= fim <= v.len(),
    ensures
        r == magnitude(v@.subrange(ini as int, fim as int)),
{
    let ghost s = v@.subrange(ini as int, fim as int);
    if ini == fim {
        return None;
    }
    let mut acc: u64 = 0;
    let mut i: usize = ini;
    while i < fim
        invariant
            ini <= i <= fim <= v.len(),
            s == v@.subrange(ini as int, fim as int),
            so_digitos(s.take(i - ini)),
            acc == valor_digitos(s.take(i - ini)),
            acc <= MAGNITUDE_MAXIMA,
        decreases fim - i,
    {
        let ghost antes = s.take(i - ini);
        let ghost depois = s.take(i - ini + 1);
        proof {
            assert(depois.drop_last() == antes);
            assert(depois.last() == v@[i as int]);
        }
        match digito(v[i]) {
            None => {
                return None;
            },
            Some(d) => {
                if acc > (MAGNITUDE_MAXIMA - d as u64) / 10 {
                    proof {
                        if so_digitos(s) {
                            lema_prefixo_nao_maior(s, i - ini + 1);
                        }
                    }
                    return None;
                }
                acc = acc * 10 + d as u64;
            },
        }
        i += 1;
    }
    proof {
        assert(s.take(fim - ini) == s);
    }
    Some(acc)
}

/// Reads `v[ini..fim]` as a 64-bit signed integer: an optional sign, then
/// digits.
pub fn ler_inteiro(v: &Vec<char>, ini: usize, fim: usize) -> (r: Option<i64>)
    requires
        ini <= fim <= v.len(),
    ensures
        r == inteiro_i64(v@.subrange(ini as int, fim as int)),
{
    let ghost s = v@.subrange(ini as int, fim as int);
    if ini == fim {
        return None;
    }
    let c = v[ini];
    if c == '-' || c == '+' {
        proof {
            assert(s.skip(1) == v@.subrange(ini + 1, fim as int));
            if so_digitos(s.skip(1)) {
                lema_valor_nao_negativo(s.skip(1));
            }
        }
        match ler_digitos(v, ini + 1, fim) {
            None => None,
            Some(m) => {
                if c == '-' {
                    if m == MAGNITUDE_MAXIMA {
                        Some(i64::MIN)
                    } else {
                        Some(-(m as i64))
                    }
                } else if m == MAGNITUDE_MAXIMA {
                    None
                } else {
                    Some(m as i64)
                }
            },
        }
    } else {
        proof {
            if so_digitos(s) {
                lema_valor_nao_negativo(s);
            }
        }
        match ler_digitos(v, ini, fim) {
            None => None,
            Some(m) => if m == MAGNITUDE_MAXIMA {
                None
            } else {
                Some(m as i64)
            },
        }
    }
}

/// Reads `v[ini..fim]` as a 32-bit signed integer: an optional sign, then
/// digits.
pub fn ler_i32(v: &Vec<char>, ini: usize, fim: usize) -> (r: Option<i32>)
    requires
        ini <= fim <= v.len(),
    ensures
        r == inteiro_i32(v@.subrange(ini as int, fim as int)),
{
    match ler_inteiro(v, ini, fim) {
        Some(x) => if x < i32::MIN as i64 || x > i32::MAX as i64 {
            None
        } else {
            Some(x as i32)
        },
        None => None,
    }
}

/// Reads `v[ini..fim]` as a 32-bit unsigned integer: an optional `+`, then
/// digits.
pub fn ler_u32(v: &Vec<char>, ini: usize, fim: usize) -> (r: Option<u32>)
    requires
        ini <= fim <= v.len(),
    ensures
        r == inteiro_u32(v@.subrange(ini as int, fim as int)),
{
    let ghost s = v@.subrange(ini as int, fim as int);
    if ini < fim && v[ini] == '-' {
        return None;
    }
    proof {
        if ini < fim {
            if s[0] == '+' {
                if so_digitos(s.skip(1)) {
                    lema_valor_nao_negativo(s.skip(1));
                }
            } else if so_digitos(s) {
                lema_valor_nao_negativo(s);
            }
        }
    }
    match ler_inteiro(v, ini, fim) {
        Some(x) => if x > u32::MAX as i64 {
            None
        } else {
            Some(x as u32)
        },
        None => None,
    }
}

} // verus!
