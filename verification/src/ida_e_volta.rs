//! Reading and writing agree: a plain decimal amount, read and written
//! again, comes back in its canonical form.

use crate::decimal::{
    analisar, caractere_digito, centavos_da_fracao, digitos_de, escrever, lema_posicao_ponto,
    posicao_ponto, quociente_truncado, resto_absoluto, ErroParse,
};
use crate::texto::{
    aparar, comprimento_utf8, inteiro_i64, lema_aparar_mantem, lema_comprimento_minimo,
    lema_valor_nao_negativo, so_digitos, valor_digitos,
};
use vstd::prelude::*;

verus! {

/// Whether the amount in `s` is written with a leading `-`.
pub open spec fn tem_sinal(s: Seq<char>) -> bool {
    let t = aparar(s);
    t.len() > 0 && t[0] == '-'
}

/// The amount in `s` without white space around it and without its sign.
pub open spec fn corpo(s: Seq<char>) -> Seq<char> {
    if tem_sinal(s) {
        aparar(s).skip(1)
    } else {
        aparar(s)
    }
}

/// What stands before the decimal point, or all of the amount where there
/// is no point.
pub open spec fn parte_inteira(s: Seq<char>) -> Seq<char> {
    corpo(s).take(posicao_ponto(corpo(s), 0))
}

/// What stands after the decimal point; nothing where there is no point.
pub open spec fn parte_fracionaria(s: Seq<char>) -> Seq<char> {
    let p = posicao_ponto(corpo(s), 0);
    if p < corpo(s).len() {
        corpo(s).skip(p + 1)
    } else {
        Seq::empty()
    }
}

/// Whether `s` is a plain decimal amount: an optional `-`, one or more
/// digits and, optionally, a point followed by at most two digits, with
/// white space allowed around the whole.
pub open spec fn decimal_simples(s: Seq<char>) -> bool {
    &&& parte_inteira(s).len() > 0
    &&& so_digitos(parte_inteira(s))
    &&& parte_fracionaria(s).len() <= 2
    &&& so_digitos(parte_fracionaria(s))
}

/// Whether `d` holds no character but `0`.
pub open spec fn so_zeros(d: Seq<char>) -> bool {
    forall|i: int| 0 <= i < d.len() ==> #[trigger] d[i] == '0'
}

/// `d` without its leading zeros, down to one digit at least.
pub open spec fn sem_zeros_a_esquerda(d: Seq<char>) -> Seq<char>
    decreases d.len(),
{
    if d.len() > 1 && d[0] == '0' {
        sem_zeros_a_esquerda(d.skip(1))
    } else {
        d
    }
}

/// The places `f` after the point, filled with zeros up to two.
pub open spec fn duas_casas(f: Seq<char>) -> Seq<char> {
    if f.len() == 0 {
        seq!['0', '0']
    } else if f.len() == 1 {
        seq![f[0], '0']
    } else {
        f
    }
}

/// The count of hundredths that the plain decimal amount `s` denotes.
pub open spec fn valor_decimal(s: Seq<char>) -> int {
    let m = 100 * valor_digitos(parte_inteira(s)) + valor_digitos(
        duas_casas(parte_fracionaria(s)),
    );
    if tem_sinal(s) {
        -m
    } else {
        m
    }
}

/// The canonical form of the plain decimal amount `s`: a `-` where the
/// amount is below zero, the digits before the point without leading zeros,
/// the point, and two places.
pub open spec fn forma_canonica(s: Seq<char>) -> Seq<char> {
    let sinal = if tem_sinal(s) && !(so_zeros(parte_inteira(s)) && so_zeros(parte_fracionaria(s))) {
        seq!['-']
    } else {
        Seq::empty()
    };
    sinal + sem_zeros_a_esquerda(parte_inteira(s)) + seq!['.'] + duas_casas(parte_fracionaria(s))
}

/// Whether writing the amount in `s` loses its sign: an amount below zero
/// and above minus one unit is written from a zero that carries no sign.
pub open spec fn sinal_perdido(s: Seq<char>) -> bool {
    tem_sinal(s) && so_zeros(parte_inteira(s)) && !so_zeros(parte_fracionaria(s))
}

/// Digits take one byte each.
pub proof fn lema_digitos_um_byte(d: Seq<char>)
    requires
        so_digitos(d),
    ensures
        comprimento_utf8(d) == d.len(),
    decreases d.len(),
{
    if d.len() > 0 {
        lema_digitos_um_byte(d.drop_first());
    }
}

/// Digits write zero exactly when all of them are `0`.
pub proof fn lema_valor_zero(d: Seq<char>)
    requires
        so_digitos(d),
    ensures
        valor_digitos(d) == 0 <==> so_zeros(d),
    decreases d.len(),
{
    if d.len() > 0 {
        let p = d.drop_last();
        lema_valor_zero(p);
        if valor_digitos(d) == 0 {
            assert forall|i: int| 0 <= i < d.len() implies #[trigger] d[i] == '0' by {
                if i < p.len() {
                    assert(p[i] == d[i]);
                }
            }
        }
    }
}

/// A leading zero does not change the number written.
pub proof fn lema_zero_a_esquerda(d: Seq<char>)
    requires
        so_digitos(d),
        d.len() >= 2,
        d[0] == '0',
    ensures
        valor_digitos(d) == valor_digitos(d.skip(1)),
    decreases d.len(),
{
    let p = d.drop_last();
    assert(d.skip(1).drop_last() == p.skip(1));
    if p.len() >= 2 {
        lema_zero_a_esquerda(p);
    } else {
        reveal_with_fuel(valor_digitos, 2);
    }
}

/// Digits that do not start with `0` are the digits of the number they
/// write.
pub proof fn lema_sem_zero_inicial(d: Seq<char>)
    requires
        so_digitos(d),
        d.len() >= 1,
        d[0] != '0',
    ensures
        valor_digitos(d) >= 1,
        digitos_de(valor_digitos(d)) == d,
    decreases d.len(),
{
    let p = d.drop_last();
    if p.len() == 0 {
        assert(valor_digitos(p) == 0);
    } else {
        lema_sem_zero_inicial(p);
        let v = valor_digitos(p);
    }
}

/// The digits of the number that `d` writes are `d` without its leading
/// zeros.
pub proof fn lema_digitos_do_valor(d: Seq<char>)
    requires
        so_digitos(d),
        d.len() >= 1,
    ensures
        digitos_de(valor_digitos(d)) == sem_zeros_a_esquerda(d),
    decreases d.len(),
{
    if d.len() > 1 && d[0] == '0' {
        lema_zero_a_esquerda(d);
        lema_digitos_do_valor(d.skip(1));
    } else if d[0] != '0' {
        lema_sem_zero_inicial(d);
    } else {
        assert(valor_digitos(d.drop_last()) == 0);
    }
}

/// Two places write less than a hundred, and are written back as they are.
pub proof fn lema_duas_casas(f: Seq<char>)
    requires
        so_digitos(f),
        f.len() <= 2,
    ensures
        so_digitos(duas_casas(f)),
        0 <= valor_digitos(duas_casas(f)) <= 99,
        duas_casas(f) == seq![
            caractere_digito(valor_digitos(duas_casas(f)) / 10),
            caractere_digito(valor_digitos(duas_casas(f)) % 10),
        ],
        centavos_da_fracao(f) == Ok::<int, ErroParse>(valor_digitos(duas_casas(f))),
        valor_digitos(duas_casas(f)) == 0 <==> so_zeros(f),
{
    reveal_with_fuel(valor_digitos, 3);
    lema_digitos_um_byte(f);
}

/// Reading accepts every plain decimal amount that fits 64 signed bits, and
/// refuses one that does not: as an invalid integer part where the amount
/// has a point, and as an invalid number where it has none.
pub proof fn lema_decimal_simples_lido(s: Seq<char>)
    requires
        decimal_simples(s),
    ensures
        i64::MIN <= valor_decimal(s) <= i64::MAX ==> analisar(s) == Ok::<i64, ErroParse>(
            valor_decimal(s) as i64,
        ),
        !(i64::MIN <= valor_decimal(s) <= i64::MAX) ==> analisar(s) == Err::<i64, ErroParse>(
            if posicao_ponto(corpo(s), 0) < corpo(s).len() {
                ErroParse::ParteInteiraInvalida
            } else {
                ErroParse::NumeroInvalido
            },
        ),
{
    let c = corpo(s);
    let p = posicao_ponto(c, 0);
    let d = parte_inteira(s);
    let f = parte_fracionaria(s);
    lema_posicao_ponto(c, 0);
    lema_duas_casas(f);
    if p >= c.len() {
        assert(d == c);
    }
}

/// Writing an amount gives the canonical form of any plain decimal amount
/// that denotes it, unless the sign is lost.
pub proof fn lema_escrita_canonica(s: Seq<char>)
    requires
        decimal_simples(s),
        !sinal_perdido(s),
    ensures
        escrever(valor_decimal(s)) == forma_canonica(s),
{
    let d = parte_inteira(s);
    let f = parte_fracionaria(s);
    let r = valor_digitos(d);
    lema_valor_nao_negativo(d);
    lema_valor_zero(d);
    lema_duas_casas(f);
    lema_digitos_do_valor(d);
    let v = valor_decimal(s);
    assert(quociente_truncado(v, 100) == if tem_sinal(s) {
        -r
    } else {
        r
    });
}

/// A plain decimal amount that fits 64 signed bits is read, and what was
/// read is written in the canonical form of the amount, unless the sign is
/// lost: `-0.5` is read as fifty hundredths below zero and written `0.50`.
pub proof fn lema_ida_e_volta(s: Seq<char>)
    requires
        decimal_simples(s),
        i64::MIN <= valor_decimal(s) <= i64::MAX,
        !sinal_perdido(s),
    ensures
        analisar(s) matches Ok(v) && escrever(v as int) == forma_canonica(s),
{
    lema_decimal_simples_lido(s);
    lema_escrita_canonica(s);
}

/// The digits of a number are digits, at least one, and write the number.
pub proof fn lema_digitos_de(n: int)
    requires
        0 <= n,
    ensures
        digitos_de(n).len() >= 1,
        so_digitos(digitos_de(n)),
        valor_digitos(digitos_de(n)) == n,
    decreases n,
{
    let d = digitos_de(n);
    if n < 10 {
        assert(valor_digitos(d.drop_last()) == 0);
    } else {
        lema_digitos_de(n / 10);
        let p = digitos_de(n / 10);
        assert(d.drop_last() =~= p);
    }
}

/// What was written is read back as the same amount, unless the sign was
/// lost in writing: an amount below zero and above minus one unit comes back
/// with the opposite sign.
pub proof fn lema_volta_e_ida(v: i64)
    ensures
        analisar(escrever(v as int)) == Ok::<i64, ErroParse>(
            if -100 < v < 0 {
                (-v) as i64
            } else {
                v
            },
        ),
{
    let q = quociente_truncado(v as int, 100);
    let c = resto_absoluto(v as int, 100);
    let n = if q < 0 {
        -q
    } else {
        q
    };
    let d = digitos_de(n);
    let casas = seq![caractere_digito(c / 10), caractere_digito(c % 10)];
    let e = escrever(v as int);
    lema_digitos_de(n);
    let corpo = d + seq!['.'] + casas;
    assert(e =~= if q < 0 {
        seq!['-'] + corpo
    } else {
        corpo
    });
    assert(e.first() == if q < 0 {
        '-'
    } else {
        d[0]
    });
    lema_aparar_mantem(e);
    assert(corpo =~= if q < 0 {
        e.skip(1)
    } else {
        e
    });
    // the point stands right after the digits
    lema_posicao_ponto(corpo, 0);
    let p = posicao_ponto(corpo, 0);
    assert(corpo[d.len() as int] == '.');
    assert(corpo.take(p) =~= d);
    assert(corpo.skip(p + 1) =~= casas);
    // the two places
    lema_digitos_um_byte(casas);
    reveal_with_fuel(valor_digitos, 3);
}

/// An amount with three characters or more after its decimal point is
/// refused: for its places, where what stands before the point is an
/// integer, and for that part where it is not.
pub proof fn lema_casas_demais(s: Seq<char>)
    requires
        posicao_ponto(corpo(s), 0) < corpo(s).len(),
        parte_fracionaria(s).len() >= 3,
    ensures
        analisar(s) == Err::<i64, ErroParse>(
            if inteiro_i64(parte_inteira(s)) is Some {
                ErroParse::CasasDecimaisDemais
            } else {
                ErroParse::ParteInteiraInvalida
            },
        ),
{
    lema_comprimento_minimo(parte_fracionaria(s));
}

} // verus!
