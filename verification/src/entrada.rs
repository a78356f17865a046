//! What a line typed by the user stands for: an integer, a month, a year or
//! a number of holidays. Reading the line and asking again is the caller's
//! part; what is accepted, and why a line is refused, is decided here.

use crate::dias_uteis::{ANO_MAXIMO, ANO_MINIMO};
use crate::texto::{
    aparar, caracteres, inteiro_i32, inteiro_u32, ler_i32, ler_u32, limites_aparados,
};
use vstd::prelude::*;

verus! {

/// Why a line is refused.
#[derive(Debug, Clone, Copy, PartialEq, Eq, Structural)]
pub enum ErroEntrada {
    /// The line is not a number of the kind asked for.
    NumeroInvalido,
    /// The number is not among those allowed.
    ForaDoIntervalo,
}

/// The integer that a line stands for, white space around it ignored.
pub open spec fn inteiro_lido(linha: Seq<char>) -> Result<i32, ErroEntrada> {
    match inteiro_i32(aparar(linha)) {
        Some(v) => Ok(v),
        None => Err(ErroEntrada::NumeroInvalido),
    }
}

/// The month that a line stands for: a number from 1 to 12.
pub open spec fn mes_lido(linha: Seq<char>) -> Result<u32, ErroEntrada> {
    match inteiro_u32(aparar(linha)) {
        Some(m) => if 1 <= m <= 12 {
            Ok(m)
        } else {
            Err(ErroEntrada::ForaDoIntervalo)
        },
        None => Err(ErroEntrada::NumeroInvalido),
    }
}

/// The year that a line stands for: a number from `ANO_MINIMO` to
/// `ANO_MAXIMO`.
pub open spec fn ano_lido(linha: Seq<char>) -> Result<i32, ErroEntrada> {
    match inteiro_i32(aparar(linha)) {
        Some(a) => if ANO_MINIMO <= a <= ANO_MAXIMO {
            Ok(a)
        } else {
            Err(ErroEntrada::ForaDoIntervalo)
        },
        None => Err(ErroEntrada::NumeroInvalido),
    }
}

/// The number of holidays that a line stands for: a number that is not
/// negative.
pub open spec fn feriados_lidos(linha: Seq<char>) -> Result<i32, ErroEntrada> {
    match inteiro_i32(aparar(linha)) {
        Some(f) => if f >= 0 {
            Ok(f)
        } else {
            Err(ErroEntrada::ForaDoIntervalo)
        },
        None => Err(ErroEntrada::NumeroInvalido),
    }
}

/// Reads a line as an integer.
pub fn interpretar_inteiro(linha: &str) -> (r: Result<i32, ErroEntrada>)
    ensures
        r == inteiro_lido(linha@),
{
    let v = caracteres(linha);
    let (ini, fim) = limites_aparados(&v);
    match ler_i32(&v, ini, fim) {
        Some(x) => Ok(x),
        None => Err(ErroEntrada::NumeroInvalido),
    }
}

/// Reads a line as a month.
pub fn interpretar_mes(linha: &str) -> (r: Result<u32, ErroEntrada>)
    ensures
        r == mes_lido(linha@),
{
    let v = caracteres(linha);
    let (ini, fim) = limites_aparados(&v);
    match ler_u32(&v, ini, fim) {
        Some(mes) => if mes >= 1 && mes <= 12 {
            Ok(mes)
        } else {
            Err(ErroEntrada::ForaDoIntervalo)
        },
        None => Err(ErroEntrada::NumeroInvalido),
    }
}

/// Reads a line as a year.
pub fn interpretar_ano(linha: &str) -> (r: Result<i32, ErroEntrada>)
    ensures
        r == ano_lido(linha@),
{
    let v = caracteres(linha);
    let (ini, fim) = limites_aparados(&v);
    match ler_i32(&v, ini, fim) {
        Some(ano) => if ano >= ANO_MINIMO && ano <= ANO_MAXIMO {
            Ok(ano)
        } else {
            Err(ErroEntrada::ForaDoIntervalo)
        },
        None => Err(ErroEntrada::NumeroInvalido),
    }
}

/// Reads a line as a number of holidays.
pub fn interpretar_feriados(linha: &str) -> (r: Result<i32, ErroEntrada>)
    ensures
        r == feriados_lidos(linha@),
{
    let v = caracteres(linha);
    let (ini, fim) = limites_aparados(&v);
    match ler_i32(&v, ini, fim) {
        Some(feriados) => if feriados >= 0 {
            Ok(feriados)
        } else {
            Err(ErroEntrada::ForaDoIntervalo)
        },
        None => Err(ErroEntrada::NumeroInvalido),
    }
}

} // verus!
