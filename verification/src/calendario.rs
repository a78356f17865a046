//! The civil calendar: which days exist, which day follows which, and the
//! day of the week of each.
//!
//! The rules of the calendar are stated here as spec functions. The dates
//! themselves are computed by `chrono`, behind four private functions whose
//! contracts are taken on trust: `data_do_calendario`,
//! `sucessor_no_calendario`, `antecessor_no_calendario` and
//! `semana_no_calendario`. The methods of `Data` are verified against them.

use chrono::Datelike;
use vstd::prelude::*;

verus! {

/// First year of the calendar: the year of `chrono::NaiveDate::MIN`.
pub const PRIMEIRO_ANO: i32 = -262143;

/// Last year of the calendar: the year of `chrono::NaiveDate::MAX`.
pub const ULTIMO_ANO: i32 = 262142;

/// The days of the week.
#[derive(Debug, Clone, Copy, PartialEq, Eq, Structural)]
pub enum DiaDaSemana {
    Segunda,
    Terca,
    Quarta,
    Quinta,
    Sexta,
    Sabado,
    Domingo,
}

/// Why a date, or a month for the count of its business days, is refused.
#[derive(Debug, Clone, Copy, PartialEq, Eq, Structural)]
pub enum ErroValidacao {
    /// The month is not between 1 and 12.
    MesForaDoIntervalo,
    /// The year is not among those for which business days are counted.
    AnoForaDoIntervalo,
    /// The calendar has no such date.
    DataInvalida,
}

impl ErroValidacao {
    /// The message that tells the error to the user.
    pub open spec fn texto_da_mensagem(self) -> Seq<char> {
        match self {
            ErroValidacao::MesForaDoIntervalo => "Mês deve estar entre 1 e 12"@,
            ErroValidacao::AnoForaDoIntervalo => "Ano deve estar entre 1900 e 2100"@,
            ErroValidacao::DataInvalida => "Data inválida"@,
        }
    }

    /// The message that tells the error to the user.
    pub fn mensagem(&self) -> (m: &'static str)
        ensures
            m@ == self.texto_da_mensagem(),
    {
        match self {
            ErroValidacao::MesForaDoIntervalo => "Mês deve estar entre 1 e 12",
            ErroValidacao::AnoForaDoIntervalo => "Ano deve estar entre 1900 e 2100",
            ErroValidacao::DataInvalida => "Data inválida",
        }
    }
}

/// A day of the calendar, by year, month and day of the month.
#[derive(Debug, Clone, Copy, PartialEq, Eq, Structural)]
pub struct Data {
    pub ano: i32,
    pub mes: u32,
    pub dia: u32,
}

/// Whether `ano` has 366 days: every fourth year, but of the years that end
/// a century only every fourth.
pub open spec fn ano_bissexto(ano: int) -> bool {
    ano % 4 == 0 && (ano % 100 != 0 || ano % 400 == 0)
}

/// The number of days of month `mes` of year `ano`.
pub open spec fn dias_no_mes(ano: int, mes: int) -> int {
    if mes == 2 {
        if ano_bissexto(ano) {
            29
        } else {
            28
        }
    } else if mes == 4 || mes == 6 || mes == 9 || mes == 11 {
        30
    } else {
        31
    }
}

/// Whether the calendar has the day `dia` of month `mes` of year `ano`.
pub open spec fn data_existe(ano: int, mes: int, dia: int) -> bool {
    &&& PRIMEIRO_ANO <= ano <= ULTIMO_ANO
    &&& 1 <= mes <= 12
    &&& 1 <= dia <= dias_no_mes(ano, mes)
}

/// The number of days from 1 January of year 1 to the last day before year
/// `ano`.
pub open spec fn dias_antes_do_ano(ano: int) -> int {
    let a = ano - 1;
    365 * a + a / 4 - a / 100 + a / 400
}

/// The number of days of year `ano` before its month `mes`.
pub open spec fn dias_antes_do_mes(ano: int, mes: int) -> int
    decreases mes,
{
    if mes <= 1 {
        0
    } else {
        dias_antes_do_mes(ano, mes - 1) + dias_no_mes(ano, mes - 1)
    }
}

/// The number of the day in the count that gives 1 to 1 January of year 1.
pub open spec fn numero_do_dia(ano: int, mes: int, dia: int) -> int {
    dias_antes_do_ano(ano) + dias_antes_do_mes(ano, mes) + dia
}

/// The day of the week of a date: 1 January of year 1 is a Monday, and the
/// seven days follow each other in turn.
pub open spec fn dia_da_semana(ano: int, mes: int, dia: int) -> DiaDaSemana {
    let k = (numero_do_dia(ano, mes, dia) - 1) % 7;
    if k == 0 {
        DiaDaSemana::Segunda
    } else if k == 1 {
        DiaDaSemana::Terca
    } else if k == 2 {
        DiaDaSemana::Quarta
    } else if k == 3 {
        DiaDaSemana::Quinta
    } else if k == 4 {
        DiaDaSemana::Sexta
    } else if k == 5 {
        DiaDaSemana::Sabado
    } else {
        DiaDaSemana::Domingo
    }
}

impl Data {
    /// Whether the calendar has this day.
    pub open spec fn valida(self) -> bool {
        data_existe(self.ano as int, self.mes as int, self.dia as int)
    }

    /// Whether this is a day of the calendar with a day after it: any but
    /// the last day of the last year.
    pub open spec fn tem_seguinte(self) -> bool {
        self.valida() && !(self.ano == ULTIMO_ANO && self.mes == 12 && self.dia == 31)
    }

    /// Whether this is a day of the calendar with a day before it: any but
    /// the first day of the first year.
    pub open spec fn tem_anterior(self) -> bool {
        self.valida() && !(self.ano == PRIMEIRO_ANO && self.mes == 1 && self.dia == 1)
    }

    /// The day after this one.
    pub open spec fn seguinte(self) -> Data {
        if self.dia < dias_no_mes(self.ano as int, self.mes as int) {
            Data { ano: self.ano, mes: self.mes, dia: (self.dia + 1) as u32 }
        } else if self.mes < 12 {
            Data { ano: self.ano, mes: (self.mes + 1) as u32, dia: 1 }
        } else {
            Data { ano: (self.ano + 1) as i32, mes: 1, dia: 1 }
        }
    }

    /// The day before this one.
    pub open spec fn anterior(self) -> Data {
        if self.dia > 1 {
            Data { ano: self.ano, mes: self.mes, dia: (self.dia - 1) as u32 }
        } else if self.mes > 1 {
            Data {
                ano: self.ano,
                mes: (self.mes - 1) as u32,
                dia: dias_no_mes(self.ano as int, self.mes - 1) as u32,
            }
        } else {
            Data { ano: (self.ano - 1) as i32, mes: 12, dia: 31 }
        }
    }

    /// Whether this day is `outra` or comes before it.
    pub open spec fn ate(self, outra: Data) -> bool {
        ||| self.ano < outra.ano
        ||| self.ano == outra.ano && self.mes < outra.mes
        ||| self.ano == outra.ano && self.mes == outra.mes && self.dia <= outra.dia
    }

    /// The day of the week of this day.
    pub open spec fn semana(self) -> DiaDaSemana {
        dia_da_semana(self.ano as int, self.mes as int, self.dia as int)
    }
}

/// The date with the given year, month and day, if the calendar has it.
///
/// Calls `chrono::NaiveDate::from_ymd_opt`, and reads the date it returns
/// with `Datelike::year`, `month` and `day`. Taken on trust: there is a date
/// exactly where the year is one of the calendar's, the month is from 1 to
/// 12 and the day is from 1 to the length of the month, February having 29
/// days in a leap year; and the date reads back as the three numbers given.
#[verifier::external_body]
fn data_do_calendario(ano: i32, mes: u32, dia: u32) -> (r: Option<Data>)
    ensures
        r == if data_existe(ano as int, mes as int, dia as int) {
            Some(Data { ano, mes, dia })
        } else {
            None
        },
{
    match chrono::NaiveDate::from_ymd_opt(ano, mes, dia) {
        Some(n) => Some(Data { ano: n.year(), mes: n.month(), dia: n.day() }),
        None => None,
    }
}

/// The day after `d`, if `d` is a day of the calendar and not its last.
///
/// Calls `chrono::NaiveDate::succ_opt` on the date that `from_ymd_opt` makes
/// of `d`, and reads the result as above. Taken on trust: the result is the
/// next day of the month, or the first day of the next month after the last
/// day of a month, or the first day of the next year after 31 December; and
/// there is none after `NaiveDate::MAX`.
#[verifier::external_body]
fn sucessor_no_calendario(d: Data) -> (r: Option<Data>)
    ensures
        r == if d.tem_seguinte() {
            Some(d.seguinte())
        } else {
            None
        },
{
    let n = chrono::NaiveDate::from_ymd_opt(d.ano, d.mes, d.dia)?.succ_opt()?;
    Some(Data { ano: n.year(), mes: n.month(), dia: n.day() })
}

/// The day before `d`, if `d` is a day of the calendar and not its first.
///
/// Calls `chrono::NaiveDate::pred_opt` on the date that `from_ymd_opt` makes
/// of `d`, and reads the result as above. Taken on trust: the result is the
/// previous day of the month, or the last day of the previous month before
/// the first day of a month, or 31 December of the previous year before
/// 1 January; and there is none before `NaiveDate::MIN`.
#[verifier::external_body]
fn antecessor_no_calendario(d: Data) -> (r: Option<Data>)
    ensures
        r == if d.tem_anterior() {
            Some(d.anterior())
        } else {
            None
        },
{
    let n = chrono::NaiveDate::from_ymd_opt(d.ano, d.mes, d.dia)?.pred_opt()?;
    Some(Data { ano: n.year(), mes: n.month(), dia: n.day() })
}

/// The day of the week of `d`, if `d` is a day of the calendar.
///
/// Calls `chrono::Datelike::weekday` on the date that `from_ymd_opt` makes
/// of `d`, and names each `chrono::Weekday` in turn. Taken on trust: the
/// dates are those of the proleptic Gregorian calendar, so that the day of
/// the week is the one that `dia_da_semana` finds by counting the days from
/// Monday, 1 January of year 1.
#[verifier::external_body]
fn semana_no_calendario(d: Data) -> (r: Option<DiaDaSemana>)
    ensures
        r == if d.valida() {
            Some(d.semana())
        } else {
            None
        },
{
    let n = chrono::NaiveDate::from_ymd_opt(d.ano, d.mes, d.dia)?;
    Some(
        match n.weekday() {
            chrono::Weekday::Mon => DiaDaSemana::Segunda,
            chrono::Weekday::Tue => DiaDaSemana::Terca,
            chrono::Weekday::Wed => DiaDaSemana::Quarta,
            chrono::Weekday::Thu => DiaDaSemana::Quinta,
            chrono::Weekday::Fri => DiaDaSemana::Sexta,
            chrono::Weekday::Sat => DiaDaSemana::Sabado,
            chrono::Weekday::Sun => DiaDaSemana::Domingo,
        },
    )
}

/// `valor` where there is one, and `DataInvalida` where there is none.
fn ou_data_invalida<T>(valor: Option<T>) -> (r: Result<T, ErroValidacao>)
    ensures
        match valor {
            Some(v) => r == Ok::<T, ErroValidacao>(v),
            None => r == Err::<T, ErroValidacao>(ErroValidacao::DataInvalida),
        },
{
    match valor {
        Some(v) => Ok(v),
        None => Err(ErroValidacao::DataInvalida),
    }
}

impl Data {
    /// The day `dia` of month `mes` of year `ano`, if the calendar has it.
    pub fn nova(ano: i32, mes: u32, dia: u32) -> (r: Result<Data, ErroValidacao>)
        ensures
            data_existe(ano as int, mes as int, dia as int) ==> r == Ok::<Data, ErroValidacao>(
                Data { ano, mes, dia },
            ),
            !data_existe(ano as int, mes as int, dia as int) ==> r == Err::<Data, ErroValidacao>(
                ErroValidacao::DataInvalida,
            ),
    {
        ou_data_invalida(data_do_calendario(ano, mes, dia))
    }

    /// The day after this one, if this is a day of the calendar and not its
    /// last.
    pub fn dia_seguinte(&self) -> (r: Result<Data, ErroValidacao>)
        ensures
            self.tem_seguinte() ==> r == Ok::<Data, ErroValidacao>(self.seguinte()),
            !self.tem_seguinte() ==> r == Err::<Data, ErroValidacao>(ErroValidacao::DataInvalida),
    {
        ou_data_invalida(sucessor_no_calendario(*self))
    }

    /// The day before this one, if this is a day of the calendar and not its
    /// first.
    pub fn dia_anterior(&self) -> (r: Result<Data, ErroValidacao>)
        ensures
            self.tem_anterior() ==> r == Ok::<Data, ErroValidacao>(self.anterior()),
            !self.tem_anterior() ==> r == Err::<Data, ErroValidacao>(ErroValidacao::DataInvalida),
    {
        ou_data_invalida(antecessor_no_calendario(*self))
    }

    /// The day of the week of this day, if it is a day of the calendar.
    pub fn dia_da_semana(&self) -> (r: Result<DiaDaSemana, ErroValidacao>)
        ensures
            self.valida() ==> r == Ok::<DiaDaSemana, ErroValidacao>(self.semana()),
            !self.valida() ==> r == Err::<DiaDaSemana, ErroValidacao>(
                ErroValidacao::DataInvalida,
            ),
    {
        ou_data_invalida(semana_no_calendario(*self))
    }

    /// Whether this day is `outra` or comes before it.
    pub fn nao_posterior(&self, outra: &Data) -> (r: bool)
        ensures
            r == self.ate(*outra),
    {
        self.ano < outra.ano || (self.ano == outra.ano && (self.mes < outra.mes || (self.mes
            == outra.mes && self.dia <= outra.dia)))
    }
}

/// The name of month `mes`, from 1 for January to 12 for December.
pub open spec fn nome_do_mes(mes: int) -> Seq<char> {
    if mes == 1 {
        "Janeiro"@
    } else if mes == 2 {
        "Fevereiro"@
    } else if mes == 3 {
        "Março"@
    } else if mes == 4 {
        "Abril"@
    } else if mes == 5 {
        "Maio"@
    } else if mes == 6 {
        "Junho"@
    } else if mes == 7 {
        "Julho"@
    } else if mes == 8 {
        "Agosto"@
    } else if mes == 9 {
        "Setembro"@
    } else if mes == 10 {
        "Outubro"@
    } else if mes == 11 {
        "Novembro"@
    } else {
        "Dezembro"@
    }
}

/// The name of a month. The month has to be between 1 and 12.
pub fn obter_nome_mes(mes: u32) -> (nome: &'static str)
    requires
        1 <= mes <= 12,
    ensures
        nome@ == nome_do_mes(mes as int),
{
    match mes {
        1 => "Janeiro",
        2 => "Fevereiro",
        3 => "Março",
        4 => "Abril",
        5 => "Maio",
        6 => "Junho",
        7 => "Julho",
        8 => "Agosto",
        9 => "Setembro",
        10 => "Outubro",
        11 => "Novembro",
        12 => "Dezembro",
        _ => vstd::pervasive::unreached(),
    }
}

} // verus!
