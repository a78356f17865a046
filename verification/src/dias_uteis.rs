//! The business days of a month: every day from Monday to Friday.

use crate::calendario::{
    dia_da_semana, dias_antes_do_ano, dias_antes_do_mes, dias_no_mes, Data, DiaDaSemana,
    ErroValidacao,
};
use vstd::prelude::*;

verus! {

/// First year for which business days are counted.
pub const ANO_MINIMO: i32 = 1900;

/// Last year for which business days are counted.
pub const ANO_MAXIMO: i32 = 2100;

/// Whether a date is a business day: any day from Monday to Friday.
pub open spec fn eh_dia_util(ano: int, mes: int, dia: int) -> bool {
    dia_da_semana(ano, mes, dia) != DiaDaSemana::Sabado && dia_da_semana(ano, mes, dia)
        != DiaDaSemana::Domingo
}

/// The number of business days among the first `n` days of a month.
pub open spec fn dias_uteis_ate(ano: int, mes: int, n: int) -> int
    decreases n,
{
    if n <= 0 {
        0
    } else {
        dias_uteis_ate(ano, mes, n - 1) + if eh_dia_util(ano, mes, n) {
            1int
        } else {
            0int
        }
    }
}

/// The number of business days of month `mes` of year `ano`.
pub open spec fn dias_uteis_no_mes(ano: int, mes: int) -> int {
    dias_uteis_ate(ano, mes, dias_no_mes(ano, mes))
}

/// The business days of a month, or why they are not counted: the month is
/// looked at before the year.
pub open spec fn contagem_esperada(mes: int, ano: int) -> Result<int, ErroValidacao> {
    if mes < 1 || mes > 12 {
        Err(ErroValidacao::MesForaDoIntervalo)
    } else if ano < ANO_MINIMO || ano > ANO_MAXIMO {
        Err(ErroValidacao::AnoForaDoIntervalo)
    } else {
        Ok(dias_uteis_no_mes(ano, mes))
    }
}

/// Whether `r` is the count `esperada`, or the same refusal.
pub open spec fn resultado_contagem(
    esperada: Result<int, ErroValidacao>,
    r: Result<i32, ErroValidacao>,
) -> bool {
    match esperada {
        Ok(n) => r matches Ok(v) && v == n,
        Err(e) => r matches Err(f) && f == e,
    }
}

/// The business days among the first `n` days of a month are at most `n`.
pub proof fn lema_dias_uteis_limitados(ano: int, mes: int, n: int)
    requires
        0 <= n,
    ensures
        0 <= dias_uteis_ate(ano, mes, n) <= n,
    decreases n,
{
    if n > 0 {
        lema_dias_uteis_limitados(ano, mes, n - 1);
    }
}

/// Any seven days in a row hold five business days.
pub proof fn lema_sete_dias(ano: int, mes: int, n: int)
    requires
        0 <= n,
    ensures
        dias_uteis_ate(ano, mes, n + 7) == dias_uteis_ate(ano, mes, n) + 5,
{
    reveal_with_fuel(dias_uteis_ate, 8);
    // Whatever the day of the week of day `n`, the seven days after it are
    // one of each.
    let r = (dias_antes_do_ano(ano) + dias_antes_do_mes(ano, mes) + n) % 7;
    assert(0 <= r < 7);
}

/// A month has from 20 to 23 business days, whatever the year.
pub proof fn lema_dias_uteis_de_um_mes(ano: int, mes: int)
    ensures
        20 <= dias_uteis_no_mes(ano, mes) <= 23,
{
    lema_sete_dias(ano, mes, 0);
    lema_sete_dias(ano, mes, 7);
    lema_sete_dias(ano, mes, 14);
    lema_sete_dias(ano, mes, 21);
    reveal_with_fuel(dias_uteis_ate, 4);
}

/// Counts the business days, Monday to Friday, of a month.
///
/// The month has to be between 1 and 12 and the year between `ANO_MINIMO`
/// and `ANO_MAXIMO`; the month is looked at first. Every day of the month is
/// visited, from its first to the day before the first of the next month.
pub fn contar_dias_uteis(mes: u32, ano: i32) -> (r: Result<i32, ErroValidacao>)
    ensures
        resultado_contagem(contagem_esperada(mes as int, ano as int), r),
{
    if mes < 1 || mes > 12 {
        return Err(ErroValidacao::MesForaDoIntervalo);
    }
    if ano < ANO_MINIMO || ano > ANO_MAXIMO {
        return Err(ErroValidacao::AnoForaDoIntervalo);
    }
    let primeiro_dia = match Data::nova(ano, mes, 1) {
        Ok(d) => d,
        Err(e) => {
            return Err(e);
        },
    };
    let proximo_mes: u32 = if mes == 12 {
        1
    } else {
        mes + 1
    };
    let proximo_ano: i32 = if mes == 12 {
        ano + 1
    } else {
        ano
    };
    let virada = match Data::nova(proximo_ano, proximo_mes, 1) {
        Ok(d) => d,
        Err(e) => {
            return Err(e);
        },
    };
    let ultimo_dia = match virada.dia_anterior() {
        Ok(d) => d,
        Err(e) => {
            return Err(e);
        },
    };
    let ghost total = dias_no_mes(ano as int, mes as int);

    let mut dias_uteis: i32 = 0;
    let mut data_atual = primeiro_dia;
    while data_atual.nao_posterior(&ultimo_dia)
        invariant
            1 <= mes <= 12,
            ANO_MINIMO <= ano <= ANO_MAXIMO,
            total == dias_no_mes(ano as int, mes as int),
            ultimo_dia == (Data { ano, mes, dia: total as u32 }),
            virada == ultimo_dia.seguinte(),
            data_atual.valida(),
            data_atual == virada || (data_atual.ano == ano && data_atual.mes == mes
                && data_atual.dia <= total),
            dias_uteis == dias_uteis_ate(
                ano as int,
                mes as int,
                if data_atual == virada {
                    total
                } else {
                    data_atual.dia - 1
                },
            ),
        decreases
            if data_atual == virada {
                0
            } else {
                total - data_atual.dia + 1
            },
    {
        proof {
            lema_dias_uteis_limitados(ano as int, mes as int, data_atual.dia - 1);
        }
        let dia_semana = match data_atual.dia_da_semana() {
            Ok(s) => s,
            Err(e) => {
                return Err(e);
            },
        };
        if dia_semana != DiaDaSemana::Sabado && dia_semana != DiaDaSemana::Domingo {
            dias_uteis += 1;
        }
        data_atual = match data_atual.dia_seguinte() {
            Ok(d) => d,
            Err(e) => {
                return Err(e);
            },
        };
    }
    Ok(dias_uteis)
}

} // verus!
