//! The payment of a month: a fixed fee, plus two transport fares for each
//! day worked, minus the deductions.

use crate::calendario::{dias_no_mes, nome_do_mes, obter_nome_mes, ErroValidacao};
use crate::dias_uteis::{
    contagem_esperada, contar_dias_uteis, dias_uteis_no_mes, lema_dias_uteis_limitados,
};
use crate::money::Money;
use vstd::prelude::*;

verus! {

/// How the days worked in a month were found.
#[derive(Debug)]
pub struct InformacaoCalendario {
    pub mes: u32,
    pub ano: i32,
    pub nome_mes: &'static str,
    pub dias_uteis_mes: i32,
    pub feriados_deduzidos: i32,
    pub dias_trabalhados: i32,
}

/// The breakdown of a payment.
#[derive(Debug)]
pub struct ResultadoCalculo {
    pub taxa_fixa: Money,
    pub taxa_transporte: Money,
    pub dias_trabalhados: i32,
    pub custo_transporte: Money,
    pub deducoes_total: Money,
    pub pagamento_final: Money,
    pub calendario: Option<InformacaoCalendario>,
}

impl Clone for InformacaoCalendario {
    fn clone(&self) -> (c: Self)
        ensures
            c == *self,
    {
        InformacaoCalendario {
            mes: self.mes,
            ano: self.ano,
            nome_mes: self.nome_mes,
            dias_uteis_mes: self.dias_uteis_mes,
            feriados_deduzidos: self.feriados_deduzidos,
            dias_trabalhados: self.dias_trabalhados,
        }
    }
}

impl Clone for ResultadoCalculo {
    fn clone(&self) -> (c: Self)
        ensures
            c == *self,
    {
        ResultadoCalculo {
            taxa_fixa: self.taxa_fixa,
            taxa_transporte: self.taxa_transporte,
            dias_trabalhados: self.dias_trabalhados,
            custo_transporte: self.custo_transporte,
            deducoes_total: self.deducoes_total,
            pagamento_final: self.pagamento_final,
            calendario: match &self.calendario {
                Some(info) => Some(info.clone()),
                None => None,
            },
        }
    }
}

/// Whether `v` fits 64 signed bits.
pub open spec fn cabe_em_i64(v: int) -> bool {
    i64::MIN <= v <= i64::MAX
}

/// The cost of transport, in centavos: two fares for each day worked.
pub open spec fn custo_transporte_de(taxa_transporte: int, dias_trabalhados: int) -> int {
    taxa_transporte * dias_trabalhados * 2
}

/// The payment, in centavos: the fee and the cost of transport, less the
/// deductions.
pub open spec fn pagamento_de(
    taxa_fixa: int,
    taxa_transporte: int,
    dias_trabalhados: int,
    deducoes_total: int,
) -> int {
    taxa_fixa + custo_transporte_de(taxa_transporte, dias_trabalhados) - deducoes_total
}

/// The days worked in a month with `dias_uteis` business days of which
/// `feriados` were not worked: never less than none.
pub open spec fn dias_trabalhados_de(dias_uteis: int, feriados: int) -> int {
    if dias_uteis - feriados > 0 {
        dias_uteis - feriados
    } else {
        0
    }
}

/// Whether the payment for a number of days worked can be computed within
/// the machine's integers: the cost of transport and the payment fit 64
/// signed bits.
pub open spec fn valores_cabem(
    taxa_fixa: Money,
    taxa_transporte: Money,
    dias_trabalhados: int,
    deducoes_total: Money,
) -> bool {
    &&& cabe_em_i64(custo_transporte_de(taxa_transporte@, dias_trabalhados))
    &&& cabe_em_i64(pagamento_de(taxa_fixa@, taxa_transporte@, dias_trabalhados, deducoes_total@))
}

impl ResultadoCalculo {
    /// Whether this is the breakdown of the payment for the four amounts
    /// given, the calendar left aside.
    pub open spec fn discrimina(
        self,
        taxa_fixa: Money,
        taxa_transporte: Money,
        dias_trabalhados: i32,
        deducoes_total: Money,
    ) -> bool {
        &&& self.taxa_fixa == taxa_fixa
        &&& self.taxa_transporte == taxa_transporte
        &&& self.dias_trabalhados == dias_trabalhados
        &&& self.deducoes_total == deducoes_total
        &&& self.custo_transporte@ == custo_transporte_de(taxa_transporte@, dias_trabalhados as int)
        &&& self.pagamento_final@ == pagamento_de(
            taxa_fixa@,
            taxa_transporte@,
            dias_trabalhados as int,
            deducoes_total@,
        )
    }
}

impl InformacaoCalendario {
    /// Whether this describes month `mes` of year `ano`, which has
    /// `dias_uteis` business days, with `feriados` of them not worked.
    pub open spec fn descreve(self, mes: u32, ano: i32, dias_uteis: int, feriados: i32) -> bool {
        &&& self.mes == mes
        &&& self.ano == ano
        &&& self.nome_mes@ == nome_do_mes(mes as int)
        &&& self.dias_uteis_mes == dias_uteis
        &&& self.feriados_deduzidos == feriados
        &&& self.dias_trabalhados == dias_trabalhados_de(dias_uteis, feriados as int)
    }
}

/// Whether the cost of transport and the payment fit 64 signed bits.
fn cabem(
    taxa_fixa: Money,
    taxa_transporte: Money,
    dias_trabalhados: i32,
    deducoes_total: Money,
) -> (b: bool)
    ensures
        b == valores_cabem(taxa_fixa, taxa_transporte, dias_trabalhados as int, deducoes_total),
{
    let taxa: i128 = taxa_transporte.to_centavos() as i128;
    let dias: i128 = dias_trabalhados as i128;
    assert(-0x4000_0000_0000_0000_0000_0000 <= taxa * dias <= 0x4000_0000_0000_0000_0000_0000)
        by (nonlinear_arith)
        requires
            -0x8000_0000_0000_0000 <= taxa <= 0x8000_0000_0000_0000,
            -0x8000_0000 <= dias <= 0x8000_0000,
    ;
    let custo: i128 = taxa * dias * 2;
    let pagamento: i128 = taxa_fixa.to_centavos() as i128 + custo
        - deducoes_total.to_centavos() as i128;
    i64::MIN as i128 <= custo && custo <= i64::MAX as i128 && i64::MIN as i128 <= pagamento
        && pagamento <= i64::MAX as i128
}

/// The cost of transport and the payment, for amounts whose cost and payment
/// fit 64 signed bits.
fn compor(
    taxa_fixa: Money,
    taxa_transporte: Money,
    dias_trabalhados: i32,
    deducoes_total: Money,
) -> (r: (Money, Money))
    requires
        valores_cabem(taxa_fixa, taxa_transporte, dias_trabalhados as int, deducoes_total),
    ensures
        r.0@ == custo_transporte_de(taxa_transporte@, dias_trabalhados as int),
        r.1@ == pagamento_de(
            taxa_fixa@,
            taxa_transporte@,
            dias_trabalhados as int,
            deducoes_total@,
        ),
{
    let custo_transporte = taxa_transporte * dias_trabalhados * 2;
    // The fee and the cost may add up beyond 64 bits although the payment
    // does not: the sum is taken on 128 bits.
    let pagamento: i128 = taxa_fixa.to_centavos() as i128 + custo_transporte.to_centavos() as i128
        - deducoes_total.to_centavos() as i128;
    (custo_transporte, Money::from_centavos(pagamento as i64))
}

/// The payment for a number of days worked.
///
/// The cost of transport is the fare times the days times two, and the
/// payment is the fee plus that cost minus the deductions. Any number of
/// days is taken as it is, a negative one too. The cost and the payment have
/// to fit 64 signed bits.
pub fn calcular_valores(
    taxa_fixa: Money,
    taxa_transporte: Money,
    dias_trabalhados: i32,
    deducoes_total: Money,
) -> (r: ResultadoCalculo)
    requires
        valores_cabem(taxa_fixa, taxa_transporte, dias_trabalhados as int, deducoes_total),
    ensures
        r.discrimina(taxa_fixa, taxa_transporte, dias_trabalhados, deducoes_total),
        r.calendario is None,
{
    let (custo_transporte, pagamento_final) = compor(
        taxa_fixa,
        taxa_transporte,
        dias_trabalhados,
        deducoes_total,
    );
    ResultadoCalculo {
        taxa_fixa,
        taxa_transporte,
        dias_trabalhados,
        custo_transporte,
        deducoes_total,
        pagamento_final,
        calendario: None,
    }
}

/// The payment for a number of days worked, where it can be computed
/// within the machine's integers, and nothing where it cannot.
pub fn tentar_calcular_valores(
    taxa_fixa: Money,
    taxa_transporte: Money,
    dias_trabalhados: i32,
    deducoes_total: Money,
) -> (r: Option<ResultadoCalculo>)
    ensures
        r is Some <==> valores_cabem(
            taxa_fixa,
            taxa_transporte,
            dias_trabalhados as int,
            deducoes_total,
        ),
        r matches Some(res) ==> res.discrimina(
            taxa_fixa,
            taxa_transporte,
            dias_trabalhados,
            deducoes_total,
        ) && res.calendario is None,
{
    if cabem(taxa_fixa, taxa_transporte, dias_trabalhados, deducoes_total) {
        Some(calcular_valores(taxa_fixa, taxa_transporte, dias_trabalhados, deducoes_total))
    } else {
        None
    }
}

/// Whether the payment of a month can be computed within the machine's
/// integers: the days worked fit 32 signed bits, the cost of transport and
/// the payment 64.
pub open spec fn calculo_cabe(
    taxa_fixa: Money,
    taxa_transporte: Money,
    dias_uteis: int,
    feriados_deduzidos: i32,
    deducoes_total: Money,
) -> bool {
    let dias = dias_trabalhados_de(dias_uteis, feriados_deduzidos as int);
    &&& dias <= i32::MAX
    &&& valores_cabem(taxa_fixa, taxa_transporte, dias, deducoes_total)
}

/// Whether the payment of month `mes` of year `ano` can be computed within
/// the machine's integers. It always can where the month or the year is
/// refused, since nothing is computed then.
pub open spec fn calculo_possivel(
    taxa_fixa: Money,
    taxa_transporte: Money,
    mes: u32,
    ano: i32,
    feriados_deduzidos: i32,
    deducoes_total: Money,
) -> bool {
    contagem_esperada(mes as int, ano as int) matches Ok(dias_uteis) ==> calculo_cabe(
        taxa_fixa,
        taxa_transporte,
        dias_uteis,
        feriados_deduzidos,
        deducoes_total,
    )
}

/// The payment for a month with `dias_uteis_mes` business days.
fn compor_com_calendario(
    taxa_fixa: Money,
    taxa_transporte: Money,
    mes: u32,
    ano: i32,
    dias_uteis_mes: i32,
    feriados_deduzidos: i32,
    deducoes_total: Money,
) -> (res: ResultadoCalculo)
    requires
        1 <= mes <= 12,
        calculo_cabe(
            taxa_fixa,
            taxa_transporte,
            dias_uteis_mes as int,
            feriados_deduzidos,
            deducoes_total,
        ),
    ensures
        res.dias_trabalhados == dias_trabalhados_de(
            dias_uteis_mes as int,
            feriados_deduzidos as int,
        ),
        res.discrimina(taxa_fixa, taxa_transporte, res.dias_trabalhados, deducoes_total),
        res.calendario matches Some(info) && info.descreve(
            mes,
            ano,
            dias_uteis_mes as int,
            feriados_deduzidos,
        ),
{
    let diferenca: i64 = dias_uteis_mes as i64 - feriados_deduzidos as i64;
    let dias_trabalhados: i32 = if diferenca > 0 {
        diferenca as i32
    } else {
        0
    };
    let (custo_transporte, pagamento_final) = compor(
        taxa_fixa,
        taxa_transporte,
        dias_trabalhados,
        deducoes_total,
    );
    let calendario = InformacaoCalendario {
        mes,
        ano,
        nome_mes: obter_nome_mes(mes),
        dias_uteis_mes,
        feriados_deduzidos,
        dias_trabalhados,
    };
    ResultadoCalculo {
        taxa_fixa,
        taxa_transporte,
        dias_trabalhados,
        custo_transporte,
        deducoes_total,
        pagamento_final,
        calendario: Some(calendario),
    }
}

/// What `calcular_valores_com_calendario` returns.
pub open spec fn resultado_com_calendario(
    taxa_fixa: Money,
    taxa_transporte: Money,
    mes: u32,
    ano: i32,
    feriados_deduzidos: i32,
    deducoes_total: Money,
    r: Result<ResultadoCalculo, ErroValidacao>,
) -> bool {
    match contagem_esperada(mes as int, ano as int) {
        Err(e) => r matches Err(f) && f == e,
        Ok(dias_uteis) => {
            &&& r matches Ok(res)
            &&& res.dias_trabalhados == dias_trabalhados_de(dias_uteis, feriados_deduzidos as int)
            &&& res.discrimina(
                taxa_fixa,
                taxa_transporte,
                res.dias_trabalhados,
                deducoes_total,
            )
            &&& res.calendario matches Some(info)
            &&& info.descreve(mes, ano, dias_uteis, feriados_deduzidos)
        },
    }
}

/// The payment for a month of the calendar.
///
/// The days worked are the business days of the month less the holidays,
/// and never less than none. A month or a year out of range is refused, as
/// `contar_dias_uteis` refuses it. Where they are in range, the days worked,
/// the cost and the payment have to fit the machine's integers.
pub fn calcular_valores_com_calendario(
    taxa_fixa: Money,
    taxa_transporte: Money,
    mes: u32,
    ano: i32,
    feriados_deduzidos: i32,
    deducoes_total: Money,
) -> (r: Result<ResultadoCalculo, ErroValidacao>)
    requires
        calculo_possivel(
            taxa_fixa,
            taxa_transporte,
            mes,
            ano,
            feriados_deduzidos,
            deducoes_total,
        ),
    ensures
        resultado_com_calendario(
            taxa_fixa,
            taxa_transporte,
            mes,
            ano,
            feriados_deduzidos,
            deducoes_total,
            r,
        ),
{
    match contar_dias_uteis(mes, ano) {
        Ok(dias_uteis_mes) => Ok(
            compor_com_calendario(
                taxa_fixa,
                taxa_transporte,
                mes,
                ano,
                dias_uteis_mes,
                feriados_deduzidos,
                deducoes_total,
            ),
        ),
        Err(e) => Err(e),
    }
}

/// The payment for a month of the calendar, where it can be computed within
/// the machine's integers, and nothing where it cannot. A month or a year
/// out of range is refused before anything is computed.
pub fn tentar_calcular_valores_com_calendario(
    taxa_fixa: Money,
    taxa_transporte: Money,
    mes: u32,
    ano: i32,
    feriados_deduzidos: i32,
    deducoes_total: Money,
) -> (r: Option<Result<ResultadoCalculo, ErroValidacao>>)
    ensures
        r is Some <==> calculo_possivel(
            taxa_fixa,
            taxa_transporte,
            mes,
            ano,
            feriados_deduzidos,
            deducoes_total,
        ),
        r matches Some(res) ==> resultado_com_calendario(
            taxa_fixa,
            taxa_transporte,
            mes,
            ano,
            feriados_deduzidos,
            deducoes_total,
            res,
        ),
{
    match contar_dias_uteis(mes, ano) {
        Ok(dias_uteis_mes) => {
            let diferenca: i64 = dias_uteis_mes as i64 - feriados_deduzidos as i64;
            if diferenca > i32::MAX as i64 {
                return None;
            }
            let dias_trabalhados: i32 = if diferenca > 0 {
                diferenca as i32
            } else {
                0
            };
            if !cabem(taxa_fixa, taxa_transporte, dias_trabalhados, deducoes_total) {
                return None;
            }
            Some(
                Ok(
                    compor_com_calendario(
                        taxa_fixa,
                        taxa_transporte,
                        mes,
                        ano,
                        dias_uteis_mes,
                        feriados_deduzidos,
                        deducoes_total,
                    ),
                ),
            )
        },
        Err(e) => Some(Err(e)),
    }
}

/// The days worked are never fewer than none. With no holiday they are the
/// business days of the month, and with as many holidays as business days,
/// or more, there are none.
pub proof fn lema_dias_trabalhados(dias_uteis: int, feriados: int)
    requires
        dias_uteis >= 0,
    ensures
        dias_trabalhados_de(dias_uteis, feriados) >= 0,
        feriados == 0 ==> dias_trabalhados_de(dias_uteis, feriados) == dias_uteis,
        feriados >= dias_uteis ==> dias_trabalhados_de(dias_uteis, feriados) == 0,
{
}

/// A payment computed for a month without holidays counts every business
/// day of the month as worked.
pub proof fn lema_sem_feriados(
    taxa_fixa: Money,
    taxa_transporte: Money,
    mes: u32,
    ano: i32,
    deducoes_total: Money,
    r: Result<ResultadoCalculo, ErroValidacao>,
)
    requires
        resultado_com_calendario(taxa_fixa, taxa_transporte, mes, ano, 0, deducoes_total, r),
        r is Ok,
    ensures
        r->Ok_0.dias_trabalhados == dias_uteis_no_mes(ano as int, mes as int),
        r->Ok_0.calendario->Some_0.dias_trabalhados == r->Ok_0.calendario->Some_0.dias_uteis_mes,
{
    lema_dias_uteis_limitados(ano as int, mes as int, dias_no_mes(ano as int, mes as int));
}

/// A payment computed for a month with as many holidays as business days,
/// or more, has no day worked and no cost of transport: it is the fee less
/// the deductions.
pub proof fn lema_feriados_excessivos(
    taxa_fixa: Money,
    taxa_transporte: Money,
    mes: u32,
    ano: i32,
    feriados_deduzidos: i32,
    deducoes_total: Money,
    r: Result<ResultadoCalculo, ErroValidacao>,
)
    requires
        resultado_com_calendario(
            taxa_fixa,
            taxa_transporte,
            mes,
            ano,
            feriados_deduzidos,
            deducoes_total,
            r,
        ),
        r is Ok,
        feriados_deduzidos >= dias_uteis_no_mes(ano as int, mes as int),
    ensures
        r->Ok_0.dias_trabalhados == 0,
        r->Ok_0.custo_transporte@ == 0,
        r->Ok_0.pagamento_final@ == taxa_fixa@ - deducoes_total@,
{
}

} // verus!
