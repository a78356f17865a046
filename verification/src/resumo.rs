//! The summary of a payment, line by line, as it is shown to the user.

use crate::calculo::{InformacaoCalendario, ResultadoCalculo};
use crate::decimal::{escrever, escrever_inteiro, inteiro_escrito};
use crate::money::Money;
use vstd::prelude::*;

verus! {

/// Width of the rules that frame the summary.
pub const LARGURA: usize = 40;

/// A rule: the character `c`, `LARGURA` times.
pub open spec fn regua(c: char) -> Seq<char> {
    Seq::new(LARGURA as nat, |i: int| c)
}

/// The lines that open the summary: an empty line, the title between two
/// rules, and the fixed fee.
pub open spec fn linhas_de_abertura(r: ResultadoCalculo) -> Seq<Seq<char>> {
    seq![
        Seq::empty(),
        regua('='),
        "RESUMO DO PAGAMENTO"@,
        regua('='),
        "Taxa fixa: R$ "@ + escrever(r.taxa_fixa@),
    ]
}

/// The lines on the month: its name and year, its business days, the
/// holidays where there are any, and the days worked.
pub open spec fn linhas_do_calendario(c: InformacaoCalendario) -> Seq<Seq<char>> {
    seq![
        "Mês/Ano: "@ + c.nome_mes@ + " "@ + inteiro_escrito(c.ano as int),
        "Dias úteis no mês: "@ + inteiro_escrito(c.dias_uteis_mes as int),
    ] + (if c.feriados_deduzidos > 0 {
        seq!["Feriados/dias não trabalhados: "@ + inteiro_escrito(c.feriados_deduzidos as int)]
    } else {
        Seq::empty()
    }) + seq!["Dias trabalhados: "@ + inteiro_escrito(c.dias_trabalhados as int)]
}

/// The lines on transport: the fare, the cost, and how the cost is made up.
pub open spec fn linhas_do_transporte(r: ResultadoCalculo) -> Seq<Seq<char>> {
    seq![
        "Taxa de transporte por viagem: R$ "@ + escrever(r.taxa_transporte@),
        "Custo total do transporte: R$ "@ + escrever(r.custo_transporte@),
        "  ("@ + inteiro_escrito(r.dias_trabalhados as int) + " dias × R$ "@ + escrever(
            r.taxa_transporte@,
        ) + " × 2 viagens)"@,
    ]
}

/// The lines that close the summary: the deductions where there are any,
/// and the payment between two rules.
pub open spec fn linhas_de_fecho(r: ResultadoCalculo) -> Seq<Seq<char>> {
    (if r.deducoes_total@ > 0 {
        seq!["Deduções: R$ "@ + escrever(r.deducoes_total@)]
    } else {
        Seq::empty()
    }) + seq![regua('-'), "PAGAMENTO FINAL: R$ "@ + escrever(r.pagamento_final@), regua('=')]
}

/// The summary of the payment `r`, line by line.
pub open spec fn linhas_do_resumo(r: ResultadoCalculo) -> Seq<Seq<char>> {
    linhas_de_abertura(r) + (match r.calendario {
        Some(c) => linhas_do_calendario(c),
        None => Seq::empty(),
    }) + linhas_do_transporte(r) + linhas_de_fecho(r)
}

/// The text of each line of `linhas`.
pub open spec fn textos(linhas: Seq<String>) -> Seq<Seq<char>> {
    Seq::new(linhas.len(), |i: int| linhas[i]@)
}

/// Adds a line to the end of `linhas`.
fn anexar_linha(linhas: &mut Vec<String>, linha: String)
    ensures
        textos(final(linhas)@) == textos(old(linhas)@).push(linha@),
{
    linhas.push(linha);
}

/// A rule made of the one-character text `c`.
fn tracar_regua(c: &str) -> (r: String)
    requires
        c@.len() == 1,
    ensures
        r@ == regua(c@[0]),
{
    let mut r = String::new();
    let mut i: usize = 0;
    while i < LARGURA
        invariant
            c@.len() == 1,
            i <= LARGURA,
            r@ == Seq::new(i as nat, |k: int| c@[0]),
        decreases LARGURA - i,
    {
        r.append(c);
        i += 1;
    }
    r
}

/// `rotulo` followed by the amount `valor`.
fn linha_de_valor(rotulo: &str, valor: Money) -> (l: String)
    ensures
        l@ == rotulo@ + escrever(valor@),
{
    let mut l = String::from_str(rotulo);
    let v = valor.to_string();
    l.append(v.as_str());
    l
}

/// `rotulo` followed by the number `n`.
fn linha_de_numero(rotulo: &str, n: i32) -> (l: String)
    ensures
        l@ == rotulo@ + inteiro_escrito(n as int),
{
    let mut l = String::from_str(rotulo);
    let v = escrever_inteiro(n as i64);
    l.append(v.as_str());
    l
}

/// Adds the lines on the month to `linhas`.
fn anexar_calendario(linhas: &mut Vec<String>, c: &InformacaoCalendario)
    ensures
        textos(final(linhas)@) == textos(old(linhas)@) + linhas_do_calendario(*c),
{
    let mut mes_ano = String::from_str("Mês/Ano: ");
    mes_ano.append(c.nome_mes);
    mes_ano.append(" ");
    let ano = escrever_inteiro(c.ano as i64);
    mes_ano.append(ano.as_str());
    anexar_linha(linhas, mes_ano);
    anexar_linha(linhas, linha_de_numero("Dias úteis no mês: ", c.dias_uteis_mes));
    if c.feriados_deduzidos > 0 {
        anexar_linha(
            linhas,
            linha_de_numero("Feriados/dias não trabalhados: ", c.feriados_deduzidos),
        );
    }
    anexar_linha(linhas, linha_de_numero("Dias trabalhados: ", c.dias_trabalhados));
}

/// Adds the lines on transport to `linhas`.
fn anexar_transporte(linhas: &mut Vec<String>, r: &ResultadoCalculo)
    ensures
        textos(final(linhas)@) == textos(old(linhas)@) + linhas_do_transporte(*r),
{
    anexar_linha(linhas, linha_de_valor("Taxa de transporte por viagem: R$ ", r.taxa_transporte));
    anexar_linha(linhas, linha_de_valor("Custo total do transporte: R$ ", r.custo_transporte));
    let mut conta = String::from_str("  (");
    let dias = escrever_inteiro(r.dias_trabalhados as i64);
    conta.append(dias.as_str());
    conta.append(" dias × R$ ");
    let taxa = r.taxa_transporte.to_string();
    conta.append(taxa.as_str());
    conta.append(" × 2 viagens)");
    anexar_linha(linhas, conta);
}

/// Adds the lines that close the summary to `linhas`.
fn anexar_fecho(linhas: &mut Vec<String>, r: &ResultadoCalculo)
    ensures
        textos(final(linhas)@) == textos(old(linhas)@) + linhas_de_fecho(*r),
{
    proof {
        reveal_strlit("-");
        reveal_strlit("=");
    }
    if r.deducoes_total > Money::zero() {
        anexar_linha(linhas, linha_de_valor("Deduções: R$ ", r.deducoes_total));
    }
    anexar_linha(linhas, tracar_regua("-"));
    anexar_linha(linhas, linha_de_valor("PAGAMENTO FINAL: R$ ", r.pagamento_final));
    anexar_linha(linhas, tracar_regua("="));
}

/// The summary of the payment `r`, one text for each line to show.
pub fn resumir(r: &ResultadoCalculo) -> (linhas: Vec<String>)
    ensures
        textos(linhas@) == linhas_do_resumo(*r),
{
    proof {
        reveal_strlit("=");
    }
    let mut linhas: Vec<String> = Vec::new();
    anexar_linha(&mut linhas, String::new());
    anexar_linha(&mut linhas, tracar_regua("="));
    anexar_linha(&mut linhas, String::from_str("RESUMO DO PAGAMENTO"));
    anexar_linha(&mut linhas, tracar_regua("="));
    anexar_linha(&mut linhas, linha_de_valor("Taxa fixa: R$ ", r.taxa_fixa));
    if let Some(c) = &r.calendario {
        anexar_calendario(&mut linhas, c);
    }
    anexar_transporte(&mut linhas, r);
    anexar_fecho(&mut linhas, r);
    linhas
}

} // verus!
