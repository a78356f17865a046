use pagamento::{
    calcular_valores, calcular_valores_com_calendario, contar_dias_uteis, obter_nome_mes, Money,
};

#[test]
fn test_money_parsing() {
    assert_eq!(Money::parse("123.45").unwrap(), Money::from_centavos(12345));
    assert_eq!(Money::parse("7.50").unwrap(), Money::from_centavos(750));
    assert_eq!(Money::parse("7.5").unwrap(), Money::from_centavos(750));
    assert_eq!(Money::parse("100").unwrap(), Money::from_reais(100));
    assert_eq!(Money::parse("100.").unwrap(), Money::from_reais(100));
    assert_eq!(Money::parse("").unwrap(), Money::zero());
    assert_eq!(Money::parse("  ").unwrap(), Money::zero());
    assert_eq!(Money::parse("-20.50").unwrap(), Money::from_centavos(-2050));
    assert_eq!(Money::parse("-100").unwrap(), Money::from_centavos(-10000));
    assert_eq!(Money::parse("-7.5").unwrap(), Money::from_centavos(-750));
}

#[test]
fn test_calculo_basico() {
    let resultado = calcular_valores(
        Money::from_reais(100),
        Money::from_reais(5),
        10,
        Money::zero(),
    );

    assert_eq!(resultado.custo_transporte, Money::from_reais(100)); // 5 * 10 * 2
    assert_eq!(resultado.pagamento_final, Money::from_reais(200)); // 100 + 100 - 0
}

#[test]
fn test_calculo_com_deducoes() {
    let resultado = calcular_valores(
        Money::from_reais(150),
        Money::parse("7.50").unwrap(),
        8,
        Money::from_reais(25),
    );

    assert_eq!(resultado.custo_transporte, Money::from_reais(120)); // 7.50 * 8 * 2
    assert_eq!(resultado.pagamento_final, Money::from_reais(245)); // 150 + 120 - 25
}

#[test]
fn test_valores_zero() {
    let resultado = calcular_valores(Money::zero(), Money::zero(), 0, Money::zero());

    assert_eq!(resultado.custo_transporte, Money::zero());
    assert_eq!(resultado.pagamento_final, Money::zero());
}

#[test]
fn test_apenas_taxa_fixa() {
    let resultado = calcular_valores(Money::from_reais(200), Money::zero(), 5, Money::zero());

    assert_eq!(resultado.custo_transporte, Money::zero());
    assert_eq!(resultado.pagamento_final, Money::from_reais(200));
}

#[test]
fn test_apenas_transporte() {
    let resultado = calcular_valores(Money::zero(), Money::from_reais(10), 6, Money::zero());

    assert_eq!(resultado.custo_transporte, Money::from_reais(120)); // 10 * 6 * 2
    assert_eq!(resultado.pagamento_final, Money::from_reais(120));
}

#[test]
fn test_deducoes_maiores_que_pagamento() {
    let resultado = calcular_valores(
        Money::from_reais(50),
        Money::from_reais(5),
        3,
        Money::from_reais(100),
    );

    assert_eq!(resultado.custo_transporte, Money::from_reais(30)); // 5 * 3 * 2
    assert_eq!(resultado.pagamento_final, Money::from_centavos(-2000)); // 50 + 30 - 100 = -20
}

#[test]
fn test_valores_decimais() {
    let resultado = calcular_valores(
        Money::parse("123.45").unwrap(),
        Money::parse("3.75").unwrap(),
        4,
        Money::parse("15.50").unwrap(),
    );

    assert_eq!(resultado.custo_transporte, Money::from_reais(30)); // 3.75 * 4 * 2
    assert_eq!(resultado.pagamento_final, Money::parse("137.95").unwrap()); // 123.45 + 30 - 15.50
}

#[test]
fn test_money_display() {
    assert_eq!(Money::from_centavos(12345).to_string(), "123.45");
    assert_eq!(Money::from_centavos(750).to_string(), "7.50");
    assert_eq!(Money::from_reais(100).to_string(), "100.00");
    assert_eq!(Money::from_centavos(-2050).to_string(), "-20.50");
    assert_eq!(Money::from_centavos(-750).to_string(), "-7.50");
}

#[test]
fn test_estrutura_retorno() {
    let resultado = calcular_valores(
        Money::from_reais(100),
        Money::from_reais(5),
        2,
        Money::from_reais(10),
    );

    assert_eq!(resultado.taxa_fixa, Money::from_reais(100));
    assert_eq!(resultado.taxa_transporte, Money::from_reais(5));
    assert_eq!(resultado.dias_trabalhados, 2);
    assert_eq!(resultado.deducoes_total, Money::from_reais(10));
}

#[test]
fn test_contar_dias_uteis_novembro_2024() {
    let dias_uteis = contar_dias_uteis(11, 2024).unwrap();
    assert_eq!(dias_uteis, 21);
}

#[test]
fn test_contar_dias_uteis_fevereiro_2024() {
    let dias_uteis = contar_dias_uteis(2, 2024).unwrap();
    assert_eq!(dias_uteis, 21);
}

#[test]
fn test_contar_dias_uteis_mes_invalido() {
    assert!(contar_dias_uteis(0, 2024).is_err());
    assert!(contar_dias_uteis(13, 2024).is_err());
}

#[test]
fn test_contar_dias_uteis_ano_invalido() {
    assert!(contar_dias_uteis(1, 1899).is_err());
    assert!(contar_dias_uteis(1, 2101).is_err());
}

#[test]
fn test_obter_nome_mes() {
    assert_eq!(obter_nome_mes(1), "Janeiro");
    assert_eq!(obter_nome_mes(2), "Fevereiro");
    assert_eq!(obter_nome_mes(11), "Novembro");
    assert_eq!(obter_nome_mes(12), "Dezembro");
}

#[test]
fn test_calcular_valores_com_calendario() {
    let resultado = calcular_valores_com_calendario(
        Money::from_reais(150),
        Money::parse("7.50").unwrap(),
        11,
        2024,
        2,
        Money::from_reais(25),
    )
    .unwrap();

    assert_eq!(resultado.taxa_fixa, Money::from_reais(150));
    assert_eq!(resultado.taxa_transporte, Money::parse("7.50").unwrap());
    assert_eq!(resultado.dias_trabalhados, 19); // 21 - 2

    // 7.50 * 19 * 2 = 285.00
    assert_eq!(resultado.custo_transporte, Money::from_centavos(28500));

    // 150 + 285 - 25 = 410
    assert_eq!(resultado.pagamento_final, Money::from_reais(410));

    let calendario = resultado.calendario.unwrap();
    assert_eq!(calendario.mes, 11);
    assert_eq!(calendario.ano, 2024);
    assert_eq!(calendario.nome_mes, "Novembro");
    assert_eq!(calendario.dias_uteis_mes, 21);
    assert_eq!(calendario.feriados_deduzidos, 2);
    assert_eq!(calendario.dias_trabalhados, 19);
}

#[test]
fn test_calcular_valores_com_feriados_excessivos() {
    let resultado = calcular_valores_com_calendario(
        Money::from_reais(100),
        Money::from_reais(10),
        11,
        2024,
        25,
        Money::zero(),
    )
    .unwrap();

    assert_eq!(resultado.dias_trabalhados, 0);
    assert_eq!(resultado.custo_transporte, Money::zero());
    assert_eq!(resultado.pagamento_final, Money::from_reais(100));
}

#[test]
fn test_calcular_valores_com_calendario_sem_feriados() {
    let resultado = calcular_valores_com_calendario(
        Money::from_reais(200),
        Money::from_reais(5),
        1,
        2024,
        0,
        Money::zero(),
    )
    .unwrap();

    let calendario = resultado.calendario.unwrap();
    assert_eq!(calendario.feriados_deduzidos, 0);
    assert_eq!(calendario.dias_trabalhados, calendario.dias_uteis_mes);
}

#[test]
fn copia_do_resultado() {
    let resultado = calcular_valores_com_calendario(
        Money::from_reais(150),
        Money::from_centavos(750),
        11,
        2024,
        2,
        Money::from_reais(25),
    )
    .unwrap();
    let copia = resultado.clone();
    assert_eq!(format!("{:?}", copia), format!("{:?}", resultado));
    assert_eq!(copia.pagamento_final, Money::from_reais(410));
    let calendario = copia.calendario.unwrap();
    let outra = calendario.clone();
    assert_eq!(outra.nome_mes, "Novembro");
    assert_eq!(outra.dias_trabalhados, 19);
    assert_eq!(format!("{:?}", outra), format!("{:?}", calendario));
}
