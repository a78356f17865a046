use pagamento::{Data, DiaDaSemana, ErroValidacao};

const SEMANA: [DiaDaSemana; 7] = [
    DiaDaSemana::Segunda,
    DiaDaSemana::Terca,
    DiaDaSemana::Quarta,
    DiaDaSemana::Quinta,
    DiaDaSemana::Sexta,
    DiaDaSemana::Sabado,
    DiaDaSemana::Domingo,
];

fn bissexto(ano: i32) -> bool {
    ano.rem_euclid(4) == 0 && (ano.rem_euclid(100) != 0 || ano.rem_euclid(400) == 0)
}

fn dias_do_mes(ano: i32, mes: u32) -> u32 {
    match mes {
        2 => {
            if bissexto(ano) {
                29
            } else {
                28
            }
        }
        4 | 6 | 9 | 11 => 30,
        _ => 31,
    }
}

/// Day of the week by a table of month offsets, 0 for Monday.
fn semana_por_tabela(ano: i32, mes: u32, dia: u32) -> usize {
    let t = [0i64, 3, 2, 5, 0, 3, 5, 1, 4, 6, 2, 4];
    let a = if mes < 3 { ano as i64 - 1 } else { ano as i64 };
    let domingo_zero = (a + a.div_euclid(4) - a.div_euclid(100)
        + a.div_euclid(400)
        + t[(mes - 1) as usize]
        + dia as i64)
        .rem_euclid(7);
    ((domingo_zero + 6) % 7) as usize
}

fn data(ano: i32, mes: u32, dia: u32) -> Data {
    Data { ano, mes, dia }
}

#[test]
fn datas_que_existem() {
    for (ano, mes, dia) in [
        (2024, 2, 29),
        (2000, 2, 29),
        (2023, 2, 28),
        (2024, 1, 1),
        (2024, 12, 31),
        (1900, 1, 1),
        (2100, 12, 31),
        (0, 2, 29),
        (-4, 2, 29),
        (1, 1, 1),
        (262142, 12, 31),
        (-262143, 1, 1),
    ] {
        assert_eq!(Data::nova(ano, mes, dia), Ok(data(ano, mes, dia)));
    }
}

#[test]
fn datas_que_nao_existem() {
    for (ano, mes, dia) in [
        (2023, 2, 29),
        (1900, 2, 29),
        (2100, 2, 29),
        (2024, 2, 30),
        (2024, 4, 31),
        (2024, 6, 31),
        (2024, 9, 31),
        (2024, 11, 31),
        (2024, 1, 32),
        (2024, 0, 1),
        (2024, 13, 1),
        (2024, 1, 0),
        (2024, u32::MAX, 1),
        (2024, 1, u32::MAX),
        (262143, 1, 1),
        (-262144, 12, 31),
        (i32::MAX, 1, 1),
        (i32::MIN, 1, 1),
    ] {
        assert_eq!(
            Data::nova(ano, mes, dia),
            Err(ErroValidacao::DataInvalida),
            "{}-{}-{}",
            ano,
            mes,
            dia
        );
    }
}

#[test]
fn todas_as_datas_de_cada_mes() {
    for ano in [-262143, -401, -1, 0, 1, 1582, 1900, 2000, 2023, 2024, 2100, 262142] {
        for mes in 1..=12 {
            let ultimo = dias_do_mes(ano, mes);
            for dia in 0..=32 {
                assert_eq!(
                    Data::nova(ano, mes, dia).is_ok(),
                    1 <= dia && dia <= ultimo,
                    "{}-{}-{}",
                    ano,
                    mes,
                    dia
                );
            }
        }
    }
}

#[test]
fn dia_apos_dia_por_dois_seculos() {
    let mut atual = data(1899, 12, 25);
    // 25 December 1899 was a Monday
    let mut semana = 0;
    let fim = data(2101, 1, 10);
    let mut passos = 0;
    while atual != fim {
        assert_eq!(atual.dia_da_semana(), Ok(SEMANA[semana]), "{:?}", atual);
        assert_eq!(
            semana,
            semana_por_tabela(atual.ano, atual.mes, atual.dia),
            "{:?}",
            atual
        );
        let esperado = if atual.dia < dias_do_mes(atual.ano, atual.mes) {
            data(atual.ano, atual.mes, atual.dia + 1)
        } else if atual.mes < 12 {
            data(atual.ano, atual.mes + 1, 1)
        } else {
            data(atual.ano + 1, 1, 1)
        };
        let seguinte = atual.dia_seguinte().unwrap();
        assert_eq!(seguinte, esperado);
        assert_eq!(seguinte.dia_anterior(), Ok(atual));
        assert!(atual.nao_posterior(&seguinte));
        assert!(!seguinte.nao_posterior(&atual));
        atual = seguinte;
        semana = (semana + 1) % 7;
        passos += 1;
    }
    assert_eq!(passos, 73430);
}

#[test]
fn dias_da_semana_conhecidos() {
    assert_eq!(data(2024, 1, 1).dia_da_semana(), Ok(DiaDaSemana::Segunda));
    assert_eq!(data(2024, 2, 29).dia_da_semana(), Ok(DiaDaSemana::Quinta));
    assert_eq!(data(2024, 11, 2).dia_da_semana(), Ok(DiaDaSemana::Sabado));
    assert_eq!(data(2024, 11, 3).dia_da_semana(), Ok(DiaDaSemana::Domingo));
    assert_eq!(data(2000, 1, 1).dia_da_semana(), Ok(DiaDaSemana::Sabado));
    assert_eq!(data(1970, 1, 1).dia_da_semana(), Ok(DiaDaSemana::Quinta));
    assert_eq!(data(1900, 1, 1).dia_da_semana(), Ok(DiaDaSemana::Segunda));
    assert_eq!(data(2100, 12, 31).dia_da_semana(), Ok(DiaDaSemana::Sexta));
    assert_eq!(data(1, 1, 1).dia_da_semana(), Ok(DiaDaSemana::Segunda));
    assert_eq!(data(2015, 9, 8).dia_da_semana(), Ok(DiaDaSemana::Terca));
    assert_eq!(data(-308, 3, 14).dia_da_semana(), Ok(DiaDaSemana::Sexta));
    assert_eq!(data(2024, 9, 11).dia_da_semana(), Ok(DiaDaSemana::Quarta));
}

#[test]
fn dias_da_semana_por_todo_o_calendario() {
    let mut ano = -262143;
    while ano <= 262142 {
        for mes in 1..=12 {
            for dia in [1, 15, dias_do_mes(ano, mes)] {
                assert_eq!(
                    data(ano, mes, dia).dia_da_semana(),
                    Ok(SEMANA[semana_por_tabela(ano, mes, dia)]),
                    "{}-{}-{}",
                    ano,
                    mes,
                    dia
                );
            }
        }
        ano += 97;
    }
}

#[test]
fn viradas_de_mes_e_de_ano() {
    assert_eq!(data(2024, 2, 28).dia_seguinte(), Ok(data(2024, 2, 29)));
    assert_eq!(data(2024, 2, 29).dia_seguinte(), Ok(data(2024, 3, 1)));
    assert_eq!(data(2023, 2, 28).dia_seguinte(), Ok(data(2023, 3, 1)));
    assert_eq!(data(2024, 12, 31).dia_seguinte(), Ok(data(2025, 1, 1)));
    assert_eq!(data(2024, 4, 30).dia_seguinte(), Ok(data(2024, 5, 1)));
    assert_eq!(data(-1, 12, 31).dia_seguinte(), Ok(data(0, 1, 1)));
    assert_eq!(data(2024, 3, 1).dia_anterior(), Ok(data(2024, 2, 29)));
    assert_eq!(data(2023, 3, 1).dia_anterior(), Ok(data(2023, 2, 28)));
    assert_eq!(data(2025, 1, 1).dia_anterior(), Ok(data(2024, 12, 31)));
    assert_eq!(data(2024, 12, 1).dia_anterior(), Ok(data(2024, 11, 30)));
    assert_eq!(data(2024, 8, 1).dia_anterior(), Ok(data(2024, 7, 31)));
    assert_eq!(data(0, 1, 1).dia_anterior(), Ok(data(-1, 12, 31)));
    assert_eq!(data(2024, 6, 15).dia_anterior(), Ok(data(2024, 6, 14)));
}

#[test]
fn pontas_do_calendario() {
    let primeira = data(-262143, 1, 1);
    let ultima = data(262142, 12, 31);
    assert_eq!(primeira.dia_anterior(), Err(ErroValidacao::DataInvalida));
    assert_eq!(ultima.dia_seguinte(), Err(ErroValidacao::DataInvalida));
    assert_eq!(primeira.dia_seguinte(), Ok(data(-262143, 1, 2)));
    assert_eq!(ultima.dia_anterior(), Ok(data(262142, 12, 30)));
    assert!(primeira.dia_da_semana().is_ok());
    assert!(ultima.dia_da_semana().is_ok());
}

#[test]
fn data_invalida_nao_tem_vizinhos_nem_dia_da_semana() {
    for d in [data(2023, 2, 29), data(2024, 13, 1), data(2024, 1, 0), data(300000, 1, 1)] {
        assert_eq!(d.dia_seguinte(), Err(ErroValidacao::DataInvalida));
        assert_eq!(d.dia_anterior(), Err(ErroValidacao::DataInvalida));
        assert_eq!(d.dia_da_semana(), Err(ErroValidacao::DataInvalida));
    }
}

#[test]
fn ordem_das_datas() {
    let a = data(2024, 5, 10);
    assert!(a.nao_posterior(&a));
    assert!(a.nao_posterior(&data(2024, 5, 11)));
    assert!(a.nao_posterior(&data(2024, 6, 1)));
    assert!(a.nao_posterior(&data(2025, 1, 1)));
    assert!(!a.nao_posterior(&data(2024, 5, 9)));
    assert!(!a.nao_posterior(&data(2024, 4, 30)));
    assert!(!a.nao_posterior(&data(2023, 12, 31)));
}

#[test]
fn mensagens_dos_erros() {
    assert_eq!(
        ErroValidacao::MesForaDoIntervalo.mensagem(),
        "Mês deve estar entre 1 e 12"
    );
    assert_eq!(
        ErroValidacao::AnoForaDoIntervalo.mensagem(),
        "Ano deve estar entre 1900 e 2100"
    );
    assert_eq!(ErroValidacao::DataInvalida.mensagem(), "Data inválida");
    assert_eq!(
        pagamento::ErroParse::ParteInteiraInvalida.mensagem(),
        "Invalid reais part"
    );
    assert_eq!(
        pagamento::ErroParse::ParteFracionariaInvalida.mensagem(),
        "Invalid cents part"
    );
    assert_eq!(
        pagamento::ErroParse::CasasDecimaisDemais.mensagem(),
        "Too many decimal places"
    );
    assert_eq!(
        pagamento::ErroParse::NumeroInvalido.mensagem(),
        "Invalid number"
    );
}
