use pagamento::texto::espaco;
use pagamento::{ErroParse, Money};

/// Reads an amount with `str::trim`, `str::find` and `str::parse`, to
/// compare with.
fn leitura_com_str(s: &str) -> Result<i64, ErroParse> {
    let s = s.trim();
    if s.is_empty() {
        return Ok(0);
    }
    let negativo = s.starts_with('-');
    let s = if negativo { &s[1..] } else { s };
    let (total, erro) = if let Some(p) = s.find('.') {
        let reais: i64 = s[..p]
            .parse()
            .map_err(|_| ErroParse::ParteInteiraInvalida)?;
        let resto = &s[p + 1..];
        let centavos: i64 = match resto.len() {
            0 => 0,
            1 => {
                let d: i64 = resto
                    .parse()
                    .map_err(|_| ErroParse::ParteFracionariaInvalida)?;
                d * 10
            }
            2 => resto
                .parse()
                .map_err(|_| ErroParse::ParteFracionariaInvalida)?,
            _ => return Err(ErroParse::CasasDecimaisDemais),
        };
        (
            reais as i128 * 100 + centavos as i128,
            ErroParse::ParteInteiraInvalida,
        )
    } else {
        let reais: i64 = s.parse().map_err(|_| ErroParse::NumeroInvalido)?;
        (reais as i128 * 100, ErroParse::NumeroInvalido)
    };
    let v = if negativo { -total } else { total };
    i64::try_from(v).map_err(|_| erro)
}

#[test]
fn zero_e_construtores() {
    assert_eq!(Money::zero().to_centavos(), 0);
    assert_eq!(Money::from_reais(7).to_centavos(), 700);
    assert_eq!(Money::from_reais(-7).to_centavos(), -700);
    assert_eq!(Money::from_centavos(-1).to_centavos(), -1);
    assert_eq!(Money::from_centavos(i64::MAX).to_centavos(), i64::MAX);
    assert_eq!(Money::from_reais(0), Money::zero());
}

#[test]
fn texto_vazio_e_zero() {
    assert_eq!(Money::parse(""), Ok(Money::zero()));
    assert_eq!(Money::parse("  "), Ok(Money::zero()));
    assert_eq!(Money::parse("\t\r\n"), Ok(Money::zero()));
}

#[test]
fn ponto_final_sem_casas() {
    assert_eq!(Money::parse("100."), Money::parse("100"));
    assert_eq!(Money::parse("100"), Ok(Money::from_reais(100)));
}

#[test]
fn valores_negativos() {
    assert_eq!(Money::parse("-7.5"), Ok(Money::from_centavos(-750)));
    assert_eq!(Money::from_centavos(-2050).to_string(), "-20.50");
    assert_eq!(Money::parse("-0"), Ok(Money::zero()));
    assert_eq!(Money::parse("-0.05"), Ok(Money::from_centavos(-5)));
}

#[test]
fn casas_decimais_demais() {
    assert_eq!(Money::parse("1.234"), Err(ErroParse::CasasDecimaisDemais));
    assert_eq!(Money::parse("1.2345678"), Err(ErroParse::CasasDecimaisDemais));
    assert_eq!(Money::parse("-0.000"), Err(ErroParse::CasasDecimaisDemais));
    assert_eq!(Money::parse("1.2.3"), Err(ErroParse::CasasDecimaisDemais));
    // the places are counted in bytes
    assert_eq!(Money::parse("1.€"), Err(ErroParse::CasasDecimaisDemais));
    // what stands before the point is looked at first
    assert_eq!(Money::parse("x.234"), Err(ErroParse::ParteInteiraInvalida));
}

#[test]
fn parte_inteira_invalida() {
    assert_eq!(Money::parse("abc.50"), Err(ErroParse::ParteInteiraInvalida));
    assert_eq!(Money::parse(".5"), Err(ErroParse::ParteInteiraInvalida));
    assert_eq!(Money::parse("-.5"), Err(ErroParse::ParteInteiraInvalida));
    assert_eq!(Money::parse("1 2.5"), Err(ErroParse::ParteInteiraInvalida));
    assert_eq!(
        Money::parse("99999999999999999999.00"),
        Err(ErroParse::ParteInteiraInvalida)
    );
}

#[test]
fn parte_fracionaria_invalida() {
    assert_eq!(Money::parse("1.x"), Err(ErroParse::ParteFracionariaInvalida));
    assert_eq!(Money::parse("1.5x"), Err(ErroParse::ParteFracionariaInvalida));
    assert_eq!(Money::parse("1.-"), Err(ErroParse::ParteFracionariaInvalida));
    assert_eq!(Money::parse("1. 5"), Err(ErroParse::ParteFracionariaInvalida));
    // one character of two bytes
    assert_eq!(Money::parse("1.é"), Err(ErroParse::ParteFracionariaInvalida));
}

#[test]
fn numero_invalido() {
    assert_eq!(Money::parse("abc"), Err(ErroParse::NumeroInvalido));
    assert_eq!(Money::parse("-"), Err(ErroParse::NumeroInvalido));
    assert_eq!(Money::parse("12a"), Err(ErroParse::NumeroInvalido));
    assert_eq!(Money::parse("1,50"), Err(ErroParse::NumeroInvalido));
    assert_eq!(Money::parse("1 000"), Err(ErroParse::NumeroInvalido));
    assert_eq!(
        Money::parse("99999999999999999999"),
        Err(ErroParse::NumeroInvalido)
    );
    // a zero-width space is no white space
    assert_eq!(Money::parse("\u{200b}5"), Err(ErroParse::NumeroInvalido));
}

#[test]
fn sinais_na_parte_inteira() {
    assert_eq!(Money::parse("+5"), Ok(Money::from_centavos(500)));
    assert_eq!(Money::parse("+5.25"), Ok(Money::from_centavos(525)));
    assert_eq!(Money::parse("-+5"), Ok(Money::from_centavos(-500)));
    assert_eq!(Money::parse("--5"), Ok(Money::from_centavos(500)));
    assert_eq!(Money::parse("+"), Err(ErroParse::NumeroInvalido));
    assert_eq!(Money::parse("+-5"), Err(ErroParse::NumeroInvalido));
}

#[test]
fn espacos_em_volta() {
    assert_eq!(Money::parse("  7.5\n"), Ok(Money::from_centavos(750)));
    assert_eq!(Money::parse("\t-3\r\n"), Ok(Money::from_centavos(-300)));
    assert_eq!(
        Money::parse("\u{a0}12.34\u{3000}"),
        Ok(Money::from_centavos(1234))
    );
    assert_eq!(Money::parse("- 5"), Err(ErroParse::NumeroInvalido));
}

#[test]
fn zeros_a_esquerda() {
    assert_eq!(Money::parse("007"), Ok(Money::from_centavos(700)));
    assert_eq!(Money::parse("000.05"), Ok(Money::from_centavos(5)));
    assert_eq!(
        Money::parse("0000000000000000000000000001.5"),
        Ok(Money::from_centavos(150))
    );
}

#[test]
fn limites_de_64_bits() {
    assert_eq!(
        Money::parse("92233720368547758.07"),
        Ok(Money::from_centavos(i64::MAX))
    );
    assert_eq!(
        Money::parse("-92233720368547758.08"),
        Ok(Money::from_centavos(i64::MIN))
    );
    assert_eq!(
        Money::parse("92233720368547758.08"),
        Err(ErroParse::ParteInteiraInvalida)
    );
    assert_eq!(
        Money::parse("-92233720368547758.09"),
        Err(ErroParse::ParteInteiraInvalida)
    );
    assert_eq!(
        Money::parse("92233720368547759"),
        Err(ErroParse::NumeroInvalido)
    );
    assert_eq!(
        Money::parse("9223372036854775807"),
        Err(ErroParse::NumeroInvalido)
    );
    assert_eq!(
        Money::parse("92233720368547758"),
        Ok(Money::from_centavos(9223372036854775800))
    );
}

#[test]
fn escrita_de_valores() {
    assert_eq!(Money::zero().to_string(), "0.00");
    assert_eq!(Money::from_centavos(5).to_string(), "0.05");
    assert_eq!(Money::from_centavos(50).to_string(), "0.50");
    assert_eq!(Money::from_centavos(100).to_string(), "1.00");
    assert_eq!(Money::from_centavos(-100).to_string(), "-1.00");
    assert_eq!(Money::from_centavos(-101).to_string(), "-1.01");
    assert_eq!(Money::from_centavos(1234567890).to_string(), "12345678.90");
    assert_eq!(
        Money::from_centavos(i64::MAX).to_string(),
        "92233720368547758.07"
    );
    assert_eq!(
        Money::from_centavos(i64::MIN).to_string(),
        "-92233720368547758.08"
    );
}

#[test]
fn escrita_perde_o_sinal_abaixo_de_uma_unidade() {
    assert_eq!(Money::from_centavos(-50).to_string(), "0.50");
    assert_eq!(Money::from_centavos(-1).to_string(), "0.01");
    assert_eq!(Money::from_centavos(-99).to_string(), "0.99");
    assert_eq!(Money::parse("-0.5").unwrap().to_string(), "0.50");
}

#[test]
fn ida_e_volta_em_forma_canonica() {
    let casos = [
        ("7.5", "7.50"),
        ("7.50", "7.50"),
        ("7", "7.00"),
        ("7.", "7.00"),
        (" 007.05 ", "7.05"),
        ("0", "0.00"),
        ("-0", "0.00"),
        ("-0.00", "0.00"),
        ("000", "0.00"),
        ("-20.5", "-20.50"),
        ("-1.01", "-1.01"),
        ("123456789.99", "123456789.99"),
        ("-92233720368547758.08", "-92233720368547758.08"),
    ];
    for (texto, canonico) in casos {
        assert_eq!(Money::parse(texto).unwrap().to_string(), canonico);
    }
}

#[test]
fn escrita_e_lida_de_volta() {
    let mut valores = vec![i64::MIN, i64::MIN + 1, i64::MAX, i64::MAX - 1];
    for v in -100_000i64..=100_000 {
        valores.push(v);
    }
    for v in valores {
        let m = Money::from_centavos(v);
        let lido = Money::parse(&m.to_string()).unwrap();
        if -100 < v && v < 0 {
            assert_eq!(lido, Money::from_centavos(-v));
        } else {
            assert_eq!(lido, m);
        }
    }
}

#[test]
fn escrita_igual_a_formatacao_padrao() {
    let mut valores = vec![i64::MIN, i64::MAX, 1 << 40, -(1 << 40)];
    for v in -20_000i64..=20_000 {
        valores.push(v);
    }
    for v in valores {
        let esperado = format!("{}.{:02}", v / 100, (v % 100).abs());
        assert_eq!(Money::from_centavos(v).to_string(), esperado);
    }
}

#[test]
fn leitura_igual_a_da_biblioteca_padrao() {
    let pedacos = [
        "", " ", "-", "+", ".", "0", "5", "12", "007", "x", "é", "€", "\u{a0}", "\n",
        "9223372036854775807", "92233720368547758",
    ];
    let mut textos: Vec<String> = Vec::new();
    for a in pedacos {
        for b in pedacos {
            for c in pedacos {
                textos.push(format!("{}{}{}", a, b, c));
                textos.push(format!("{}.{}{}", a, b, c));
                textos.push(format!("{}{}.{}", a, b, c));
            }
        }
    }
    for t in &textos {
        let esperado = leitura_com_str(t).map(Money::from_centavos);
        assert_eq!(Money::parse(t), esperado, "texto: {:?}", t);
    }
}

#[test]
fn espaco_segue_o_unicode() {
    let mut u: u32 = 0;
    while u <= 0x10FFFF {
        if let Some(c) = char::from_u32(u) {
            assert_eq!(espaco(c), c.is_whitespace(), "U+{:04X}", u);
        }
        u += 1;
    }
}

#[test]
fn soma_subtracao_e_multiplicacao() {
    let a = Money::from_centavos(1050);
    let b = Money::from_centavos(275);
    assert_eq!(a + b, Money::from_centavos(1325));
    assert_eq!(a - b, Money::from_centavos(775));
    assert_eq!(b - a, Money::from_centavos(-775));
    assert_eq!(a * 3, Money::from_centavos(3150));
    assert_eq!(a * -2, Money::from_centavos(-2100));
    assert_eq!(a * 0, Money::zero());
    assert_eq!(Money::from_centavos(750) * 19 * 2, Money::from_centavos(28500));
    assert_eq!(
        Money::from_centavos(i64::MAX - 1) + Money::from_centavos(1),
        Money::from_centavos(i64::MAX)
    );
}

#[test]
fn ordem_e_igualdade() {
    let a = Money::from_centavos(-1);
    let b = Money::zero();
    let c = Money::from_centavos(1);
    assert!(a < b && b < c && a < c);
    assert!(c > b && b >= b && a <= a);
    assert!(!(b < b) && !(c < a));
    assert_eq!(a.partial_cmp(&b), Some(std::cmp::Ordering::Less));
    assert_eq!(b.partial_cmp(&b), Some(std::cmp::Ordering::Equal));
    assert_eq!(c.partial_cmp(&b), Some(std::cmp::Ordering::Greater));
    assert_eq!(a.cmp(&c), std::cmp::Ordering::Less);
    assert_eq!(std::cmp::max(a, c), c);
    assert_eq!(Money::from_reais(1), Money::from_centavos(100));
    assert_ne!(Money::from_reais(1), Money::from_centavos(101));
    let mut v = vec![c, a, b];
    v.sort();
    assert_eq!(v, vec![a, b, c]);
}
