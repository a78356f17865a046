//! Monthly payment calculator: fixed-point currency, business-day calendar
//! and the payment breakdown built from them.

pub mod calculo;
pub mod calendario;
pub mod decimal;
pub mod dias_uteis;
pub mod entrada;
pub mod ida_e_volta;
pub mod money;
pub mod resumo;
pub mod texto;

pub use calculo::{
    calcular_valores, calcular_valores_com_calendario, tentar_calcular_valores,
    tentar_calcular_valores_com_calendario, InformacaoCalendario, ResultadoCalculo,
};
pub use calendario::{obter_nome_mes, Data, DiaDaSemana, ErroValidacao};
pub use decimal::ErroParse;
pub use dias_uteis::contar_dias_uteis;
pub use entrada::{
    interpretar_ano, interpretar_feriados, interpretar_inteiro, interpretar_mes, ErroEntrada,
};
pub use money::Money;
pub use resumo::resumir;
