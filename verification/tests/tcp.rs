//! One TCP connection attempt, address by address.

use vpnctl::duracao::Duracao;
use vpnctl::erro::Erro;
use vpnctl::sistema::AmbienteReal;
use vpnctl::tcp::{AcaoTcp, EventoTcp, TentativaTcp};

/// Runs an attempt against a name that resolves to as many addresses as there are answers,
/// and gives its outcome with the indices that were tried.
fn conduz(
    mut tentativa: TentativaTcp,
    respostas: &[Result<(), &str>],
) -> (Result<(), Erro>, Vec<usize>) {
    let mut tentados = Vec::new();
    loop {
        let evento = match tentativa.acao() {
            AcaoTcp::Resolve(_) => EventoTcp::Resolvido(Ok(respostas.len())),
            AcaoTcp::Conecta { indice, .. } => {
                tentados.push(indice);
                EventoTcp::Conectou(respostas[indice].map_err(String::from))
            }
            AcaoTcp::Encerra => return (tentativa.resultado().unwrap(), tentados),
        };
        tentativa = tentativa.avanca(evento);
    }
}

#[test]
fn ambiente_real_conecta_a_listener_ativo() {
    let tentativa = AmbienteReal::tenta_conexao_tcp("127.0.0.1", 40123, Duracao::from_secs(2));
    assert_eq!(tentativa.acao(), AcaoTcp::Resolve("127.0.0.1:40123".to_string()));
    let (resultado, _) = conduz(tentativa, &[Ok(())]);
    assert!(resultado.is_ok(), "esperava sucesso, veio {resultado:?}");
}

#[test]
fn ambiente_real_falha_em_porta_fechada() {
    let tentativa = AmbienteReal::tenta_conexao_tcp("127.0.0.1", 40123, Duracao::from_millis(500));
    let (resultado, _) = conduz(tentativa, &[Err("Connection refused (os error 111)")]);
    assert!(resultado.is_err(), "esperava erro, veio {resultado:?}");
}

#[test]
fn acoes_levam_o_endereco_e_o_teto() {
    let teto = Duracao::from_secs(5);
    let t = AmbienteReal::tenta_conexao_tcp("servidor.interno", 65535, teto);
    assert_eq!(t.acao(), AcaoTcp::Resolve("servidor.interno:65535".to_string()));
    let t = t.avanca(EventoTcp::Resolvido(Ok(2)));
    assert_eq!(t.acao(), AcaoTcp::Conecta { indice: 0, timeout: teto });
    let t = t.avanca(EventoTcp::Conectou(Err("x".to_string())));
    assert_eq!(t.acao(), AcaoTcp::Conecta { indice: 1, timeout: teto });
    let t = t.avanca(EventoTcp::Conectou(Ok(())));
    assert_eq!(t.acao(), AcaoTcp::Encerra);
    assert_eq!(t.resultado(), Some(Ok(())));
}

#[test]
fn um_endereco_que_aceita_basta() {
    let t = AmbienteReal::tenta_conexao_tcp("h", 1, Duracao::from_secs(5));
    let (resultado, tentados) = conduz(t, &[Err("a"), Err("b"), Ok(()), Err("d")]);
    assert_eq!(resultado, Ok(()));
    assert_eq!(tentados, vec![0, 1, 2]);
}

#[test]
fn todos_os_enderecos_recusam() {
    let t = AmbienteReal::tenta_conexao_tcp("h", 1, Duracao::from_secs(5));
    let (resultado, tentados) = conduz(t, &[Err("a"), Err("b"), Err("c")]);
    assert_eq!(
        resultado,
        Err(Erro::ConexaoTcp { endereco: "h:1".to_string(), causa: "c".to_string() })
    );
    assert_eq!(tentados, vec![0, 1, 2]);
}

#[test]
fn nome_que_nao_resolve() {
    let t = AmbienteReal::tenta_conexao_tcp("h", 1, Duracao::from_secs(5));
    let (resultado, tentados) = conduz(t, &[]);
    assert_eq!(resultado, Err(Erro::NenhumEndereco { endereco: "h:1".to_string() }));
    assert!(tentados.is_empty());
    let t = AmbienteReal::tenta_conexao_tcp("h", 1, Duracao::from_secs(5))
        .avanca(EventoTcp::Resolvido(Err("desconhecido".to_string())));
    assert_eq!(
        t.resultado(),
        Some(Err(Erro::Resolucao {
            endereco: "h:1".to_string(),
            causa: "desconhecido".to_string(),
        }))
    );
}

#[test]
fn evento_que_nao_responde_nada_muda() {
    let inicial = || AmbienteReal::tenta_conexao_tcp("h", 1, Duracao::from_secs(5));
    assert_eq!(inicial().avanca(EventoTcp::Conectou(Ok(()))), inicial());
    let conectando = || inicial().avanca(EventoTcp::Resolvido(Ok(3)));
    assert_eq!(conectando().avanca(EventoTcp::Resolvido(Ok(0))), conectando());
    assert_eq!(conectando().resultado(), None);
}
