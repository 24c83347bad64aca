//! The conventions of a CI runner.

use vpnctl::erro::Erro;
use vpnctl::toolcore::{
    conclui_output, emite_anotacao, env_obrigatoria, escreve_output, mascara_env_logs,
    rodando_runner_github, Linha,
};

#[test]
fn env_obrigatoria_retorna_valor_quando_existe() {
    assert_eq!(env_obrigatoria("TOOLCORE_TEST_PRESENT", Some("abc".to_string())).unwrap(), "abc");
}

#[test]
fn env_obrigatoria_retorna_erro_quando_ausente() {
    let err = env_obrigatoria("TOOLCORE_TEST_ABSENT", None).unwrap_err();
    assert!(
        err.mensagem().contains("TOOLCORE_TEST_ABSENT"),
        "mensagem de erro deve citar a variável ausente"
    );
}

#[test]
fn escreve_output_usa_stdout_sem_github_output() {
    assert_eq!(escreve_output("k", "v", &None), Linha::Stdout("k=v".to_string()));
}

#[test]
fn escreve_output_usa_o_arquivo_com_github_output() {
    let arquivo = Some(b"/tmp/out".to_vec());
    assert_eq!(escreve_output("k", "v", &arquivo), Linha::Output("k=v".to_string()));
    let vazio = Some(Vec::new());
    assert_eq!(escreve_output("", "", &vazio), Linha::Output("=".to_string()));
}

#[test]
fn conclui_output_conta_o_que_falhou() {
    assert_eq!(conclui_output(Ok(Ok(()))), Ok(()));
    assert_eq!(
        conclui_output(Err("negado".to_string())),
        Err(Erro::AberturaOutput { causa: "negado".to_string() })
    );
    assert_eq!(
        conclui_output(Ok(Err("cheio".to_string()))),
        Err(Erro::EscritaOutput { causa: "cheio".to_string() })
    );
}

#[test]
fn anotacao_dentro_e_fora_da_runner() {
    assert_eq!(
        emite_anotacao("warning", "cuidado", true),
        Linha::Stdout("::warning::cuidado".to_string())
    );
    assert_eq!(
        emite_anotacao("error", "falhou", false),
        Linha::Stderr("[error] falhou".to_string())
    );
}

#[test]
fn mascara_env_logs_eh_noop_fora_da_runner() {
    assert_eq!(mascara_env_logs("segredo", rodando_runner_github(&None)), None);
    assert_eq!(mascara_env_logs("", rodando_runner_github(&None)), None);
}

#[test]
fn mascara_env_logs_dentro_da_runner() {
    assert_eq!(
        mascara_env_logs("segredo", true),
        Some(Linha::Stdout("::add-mask::segredo".to_string()))
    );
    assert_eq!(mascara_env_logs("", true), None);
}

#[test]
fn rodando_runner_github_detecta_variavel() {
    assert!(!rodando_runner_github(&None));
    assert!(rodando_runner_github(&Some(b"true".to_vec())));
    assert!(rodando_runner_github(&Some(Vec::new())));
}
