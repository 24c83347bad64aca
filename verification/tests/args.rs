//! The rules on credentials, and where the files of a session live.

use vpnctl::args::{
    mascara_credenciais, prepara_auth_file, valida_precondicoes, ArgsConectar, Provedor,
};
use vpnctl::caminho::{diretorio_trabalho, ArquivoTrabalho};
use vpnctl::erro::Erro;

fn com_credenciais(username: Option<&str>, password: Option<&str>) -> ArgsConectar {
    ArgsConectar {
        provider: Provedor::Openvpn,
        config: "/c/test.ovpn".to_string(),
        username: username.map(String::from),
        password: password.map(String::from),
        healthcheck_host: None,
        healthcheck_port: 443,
        timeout_secs: 1,
        interface: None,
        dry_run: false,
    }
}

#[test]
fn provedor_openvpn() {
    assert_eq!(Provedor::Openvpn.prefixo_interface(), "tun");
    assert_eq!(Provedor::Openvpn.nome(), format!("{:?}", Provedor::Openvpn));
}

#[test]
fn config_tem_de_ser_arquivo_regular() {
    let args = com_credenciais(Some("u"), None);
    let config = "/c/test.ovpn".to_string();
    assert_eq!(
        valida_precondicoes(&args, false, false),
        Err(Erro::ConfigNaoEncontrada { config: config.clone() })
    );
    assert_eq!(
        valida_precondicoes(&args, true, false),
        Err(Erro::ConfigNaoRegular { config })
    );
}

#[test]
fn credenciais_andam_juntas() {
    for (usuario, senha, esperado) in [
        (None, None, Ok(())),
        (Some("u"), Some("s"), Ok(())),
        (Some("u"), None, Err(Erro::SenhaAusente)),
        (None, Some("s"), Err(Erro::UsuarioAusente)),
    ] {
        let args = com_credenciais(usuario, senha);
        let preparado = prepara_auth_file(&args);
        assert_eq!(preparado.is_some(), usuario.is_some() && senha.is_some());
        assert_eq!(valida_precondicoes(&args, true, true), esperado);
    }
}

#[test]
fn credencial_vazia_equivale_a_ausente() {
    for (usuario, senha) in [("", ""), ("u", ""), ("", "s"), ("u", "s")] {
        let filtra = |s: &'static str| if s.is_empty() { None } else { Some(s) };
        let vazios = com_credenciais(Some(usuario), Some(senha));
        let ausentes = com_credenciais(filtra(usuario), filtra(senha));
        assert_eq!(
            valida_precondicoes(&vazios, true, true),
            valida_precondicoes(&ausentes, true, true)
        );
        assert_eq!(prepara_auth_file(&vazios), prepara_auth_file(&ausentes));
    }
}

#[test]
fn conteudo_do_auth_file() {
    let args = com_credenciais(Some("maria"), Some("senha-real"));
    assert_eq!(prepara_auth_file(&args), Some("maria\nsenha-real\n".to_string()));
}

#[test]
fn senha_a_mascarar() {
    assert_eq!(mascara_credenciais(&com_credenciais(None, Some("s"))), Some("s".to_string()));
    assert_eq!(mascara_credenciais(&com_credenciais(None, Some(""))), Some(String::new()));
    assert_eq!(mascara_credenciais(&com_credenciais(Some("u"), None)), None);
}

#[test]
fn caminhos_dos_arquivos_de_trabalho() {
    assert_eq!(ArquivoTrabalho::Pid.caminho("/tmp/vpnctl"), "/tmp/vpnctl/openvpn.pid");
    assert_eq!(ArquivoTrabalho::Config.caminho("/w/"), "/w/vpn.conf");
    assert_eq!(ArquivoTrabalho::Auth.caminho(""), "auth.txt");
    assert_eq!(ArquivoTrabalho::Auth.caminho("/"), "/auth.txt");
    for arquivo in [ArquivoTrabalho::Pid, ArquivoTrabalho::Config, ArquivoTrabalho::Auth] {
        for dir in ["", "/", "a", "a/", "/tmp//", "é"] {
            let esperado = std::path::Path::new(dir).join(arquivo.nome());
            assert_eq!(arquivo.caminho(dir), esperado.display().to_string());
        }
    }
}

#[test]
fn diretorio_de_trabalho_fixo() {
    let b = |s: &str| s.as_bytes().to_vec();
    assert_eq!(diretorio_trabalho(None), b("/tmp/vpnctl"));
    assert_eq!(diretorio_trabalho(Some(b("/work"))), b("/work/vpnctl"));
    assert_eq!(diretorio_trabalho(Some(b("/work/"))), b("/work/vpnctl"));
    assert_eq!(diretorio_trabalho(Some(b(""))), b("vpnctl"));
    assert_eq!(diretorio_trabalho(Some(vec![0xff])), b"\xff/vpnctl".to_vec());
}
