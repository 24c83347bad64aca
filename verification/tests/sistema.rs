//! Calls to the commands of the system, and what their output means.

use vpnctl::caminho::ArquivoTrabalho;
use vpnctl::erro::Erro;
use vpnctl::sistema::{
    extrai_interfaces, extrai_ipv4, AmbienteReal, Argumento, Chamada, SaidaProcesso,
};

fn saida(sucesso: bool, stdout: &str, stderr: &str) -> Result<SaidaProcesso, String> {
    Ok(SaidaProcesso {
        sucesso,
        status: if sucesso { "exit status: 0" } else { "exit status: 1" }.to_string(),
        stdout: stdout.to_string(),
        stderr: stderr.to_string(),
    })
}

fn texto(t: &str) -> Argumento {
    Argumento::Texto(t.to_string())
}

#[test]
fn extrai_ipv4_de_saida_tipica() {
    let saida = "5: tun0    inet 10.8.0.2/24 brd 10.8.0.255 scope global tun0\\       valid_lft forever preferred_lft forever";
    assert_eq!(extrai_ipv4(saida), Some("10.8.0.2".to_string()));
}

#[test]
fn extrai_ipv4_de_ip_sem_prefixo_cidr() {
    let saida = "5: tun0    inet 10.8.0.2 scope global tun0";
    assert_eq!(extrai_ipv4(saida), Some("10.8.0.2".to_string()));
}

#[test]
fn extrai_ipv4_retorna_none_para_saida_vazia() {
    assert_eq!(extrai_ipv4(""), None);
}

#[test]
fn extrai_ipv4_retorna_none_quando_nao_ha_inet() {
    let saida = "5: tun0    <POINTOPOINT,MULTICAST,NOARP,UP,LOWER_UP> mtu 1500 state UNKNOWN";
    assert_eq!(extrai_ipv4(saida), None);
}

#[test]
fn extrai_ipv4_ignora_linha_em_branco_inicial() {
    let saida = "\n5: tun0    inet 10.8.0.2/24 scope global tun0";
    assert_eq!(extrai_ipv4(saida), Some("10.8.0.2".to_string()));
}

#[test]
fn extrai_ipv4_passa_a_linha_sem_endereco() {
    let saida = "5: tun0 inet\r\n5: tun0 inet6 fe80::1/64\n5: tun0 inet /24 x\n";
    assert_eq!(extrai_ipv4(saida), Some(String::new()));
    let saida = "5: tun0 inet\n5: tun0 inet 10.1.1.1/8/9 inet 10.2.2.2\n";
    assert_eq!(extrai_ipv4(saida), Some("10.1.1.1".to_string()));
}

#[test]
fn endereco_extraido_nao_tem_prefixo_nem_branco() {
    for saida in [
        "1: a inet 1.2.3.4/5/6",
        "1: a\tinet\t1.2.3.4/24\n",
        "inet a/b inet c/d",
        "\n\n inet  /",
    ] {
        let ip = extrai_ipv4(saida).unwrap();
        assert!(!ip.contains('/'), "{ip}");
        assert!(!ip.contains(char::is_whitespace), "{ip}");
    }
}

#[test]
fn extrai_interfaces_de_saida_tipica() {
    let saida = "1: lo: <LOOPBACK,UP,LOWER_UP> mtu 65536\n\
                 2: eth0: <BROADCAST,MULTICAST,UP,LOWER_UP> mtu 1500\n\
                 \n\
                 so-um-campo\n\
                 7: tun0: <POINTOPOINT,UP> mtu 1500\n";
    assert_eq!(extrai_interfaces(saida), vec!["lo", "eth0", "tun0"]);
    assert_eq!(extrai_interfaces(""), Vec::<String>::new());
    assert_eq!(extrai_interfaces("1: a:b::: x\n2: ::: y"), vec!["a:b", ""]);
}

#[test]
fn linha_em_branco_nao_muda_a_lista() {
    let saida = "1: lo: x\n2: tun0: y";
    let com_branco = format!("\n{saida}");
    assert_eq!(extrai_interfaces(&com_branco), extrai_interfaces(saida));
}

#[test]
fn nomes_extraidos_nao_tem_branco_nem_dois_pontos_no_fim() {
    for nome in extrai_interfaces("1: lo: x\n2: a::: y\n3:\tb:c\tz\n4: : w") {
        assert!(!nome.ends_with(':'), "{nome}");
        assert!(!nome.contains(char::is_whitespace), "{nome}");
    }
}

#[test]
fn chamadas_do_sistema() {
    assert_eq!(
        AmbienteReal::chamada_lista_interfaces(),
        Chamada {
            programa: "ip".to_string(),
            argumentos: vec![texto("-o"), texto("link"), texto("show")],
        }
    );
    assert_eq!(
        AmbienteReal::chamada_le_ipv4("tun7"),
        Chamada {
            programa: "ip".to_string(),
            argumentos: vec![
                texto("-4"),
                texto("-o"),
                texto("addr"),
                texto("show"),
                texto("dev"),
                texto("tun7"),
            ],
        }
    );
    assert_eq!(
        AmbienteReal::chamada_termino(4242),
        Chamada {
            programa: "kill".to_string(),
            argumentos: vec![texto("-TERM"), texto("4242")],
        }
    );
    assert_eq!(
        AmbienteReal::chamada_sonda(4242),
        Chamada {
            programa: "kill".to_string(),
            argumentos: vec![texto("-0"), texto("4242")],
        }
    );
}

#[test]
fn chamada_do_openvpn_com_e_sem_credenciais() {
    let sem = AmbienteReal::chamada_openvpn(ArquivoTrabalho::Config, None, ArquivoTrabalho::Pid);
    assert_eq!(sem.programa, "openvpn");
    assert_eq!(
        sem.argumentos,
        vec![
            texto("--config"),
            Argumento::Arquivo(ArquivoTrabalho::Config),
            texto("--daemon"),
            texto("--writepid"),
            Argumento::Arquivo(ArquivoTrabalho::Pid),
        ]
    );
    let com = AmbienteReal::chamada_openvpn(
        ArquivoTrabalho::Config,
        Some(ArquivoTrabalho::Auth),
        ArquivoTrabalho::Pid,
    );
    assert_eq!(com.argumentos.len(), 7);
    assert_eq!(com.argumentos[..5], sem.argumentos[..]);
    assert_eq!(com.argumentos[5], texto("--auth-user-pass"));
    assert_eq!(com.argumentos[6], Argumento::Arquivo(ArquivoTrabalho::Auth));
}

#[test]
fn lista_interfaces_conforme_a_execucao() {
    assert_eq!(
        AmbienteReal::lista_interfaces(saida(true, "1: lo: x\n2: tun0: y\n", "aviso")),
        Ok(vec!["lo".to_string(), "tun0".to_string()])
    );
    assert_eq!(
        AmbienteReal::lista_interfaces(saida(false, "1: lo: x\n", "  sem permissao \n")),
        Err(Erro::IpLinkRetornou {
            status: "exit status: 1".to_string(),
            stderr: "sem permissao".to_string(),
        })
    );
    assert_eq!(
        AmbienteReal::lista_interfaces(Err("nao achei".to_string())),
        Err(Erro::IpLinkNaoExecutou { causa: "nao achei".to_string() })
    );
}

#[test]
fn le_ipv4_conforme_a_execucao() {
    let linha = "5: tun0    inet 10.8.0.2/24 scope global tun0";
    assert_eq!(
        AmbienteReal::le_ipv4_da_interface(saida(true, linha, "")),
        Ok(Some("10.8.0.2".to_string()))
    );
    assert_eq!(AmbienteReal::le_ipv4_da_interface(saida(true, "", "")), Ok(None));
    assert_eq!(
        AmbienteReal::le_ipv4_da_interface(Err("nao achei".to_string())),
        Err(Erro::IpAddrNaoExecutou { causa: "nao achei".to_string() })
    );
}

#[test]
fn interface_que_ainda_nao_existe_nao_e_falha() {
    let linha = "5: tun0    inet 10.8.0.2/24 scope global tun0";
    assert_eq!(
        AmbienteReal::le_ipv4_da_interface(saida(false, linha, "Device does not exist")),
        Ok(None)
    );
}

#[test]
fn executa_openvpn_conforme_a_execucao() {
    assert_eq!(AmbienteReal::executa_openvpn(saida(true, "x", "y")), Ok(()));
    assert_eq!(
        AmbienteReal::executa_openvpn(saida(false, "\tfora \n", " dentro\n")),
        Err(Erro::OpenvpnRetornou {
            status: "exit status: 1".to_string(),
            stderr: "dentro".to_string(),
            stdout: "fora".to_string(),
        })
    );
    assert_eq!(
        AmbienteReal::executa_openvpn(Err("nao achei".to_string())),
        Err(Erro::OpenvpnNaoExecutou { causa: "nao achei".to_string() })
    );
}

#[test]
fn sinal_de_termino_conforme_a_execucao() {
    assert_eq!(AmbienteReal::envia_sinal_termino(9, saida(true, "", "")), Ok(()));
    assert_eq!(
        AmbienteReal::envia_sinal_termino(9, saida(false, "", " Operation not permitted\n")),
        Err(Erro::KillFalhou { pid: 9, stderr: "Operation not permitted".to_string() })
    );
    assert_eq!(
        AmbienteReal::envia_sinal_termino(9, Err("nao achei".to_string())),
        Err(Erro::KillNaoExecutou { causa: "nao achei".to_string() })
    );
}

#[test]
fn processo_ausente_nao_e_falha() {
    let stderr = "kill: (4242) - No such process\n";
    assert_eq!(AmbienteReal::envia_sinal_termino(4242, saida(false, "", stderr)), Ok(()));
    assert!(AmbienteReal::envia_sinal_termino(4242, saida(false, "", "No such proces")).is_err());
}

#[test]
fn processo_vivo_conforme_a_execucao() {
    assert_eq!(AmbienteReal::processo_vivo(saida(true, "", "")), Ok(true));
    assert_eq!(AmbienteReal::processo_vivo(saida(false, "", "")), Ok(false));
    assert_eq!(
        AmbienteReal::processo_vivo(Err("nao achei".to_string())),
        Err(Erro::SondaNaoExecutou { causa: "nao achei".to_string() })
    );
}
