//! Backoff, and what each look at the system means for a wait.

use std::collections::HashSet;

use vpnctl::args::{ArgsConectar, Provedor};
use vpnctl::duracao::Duracao;
use vpnctl::erro::Erro;
use vpnctl::espera::{
    aguarda_processo_morrer, backoff_com_jitter, calcula_backoff,
    descobre_interface, descobre_ip, verifica_healthcheck, Saude, Sondagem,
};

fn args(interface: Option<&str>) -> ArgsConectar {
    ArgsConectar {
        provider: Provedor::Openvpn,
        config: "/c/test.ovpn".to_string(),
        username: None,
        password: None,
        healthcheck_host: None,
        healthcheck_port: 443,
        timeout_secs: 60,
        interface: interface.map(String::from),
        dry_run: false,
    }
}

fn nomes(ns: &[&str]) -> Result<Vec<String>, Erro> {
    Ok(ns.iter().map(|n| n.to_string()).collect())
}

#[test]
fn calcula_backoff_cresce_com_tentativas() {
    let menor = |n: u32| {
        (0..30)
            .map(|_| calcula_backoff(n).as_millis())
            .min()
            .unwrap()
    };
    assert!(menor(0) < menor(1), "tentativa 0 deve ser menor que 1");
    assert!(menor(1) < menor(2), "tentativa 1 deve ser menor que 2");
    assert!(menor(2) < menor(3), "tentativa 2 deve ser menor que 3");
}

#[test]
fn calcula_backoff_tem_teto() {
    let maior = (0..50)
        .map(|_| calcula_backoff(10).as_millis())
        .max()
        .unwrap();
    assert!(
        maior <= 8_200,
        "backoff não deve passar de 8s + 200ms de jitter, veio {maior}ms"
    );
}

#[test]
fn calcula_backoff_respeita_limite_de_jitter() {
    for tentativa in 0..5u32 {
        let base_esperada = 500u128 * 2u128.pow(tentativa.min(4));
        let base = base_esperada.min(8_000);
        for _ in 0..30 {
            let ms = calcula_backoff(tentativa).as_millis();
            assert!(
                ms >= base && ms < base + 200,
                "tentativa={tentativa} ms={ms} base={base}"
            );
        }
    }
}

#[test]
fn backoff_exato_para_cada_jitter() {
    assert_eq!(backoff_com_jitter(0, 0).as_millis(), 500);
    assert_eq!(backoff_com_jitter(1, 7).as_millis(), 1_007);
    assert_eq!(backoff_com_jitter(2, 199).as_millis(), 2_199);
    assert_eq!(backoff_com_jitter(3, 1).as_millis(), 4_001);
    assert_eq!(backoff_com_jitter(4, 0).as_millis(), 8_000);
    assert_eq!(backoff_com_jitter(5, 0).as_millis(), 8_000);
    assert_eq!(backoff_com_jitter(u32::MAX, 199).as_millis(), 8_199);
}

#[test]
fn parte_aleatoria_varia() {
    let vistos: HashSet<u128> = (0..200).map(|_| calcula_backoff(0).as_millis()).collect();
    assert!(vistos.len() > 1, "{vistos:?}");
    assert!(vistos.iter().all(|ms| (500..700).contains(ms)), "{vistos:?}");
}

#[test]
fn duracoes_exatas() {
    assert_eq!(Duracao::from_secs(3).nanos, 3_000_000_000);
    assert_eq!(Duracao::from_millis(1_500).as_secs(), 1);
    assert_eq!(Duracao::from_millis(1_500).as_millis(), 1_500);
    assert_eq!(Duracao::from_secs(u64::MAX).as_secs(), u128::from(u64::MAX));
    let (a, b) = (Duracao::from_millis(300), Duracao::from_millis(1_000));
    assert_eq!(a.ate(b), Duracao::from_millis(700));
    assert_eq!(b.ate(a), Duracao { nanos: 0 });
}

#[test]
fn interface_pedida_e_a_usada() {
    let t = Duracao::from_secs(1);
    let zero = Duracao { nanos: 0 };
    assert_eq!(
        descobre_interface(&args(Some("wg0")), nomes(&["tun0", "wg0"]), zero, t),
        Sondagem::Concluida("wg0".to_string())
    );
    assert_eq!(
        descobre_interface(&args(Some("wg0")), nomes(&["tun0", "wg01"]), zero, t),
        Sondagem::Repete(Duracao::from_millis(500))
    );
    assert_eq!(
        descobre_interface(&args(Some("wg0")), nomes(&["tun0"]), t, t),
        Sondagem::Falha(Erro::TimeoutInterface { segundos: 1, nome: "wg0".to_string() })
    );
}

#[test]
fn primeira_interface_com_o_prefixo() {
    let t = Duracao::from_secs(60);
    let zero = Duracao { nanos: 0 };
    assert_eq!(
        descobre_interface(&args(None), nomes(&["lo", "atun", "tun3", "tun0"]), zero, t),
        Sondagem::Concluida("tun3".to_string())
    );
    assert_eq!(
        descobre_interface(&args(None), nomes(&["lo", "tu"]), t, t),
        Sondagem::Falha(Erro::TimeoutPrefixo { segundos: 60, prefixo: "tun".to_string() })
    );
    assert_eq!(
        descobre_interface(&args(None), nomes(&["tun"]), t, t),
        Sondagem::Concluida("tun".to_string())
    );
}

#[test]
fn falha_ao_listar_encerra_a_espera() {
    let falha = Erro::IpLinkNaoExecutou { causa: "nao achei".to_string() };
    let causa = falha.mensagem();
    assert_eq!(
        descobre_interface(&args(None), Err(falha), Duracao { nanos: 0 }, Duracao::from_secs(9)),
        Sondagem::Falha(Erro::ListaInterfaces { causa })
    );
}

#[test]
fn espera_pelo_endereco() {
    let t = Duracao::from_secs(2);
    assert_eq!(
        descobre_ip("tun0", Ok(Some("10.8.0.2".to_string())), t, t),
        Sondagem::Concluida("10.8.0.2".to_string())
    );
    assert_eq!(
        descobre_ip("tun0", Ok(None), Duracao { nanos: t.nanos - 1 }, t),
        Sondagem::Repete(Duracao::from_millis(500))
    );
    assert_eq!(
        descobre_ip("tun0", Ok(None), t, t),
        Sondagem::Falha(Erro::TimeoutIp { segundos: 2, interface: "tun0".to_string() })
    );
    assert_eq!(
        descobre_ip("tun0", Err(Erro::IpAddrNaoExecutou { causa: "x".to_string() }), t, t),
        Sondagem::Falha(Erro::IpAddrNaoExecutou { causa: "x".to_string() })
    );
}

#[test]
fn tentativa_do_healthcheck() {
    let t = Duracao::from_secs(30);
    let espera = Duracao::from_millis(555);
    let recusa = || {
        Err(Erro::ConexaoTcp { endereco: "h:1".to_string(), causa: "refused".to_string() })
    };
    let causa = "connect TCP para h:1 falhou em todos os endereços: refused".to_string();
    assert_eq!(verifica_healthcheck("h", 1, 1, Ok(()), t, t, espera), Saude::Saudavel);
    assert_eq!(
        verifica_healthcheck("h", 1, 2, recusa(), Duracao { nanos: t.nanos - 1 }, t, espera),
        Saude::Retenta { espera, causa: causa.clone() }
    );
    assert_eq!(
        verifica_healthcheck("h", 1, 3, recusa(), t, t, espera),
        Saude::Falha(Erro::Healthcheck {
            host: "h".to_string(),
            porta: 1,
            tentativas: 3,
            segundos: 30,
            causa,
        })
    );
}

#[test]
fn espera_pelo_fim_do_processo() {
    let t = Duracao::from_secs(10);
    let quase = Duracao { nanos: t.nanos - 1 };
    let pausa = Duracao::from_millis(200);
    assert_eq!(aguarda_processo_morrer(7, Ok(true), quase, t), Sondagem::Repete(pausa));
    assert_eq!(
        aguarda_processo_morrer(7, Ok(true), t, t),
        Sondagem::Falha(Erro::NaoEncerrou { pid: 7, segundos: 10 })
    );
    let sonda = || Erro::SondaNaoExecutou { causa: "x".to_string() };
    assert_eq!(aguarda_processo_morrer(7, Err(sonda()), quase, t), Sondagem::Falha(sonda()));
}

#[test]
fn processo_que_se_foi_nao_e_falha_por_tarde_que_seja() {
    let zero = Duracao { nanos: 0 };
    let t = Duracao::from_secs(10);
    assert_eq!(aguarda_processo_morrer(7, Ok(false), zero, t), Sondagem::Concluida(()));
    assert_eq!(
        aguarda_processo_morrer(7, Ok(false), Duracao::from_secs(99), t),
        Sondagem::Concluida(())
    );
    assert_eq!(aguarda_processo_morrer(7, Ok(false), zero, zero), Sondagem::Concluida(()));
}
