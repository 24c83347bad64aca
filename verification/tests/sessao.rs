//! Whole runs of the commands, in an environment that lives in memory: its files are a
//! map, and its clock moves only when a run sleeps.

use std::collections::{HashMap, HashSet};

use vpnctl::acao::{Acao, Evento, MODO_RESTRITO};
use vpnctl::args::{ArgsConectar, Comando, Provedor};
use vpnctl::caminho::ArquivoTrabalho;
use vpnctl::conexao::{
    conectar_com, mensagem_retentativa, restringe_permissoes, Conexao, EtapaConexao,
};
use vpnctl::desconexao::{desconectar_com, le_pid_do_arquivo, Desconexao, EtapaDesconexao};
use vpnctl::duracao::Duracao;
use vpnctl::erro::Erro;
use vpnctl::execucao::{conectar, desconectar, executa, Execucao};
use vpnctl::numero::NumeroInvalido;
use vpnctl::sistema::{AmbienteReal, SaidaProcesso};
use vpnctl::tcp::{AcaoTcp, EventoTcp};
use vpnctl::toolcore::{emite_anotacao, escreve_output, mascara_env_logs, Linha};

const WORKDIR: &str = "/tmp/vpnctl";
const CONFIG: &str = "/etc/test.ovpn";

/// What the clock shows at first.
const INICIO: Duracao = Duracao { nanos: 1_000_000_007 };

/// What the clock shows so many milliseconds later.
fn apos_ms(ms: u64) -> Duracao {
    Duracao { nanos: INICIO.nanos + Duracao::from_millis(ms).nanos }
}

struct AmbienteFake {
    interfaces: Vec<String>,
    ips: HashMap<String, String>,
    openvpn_erro: Option<String>,
    tcp_erro: Option<String>,
    /// Failed attempts after which the host answers.
    tcp_recusas: Option<usize>,
    openvpn_chamado: usize,
    tcp_chamadas: usize,
    sinais_enviados: Vec<u32>,
    processos_vivos: HashSet<u32>,
    /// Processes do not end when they are asked to.
    processos_teimosos: bool,
    /// When such a process ends after all.
    fim_do_teimoso: Option<Duracao>,
    /// When the interfaces begin to be listed, and to have addresses.
    interfaces_desde: Duracao,
    ips_desde: Duracao,
    arquivos: HashMap<String, String>,
    modos: HashMap<String, u32>,
    /// Content of the outputs file, where there is one.
    github_output: Option<String>,
    no_runner: bool,
    stdout: Vec<String>,
    stderr: Vec<String>,
    relogio: Duracao,
    acoes: Vec<Acao>,
}

impl AmbienteFake {
    fn novo() -> Self {
        let mut arquivos = HashMap::new();
        arquivos.insert(CONFIG.to_string(), "client\ndev tun\n".to_string());
        Self {
            interfaces: Vec::new(),
            ips: HashMap::new(),
            openvpn_erro: None,
            tcp_erro: None,
            tcp_recusas: None,
            openvpn_chamado: 0,
            tcp_chamadas: 0,
            sinais_enviados: Vec::new(),
            processos_vivos: HashSet::new(),
            processos_teimosos: false,
            fim_do_teimoso: None,
            interfaces_desde: Duracao { nanos: 0 },
            ips_desde: Duracao { nanos: 0 },
            arquivos,
            modos: HashMap::new(),
            github_output: None,
            no_runner: false,
            stdout: Vec::new(),
            stderr: Vec::new(),
            relogio: INICIO,
            acoes: Vec::new(),
        }
    }

    fn adiciona_interface(&mut self, nome: &str) {
        self.interfaces.push(nome.to_string());
    }

    fn adiciona_ip(&mut self, iface: &str, ip: &str) {
        self.ips.insert(iface.to_string(), ip.to_string());
    }

    fn arquivo(&self, arquivo: ArquivoTrabalho) -> Option<&String> {
        self.arquivos.get(&arquivo.caminho(WORKDIR))
    }

    fn escreve(&mut self, linha: Linha) {
        match linha {
            Linha::Stdout(t) => self.stdout.push(t),
            Linha::Stderr(t) => self.stderr.push(t),
            Linha::Output(t) => {
                let conteudo = self.github_output.as_mut().unwrap();
                conteudo.push_str(&t);
                conteudo.push('\n');
            }
        }
    }

    fn dorme(&mut self, d: Duracao) {
        self.relogio.nanos += d.nanos;
    }

    fn tenta_tcp(&mut self, host: &str, porta: u16, timeout: Duracao) -> Result<(), Erro> {
        self.tcp_chamadas += 1;
        if self.tcp_recusas.map_or(false, |n| self.tcp_chamadas > n) {
            self.tcp_erro = None;
        }
        let mut tentativa = AmbienteReal::tenta_conexao_tcp(host, porta, timeout);
        loop {
            let evento = match tentativa.acao() {
                AcaoTcp::Resolve(_) => EventoTcp::Resolvido(Ok(1)),
                AcaoTcp::Conecta { .. } => EventoTcp::Conectou(match &self.tcp_erro {
                    Some(msg) => Err(msg.clone()),
                    None => Ok(()),
                }),
                AcaoTcp::Encerra => return tentativa.resultado().unwrap(),
            };
            tentativa = tentativa.avanca(evento);
        }
    }

    /// Performs an action and tells what came of it.
    fn realiza(&mut self, acao: Acao) -> Evento {
        let evento = match &acao {
            Acao::PreparaDiretorio => {
                Evento::Diretorio { dir: WORKDIR.to_string(), criado: Ok(()) }
            }
            Acao::InspecionaConfig => {
                let existe = self.arquivos.contains_key(CONFIG);
                Evento::Config { existe, regular: existe }
            }
            Acao::Mascara(senha) => {
                if let Some(linha) = mascara_env_logs(senha, self.no_runner) {
                    self.escreve(linha);
                }
                Evento::Feito
            }
            Acao::LeConfig => Evento::Lido(Ok(self.arquivos[CONFIG].clone())),
            Acao::EscreveArquivo { arquivo, conteudo } => {
                self.arquivos.insert(arquivo.caminho(WORKDIR), conteudo.clone());
                Evento::Gravado(Ok(()))
            }
            Acao::RestringePermissoes { arquivo, modo } => {
                self.modos.insert(arquivo.caminho(WORKDIR), *modo);
                Evento::Gravado(Ok(()))
            }
            Acao::Imprime(t) => {
                self.stdout.push(t.clone());
                Evento::Feito
            }
            Acao::Anota { level, message } => {
                let linha = emite_anotacao(level, message, self.no_runner);
                self.escreve(linha);
                Evento::Feito
            }
            Acao::ExecutaOpenvpn { .. } => {
                self.openvpn_chamado += 1;
                let (sucesso, stderr) = match &self.openvpn_erro {
                    Some(msg) => (false, msg.clone()),
                    None => (true, String::new()),
                };
                Evento::Executado(AmbienteReal::executa_openvpn(Ok(SaidaProcesso {
                    sucesso,
                    status: "exit status: 1".to_string(),
                    stdout: String::new(),
                    stderr,
                })))
            }
            Acao::ListaInterfaces => {
                let vistas = if self.relogio.nanos >= self.interfaces_desde.nanos {
                    self.interfaces.as_slice()
                } else {
                    &[]
                };
                let stdout: String =
                    vistas.iter().map(|i| format!("2: {i}: <UP> mtu 1500\n")).collect();
                Evento::Interfaces(AmbienteReal::lista_interfaces(Ok(SaidaProcesso {
                    sucesso: true,
                    status: "exit status: 0".to_string(),
                    stdout,
                    stderr: String::new(),
                })))
            }
            Acao::LeIpv4 { interface } => {
                let stdout = match self.ips.get(interface) {
                    Some(ip) if self.relogio.nanos >= self.ips_desde.nanos => format!("5: {interface}    inet {ip}/24 scope global\n"),
                    _ => String::new(),
                };
                Evento::Ipv4(AmbienteReal::le_ipv4_da_interface(Ok(SaidaProcesso {
                    sucesso: true,
                    status: "exit status: 0".to_string(),
                    stdout,
                    stderr: String::new(),
                })))
            }
            Acao::Dorme(d) => {
                self.dorme(*d);
                Evento::Feito
            }
            Acao::PublicaOutput { key, value } => {
                let destino = self.github_output.as_ref().map(|_| b"/out".to_vec());
                let linha = escreve_output(key, value, &destino);
                self.escreve(linha);
                Evento::Executado(Ok(()))
            }
            Acao::TentaConexaoTcp { host, porta, timeout } => {
                Evento::Executado(self.tenta_tcp(host, *porta, *timeout))
            }
            Acao::Retenta { tentativa, causa, espera } => {
                let texto = format!("{:.2}", espera.as_millis() as f64 / 1000.0);
                self.stdout.push(mensagem_retentativa(*tentativa, causa, &texto));
                self.dorme(*espera);
                Evento::Feito
            }
            Acao::LePid { pid_file } => {
                Evento::Pid(self.arquivo(*pid_file).map(|c| Ok(c.clone())))
            }
            Acao::EnviaSinalTermino { pid } => {
                self.sinais_enviados.push(*pid);
                if !self.processos_teimosos {
                    self.processos_vivos.remove(pid);
                }
                Evento::Executado(Ok(()))
            }
            Acao::ConsultaProcesso { pid } => {
                if self.fim_do_teimoso.map_or(false, |f| self.relogio.nanos >= f.nanos) {
                    self.processos_vivos.remove(pid);
                }
                Evento::Vivo(AmbienteReal::processo_vivo(Ok(SaidaProcesso {
                    sucesso: self.processos_vivos.contains(pid),
                    status: String::new(),
                    stdout: String::new(),
                    stderr: String::new(),
                })))
            }
            Acao::RemoveArquivo(arquivo) => {
                self.arquivos.remove(&arquivo.caminho(WORKDIR));
                Evento::Feito
            }
            Acao::Encerra => unreachable!(),
        };
        self.acoes.push(acao);
        evento
    }

    fn conecta(&mut self, args: ArgsConectar) -> Result<(), Erro> {
        let mut c = conectar_com(args, WORKDIR.to_string());
        while c.acao() != Acao::Encerra {
            assert!(c.pode_avancar());
            let evento = self.realiza(c.acao());
            c = c.avanca(evento, self.relogio);
        }
        c.resultado().unwrap()
    }

    fn desconecta(&mut self) -> Result<(), Erro> {
        let mut d = desconectar_com(WORKDIR.to_string());
        while d.acao() != Acao::Encerra {
            let evento = self.realiza(d.acao());
            d = d.avanca(evento, self.relogio);
        }
        d.resultado().unwrap()
    }

    fn roda(&mut self, mut e: Execucao) -> Result<(), Erro> {
        while e.acao() != Acao::Encerra {
            assert!(e.pode_avancar());
            let evento = self.realiza(e.acao());
            e = e.avanca(evento, self.relogio);
        }
        e.resultado().unwrap()
    }

    fn fez(&self, teste: fn(&Acao) -> bool) -> usize {
        self.acoes.iter().filter(|a| teste(a)).count()
    }
}

fn args_padrao() -> ArgsConectar {
    ArgsConectar {
        provider: Provedor::Openvpn,
        config: CONFIG.to_string(),
        username: None,
        password: None,
        healthcheck_host: None,
        healthcheck_port: 443,
        timeout_secs: 1,
        interface: None,
        dry_run: false,
    }
}

// --- conectar ---

#[test]
fn sucesso_completo_com_healthcheck() {
    let mut fake = AmbienteFake::novo();
    fake.adiciona_interface("tun0");
    fake.adiciona_ip("tun0", "10.8.0.2");

    let mut args = args_padrao();
    args.healthcheck_host = Some("servidor.interno".into());

    let resultado = fake.conecta(args);
    assert!(resultado.is_ok(), "{resultado:?}");
    assert_eq!(fake.openvpn_chamado, 1);
    assert_eq!(fake.tcp_chamadas, 1);
    assert_eq!(
        fake.stdout,
        vec![
            "openvpn iniciado em modo daemon (pid file: /tmp/vpnctl/openvpn.pid)",
            "túnel ativo em tun0 (10.8.0.2)",
            "interface=tun0",
            "tunnel-ip=10.8.0.2",
            "healthcheck OK em servidor.interno:443 (tentativa 1)",
        ]
    );
    assert!(fake.stderr.is_empty());
}

#[test]
fn sucesso_sem_healthcheck_emite_warning() {
    let mut fake = AmbienteFake::novo();
    fake.adiciona_interface("tun0");
    fake.adiciona_ip("tun0", "10.8.0.2");

    let args = args_padrao();

    let resultado = fake.conecta(args);
    assert!(resultado.is_ok(), "{resultado:?}");
    assert_eq!(fake.tcp_chamadas, 0, "não deve tentar TCP");
    assert_eq!(
        fake.stderr,
        vec!["[warning] healthcheck não configurado — conectividade pós-túnel não foi validada"]
    );
}

#[test]
fn falha_do_openvpn_interrompe_fluxo() {
    let mut fake = AmbienteFake::novo();
    fake.openvpn_erro = Some("config inválida".into());

    let args = args_padrao();

    let resultado = fake.conecta(args);
    assert!(resultado.is_err());
    let msg = resultado.unwrap_err().mensagem();
    assert!(msg.contains("config inválida"), "{msg}");
    assert_eq!(fake.tcp_chamadas, 0, "não deve chegar no TCP");
    assert!(matches!(fake.acoes.last(), Some(Acao::ExecutaOpenvpn { .. })));
}

#[test]
fn timeout_esperando_interface() {
    let mut fake = AmbienteFake::novo();

    let args = args_padrao();

    let resultado = fake.conecta(args);
    assert!(resultado.is_err());
    let msg = resultado.unwrap_err().mensagem();
    assert!(msg.contains("timeout"), "{msg}");
    assert_eq!(msg, "timeout de 1s aguardando interface com prefixo 'tun*' aparecer");
    assert_eq!(fake.fez(|a| *a == Acao::ListaInterfaces), 3);
    assert_eq!(fake.fez(|a| *a == Acao::Dorme(Duracao::from_millis(500))), 2);
}

#[test]
fn timeout_esperando_ip() {
    let mut fake = AmbienteFake::novo();
    fake.adiciona_interface("tun0");

    let args = args_padrao();

    let resultado = fake.conecta(args);
    assert!(resultado.is_err());
    let msg = resultado.unwrap_err().mensagem();
    assert!(msg.contains("IPv4"), "{msg}");
    assert_eq!(fake.fez(|a| matches!(a, Acao::LeIpv4 { .. })), 3);
}

#[test]
fn falha_do_healthcheck_apos_tunel_ok() {
    let mut fake = AmbienteFake::novo();
    fake.adiciona_interface("tun0");
    fake.adiciona_ip("tun0", "10.8.0.2");
    fake.tcp_erro = Some("connection refused".into());

    let mut args = args_padrao();
    args.healthcheck_host = Some("servidor.interno".into());

    let resultado = fake.conecta(args);
    assert!(resultado.is_err());
    let msg = resultado.unwrap_err().mensagem();
    assert!(msg.contains("healthcheck"), "{msg}");
    assert!(fake.tcp_chamadas >= 1, "deve ter tentado TCP");
    assert!(msg.starts_with("healthcheck falhou em servidor.interno:443 após "), "{msg}");
    assert!(msg.contains(&format!(" após {} tentativa(s) em 1s: ", fake.tcp_chamadas)), "{msg}");
    assert!(msg.ends_with("connection refused"), "{msg}");
}

#[test]
fn dry_run_nao_chama_ambiente() {
    let mut fake = AmbienteFake::novo();

    let mut args = args_padrao();
    args.dry_run = true;

    let resultado = fake.conecta(args);
    assert!(resultado.is_ok(), "{resultado:?}");
    assert_eq!(fake.openvpn_chamado, 0);
    assert_eq!(fake.tcp_chamadas, 0);
    assert_eq!(
        fake.stdout,
        vec![
            "dry-run: validação concluída sem subir o túnel\n  config segura: \
             /tmp/vpnctl/vpn.conf\n  provider:      Openvpn"
        ]
    );
}

#[test]
fn dry_run_mostra_o_auth_file() {
    let mut fake = AmbienteFake::novo();
    let mut args = args_padrao();
    args.dry_run = true;
    args.username = Some("u".into());
    args.password = Some("s".into());
    assert_eq!(fake.conecta(args), Ok(()));
    assert_eq!(
        fake.stdout,
        vec![
            "dry-run: validação concluída sem subir o túnel\n  config segura: \
             /tmp/vpnctl/vpn.conf\n  auth file:     /tmp/vpnctl/auth.txt\n  provider:      Openvpn"
        ]
    );
    assert_eq!(fake.arquivo(ArquivoTrabalho::Config).unwrap(), "client\ndev tun\n");
}

#[test]
fn interface_explicita_e_respeitada() {
    let mut fake = AmbienteFake::novo();
    fake.adiciona_interface("outra0");
    fake.adiciona_interface("tun5");
    fake.adiciona_ip("tun5", "10.9.0.1");
    fake.adiciona_ip("outra0", "192.168.1.1");

    let mut args = args_padrao();
    args.interface = Some("tun5".into());

    let resultado = fake.conecta(args);
    assert!(resultado.is_ok(), "{resultado:?}");
    assert!(fake.stdout.contains(&"túnel ativo em tun5 (10.9.0.1)".to_string()));
}

#[test]
fn auth_file_nao_eh_criado_com_credenciais_vazias() {
    let mut fake = AmbienteFake::novo();
    fake.adiciona_interface("tun0");
    fake.adiciona_ip("tun0", "10.8.0.2");

    let mut args = args_padrao();
    args.username = Some(String::new());
    args.password = Some(String::new());

    let resultado = fake.conecta(args);
    assert!(resultado.is_ok(), "{resultado:?}");
    assert!(
        !fake.arquivos.contains_key("/tmp/vpnctl/auth.txt"),
        "auth.txt não deve existir quando credenciais são vazias"
    );
}

#[test]
fn usuario_vazio_com_senha_preenchida_eh_rejeitado() {
    let mut fake = AmbienteFake::novo();

    let mut args = args_padrao();
    args.username = Some(String::new());
    args.password = Some("senha-real".into());

    let resultado = fake.conecta(args);
    assert!(resultado.is_err());
    let msg = resultado.unwrap_err().mensagem();
    assert!(msg.contains("--password"), "{msg}");
    assert_eq!(fake.acoes, vec![Acao::InspecionaConfig]);
}

#[test]
fn conectar_com_publica_outputs_em_github_output() {
    let mut fake = AmbienteFake::novo();
    fake.github_output = Some(String::new());
    fake.adiciona_interface("tun0");
    fake.adiciona_ip("tun0", "10.8.0.2");
    let args = args_padrao();

    let resultado = fake.conecta(args);

    assert!(resultado.is_ok(), "{resultado:?}");
    let conteudo = fake.github_output.unwrap();
    assert!(
        conteudo.contains("interface=tun0"),
        "output 'interface' não publicado; conteúdo foi:\n{conteudo}"
    );
    assert!(
        conteudo.contains("tunnel-ip=10.8.0.2"),
        "output 'tunnel-ip' não publicado; conteúdo foi:\n{conteudo}"
    );
    assert_eq!(conteudo, "interface=tun0\ntunnel-ip=10.8.0.2\n");
}

#[test]
fn conectar_com_em_falha_nao_publica_outputs() {
    let mut fake = AmbienteFake::novo();
    fake.github_output = Some(String::new());
    let mut args = args_padrao();
    args.timeout_secs = 1;

    let resultado = fake.conecta(args);

    assert!(
        resultado.is_err(),
        "esperava falha por timeout de interface"
    );
    let conteudo = fake.github_output.unwrap();
    assert!(
        !conteudo.contains("interface="),
        "outputs não deveriam ter sido publicados em falha; conteúdo foi:\n{conteudo}"
    );
}

#[test]
fn arquivos_prontos_e_restritos_antes_do_cliente() {
    let mut fake = AmbienteFake::novo();
    fake.no_runner = true;
    fake.openvpn_erro = Some("x".into());
    let mut args = args_padrao();
    args.username = Some("maria".into());
    args.password = Some("senha-real".into());
    assert!(fake.conecta(args).is_err());
    let texto = |s: &str| s.to_string();
    assert_eq!(
        fake.acoes,
        vec![
            Acao::InspecionaConfig,
            Acao::Mascara(texto("senha-real")),
            Acao::LeConfig,
            Acao::EscreveArquivo {
                arquivo: ArquivoTrabalho::Config,
                conteudo: texto("client\ndev tun\n"),
            },
            Acao::RestringePermissoes { arquivo: ArquivoTrabalho::Config, modo: 0o600 },
            Acao::EscreveArquivo {
                arquivo: ArquivoTrabalho::Auth,
                conteudo: texto("maria\nsenha-real\n"),
            },
            Acao::RestringePermissoes { arquivo: ArquivoTrabalho::Auth, modo: MODO_RESTRITO },
            Acao::ExecutaOpenvpn {
                config: ArquivoTrabalho::Config,
                auth: Some(ArquivoTrabalho::Auth),
                pid_file: ArquivoTrabalho::Pid,
            },
        ]
    );
    assert_eq!(fake.stdout, vec!["::add-mask::senha-real"]);
    assert_eq!(fake.modos["/tmp/vpnctl/vpn.conf"], 0o600);
    assert_eq!(fake.modos["/tmp/vpnctl/auth.txt"], 0o600);
}

#[test]
fn retentativas_sao_contadas_e_contadas_ao_usuario() {
    let mut fake = AmbienteFake::novo();
    fake.adiciona_interface("tun0");
    fake.adiciona_ip("tun0", "10.8.0.2");
    fake.tcp_erro = Some("refused".into());
    fake.tcp_recusas = Some(2);
    let mut args = args_padrao();
    args.healthcheck_host = Some("h".into());
    args.healthcheck_port = 53;
    args.timeout_secs = 60;
    assert_eq!(fake.conecta(args), Ok(()));
    assert_eq!(fake.tcp_chamadas, 3);
    let esperas: Vec<(u32, u128)> = fake
        .acoes
        .iter()
        .filter_map(|a| match a {
            Acao::Retenta { tentativa, espera, .. } => Some((*tentativa, espera.as_millis())),
            _ => None,
        })
        .collect();
    assert_eq!(esperas.len(), 2);
    assert_eq!((esperas[0].0, esperas[1].0), (1, 2));
    assert!((500..700).contains(&esperas[0].1), "{esperas:?}");
    assert!((1_000..1_200).contains(&esperas[1].1), "{esperas:?}");
    assert_eq!(fake.stdout.last().unwrap(), "healthcheck OK em h:53 (tentativa 3)");
    let retentativa = &fake.stdout[fake.stdout.len() - 3];
    assert!(
        retentativa.starts_with(
            "healthcheck tentativa 1 falhou (connect TCP para h:53 falhou em todos os endereços: \
             refused); retentando em 0."
        ),
        "{retentativa}"
    );
}

#[test]
fn timeout_e_o_tempo_total_da_conexao() {
    let roda = |timeout_secs: u64| {
        let mut fake = AmbienteFake::novo();
        fake.adiciona_interface("tun0");
        fake.adiciona_ip("tun0", "10.8.0.2");
        fake.interfaces_desde = apos_ms(7_000);
        fake.ips_desde = apos_ms(14_000);
        let mut args = args_padrao();
        args.timeout_secs = timeout_secs;
        let resultado = fake.conecta(args);
        (resultado, fake)
    };
    let (resultado, fake) = roda(10);
    assert_eq!(
        resultado,
        Err(Erro::TimeoutIp { segundos: 10, interface: "tun0".to_string() })
    );
    assert_eq!(fake.relogio, apos_ms(10_000));
    let (resultado, fake) = roda(15);
    assert_eq!(resultado, Ok(()));
    assert_eq!(fake.relogio, apos_ms(14_000));
}

#[test]
fn healthcheck_fica_com_o_tempo_que_sobrou() {
    let mut fake = AmbienteFake::novo();
    fake.adiciona_interface("tun0");
    fake.adiciona_ip("tun0", "10.8.0.2");
    fake.ips_desde = apos_ms(9_500);
    fake.tcp_erro = Some("refused".into());
    let mut args = args_padrao();
    args.healthcheck_host = Some("h".into());
    args.timeout_secs = 10;
    let msg = fake.conecta(args).unwrap_err().mensagem();
    assert!(msg.starts_with("healthcheck falhou em h:443 após 2 tentativa(s) em 10s: "), "{msg}");
    assert_eq!(fake.tcp_chamadas, 2);
}

#[test]
fn esperas_em_vao_dentro_do_tempo_levam_ao_sucesso() {
    let mut fake = AmbienteFake::novo();
    fake.adiciona_interface("tun0");
    fake.adiciona_ip("tun0", "10.8.0.2");
    fake.interfaces_desde = apos_ms(2_200);
    fake.ips_desde = apos_ms(4_900);
    fake.tcp_erro = Some("refused".into());
    fake.tcp_recusas = Some(3);
    let mut args = args_padrao();
    args.healthcheck_host = Some("h".into());
    args.timeout_secs = 60;
    assert_eq!(fake.conecta(args), Ok(()));
    assert_eq!(fake.fez(|a| *a == Acao::ListaInterfaces), 6);
    assert_eq!(fake.fez(|a| matches!(a, Acao::LeIpv4 { .. })), 6);
    assert_eq!(fake.tcp_chamadas, 4);
}

#[test]
fn texto_da_retentativa() {
    assert_eq!(
        mensagem_retentativa(4, "x", "4.07"),
        "healthcheck tentativa 4 falhou (x); retentando em 4.07s"
    );
}

#[test]
fn espera_dada_e_a_espera_usada() {
    let espera = Duracao::from_millis(571);
    let c = Conexao {
        args: args_padrao(),
        workdir: WORKDIR.to_string(),
        etapa: EtapaConexao::Verificando {
            host: "h".to_string(),
            anteriores: 6,
            inicio: Duracao { nanos: 5 },
        },
    };
    let falha = Evento::Executado(Err(Erro::NenhumEndereco { endereco: "h:443".to_string() }));
    let c = c.avanca_com(falha, Duracao { nanos: 1_000_000_004 }, espera);
    assert_eq!(
        c.acao(),
        Acao::Retenta {
            tentativa: 7,
            causa: "nenhum endereço resolvido para h:443".to_string(),
            espera,
        }
    );
    let c = c.avanca(Evento::Feito, Duracao { nanos: 1_500_000_004 });
    assert_eq!(
        c.acao(),
        Acao::TentaConexaoTcp {
            host: "h".to_string(),
            porta: 443,
            timeout: Duracao::from_secs(5),
        }
    );
}

#[test]
fn contagem_no_limite() {
    let c = |anteriores: u32| Conexao {
        args: args_padrao(),
        workdir: WORKDIR.to_string(),
        etapa: EtapaConexao::Verificando {
            host: "h".to_string(),
            anteriores,
            inicio: Duracao { nanos: 0 },
        },
    };
    assert!(c(u32::MAX - 1).pode_avancar());
    assert!(!c(u32::MAX).pode_avancar());
    assert!(!Execucao::Conectando(c(u32::MAX)).pode_avancar());
    let c = c(u32::MAX - 1).avanca(Evento::Executado(Ok(())), Duracao { nanos: 1 });
    assert_eq!(
        c.etapa,
        EtapaConexao::AnunciandoSaude { host: "h".to_string(), tentativa: u32::MAX }
    );
}

/// The run after its actions were answered by `eventos`, in order, at one instant.
fn conexao_apos(args: ArgsConectar, eventos: Vec<Evento>) -> Conexao {
    let mut c = conectar_com(args, WORKDIR.to_string());
    for e in eventos {
        c = c.avanca(e, Duracao { nanos: 0 });
    }
    c
}

fn config_ok() -> Evento {
    Evento::Config { existe: true, regular: true }
}

fn lido_ok() -> Evento {
    Evento::Lido(Ok("c".to_string()))
}

#[test]
fn falhas_da_preparacao_encerram_a_conexao() {
    let x = || "x".to_string();
    let args = || {
        let mut a = args_padrao();
        a.username = Some("u".into());
        a.password = Some("s".into());
        a
    };
    let ok = || Evento::Gravado(Ok(()));
    let falha = || Evento::Gravado(Err(x()));
    let casos = vec![
        (
            vec![Evento::Config { existe: false, regular: false }],
            Erro::ConfigNaoEncontrada { config: CONFIG.to_string() },
        ),
        (
            vec![Evento::Config { existe: true, regular: false }],
            Erro::ConfigNaoRegular { config: CONFIG.to_string() },
        ),
        (
            vec![config_ok(), Evento::Feito, Evento::Lido(Err(x()))],
            Erro::LeituraConfig { config: CONFIG.to_string(), causa: x() },
        ),
        (
            vec![config_ok(), Evento::Feito, lido_ok(), falha()],
            Erro::EscritaConfig { destino: "/tmp/vpnctl/vpn.conf".to_string(), causa: x() },
        ),
        (
            vec![config_ok(), Evento::Feito, lido_ok(), ok(), falha()],
            Erro::Permissoes { caminho: "/tmp/vpnctl/vpn.conf".to_string(), causa: x() },
        ),
        (
            vec![config_ok(), Evento::Feito, lido_ok(), ok(), ok(), falha()],
            Erro::EscritaAuth { destino: "/tmp/vpnctl/auth.txt".to_string(), causa: x() },
        ),
        (
            vec![config_ok(), Evento::Feito, lido_ok(), ok(), ok(), ok(), falha()],
            Erro::Permissoes { caminho: "/tmp/vpnctl/auth.txt".to_string(), causa: x() },
        ),
    ];
    for (eventos, erro) in casos {
        let c = conexao_apos(args(), eventos);
        assert_eq!(c.acao(), Acao::Encerra);
        assert_eq!(c.resultado(), Some(Err(erro)));
    }
}

#[test]
fn falhas_depois_do_cliente_encerram_a_conexao() {
    let ok = || Evento::Gravado(Ok(()));
    let feito = || Evento::Executado(Ok(()));
    let ate_o_cliente = || vec![config_ok(), lido_ok(), ok(), ok(), feito(), Evento::Feito];
    let erro = || Erro::IpAddrNaoExecutou { causa: "x".to_string() };

    let mut eventos = ate_o_cliente();
    eventos.push(Evento::Interfaces(Err(erro())));
    assert_eq!(
        conexao_apos(args_padrao(), eventos).resultado(),
        Some(Err(Erro::ListaInterfaces { causa: erro().mensagem() }))
    );

    let interfaces = || Evento::Interfaces(Ok(vec!["tun0".to_string()]));
    let mut eventos = ate_o_cliente();
    eventos.push(interfaces());
    eventos.push(Evento::Ipv4(Err(erro())));
    assert_eq!(conexao_apos(args_padrao(), eventos).resultado(), Some(Err(erro())));

    for publicados in 0..2 {
        let falha = || Erro::EscritaOutput { causa: "cheio".to_string() };
        let mut eventos = ate_o_cliente();
        eventos.push(interfaces());
        eventos.push(Evento::Ipv4(Ok(Some("10.8.0.2".to_string()))));
        eventos.push(Evento::Feito);
        for _ in 0..publicados {
            eventos.push(feito());
        }
        eventos.push(Evento::Executado(Err(falha())));
        assert_eq!(conexao_apos(args_padrao(), eventos).resultado(), Some(Err(falha())));
    }
}

#[test]
fn evento_que_nao_responde_a_acao_nada_muda() {
    let inicial = || conectar_com(args_padrao(), WORKDIR.to_string());
    let t = Duracao { nanos: 3 };
    assert_eq!(inicial().avanca(Evento::Feito, t), inicial());
    assert_eq!(inicial().avanca(lido_ok(), t), inicial());
    let d = || desconectar_com(WORKDIR.to_string());
    assert_eq!(d().avanca(Evento::Feito, t), d());
    assert_eq!(inicial().resultado(), None);
    assert_eq!(d().resultado(), None);
}

#[test]
fn conexao_encerrada_fica_como_esta() {
    let fim = || conexao_apos(args_padrao(), vec![Evento::Config { existe: false, regular: false }]);
    for evento in [Evento::Feito, config_ok(), Evento::Executado(Ok(()))] {
        assert_eq!(fim().avanca(evento, Duracao { nanos: 9 }), fim());
    }
}

#[test]
fn permissoes_ajustadas_ou_nao() {
    assert_eq!(restringe_permissoes("/w/vpn.conf", Ok(())), Ok(()));
    assert_eq!(
        restringe_permissoes("/w/vpn.conf", Err("negado".to_string())),
        Err(Erro::Permissoes {
            caminho: "/w/vpn.conf".to_string(),
            causa: "negado".to_string(),
        })
    );
}

// --- desconectar ---

#[test]
fn le_pid_do_arquivo_retorna_none_quando_ausente() {
    let path = "/tmp/vpnctl-nao-existe.pid";
    assert_eq!(le_pid_do_arquivo(path, None).unwrap(), None);
}

#[test]
fn le_pid_do_arquivo_conforme_o_conteudo() {
    let le = |c: &str| le_pid_do_arquivo("/w/openvpn.pid", Some(Ok(c.to_string())));
    let invalido = |motivo: NumeroInvalido| {
        Err(Erro::PidInvalido { caminho: "/w/openvpn.pid".to_string(), motivo })
    };
    assert_eq!(le("4242\n"), Ok(Some(4242)));
    assert_eq!(le("\u{3000} \t4294967295\r\n"), Ok(Some(u32::MAX)));
    assert_eq!(le(" \n"), invalido(NumeroInvalido::Vazio));
    assert_eq!(le("42 42"), invalido(NumeroInvalido::Digito));
    assert_eq!(le("-1"), invalido(NumeroInvalido::Digito));
    assert_eq!(le("4294967296"), invalido(NumeroInvalido::Grande));
    assert_eq!(
        le_pid_do_arquivo("/w/openvpn.pid", Some(Err("negado".to_string()))),
        Err(Erro::LeituraPid {
            caminho: "/w/openvpn.pid".to_string(),
            causa: "negado".to_string(),
        })
    );
}

#[test]
fn desconectar_sem_pid_file_eh_idempotente() {
    let mut fake = AmbienteFake::novo();

    // primeira chamada — nada para desconectar
    let r1 = fake.desconecta();
    assert!(r1.is_ok(), "{r1:?}");
    assert!(fake.sinais_enviados.is_empty());

    // segunda chamada — mesmo resultado
    let r2 = fake.desconecta();
    assert!(r2.is_ok(), "{r2:?}");
    assert!(fake.sinais_enviados.is_empty());
    assert_eq!(fake.stdout, vec!["nenhum openvpn em execução"; 2]);
}

#[test]
fn desconectar_encerra_processo_do_pid_file() {
    let mut fake = AmbienteFake::novo();

    fake.processos_vivos.insert(4242);
    fake.arquivos.insert(ArquivoTrabalho::Pid.caminho(WORKDIR), "4242\n".to_string());

    let resultado = fake.desconecta();
    assert!(resultado.is_ok(), "{resultado:?}");
    assert_eq!(fake.sinais_enviados, vec![4242u32]);
    assert!(
        !fake.processos_vivos.contains(&4242),
        "processo deve estar morto"
    );
    assert!(!fake.arquivos.contains_key("/tmp/vpnctl/openvpn.pid"), "pid file removido");
    assert_eq!(fake.stdout, vec!["encerrando openvpn (pid 4242)", "openvpn encerrado"]);
}

#[test]
fn desconectar_limpa_arquivos_de_trabalho() {
    let mut fake = AmbienteFake::novo();

    fake.arquivos.insert(ArquivoTrabalho::Config.caminho(WORKDIR), "config".to_string());
    fake.arquivos.insert(ArquivoTrabalho::Auth.caminho(WORKDIR), "user\npass\n".to_string());

    let resultado = fake.desconecta();
    assert!(resultado.is_ok(), "{resultado:?}");
    assert!(!fake.arquivos.contains_key("/tmp/vpnctl/vpn.conf"), "vpn.conf removido");
    assert!(!fake.arquivos.contains_key("/tmp/vpnctl/auth.txt"), "auth.txt removido");
}

#[test]
fn processo_que_nao_morre_deixa_os_arquivos() {
    let mut fake = AmbienteFake::novo();
    fake.processos_teimosos = true;
    fake.processos_vivos.insert(7);
    fake.arquivos.insert(ArquivoTrabalho::Pid.caminho(WORKDIR), "7".to_string());
    assert_eq!(fake.desconecta(), Err(Erro::NaoEncerrou { pid: 7, segundos: 10 }));
    assert!(fake.arquivo(ArquivoTrabalho::Pid).is_some());
    assert_eq!(fake.fez(|a| matches!(a, Acao::ConsultaProcesso { .. })), 51);
    assert_eq!(fake.fez(|a| *a == Acao::Dorme(Duracao::from_millis(200))), 50);
    assert_eq!(fake.fez(|a| matches!(a, Acao::RemoveArquivo(_))), 0);
}

#[test]
fn processo_que_morre_na_ultima_pausa_esta_encerrado() {
    let mut fake = AmbienteFake::novo();
    fake.processos_teimosos = true;
    fake.fim_do_teimoso = Some(apos_ms(9_900));
    fake.processos_vivos.insert(7);
    fake.arquivos.insert(ArquivoTrabalho::Pid.caminho(WORKDIR), "7".to_string());
    assert_eq!(fake.desconecta(), Ok(()));
    assert_eq!(fake.relogio, apos_ms(10_000));
    assert_eq!(fake.fez(|a| matches!(a, Acao::ConsultaProcesso { .. })), 51);
    assert!(fake.arquivo(ArquivoTrabalho::Pid).is_none());
}

#[test]
fn falhas_encerram_a_desconexao() {
    let t = Duracao { nanos: 0 };
    let pid = || Evento::Pid(Some(Ok("9".to_string())));
    let d = || desconectar_com(WORKDIR.to_string());
    assert_eq!(
        d().avanca(Evento::Pid(Some(Ok("x".to_string()))), t).resultado(),
        Some(Err(Erro::PidInvalido {
            caminho: "/tmp/vpnctl/openvpn.pid".to_string(),
            motivo: NumeroInvalido::Digito,
        }))
    );
    let falha = || Erro::KillFalhou { pid: 9, stderr: "negado".to_string() };
    let sinalizando = || d().avanca(pid(), t).avanca(Evento::Feito, t);
    assert_eq!(sinalizando().acao(), Acao::EnviaSinalTermino { pid: 9 });
    let fim = sinalizando().avanca(Evento::Executado(Err(falha())), t);
    assert_eq!(fim.etapa, EtapaDesconexao::Encerrada(Err(falha())));
    let sondando = sinalizando().avanca(Evento::Executado(Ok(())), t);
    assert_eq!(sondando.acao(), Acao::ConsultaProcesso { pid: 9 });
    let sonda = || Erro::SondaNaoExecutou { causa: "x".to_string() };
    let fim: Desconexao = sondando.avanca(Evento::Vivo(Err(sonda())), t);
    assert_eq!(fim.resultado(), Some(Err(sonda())));
}

// --- the program ---

#[test]
fn programa_conecta_e_desconecta_no_mesmo_diretorio() {
    let mut fake = AmbienteFake::novo();
    fake.adiciona_interface("tun0");
    fake.adiciona_ip("tun0", "10.8.0.2");
    assert_eq!(fake.roda(executa(Comando::Conectar(args_padrao()))), Ok(()));
    assert_eq!(fake.acoes[0], Acao::PreparaDiretorio);
    let pid_file = match fake.acoes.iter().find(|a| matches!(a, Acao::ExecutaOpenvpn { .. })) {
        Some(Acao::ExecutaOpenvpn { pid_file, .. }) => *pid_file,
        _ => unreachable!(),
    };
    fake.arquivos.insert(pid_file.caminho(WORKDIR), "31\n".to_string());
    fake.processos_vivos.insert(31);
    assert_eq!(fake.roda(executa(Comando::Desconectar)), Ok(()));
    assert_eq!(fake.sinais_enviados, vec![31]);
    for arquivo in [ArquivoTrabalho::Pid, ArquivoTrabalho::Config, ArquivoTrabalho::Auth] {
        assert!(fake.arquivo(arquivo).is_none(), "{arquivo:?}");
    }
}

#[test]
fn programa_sem_diretorio_nao_comeca() {
    let sem = || Evento::Diretorio { dir: "/x/vpnctl".to_string(), criado: Err("ro".to_string()) };
    let t = Duracao { nanos: 0 };
    for e in [conectar(args_padrao()), desconectar()] {
        assert_eq!(e.acao(), Acao::PreparaDiretorio);
        let e = e.avanca(sem(), t);
        assert_eq!(e.acao(), Acao::Encerra);
        assert_eq!(
            e.resultado(),
            Some(Err(Erro::DiretorioTrabalho {
                dir: "/x/vpnctl".to_string(),
                causa: "ro".to_string(),
            }))
        );
    }
}
