//! What each step of a run does: which answers count, what each answer leads to, what is
//! asked for at each stage, and on which readings of the clock a wait is over.

use vstd::prelude::*;

use crate::acao::{Acao, Evento, EventoModelo};
use crate::args::{precondicoes, ArgsConectar, Comando};
use crate::caminho::ArquivoTrabalho;
use crate::conexao::{conexao_inicial, texto_retentativa, Conexao, EtapaConexao};
use crate::desconexao::{desconexao_inicial, pid_lido, Desconexao, EtapaDesconexao};
use crate::duracao::Duracao;
use crate::erro::Erro;
use crate::espera::{
    backoff_possivel, julga_sonda, julga_tentativa, procura_interface, procura_ip, Saude, Sondagem,
};
use crate::execucao::Execucao;
use crate::leis_sistema::{comeca_com_tun, lei_listagem_na_espera};
use crate::leis_valores::preenchido;
use crate::numero::decimal;

verus! {

/// `evento` is of the kind that answers `acao`.
pub open spec fn responde(acao: Acao<Seq<char>>, evento: EventoModelo) -> bool {
    match acao {
        Acao::PreparaDiretorio => evento is Diretorio,
        Acao::InspecionaConfig => evento is Config,
        Acao::LeConfig => evento is Lido,
        Acao::EscreveArquivo { .. } | Acao::RestringePermissoes { .. } => evento is Gravado,
        Acao::ExecutaOpenvpn { .. }
        | Acao::PublicaOutput { .. }
        | Acao::TentaConexaoTcp { .. }
        | Acao::EnviaSinalTermino { .. } => evento is Executado,
        Acao::ListaInterfaces => evento is Interfaces,
        Acao::LeIpv4 { .. } => evento is Ipv4,
        Acao::LePid { .. } => evento is Pid,
        Acao::ConsultaProcesso { .. } => evento is Vivo,
        Acao::Mascara(_)
        | Acao::Imprime(_)
        | Acao::Anota { .. }
        | Acao::Dorme(_)
        | Acao::Retenta { .. }
        | Acao::RemoveArquivo(_) => evento is Feito,
        Acao::Encerra => false,
    }
}

/// The time from the reading `inicio` to the reading `agora`.
pub open spec fn entre(inicio: Duracao, agora: Duracao) -> Duracao {
    Duracao {
        nanos: if agora.nanos >= inicio.nanos {
            (agora.nanos - inicio.nanos) as u128
        } else {
            0
        },
    }
}

/// The total time for the connection.
pub open spec fn limite(args: ArgsConectar<Seq<char>>) -> Duracao {
    Duracao { nanos: (args.timeout_secs * 1_000_000_000) as u128 }
}

/// Both credentials were given and are not empty.
pub open spec fn com_credenciais(args: ArgsConectar<Seq<char>>) -> bool {
    preenchido(args.username) && preenchido(args.password)
}

// ---------------- conectar ----------------

/// Law: a step keeps the arguments and the work directory, and an event that does not
/// answer what was asked for changes nothing at all; a run begins with the checks.
pub proof fn lei_conexao_so_ouve_respostas(
    c: Conexao<Seq<char>>,
    evento: EventoModelo,
    agora: Duracao,
    espera: Duracao,
    args: ArgsConectar<Seq<char>>,
    workdir: Seq<char>,
)
    ensures
        c.proxima(evento, agora, espera).args == c.args,
        c.proxima(evento, agora, espera).workdir == c.workdir,
        !responde(c.acao_modelo(), evento) ==> c.proxima(evento, agora, espera) == c,
        conexao_inicial(args, workdir) == (Conexao {
            args,
            workdir,
            etapa: EtapaConexao::Validando,
        }),
        c.contavel() <==> !(c.etapa is Verificando && c.etapa->Verificando_anteriores == u32::MAX),
{
}

/// Law: what is asked for while the files are prepared: the password as it was given is
/// hidden; the contents that the stage holds are written; permissions are the owner's alone.
pub proof fn lei_acoes_da_preparacao(c: Conexao<Seq<char>>)
    ensures
        match c.etapa {
            EtapaConexao::Validando => c.acao_modelo() is InspecionaConfig,
            EtapaConexao::Mascarando { senha } => c.acao_modelo() == Acao::Mascara(senha),
            EtapaConexao::LendoConfig => c.acao_modelo() is LeConfig,
            EtapaConexao::GravandoConfig { conteudo } => c.acao_modelo() == (Acao::EscreveArquivo {
                arquivo: ArquivoTrabalho::Config,
                conteudo,
            }),
            EtapaConexao::RestringindoConfig => c.acao_modelo() == (Acao::<
                Seq<char>,
            >::RestringePermissoes { arquivo: ArquivoTrabalho::Config, modo: 0o600 }),
            EtapaConexao::GravandoAuth { conteudo } => c.acao_modelo() == (Acao::EscreveArquivo {
                arquivo: ArquivoTrabalho::Auth,
                conteudo,
            }),
            EtapaConexao::RestringindoAuth => c.acao_modelo() == (Acao::<
                Seq<char>,
            >::RestringePermissoes { arquivo: ArquivoTrabalho::Auth, modo: 0o600 }),
            EtapaConexao::RelatandoEnsaio => {
                let inicio = "dry-run: validação concluída sem subir o túnel\n"@
                    + "  config segura: "@ + ArquivoTrabalho::Config.em(c.workdir) + "\n"@;
                let fim = "  provider:      "@;
                &&& com_credenciais(c.args) ==> c.acao_modelo() == Acao::Imprime(
                    inicio + "  auth file:     "@ + ArquivoTrabalho::Auth.em(c.workdir) + "\n"@ + fim
                        + "Openvpn"@,
                )
                &&& !com_credenciais(c.args) ==> c.acao_modelo() == Acao::Imprime(
                    inicio + fim + "Openvpn"@,
                )
            },
            _ => true,
        },
{
}

/// Law: what is asked for from the start of the VPN client on: it is given the private
/// copies, and the credentials only where there are some; what was found is told and
/// published as it was found; connections go to the host and port that were asked for, with
/// five seconds for each address.
pub proof fn lei_acoes_do_tunel(c: Conexao<Seq<char>>)
    ensures
        match c.etapa {
            EtapaConexao::IniciandoCliente => c.acao_modelo() == (Acao::<
                Seq<char>,
            >::ExecutaOpenvpn {
                config: ArquivoTrabalho::Config,
                auth: if com_credenciais(c.args) {
                    Some(ArquivoTrabalho::Auth)
                } else {
                    None
                },
                pid_file: ArquivoTrabalho::Pid,
            }),
            EtapaConexao::AnunciandoCliente => c.acao_modelo() == Acao::Imprime(
                "openvpn iniciado em modo daemon (pid file: "@ + ArquivoTrabalho::Pid.em(c.workdir)
                    + ")"@,
            ),
            EtapaConexao::ListandoInterfaces { .. } => c.acao_modelo() is ListaInterfaces,
            EtapaConexao::PausandoInterfaces { pausa, .. }
            | EtapaConexao::PausandoIp { pausa, .. } => c.acao_modelo() == Acao::<
                Seq<char>,
            >::Dorme(pausa),
            EtapaConexao::LendoIp { interface, .. } => c.acao_modelo() == (Acao::LeIpv4 {
                interface,
            }),
            EtapaConexao::AnunciandoTunel { interface, ip, .. } => c.acao_modelo()
                == Acao::Imprime("túnel ativo em "@ + interface + " ("@ + ip + ")"@),
            EtapaConexao::PublicandoInterface { interface, .. } => c.acao_modelo()
                == (Acao::PublicaOutput { key: "interface"@, value: interface }),
            EtapaConexao::PublicandoIp { ip, .. } => c.acao_modelo() == (Acao::PublicaOutput {
                key: "tunnel-ip"@,
                value: ip,
            }),
            EtapaConexao::Verificando { host, .. } => c.acao_modelo() == (Acao::TentaConexaoTcp {
                host,
                porta: c.args.healthcheck_port,
                timeout: Duracao { nanos: 5_000_000_000 },
            }),
            EtapaConexao::Retentando { tentativa, causa, espera, .. } => c.acao_modelo()
                == (Acao::Retenta { tentativa, causa, espera }),
            EtapaConexao::AnunciandoSaude { host, tentativa } => c.acao_modelo() == Acao::Imprime(
                "healthcheck OK em "@ + host + ":"@ + decimal(c.args.healthcheck_port as nat)
                    + " (tentativa "@ + decimal(tentativa as nat) + ")"@,
            ),
            EtapaConexao::Avisando => c.acao_modelo() == (Acao::Anota {
                level: "warning"@,
                message: "healthcheck não configurado — conectividade pós-túnel não foi validada"@,
            }),
            EtapaConexao::Encerrada(_) => c.acao_modelo() is Encerra,
            _ => true,
        },
{
}

/// Law: a failed attempt is told with its number, its cause and the wait after it, as they
/// are.
pub proof fn lei_texto_da_retentativa(tentativa: u32, causa: Seq<char>, espera: Seq<char>)
    ensures
        texto_retentativa(tentativa, causa, espera) == "healthcheck tentativa "@ + decimal(
            tentativa as nat,
        ) + " falhou ("@ + causa + "); retentando em "@ + espera + "s"@,
{
}

/// Law: what an answer leads to while the files are prepared. A failure ends the run and
/// names the path; the configuration is written as it was read, the authentication file
/// with the credentials as they were given; then comes the rehearsal, or the VPN client.
pub proof fn lei_passos_da_preparacao(
    c: Conexao<Seq<char>>,
    agora: Duracao,
    espera: Duracao,
    texto: Seq<char>,
    existe: bool,
    regular: bool,
)
    ensures
        ({
            let args = c.args;
            let segue = if args.dry_run {
                EtapaConexao::<Seq<char>>::RelatandoEnsaio
            } else {
                EtapaConexao::IniciandoCliente
            };
            let pronta = existe && regular && preenchido(args.username) == preenchido(
                args.password,
            );
            let olhada = c.proxima(Evento::Config { existe, regular }, agora, espera).etapa;
            let lida = c.proxima(Evento::Lido(Ok(texto)), agora, espera).etapa;
            let nao_lida = c.proxima(Evento::Lido(Err(texto)), agora, espera).etapa;
            let gravada = c.proxima(Evento::Gravado(Ok(())), agora, espera).etapa;
            let nao_gravada = c.proxima(Evento::Gravado(Err(texto)), agora, espera).etapa;
            let feita = c.proxima(Evento::Feito, agora, espera).etapa;
            let config = ArquivoTrabalho::Config.em(c.workdir);
            let auth = ArquivoTrabalho::Auth.em(c.workdir);
            match c.etapa {
                EtapaConexao::Validando => {
                    &&& pronta && args.password is None ==> olhada is LendoConfig
                    &&& pronta && args.password is Some ==> olhada == (EtapaConexao::Mascarando {
                        senha: args.password->0,
                    })
                    &&& !pronta ==> olhada == EtapaConexao::Encerrada(
                        precondicoes(args, existe, regular),
                    )
                },
                EtapaConexao::Mascarando { .. } => feita is LendoConfig,
                EtapaConexao::LendoConfig => {
                    &&& lida == (EtapaConexao::GravandoConfig { conteudo: texto })
                    &&& nao_lida == EtapaConexao::Encerrada(
                        Err::<(), _>(Erro::LeituraConfig { config: args.config, causa: texto }),
                    )
                },
                EtapaConexao::GravandoConfig { .. } => {
                    &&& gravada is RestringindoConfig
                    &&& nao_gravada == EtapaConexao::Encerrada(
                        Err::<(), _>(Erro::EscritaConfig { destino: config, causa: texto }),
                    )
                },
                EtapaConexao::RestringindoConfig => {
                    &&& com_credenciais(args) ==> gravada == (EtapaConexao::GravandoAuth {
                        conteudo: args.username->0 + "\n"@ + args.password->0 + "\n"@,
                    })
                    &&& !com_credenciais(args) ==> gravada == segue
                    &&& nao_gravada == EtapaConexao::Encerrada(
                        Err::<(), _>(Erro::Permissoes { caminho: config, causa: texto }),
                    )
                },
                EtapaConexao::GravandoAuth { .. } => {
                    &&& gravada is RestringindoAuth
                    &&& nao_gravada == EtapaConexao::Encerrada(
                        Err::<(), _>(Erro::EscritaAuth { destino: auth, causa: texto }),
                    )
                },
                EtapaConexao::RestringindoAuth => {
                    &&& gravada == segue
                    &&& nao_gravada == EtapaConexao::Encerrada(
                        Err::<(), _>(Erro::Permissoes { caminho: auth, causa: texto }),
                    )
                },
                EtapaConexao::RelatandoEnsaio | EtapaConexao::Avisando => feita
                    == EtapaConexao::Encerrada(Ok::<(), Erro<Seq<char>>>(())),
                _ => true,
            }
        }),
{
}

/// Law: what an answer leads to from the start of the VPN client to the publication. The
/// clock starts when the client was announced; an interface or address that was found is
/// carried on as it was found; then comes the health check, if there is a host for it.
pub proof fn lei_passos_do_tunel(
    c: Conexao<Seq<char>>,
    agora: Duracao,
    espera: Duracao,
    e: Erro<Seq<char>>,
    ns: Result<Seq<Seq<char>>, Erro<Seq<char>>>,
    lido: Result<Option<Seq<char>>, Erro<Seq<char>>>,
)
    ensures
        ({
            let feita = c.proxima(Evento::Feito, agora, espera).etapa;
            let executada = c.proxima(Evento::Executado(Ok(())), agora, espera).etapa;
            let falhou = c.proxima(Evento::Executado(Err(e)), agora, espera).etapa;
            let listada = c.proxima(Evento::Interfaces(ns), agora, espera).etapa;
            let lida = c.proxima(Evento::Ipv4(lido), agora, espera).etapa;
            let falha = EtapaConexao::Encerrada(Err::<(), _>(e));
            match c.etapa {
                EtapaConexao::IniciandoCliente => executada is AnunciandoCliente && falhou == falha,
                EtapaConexao::AnunciandoCliente => feita == (EtapaConexao::<
                    Seq<char>,
                >::ListandoInterfaces { inicio: agora }),
                EtapaConexao::ListandoInterfaces { inicio } => match procura_interface(
                    c.args,
                    ns,
                    entre(inicio, agora),
                    limite(c.args),
                ) {
                    Sondagem::Concluida(interface) => listada == (EtapaConexao::LendoIp {
                        interface,
                        inicio,
                    }),
                    Sondagem::Repete(pausa) => listada == (EtapaConexao::<
                        Seq<char>,
                    >::PausandoInterfaces { inicio, pausa }),
                    Sondagem::Falha(f) => listada == EtapaConexao::Encerrada(Err::<(), _>(f)),
                },
                EtapaConexao::PausandoInterfaces { inicio, .. } => feita == (EtapaConexao::<
                    Seq<char>,
                >::ListandoInterfaces { inicio }),
                EtapaConexao::LendoIp { interface, inicio } => match procura_ip(
                    interface,
                    lido,
                    entre(inicio, agora),
                    limite(c.args),
                ) {
                    Sondagem::Concluida(ip) => lida == (EtapaConexao::AnunciandoTunel {
                        interface,
                        ip,
                        inicio,
                    }),
                    Sondagem::Repete(pausa) => lida == (EtapaConexao::PausandoIp {
                        interface,
                        inicio,
                        pausa,
                    }),
                    Sondagem::Falha(f) => lida == EtapaConexao::Encerrada(Err::<(), _>(f)),
                },
                EtapaConexao::PausandoIp { interface, inicio, .. } => feita
                    == (EtapaConexao::LendoIp { interface, inicio }),
                EtapaConexao::AnunciandoTunel { interface, ip, inicio } => feita
                    == (EtapaConexao::PublicandoInterface { interface, ip, inicio }),
                EtapaConexao::PublicandoInterface { ip, inicio, .. } => {
                    &&& executada == (EtapaConexao::PublicandoIp { ip, inicio })
                    &&& falhou == falha
                },
                EtapaConexao::PublicandoIp { inicio, .. } => {
                    &&& c.args.healthcheck_host is None ==> executada is Avisando
                    &&& c.args.healthcheck_host is Some ==> executada
                        == (EtapaConexao::Verificando {
                        host: c.args.healthcheck_host->0,
                        anteriores: 0,
                        inicio,
                    })
                    &&& falhou == falha
                },
                _ => true,
            }
        }),
{
}

/// Law: what an answer leads to in the health check. An attempt has the number after those
/// before it; its wait is the one that was drawn; the clock is that of the whole connection.
pub proof fn lei_passos_da_saude(
    c: Conexao<Seq<char>>,
    agora: Duracao,
    espera: Duracao,
    tcp: Result<(), Erro<Seq<char>>>,
)
    requires
        c.contavel(),
    ensures
        ({
            let feita = c.proxima(Evento::Feito, agora, espera).etapa;
            let tentada = c.proxima(Evento::Executado(tcp), agora, espera).etapa;
            match c.etapa {
                EtapaConexao::Verificando { host, anteriores, inicio } => {
                    let tentativa = (anteriores + 1) as u32;
                    match julga_tentativa(
                        host,
                        c.args.healthcheck_port,
                        tentativa,
                        tcp,
                        entre(inicio, agora),
                        limite(c.args),
                        espera,
                    ) {
                        Saude::Saudavel => tentada == (EtapaConexao::AnunciandoSaude {
                            host,
                            tentativa,
                        }),
                        Saude::Retenta { espera: sorteada, causa } => tentada
                            == (EtapaConexao::Retentando {
                            host,
                            tentativa,
                            causa,
                            espera: sorteada,
                            inicio,
                        }),
                        Saude::Falha(f) => tentada == EtapaConexao::Encerrada(Err::<(), _>(f)),
                    }
                },
                EtapaConexao::Retentando { host, tentativa, inicio, .. } => feita
                    == (EtapaConexao::Verificando { host, anteriores: tentativa, inicio }),
                EtapaConexao::AnunciandoSaude { .. } => feita == EtapaConexao::Encerrada(
                    Ok::<(), Erro<Seq<char>>>(()),
                ),
                _ => true,
            }
        }),
{
}

/// Law: the timeout is a matter of the readings of the clock alone. A listing without the
/// interface, a reading without an address or a refused attempt at `agora` ends the run if
/// `agora` shows at least `timeout_secs` seconds more than when the waits began, and
/// otherwise does not.
pub proof fn lei_timeout_nas_leituras(
    c: Conexao<Seq<char>>,
    inicio: Duracao,
    agora: Duracao,
    espera: Duracao,
    ns: Seq<Seq<char>>,
    interface: Seq<char>,
    host: Seq<char>,
    anteriores: u32,
    e: Erro<Seq<char>>,
)
    ensures
        ({
            let acabou = c.args.timeout_secs == 0 || agora.nanos - inicio.nanos
                >= c.args.timeout_secs * 1_000_000_000;
            let ausente = match c.args.interface {
                Some(nome) => !ns.contains(nome),
                None => forall|j: int| 0 <= j < ns.len() ==> !comeca_com_tun(#[trigger] ns[j]),
            };
            let listada = c.proxima(Evento::Interfaces(Ok(ns)), agora, espera).etapa;
            let lida = c.proxima(Evento::Ipv4(Ok(None)), agora, espera).etapa;
            let recusada = c.proxima(Evento::Executado(Err(e)), agora, espera).etapa;
            &&& c.etapa == (EtapaConexao::<Seq<char>>::ListandoInterfaces { inicio }) && ausente
                ==> {
                &&& acabou <==> listada is Encerrada
                &&& !acabou <==> listada == (EtapaConexao::<Seq<char>>::PausandoInterfaces {
                    inicio,
                    pausa: Duracao { nanos: 500_000_000 },
                })
            }
            &&& c.etapa == (EtapaConexao::LendoIp { interface, inicio }) ==> {
                &&& acabou <==> lida is Encerrada
                &&& !acabou <==> lida == (EtapaConexao::PausandoIp {
                    interface,
                    inicio,
                    pausa: Duracao { nanos: 500_000_000 },
                })
            }
            &&& c.etapa == (EtapaConexao::Verificando { host, anteriores, inicio }) && anteriores
                < u32::MAX ==> {
                &&& acabou <==> recusada is Encerrada
                &&& !acabou <==> recusada == (EtapaConexao::Retentando {
                    host,
                    tentativa: (anteriores + 1) as u32,
                    causa: e.texto(),
                    espera,
                    inicio,
                })
            }
        }),
{
    let nome = match c.args.interface {
        Some(n) => n,
        None => Seq::empty(),
    };
    lei_listagem_na_espera(c.args, ns, nome, 0, entre(inicio, agora), limite(c.args), e);
}

// ---------------- desconectar ----------------

/// Law: a step keeps the work directory, and an event that does not answer what was asked
/// for changes nothing at all; a run begins with the process id file. What is asked for is
/// about the process that the stage holds.
pub proof fn lei_desconexao_so_ouve_respostas(
    d: Desconexao<Seq<char>>,
    evento: EventoModelo,
    agora: Duracao,
    workdir: Seq<char>,
)
    ensures
        d.proxima(evento, agora).workdir == d.workdir,
        !responde(d.acao_modelo(), evento) ==> d.proxima(evento, agora) == d,
        desconexao_inicial(workdir) == (Desconexao { workdir, etapa: EtapaDesconexao::LendoPid }),
        match d.etapa {
            EtapaDesconexao::LendoPid => d.acao_modelo() == (Acao::<Seq<char>>::LePid {
                pid_file: ArquivoTrabalho::Pid,
            }),
            EtapaDesconexao::AnunciandoEncerramento { pid } => d.acao_modelo() == Acao::Imprime(
                "encerrando openvpn (pid "@ + decimal(pid as nat) + ")"@,
            ),
            EtapaDesconexao::Sinalizando { pid } => d.acao_modelo() == (Acao::<
                Seq<char>,
            >::EnviaSinalTermino { pid }),
            EtapaDesconexao::Sondando { pid, .. } => d.acao_modelo() == (Acao::<
                Seq<char>,
            >::ConsultaProcesso { pid }),
            EtapaDesconexao::PausandoSonda { pausa, .. } => d.acao_modelo() == Acao::<
                Seq<char>,
            >::Dorme(pausa),
            EtapaDesconexao::AnunciandoFim => d.acao_modelo() == Acao::Imprime(
                "openvpn encerrado"@,
            ),
            EtapaDesconexao::AnunciandoAusencia => d.acao_modelo() == Acao::Imprime(
                "nenhum openvpn em execução"@,
            ),
            EtapaDesconexao::Removendo(arquivo) => d.acao_modelo() == Acao::<
                Seq<char>,
            >::RemoveArquivo(arquivo),
            EtapaDesconexao::Encerrada(_) => d.acao_modelo() is Encerra,
        },
{
}

/// Law: what an answer leads to. The process of the file is announced, asked to end, and
/// looked at until it is gone or ten seconds have passed since it was asked; then, or where
/// there is no process, the process id file, the configuration and the authentication file
/// are removed, in this order, and the run succeeds.
pub proof fn lei_passos_da_desconexao(
    d: Desconexao<Seq<char>>,
    agora: Duracao,
    leitura: Option<Result<Seq<char>, Seq<char>>>,
    vivo: Result<bool, Erro<Seq<char>>>,
    e: Erro<Seq<char>>,
)
    ensures
        ({
            let feita = d.proxima(Evento::Feito, agora).etapa;
            let lida = d.proxima(Evento::Pid(leitura), agora).etapa;
            let vista = d.proxima(Evento::Vivo(vivo), agora).etapa;
            let dez = Duracao { nanos: 10_000_000_000 };
            match d.etapa {
                EtapaDesconexao::LendoPid => match pid_lido(
                    ArquivoTrabalho::Pid.em(d.workdir),
                    leitura,
                ) {
                    Ok(Some(pid)) => lida == (EtapaDesconexao::<
                        Seq<char>,
                    >::AnunciandoEncerramento { pid }),
                    Ok(None) => lida is AnunciandoAusencia,
                    Err(f) => lida == EtapaDesconexao::Encerrada(Err::<(), _>(f)),
                },
                EtapaDesconexao::AnunciandoEncerramento { pid } => feita == (EtapaDesconexao::<
                    Seq<char>,
                >::Sinalizando { pid }),
                EtapaDesconexao::Sinalizando { pid } => {
                    &&& d.proxima(Evento::Executado(Ok(())), agora).etapa == (EtapaDesconexao::<
                        Seq<char>,
                    >::Sondando { pid, inicio: agora })
                    &&& d.proxima(Evento::Executado(Err(e)), agora).etapa
                        == EtapaDesconexao::Encerrada(Err::<(), _>(e))
                },
                EtapaDesconexao::Sondando { pid, inicio } => match julga_sonda(
                    pid,
                    vivo,
                    entre(inicio, agora),
                    dez,
                ) {
                    Sondagem::Concluida(_) => vista is AnunciandoFim,
                    Sondagem::Repete(pausa) => vista == (EtapaDesconexao::<
                        Seq<char>,
                    >::PausandoSonda { pid, inicio, pausa }),
                    Sondagem::Falha(f) => vista == EtapaDesconexao::Encerrada(Err::<(), _>(f)),
                },
                EtapaDesconexao::PausandoSonda { pid, inicio, .. } => feita
                    == (EtapaDesconexao::<Seq<char>>::Sondando { pid, inicio }),
                EtapaDesconexao::AnunciandoFim | EtapaDesconexao::AnunciandoAusencia => feita
                    == EtapaDesconexao::<Seq<char>>::Removendo(ArquivoTrabalho::Pid),
                EtapaDesconexao::Removendo(ArquivoTrabalho::Pid) => feita == EtapaDesconexao::<
                    Seq<char>,
                >::Removendo(ArquivoTrabalho::Config),
                EtapaDesconexao::Removendo(ArquivoTrabalho::Config) => feita == EtapaDesconexao::<
                    Seq<char>,
                >::Removendo(ArquivoTrabalho::Auth),
                EtapaDesconexao::Removendo(ArquivoTrabalho::Auth) => feita
                    == EtapaDesconexao::Encerrada(Ok::<(), Erro<Seq<char>>>(())),
                EtapaDesconexao::Encerrada(_) => true,
            }
        }),
{
}

/// Law: a process that is still there at `agora` is given up exactly if `agora` shows at
/// least ten seconds more than when it was asked to end; one that is gone never is.
pub proof fn lei_dez_segundos_nas_leituras(
    d: Desconexao<Seq<char>>,
    pid: u32,
    inicio: Duracao,
    agora: Duracao,
)
    requires
        d.etapa == (EtapaDesconexao::<Seq<char>>::Sondando { pid, inicio }),
    ensures
        d.proxima(Evento::Vivo(Ok(true)), agora).etapa is Encerrada <==> agora.nanos - inicio.nanos
            >= 10_000_000_000,
        d.proxima(Evento::Vivo(Ok(true)), agora).etapa is PausandoSonda <==> agora.nanos
            - inicio.nanos < 10_000_000_000,
        d.proxima(Evento::Vivo(Ok(false)), agora).etapa is AnunciandoFim,
{
}

// ---------------- The program ----------------

/// Law: the program first wants its work directory; with it, it is the command in that
/// directory, and without it, it is over and says why. After that it is no more and no less
/// than its command: it asks for what the command asks for, takes every answer as the
/// command does, and ends as the command ends.
pub proof fn lei_programa(
    comando: Comando<Seq<char>>,
    args: ArgsConectar<Seq<char>>,
    c: Conexao<Seq<char>>,
    d: Desconexao<Seq<char>>,
    evento: EventoModelo,
    agora: Duracao,
    espera: Duracao,
    dir: Seq<char>,
    causa: Seq<char>,
    e: Erro<Seq<char>>,
)
    ensures
        ({
            let inicio = Execucao::Preparando(comando);
            let ha = EventoModelo::Diretorio { dir, criado: Ok(()) };
            let nao_ha = EventoModelo::Diretorio { dir, criado: Err(causa) };
            &&& inicio.acao_modelo() is PreparaDiretorio && inicio.fim() is None
            &&& inicio.contavel() && inicio.espera_possivel(espera)
            &&& !(evento is Diretorio) ==> inicio.proxima(evento, agora, espera) == inicio
            &&& Execucao::Preparando(Comando::Conectar(args)).proxima(ha, agora, espera)
                == Execucao::Conectando(conexao_inicial(args, dir))
            &&& Execucao::Preparando(Comando::<Seq<char>>::Desconectar).proxima(ha, agora, espera)
                == Execucao::Desconectando(desconexao_inicial(dir))
            &&& inicio.proxima(nao_ha, agora, espera) == Execucao::SemDiretorio(
                Erro::DiretorioTrabalho { dir, causa },
            )
        }),
        ({
            let x = Execucao::Conectando(c);
            &&& x.acao_modelo() == c.acao_modelo()
            &&& x.proxima(evento, agora, espera) == Execucao::Conectando(
                c.proxima(evento, agora, espera),
            )
            &&& x.contavel() == c.contavel()
            &&& match c.etapa {
                EtapaConexao::Encerrada(fim) => x.fim() == Some(fim),
                _ => x.fim() is None,
            }
            &&& match c.etapa {
                EtapaConexao::Verificando { anteriores, .. } => x.espera_possivel(espera)
                    == backoff_possivel(anteriores, espera),
                _ => x.espera_possivel(espera),
            }
        }),
        ({
            let y = Execucao::Desconectando(d);
            &&& y.acao_modelo() == d.acao_modelo()
            &&& y.proxima(evento, agora, espera) == Execucao::Desconectando(
                d.proxima(evento, agora),
            )
            &&& y.contavel()
            &&& match d.etapa {
                EtapaDesconexao::Encerrada(fim) => y.fim() == Some(fim),
                _ => y.fim() is None,
            }
        }),
        ({
            let z = Execucao::SemDiretorio(e);
            &&& z.acao_modelo() is Encerra
            &&& z.proxima(evento, agora, espera) == z
            &&& z.contavel()
            &&& z.fim() == Some(Err::<(), _>(e))
        }),
{
}

} // verus!
