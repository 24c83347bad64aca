//! The command `conectar`, as a state machine.

use vstd::prelude::*;
use vstd::string::*;

use crate::acao::{Acao, Evento, EventoModelo, MODO_RESTRITO};
use crate::args::{
    conteudo_auth, mascara_credenciais, precondicoes, prepara_auth_file, valida_precondicoes,
    ArgsConectar,
};
use crate::caminho::ArquivoTrabalho;
use crate::duracao::{decorrido, segundos, Duracao};
use crate::erro::{resultado, Erro};
use crate::espera::{
    backoff_possivel, calcula_backoff, descobre_interface, descobre_ip, julga_tentativa,
    procura_interface, procura_ip, verifica_healthcheck, Saude, Sondagem,
};
use crate::numero::{decimal, escreve_decimal};

verus! {

/// Ceiling of one attempt of the health check, for each address of the host, in seconds.
pub const TETO_TENTATIVA_SECS: u64 = 5;

/// How far the command has come. From the wait for the interface on, `inicio` is when the
/// VPN client was announced: all the waits share the time that begins then.
#[derive(Debug, PartialEq, Eq)]
pub enum EtapaConexao<T = String> {
    /// The configuration is to be looked at.
    Validando,
    /// The password is to be hidden from the logs.
    Mascarando { senha: T },
    /// The configuration is to be read.
    LendoConfig,
    /// The private copy of the configuration is to be written.
    GravandoConfig { conteudo: T },
    /// The private copy of the configuration is to be closed to others.
    RestringindoConfig,
    /// The authentication file is to be written.
    GravandoAuth { conteudo: T },
    /// The authentication file is to be closed to others.
    RestringindoAuth,
    /// The rehearsal is to be reported.
    RelatandoEnsaio,
    /// The VPN client is to be started.
    IniciandoCliente,
    /// It is to be told that the VPN client was started.
    AnunciandoCliente,
    /// The interfaces are to be listed.
    ListandoInterfaces { inicio: Duracao },
    /// A pause before they are listed again.
    PausandoInterfaces { inicio: Duracao, pausa: Duracao },
    /// The address of the interface is to be read.
    LendoIp { interface: T, inicio: Duracao },
    /// A pause before it is read again.
    PausandoIp { interface: T, inicio: Duracao, pausa: Duracao },
    /// It is to be told that the tunnel is up.
    AnunciandoTunel { interface: T, ip: T, inicio: Duracao },
    /// The name of the interface is to be published.
    PublicandoInterface { interface: T, ip: T, inicio: Duracao },
    /// The address of the interface is to be published.
    PublicandoIp { ip: T, inicio: Duracao },
    /// The host of the health check is to be tried, after `anteriores` failed attempts.
    Verificando { host: T, anteriores: u32, inicio: Duracao },
    /// The failure of the attempt number `tentativa` is to be told and slept over.
    Retentando { host: T, tentativa: u32, causa: T, espera: Duracao, inicio: Duracao },
    /// It is to be told that the host answered.
    AnunciandoSaude { host: T, tentativa: u32 },
    /// The user is to be warned that there was no health check.
    Avisando,
    /// The command is over.
    Encerrada(Result<(), Erro<T>>),
}

impl View for EtapaConexao<String> {
    type V = EtapaConexao<Seq<char>>;

    open spec fn view(&self) -> EtapaConexao<Seq<char>> {
        match *self {
            EtapaConexao::Validando => EtapaConexao::Validando,
            EtapaConexao::Mascarando { senha } => EtapaConexao::Mascarando { senha: senha@ },
            EtapaConexao::LendoConfig => EtapaConexao::LendoConfig,
            EtapaConexao::GravandoConfig { conteudo } => EtapaConexao::GravandoConfig {
                conteudo: conteudo@,
            },
            EtapaConexao::RestringindoConfig => EtapaConexao::RestringindoConfig,
            EtapaConexao::GravandoAuth { conteudo } => EtapaConexao::GravandoAuth {
                conteudo: conteudo@,
            },
            EtapaConexao::RestringindoAuth => EtapaConexao::RestringindoAuth,
            EtapaConexao::RelatandoEnsaio => EtapaConexao::RelatandoEnsaio,
            EtapaConexao::IniciandoCliente => EtapaConexao::IniciandoCliente,
            EtapaConexao::AnunciandoCliente => EtapaConexao::AnunciandoCliente,
            EtapaConexao::ListandoInterfaces { inicio } => EtapaConexao::ListandoInterfaces {
                inicio,
            },
            EtapaConexao::PausandoInterfaces { inicio, pausa } =>
            EtapaConexao::PausandoInterfaces { inicio, pausa },
            EtapaConexao::LendoIp { interface, inicio } => EtapaConexao::LendoIp {
                interface: interface@,
                inicio,
            },
            EtapaConexao::PausandoIp { interface, inicio, pausa } => EtapaConexao::PausandoIp {
                interface: interface@,
                inicio,
                pausa,
            },
            EtapaConexao::AnunciandoTunel { interface, ip, inicio } =>
            EtapaConexao::AnunciandoTunel { interface: interface@, ip: ip@, inicio },
            EtapaConexao::PublicandoInterface { interface, ip, inicio } =>
            EtapaConexao::PublicandoInterface { interface: interface@, ip: ip@, inicio },
            EtapaConexao::PublicandoIp { ip, inicio } => EtapaConexao::PublicandoIp {
                ip: ip@,
                inicio,
            },
            EtapaConexao::Verificando { host, anteriores, inicio } => EtapaConexao::Verificando {
                host: host@,
                anteriores,
                inicio,
            },
            EtapaConexao::Retentando { host, tentativa, causa, espera, inicio } =>
            EtapaConexao::Retentando { host: host@, tentativa, causa: causa@, espera, inicio },
            EtapaConexao::AnunciandoSaude { host, tentativa } => EtapaConexao::AnunciandoSaude {
                host: host@,
                tentativa,
            },
            EtapaConexao::Avisando => EtapaConexao::Avisando,
            EtapaConexao::Encerrada(r) => EtapaConexao::Encerrada(resultado(r)),
        }
    }
}

/// A run of the command `conectar`.
#[derive(Debug, PartialEq, Eq)]
pub struct Conexao<T = String> {
    pub args: ArgsConectar<T>,
    /// Path of the work directory, as shown in messages.
    pub workdir: T,
    pub etapa: EtapaConexao<T>,
}

impl View for Conexao<String> {
    type V = Conexao<Seq<char>>;

    open spec fn view(&self) -> Conexao<Seq<char>> {
        Conexao { args: self.args@, workdir: self.workdir@, etapa: self.etapa@ }
    }
}

// ---------------- Messages ----------------

/// Report of a rehearsal.
pub open spec fn texto_ensaio(args: ArgsConectar<Seq<char>>, workdir: Seq<char>) -> Seq<char> {
    let inicio = "dry-run: validação concluída sem subir o túnel\n"@ + "  config segura: "@
        + ArquivoTrabalho::Config.em(workdir) + "\n"@;
    let meio = if conteudo_auth(args) is Some {
        inicio + "  auth file:     "@ + ArquivoTrabalho::Auth.em(workdir) + "\n"@
    } else {
        inicio
    };
    meio + "  provider:      "@ + args.provider.rotulo()
}

/// Text that tells that the VPN client was started.
pub open spec fn texto_cliente(workdir: Seq<char>) -> Seq<char> {
    "openvpn iniciado em modo daemon (pid file: "@ + ArquivoTrabalho::Pid.em(workdir) + ")"@
}

/// Text that tells that the tunnel is up.
pub open spec fn texto_tunel(interface: Seq<char>, ip: Seq<char>) -> Seq<char> {
    "túnel ativo em "@ + interface + " ("@ + ip + ")"@
}

/// Text that tells that the host of the health check answered.
pub open spec fn texto_saude(host: Seq<char>, porta: u16, tentativa: u32) -> Seq<char> {
    "healthcheck OK em "@ + host + ":"@ + decimal(porta as nat) + " (tentativa "@ + decimal(
        tentativa as nat,
    ) + ")"@
}

/// Text that tells that an attempt failed, with the wait after it shown as `espera`.
pub open spec fn texto_retentativa(tentativa: u32, causa: Seq<char>, espera: Seq<char>) -> Seq<
    char,
> {
    "healthcheck tentativa "@ + decimal(tentativa as nat) + " falhou ("@ + causa
        + "); retentando em "@ + espera + "s"@
}

/// Warning about a tunnel that was not checked.
pub open spec fn texto_sem_healthcheck() -> Seq<char> {
    "healthcheck não configurado — conectividade pós-túnel não foi validada"@
}

fn mensagem_ensaio(args: &ArgsConectar, workdir: &str) -> (r: String)
    ensures
        r@ == texto_ensaio(args@, workdir@),
{
    let config = ArquivoTrabalho::Config.caminho(workdir);
    let inicio = "dry-run: validação concluída sem subir o túnel\n".to_owned().concat(
        "  config segura: ",
    ).concat(config.as_str()).concat("\n");
    let meio = if prepara_auth_file(args).is_some() {
        let auth = ArquivoTrabalho::Auth.caminho(workdir);
        inicio.concat("  auth file:     ").concat(auth.as_str()).concat("\n")
    } else {
        inicio
    };
    meio.concat("  provider:      ").concat(args.provider.nome())
}

fn mensagem_cliente(workdir: &str) -> (r: String)
    ensures
        r@ == texto_cliente(workdir@),
{
    "openvpn iniciado em modo daemon (pid file: ".to_owned().concat(
        ArquivoTrabalho::Pid.caminho(workdir).as_str(),
    ).concat(")")
}

fn mensagem_tunel(interface: &str, ip: &str) -> (r: String)
    ensures
        r@ == texto_tunel(interface@, ip@),
{
    "túnel ativo em ".to_owned().concat(interface).concat(" (").concat(ip).concat(")")
}

fn mensagem_saude(host: &str, porta: u16, tentativa: u32) -> (r: String)
    ensures
        r@ == texto_saude(host@, porta, tentativa),
{
    "healthcheck OK em ".to_owned().concat(host).concat(":").concat(
        escreve_decimal(porta as u128).as_str(),
    ).concat(" (tentativa ").concat(escreve_decimal(tentativa as u128).as_str()).concat(")")
}

/// Text that tells that the attempt number `tentativa` failed, with the wait after it
/// shown as `espera`.
pub fn mensagem_retentativa(tentativa: u32, causa: &str, espera: &str) -> (r: String)
    ensures
        r@ == texto_retentativa(tentativa, causa@, espera@),
{
    "healthcheck tentativa ".to_owned().concat(
        escreve_decimal(tentativa as u128).as_str(),
    ).concat(" falhou (").concat(causa).concat("); retentando em ").concat(espera).concat("s")
}

// ---------------- What is to be done ----------------

/// The authentication file, where the VPN client is to use one.
pub open spec fn arquivo_auth(args: ArgsConectar<Seq<char>>) -> Option<ArquivoTrabalho> {
    if conteudo_auth(args) is Some {
        Some(ArquivoTrabalho::Auth)
    } else {
        None
    }
}

impl Conexao<Seq<char>> {
    /// What the command needs done.
    pub open spec fn acao_modelo(self) -> Acao<Seq<char>> {
        match self.etapa {
            EtapaConexao::Validando => Acao::InspecionaConfig,
            EtapaConexao::Mascarando { senha } => Acao::Mascara(senha),
            EtapaConexao::LendoConfig => Acao::LeConfig,
            EtapaConexao::GravandoConfig { conteudo } => Acao::EscreveArquivo {
                arquivo: ArquivoTrabalho::Config,
                conteudo,
            },
            EtapaConexao::RestringindoConfig => Acao::RestringePermissoes {
                arquivo: ArquivoTrabalho::Config,
                modo: MODO_RESTRITO,
            },
            EtapaConexao::GravandoAuth { conteudo } => Acao::EscreveArquivo {
                arquivo: ArquivoTrabalho::Auth,
                conteudo,
            },
            EtapaConexao::RestringindoAuth => Acao::RestringePermissoes {
                arquivo: ArquivoTrabalho::Auth,
                modo: MODO_RESTRITO,
            },
            EtapaConexao::RelatandoEnsaio => Acao::Imprime(texto_ensaio(self.args, self.workdir)),
            EtapaConexao::IniciandoCliente => Acao::ExecutaOpenvpn {
                config: ArquivoTrabalho::Config,
                auth: arquivo_auth(self.args),
                pid_file: ArquivoTrabalho::Pid,
            },
            EtapaConexao::AnunciandoCliente => Acao::Imprime(texto_cliente(self.workdir)),
            EtapaConexao::ListandoInterfaces { .. } => Acao::ListaInterfaces,
            EtapaConexao::PausandoInterfaces { pausa, .. } => Acao::Dorme(pausa),
            EtapaConexao::LendoIp { interface, .. } => Acao::LeIpv4 { interface },
            EtapaConexao::PausandoIp { pausa, .. } => Acao::Dorme(pausa),
            EtapaConexao::AnunciandoTunel { interface, ip, .. } => Acao::Imprime(
                texto_tunel(interface, ip),
            ),
            EtapaConexao::PublicandoInterface { interface, .. } => Acao::PublicaOutput {
                key: "interface"@,
                value: interface,
            },
            EtapaConexao::PublicandoIp { ip, .. } => Acao::PublicaOutput {
                key: "tunnel-ip"@,
                value: ip,
            },
            EtapaConexao::Verificando { host, .. } => Acao::TentaConexaoTcp {
                host,
                porta: self.args.healthcheck_port,
                timeout: segundos(TETO_TENTATIVA_SECS),
            },
            EtapaConexao::Retentando { tentativa, causa, espera, .. } => Acao::Retenta {
                tentativa,
                causa,
                espera,
            },
            EtapaConexao::AnunciandoSaude { host, tentativa } => Acao::Imprime(
                texto_saude(host, self.args.healthcheck_port, tentativa),
            ),
            EtapaConexao::Avisando => Acao::Anota {
                level: "warning"@,
                message: texto_sem_healthcheck(),
            },
            EtapaConexao::Encerrada(_) => Acao::Encerra,
        }
    }
}

impl Conexao<String> {
    /// What the command needs done.
    pub fn acao(&self) -> (r: Acao)
        ensures
            r@ == self@.acao_modelo(),
    {
        match &self.etapa {
            EtapaConexao::Validando => Acao::InspecionaConfig,
            EtapaConexao::Mascarando { senha } => Acao::Mascara(senha.clone()),
            EtapaConexao::LendoConfig => Acao::LeConfig,
            EtapaConexao::GravandoConfig { conteudo } => Acao::EscreveArquivo {
                arquivo: ArquivoTrabalho::Config,
                conteudo: conteudo.clone(),
            },
            EtapaConexao::RestringindoConfig => Acao::RestringePermissoes {
                arquivo: ArquivoTrabalho::Config,
                modo: MODO_RESTRITO,
            },
            EtapaConexao::GravandoAuth { conteudo } => Acao::EscreveArquivo {
                arquivo: ArquivoTrabalho::Auth,
                conteudo: conteudo.clone(),
            },
            EtapaConexao::RestringindoAuth => Acao::RestringePermissoes {
                arquivo: ArquivoTrabalho::Auth,
                modo: MODO_RESTRITO,
            },
            EtapaConexao::RelatandoEnsaio => Acao::Imprime(
                mensagem_ensaio(&self.args, self.workdir.as_str()),
            ),
            EtapaConexao::IniciandoCliente => {
                let auth = if prepara_auth_file(&self.args).is_some() {
                    Some(ArquivoTrabalho::Auth)
                } else {
                    None
                };
                Acao::ExecutaOpenvpn {
                    config: ArquivoTrabalho::Config,
                    auth,
                    pid_file: ArquivoTrabalho::Pid,
                }
            },
            EtapaConexao::AnunciandoCliente => Acao::Imprime(
                mensagem_cliente(self.workdir.as_str()),
            ),
            EtapaConexao::ListandoInterfaces { .. } => Acao::ListaInterfaces,
            EtapaConexao::PausandoInterfaces { pausa, .. } => Acao::Dorme(*pausa),
            EtapaConexao::LendoIp { interface, .. } => Acao::LeIpv4 {
                interface: interface.clone(),
            },
            EtapaConexao::PausandoIp { pausa, .. } => Acao::Dorme(*pausa),
            EtapaConexao::AnunciandoTunel { interface, ip, .. } => Acao::Imprime(
                mensagem_tunel(interface.as_str(), ip.as_str()),
            ),
            EtapaConexao::PublicandoInterface { interface, .. } => Acao::PublicaOutput {
                key: "interface".to_owned(),
                value: interface.clone(),
            },
            EtapaConexao::PublicandoIp { ip, .. } => Acao::PublicaOutput {
                key: "tunnel-ip".to_owned(),
                value: ip.clone(),
            },
            EtapaConexao::Verificando { host, .. } => Acao::TentaConexaoTcp {
                host: host.clone(),
                porta: self.args.healthcheck_port,
                timeout: Duracao::from_secs(TETO_TENTATIVA_SECS),
            },
            EtapaConexao::Retentando { tentativa, causa, espera, .. } => Acao::Retenta {
                tentativa: *tentativa,
                causa: causa.clone(),
                espera: *espera,
            },
            EtapaConexao::AnunciandoSaude { host, tentativa } => Acao::Imprime(
                mensagem_saude(host.as_str(), self.args.healthcheck_port, *tentativa),
            ),
            EtapaConexao::Avisando => Acao::Anota {
                level: "warning".to_owned(),
                message: "healthcheck não configurado — conectividade pós-túnel não foi validada".to_owned(),
            },
            EtapaConexao::Encerrada(_) => Acao::Encerra,
        }
    }
}

// ---------------- What comes of it ----------------

/// The permissions of the file shown as `caminho` were set, or not.
pub open spec fn permissoes(caminho: Seq<char>, ajuste: Result<(), Seq<char>>) -> Result<
    (),
    Erro<Seq<char>>,
> {
    match ajuste {
        Ok(_) => Ok(()),
        Err(causa) => Err(Erro::Permissoes { caminho, causa }),
    }
}

/// The stage after the checks have passed.
pub open spec fn apos_validacao(args: ArgsConectar<Seq<char>>) -> EtapaConexao<Seq<char>> {
    match args.password {
        Some(senha) => EtapaConexao::Mascarando { senha },
        None => EtapaConexao::LendoConfig,
    }
}

/// The stage after the files are in place.
pub open spec fn apos_arquivos(args: ArgsConectar<Seq<char>>) -> EtapaConexao<Seq<char>> {
    if args.dry_run {
        EtapaConexao::RelatandoEnsaio
    } else {
        EtapaConexao::IniciandoCliente
    }
}

/// The stage after the private copy of the configuration is in place.
pub open spec fn apos_config(args: ArgsConectar<Seq<char>>) -> EtapaConexao<Seq<char>> {
    match conteudo_auth(args) {
        Some(conteudo) => EtapaConexao::GravandoAuth { conteudo },
        None => apos_arquivos(args),
    }
}

/// The stage after the outputs have been published, if the waits began at `inicio`.
pub open spec fn apos_outputs(args: ArgsConectar<Seq<char>>, inicio: Duracao) -> EtapaConexao<
    Seq<char>,
> {
    match args.healthcheck_host {
        Some(host) => EtapaConexao::Verificando { host, anteriores: 0, inicio },
        None => EtapaConexao::Avisando,
    }
}

/// One step of the copy of the configuration into the work directory: it is read,
/// written as it is, and closed to others.
pub open spec fn passo_config(
    args: ArgsConectar<Seq<char>>,
    workdir: Seq<char>,
    etapa: EtapaConexao<Seq<char>>,
    evento: EventoModelo,
) -> EtapaConexao<Seq<char>> {
    match (etapa, evento) {
        (EtapaConexao::LendoConfig, Evento::Lido(Ok(conteudo))) => EtapaConexao::GravandoConfig {
            conteudo,
        },
        (EtapaConexao::LendoConfig, Evento::Lido(Err(causa))) => EtapaConexao::Encerrada(
            Err(Erro::LeituraConfig { config: args.config, causa }),
        ),
        (EtapaConexao::GravandoConfig { .. }, Evento::Gravado(Ok(_))) =>
        EtapaConexao::RestringindoConfig,
        (EtapaConexao::GravandoConfig { .. }, Evento::Gravado(Err(causa))) =>
        EtapaConexao::Encerrada(
            Err(Erro::EscritaConfig { destino: ArquivoTrabalho::Config.em(workdir), causa }),
        ),
        (EtapaConexao::RestringindoConfig, Evento::Gravado(ajuste)) => match permissoes(
            ArquivoTrabalho::Config.em(workdir),
            ajuste,
        ) {
            Ok(_) => apos_config(args),
            Err(e) => EtapaConexao::Encerrada(Err(e)),
        },
        (etapa, _) => etapa,
    }
}

/// One step of the preparation of the authentication file: it is written and closed to
/// others.
pub open spec fn passo_auth(
    args: ArgsConectar<Seq<char>>,
    workdir: Seq<char>,
    etapa: EtapaConexao<Seq<char>>,
    evento: EventoModelo,
) -> EtapaConexao<Seq<char>> {
    match (etapa, evento) {
        (EtapaConexao::GravandoAuth { .. }, Evento::Gravado(Ok(_))) =>
        EtapaConexao::RestringindoAuth,
        (EtapaConexao::GravandoAuth { .. }, Evento::Gravado(Err(causa))) =>
        EtapaConexao::Encerrada(
            Err(Erro::EscritaAuth { destino: ArquivoTrabalho::Auth.em(workdir), causa }),
        ),
        (EtapaConexao::RestringindoAuth, Evento::Gravado(ajuste)) => match permissoes(
            ArquivoTrabalho::Auth.em(workdir),
            ajuste,
        ) {
            Ok(_) => apos_arquivos(args),
            Err(e) => EtapaConexao::Encerrada(Err(e)),
        },
        (etapa, _) => etapa,
    }
}

/// One step of the start of the VPN client. The time for the connection begins when it is
/// done.
pub open spec fn passo_cliente(
    etapa: EtapaConexao<Seq<char>>,
    evento: EventoModelo,
    agora: Duracao,
) -> EtapaConexao<Seq<char>> {
    match (etapa, evento) {
        (EtapaConexao::IniciandoCliente, Evento::Executado(Ok(_))) =>
        EtapaConexao::AnunciandoCliente,
        (EtapaConexao::IniciandoCliente, Evento::Executado(Err(e))) => EtapaConexao::Encerrada(
            Err(e),
        ),
        (EtapaConexao::AnunciandoCliente, Evento::Feito) => EtapaConexao::ListandoInterfaces {
            inicio: agora,
        },
        (etapa, _) => etapa,
    }
}

/// One step of the wait for the interface of the tunnel and then for its address.
pub open spec fn passo_tunel(
    args: ArgsConectar<Seq<char>>,
    etapa: EtapaConexao<Seq<char>>,
    evento: EventoModelo,
    agora: Duracao,
) -> EtapaConexao<Seq<char>> {
    let timeout = segundos(args.timeout_secs);
    match (etapa, evento) {
        (EtapaConexao::ListandoInterfaces { inicio }, Evento::Interfaces(listagem)) =>
        match procura_interface(args, listagem, decorrido(inicio, agora), timeout) {
            Sondagem::Concluida(interface) => EtapaConexao::LendoIp { interface, inicio },
            Sondagem::Repete(pausa) => EtapaConexao::PausandoInterfaces { inicio, pausa },
            Sondagem::Falha(e) => EtapaConexao::Encerrada(Err(e)),
        },
        (EtapaConexao::PausandoInterfaces { inicio, .. }, Evento::Feito) =>
        EtapaConexao::ListandoInterfaces { inicio },
        (EtapaConexao::LendoIp { interface, inicio }, Evento::Ipv4(leitura)) => match procura_ip(
            interface,
            leitura,
            decorrido(inicio, agora),
            timeout,
        ) {
            Sondagem::Concluida(ip) => EtapaConexao::AnunciandoTunel { interface, ip, inicio },
            Sondagem::Repete(pausa) => EtapaConexao::PausandoIp { interface, inicio, pausa },
            Sondagem::Falha(e) => EtapaConexao::Encerrada(Err(e)),
        },
        (EtapaConexao::PausandoIp { interface, inicio, .. }, Evento::Feito) =>
        EtapaConexao::LendoIp { interface, inicio },
        (etapa, _) => etapa,
    }
}

/// One step of telling the tunnel to the user and to the later steps of the job.
pub open spec fn passo_outputs(
    args: ArgsConectar<Seq<char>>,
    etapa: EtapaConexao<Seq<char>>,
    evento: EventoModelo,
) -> EtapaConexao<Seq<char>> {
    match (etapa, evento) {
        (EtapaConexao::AnunciandoTunel { interface, ip, inicio }, Evento::Feito) =>
        EtapaConexao::PublicandoInterface { interface, ip, inicio },
        (EtapaConexao::PublicandoInterface { ip, inicio, .. }, Evento::Executado(Ok(_))) =>
        EtapaConexao::PublicandoIp { ip, inicio },
        (EtapaConexao::PublicandoInterface { .. }, Evento::Executado(Err(e))) =>
        EtapaConexao::Encerrada(Err(e)),
        (EtapaConexao::PublicandoIp { inicio, .. }, Evento::Executado(Ok(_))) => apos_outputs(
            args,
            inicio,
        ),
        (EtapaConexao::PublicandoIp { .. }, Evento::Executado(Err(e))) => EtapaConexao::Encerrada(
            Err(e),
        ),
        (etapa, _) => etapa,
    }
}

/// One step of the health check, if `espera` is the wait that comes after an attempt that
/// failed.
pub open spec fn passo_saude(
    args: ArgsConectar<Seq<char>>,
    etapa: EtapaConexao<Seq<char>>,
    evento: EventoModelo,
    agora: Duracao,
    espera: Duracao,
) -> EtapaConexao<Seq<char>> {
    match (etapa, evento) {
        (EtapaConexao::Verificando { host, anteriores, inicio }, Evento::Executado(tcp)) => {
            let tentativa = (anteriores + 1) as u32;
            match julga_tentativa(
                host,
                args.healthcheck_port,
                tentativa,
                tcp,
                decorrido(inicio, agora),
                segundos(args.timeout_secs),
                espera,
            ) {
                Saude::Saudavel => EtapaConexao::AnunciandoSaude { host, tentativa },
                Saude::Retenta { espera, causa } => EtapaConexao::Retentando {
                    host,
                    tentativa,
                    causa,
                    espera,
                    inicio,
                },
                Saude::Falha(e) => EtapaConexao::Encerrada(Err(e)),
            }
        },
        (EtapaConexao::Retentando { host, tentativa, inicio, .. }, Evento::Feito) =>
        EtapaConexao::Verificando { host, anteriores: tentativa, inicio },
        (EtapaConexao::AnunciandoSaude { .. }, Evento::Feito) => EtapaConexao::Encerrada(Ok(())),
        (etapa, _) => etapa,
    }
}

impl Conexao<Seq<char>> {
    /// The stage after `evento`, which was told at `agora`. An event that does not answer
    /// the action changes nothing. `espera` is the wait that comes after an attempt of the
    /// health check that failed.
    pub open spec fn proxima_etapa(
        self,
        evento: EventoModelo,
        agora: Duracao,
        espera: Duracao,
    ) -> EtapaConexao<Seq<char>> {
        match self.etapa {
            EtapaConexao::Validando => match evento {
                Evento::Config { existe, regular } => match precondicoes(
                    self.args,
                    existe,
                    regular,
                ) {
                    Ok(_) => apos_validacao(self.args),
                    Err(e) => EtapaConexao::Encerrada(Err(e)),
                },
                _ => self.etapa,
            },
            EtapaConexao::Mascarando { .. } => if evento is Feito {
                EtapaConexao::LendoConfig
            } else {
                self.etapa
            },
            EtapaConexao::LendoConfig
            | EtapaConexao::GravandoConfig { .. }
            | EtapaConexao::RestringindoConfig => passo_config(
                self.args,
                self.workdir,
                self.etapa,
                evento,
            ),
            EtapaConexao::GravandoAuth { .. } | EtapaConexao::RestringindoAuth => passo_auth(
                self.args,
                self.workdir,
                self.etapa,
                evento,
            ),
            EtapaConexao::IniciandoCliente | EtapaConexao::AnunciandoCliente => passo_cliente(
                self.etapa,
                evento,
                agora,
            ),
            EtapaConexao::ListandoInterfaces { .. }
            | EtapaConexao::PausandoInterfaces { .. }
            | EtapaConexao::LendoIp { .. }
            | EtapaConexao::PausandoIp { .. } => passo_tunel(self.args, self.etapa, evento, agora),
            EtapaConexao::AnunciandoTunel { .. }
            | EtapaConexao::PublicandoInterface { .. }
            | EtapaConexao::PublicandoIp { .. } => passo_outputs(self.args, self.etapa, evento),
            EtapaConexao::Verificando { .. }
            | EtapaConexao::Retentando { .. }
            | EtapaConexao::AnunciandoSaude { .. } => passo_saude(
                self.args,
                self.etapa,
                evento,
                agora,
                espera,
            ),
            EtapaConexao::RelatandoEnsaio | EtapaConexao::Avisando => if evento is Feito {
                EtapaConexao::Encerrada(Ok(()))
            } else {
                self.etapa
            },
            EtapaConexao::Encerrada(_) => self.etapa,
        }
    }

    /// The run after `evento`.
    pub open spec fn proxima(
        self,
        evento: EventoModelo,
        agora: Duracao,
        espera: Duracao,
    ) -> Conexao<Seq<char>> {
        Conexao { etapa: self.proxima_etapa(evento, agora, espera), ..self }
    }

    /// The attempts of the health check can still be counted.
    pub open spec fn contavel(self) -> bool {
        self.etapa matches EtapaConexao::Verificando { anteriores, .. } ==> anteriores < u32::MAX
    }
}

/// Takes note of whether the permissions of the file shown as `caminho` were set.
pub fn restringe_permissoes(caminho: &str, ajuste: Result<(), String>) -> (r: Result<(), Erro>)
    ensures
        resultado(r) == permissoes(caminho@, resultado(ajuste)),
{
    match ajuste {
        Ok(_) => Ok(()),
        Err(causa) => Err(Erro::Permissoes { caminho: caminho.to_owned(), causa }),
    }
}

fn segue_apos_validacao(args: &ArgsConectar) -> (r: EtapaConexao)
    ensures
        r@ == apos_validacao(args@),
{
    match mascara_credenciais(args) {
        Some(senha) => EtapaConexao::Mascarando { senha },
        None => EtapaConexao::LendoConfig,
    }
}

fn segue_apos_arquivos(args: &ArgsConectar) -> (r: EtapaConexao)
    ensures
        r@ == apos_arquivos(args@),
{
    if args.dry_run {
        EtapaConexao::RelatandoEnsaio
    } else {
        EtapaConexao::IniciandoCliente
    }
}

fn segue_apos_config(args: &ArgsConectar) -> (r: EtapaConexao)
    ensures
        r@ == apos_config(args@),
{
    match prepara_auth_file(args) {
        Some(conteudo) => EtapaConexao::GravandoAuth { conteudo },
        None => segue_apos_arquivos(args),
    }
}

fn segue_apos_outputs(args: &ArgsConectar, inicio: Duracao) -> (r: EtapaConexao)
    ensures
        r@ == apos_outputs(args@, inicio),
{
    match &args.healthcheck_host {
        Some(host) => EtapaConexao::Verificando { host: host.clone(), anteriores: 0, inicio },
        None => EtapaConexao::Avisando,
    }
}

/// One step of the copy of the configuration into the work directory.
fn escreve_config_segura(
    args: &ArgsConectar,
    workdir: &str,
    etapa: EtapaConexao,
    evento: Evento,
) -> (r: EtapaConexao)
    ensures
        r@ == passo_config(args@, workdir@, etapa@, evento@),
{
    match (etapa, evento) {
        (EtapaConexao::LendoConfig, Evento::Lido(Ok(conteudo))) => EtapaConexao::GravandoConfig {
            conteudo,
        },
        (EtapaConexao::LendoConfig, Evento::Lido(Err(causa))) => EtapaConexao::Encerrada(
            Err(Erro::LeituraConfig { config: args.config.clone(), causa }),
        ),
        (EtapaConexao::GravandoConfig { .. }, Evento::Gravado(Ok(_))) =>
        EtapaConexao::RestringindoConfig,
        (EtapaConexao::GravandoConfig { .. }, Evento::Gravado(Err(causa))) => {
            let destino = ArquivoTrabalho::Config.caminho(workdir);
            EtapaConexao::Encerrada(Err(Erro::EscritaConfig { destino, causa }))
        },
        (EtapaConexao::RestringindoConfig, Evento::Gravado(ajuste)) => {
            let caminho = ArquivoTrabalho::Config.caminho(workdir);
            match restringe_permissoes(caminho.as_str(), ajuste) {
                Ok(_) => segue_apos_config(args),
                Err(e) => EtapaConexao::Encerrada(Err(e)),
            }
        },
        (etapa, _) => etapa,
    }
}

/// One step of the preparation of the authentication file.
fn grava_auth_file(
    args: &ArgsConectar,
    workdir: &str,
    etapa: EtapaConexao,
    evento: Evento,
) -> (r: EtapaConexao)
    ensures
        r@ == passo_auth(args@, workdir@, etapa@, evento@),
{
    match (etapa, evento) {
        (EtapaConexao::GravandoAuth { .. }, Evento::Gravado(Ok(_))) =>
        EtapaConexao::RestringindoAuth,
        (EtapaConexao::GravandoAuth { .. }, Evento::Gravado(Err(causa))) => {
            let destino = ArquivoTrabalho::Auth.caminho(workdir);
            EtapaConexao::Encerrada(Err(Erro::EscritaAuth { destino, causa }))
        },
        (EtapaConexao::RestringindoAuth, Evento::Gravado(ajuste)) => {
            let caminho = ArquivoTrabalho::Auth.caminho(workdir);
            match restringe_permissoes(caminho.as_str(), ajuste) {
                Ok(_) => segue_apos_arquivos(args),
                Err(e) => EtapaConexao::Encerrada(Err(e)),
            }
        },
        (etapa, _) => etapa,
    }
}

/// One step of the start of the VPN client.
fn executa_cliente(etapa: EtapaConexao, evento: Evento, agora: Duracao) -> (r: EtapaConexao)
    ensures
        r@ == passo_cliente(etapa@, evento@, agora),
{
    match (etapa, evento) {
        (EtapaConexao::IniciandoCliente, Evento::Executado(Ok(_))) =>
        EtapaConexao::AnunciandoCliente,
        (EtapaConexao::IniciandoCliente, Evento::Executado(Err(e))) => EtapaConexao::Encerrada(
            Err(e),
        ),
        (EtapaConexao::AnunciandoCliente, Evento::Feito) => EtapaConexao::ListandoInterfaces {
            inicio: agora,
        },
        (etapa, _) => etapa,
    }
}

/// One step of the wait for the interface of the tunnel and then for its address.
fn aguarda_tunel(
    args: &ArgsConectar,
    etapa: EtapaConexao,
    evento: Evento,
    agora: Duracao,
) -> (r: EtapaConexao)
    ensures
        r@ == passo_tunel(args@, etapa@, evento@, agora),
{
    let timeout = Duracao::from_secs(args.timeout_secs);
    match (etapa, evento) {
        (EtapaConexao::ListandoInterfaces { inicio }, Evento::Interfaces(listagem)) => {
            match descobre_interface(args, listagem, inicio.ate(agora), timeout) {
                Sondagem::Concluida(interface) => EtapaConexao::LendoIp { interface, inicio },
                Sondagem::Repete(pausa) => EtapaConexao::PausandoInterfaces { inicio, pausa },
                Sondagem::Falha(e) => EtapaConexao::Encerrada(Err(e)),
            }
        },
        (EtapaConexao::PausandoInterfaces { inicio, .. }, Evento::Feito) =>
        EtapaConexao::ListandoInterfaces { inicio },
        (EtapaConexao::LendoIp { interface, inicio }, Evento::Ipv4(leitura)) => {
            match descobre_ip(interface.as_str(), leitura, inicio.ate(agora), timeout) {
                Sondagem::Concluida(ip) => EtapaConexao::AnunciandoTunel { interface, ip, inicio },
                Sondagem::Repete(pausa) => EtapaConexao::PausandoIp { interface, inicio, pausa },
                Sondagem::Falha(e) => EtapaConexao::Encerrada(Err(e)),
            }
        },
        (EtapaConexao::PausandoIp { interface, inicio, .. }, Evento::Feito) =>
        EtapaConexao::LendoIp { interface, inicio },
        (etapa, _) => etapa,
    }
}

/// One step of telling the tunnel to the user and to the later steps of the job.
fn publica_outputs(args: &ArgsConectar, etapa: EtapaConexao, evento: Evento) -> (r: EtapaConexao)
    ensures
        r@ == passo_outputs(args@, etapa@, evento@),
{
    match (etapa, evento) {
        (EtapaConexao::AnunciandoTunel { interface, ip, inicio }, Evento::Feito) =>
        EtapaConexao::PublicandoInterface { interface, ip, inicio },
        (EtapaConexao::PublicandoInterface { ip, inicio, .. }, Evento::Executado(Ok(_))) =>
        EtapaConexao::PublicandoIp { ip, inicio },
        (EtapaConexao::PublicandoInterface { .. }, Evento::Executado(Err(e))) =>
        EtapaConexao::Encerrada(Err(e)),
        (EtapaConexao::PublicandoIp { inicio, .. }, Evento::Executado(Ok(_))) =>
        segue_apos_outputs(args, inicio),
        (EtapaConexao::PublicandoIp { .. }, Evento::Executado(Err(e))) => EtapaConexao::Encerrada(
            Err(e),
        ),
        (etapa, _) => etapa,
    }
}

/// One step of the health check.
fn conduz_healthcheck(
    args: &ArgsConectar,
    etapa: EtapaConexao,
    evento: Evento,
    agora: Duracao,
    espera: Duracao,
) -> (r: EtapaConexao)
    requires
        etapa@ matches EtapaConexao::Verificando { anteriores, .. } ==> anteriores < u32::MAX,
    ensures
        r@ == passo_saude(args@, etapa@, evento@, agora, espera),
{
    match (etapa, evento) {
        (EtapaConexao::Verificando { host, anteriores, inicio }, Evento::Executado(tcp)) => {
            let tentativa: u32 = anteriores + 1;
            match verifica_healthcheck(
                host.as_str(),
                args.healthcheck_port,
                tentativa,
                tcp,
                inicio.ate(agora),
                Duracao::from_secs(args.timeout_secs),
                espera,
            ) {
                Saude::Saudavel => EtapaConexao::AnunciandoSaude { host, tentativa },
                Saude::Retenta { espera, causa } => EtapaConexao::Retentando {
                    host,
                    tentativa,
                    causa,
                    espera,
                    inicio,
                },
                Saude::Falha(e) => EtapaConexao::Encerrada(Err(e)),
            }
        },
        (EtapaConexao::Retentando { host, tentativa, inicio, .. }, Evento::Feito) =>
        EtapaConexao::Verificando { host, anteriores: tentativa, inicio },
        (EtapaConexao::AnunciandoSaude { .. }, Evento::Feito) => EtapaConexao::Encerrada(Ok(())),
        (etapa, _) => etapa,
    }
}

/// A run of `conectar` that has not begun.
pub open spec fn conexao_inicial(args: ArgsConectar<Seq<char>>, workdir: Seq<char>) -> Conexao<
    Seq<char>,
> {
    Conexao { args, workdir, etapa: EtapaConexao::Validando }
}

/// Begins a run of `conectar` in the work directory shown as `workdir`.
pub fn conectar_com(args: ArgsConectar, workdir: String) -> (r: Conexao)
    ensures
        r@ == conexao_inicial(args@, workdir@),
{
    Conexao { args, workdir, etapa: EtapaConexao::Validando }
}

impl Conexao<String> {
    /// Tells whether the attempts of the health check can still be counted.
    pub fn pode_avancar(&self) -> (r: bool)
        ensures
            r == self@.contavel(),
    {
        match &self.etapa {
            EtapaConexao::Verificando { anteriores, .. } => *anteriores < u32::MAX,
            _ => true,
        }
    }

    /// Takes note of what came of the action, at `agora`, given the wait that comes after
    /// an attempt of the health check that failed.
    pub fn avanca_com(self, evento: Evento, agora: Duracao, espera: Duracao) -> (r: Conexao)
        requires
            self@.contavel(),
        ensures
            r@ == self@.proxima(evento@, agora, espera),
    {
        let args = self.args;
        let workdir = self.workdir;
        let atual = self.etapa;
        let etapa = match &atual {
            EtapaConexao::Validando => match evento {
                Evento::Config { existe, regular } => {
                    match valida_precondicoes(&args, existe, regular) {
                        Ok(_) => segue_apos_validacao(&args),
                        Err(e) => EtapaConexao::Encerrada(Err(e)),
                    }
                },
                _ => atual,
            },
            EtapaConexao::Mascarando { .. } => match evento {
                Evento::Feito => EtapaConexao::LendoConfig,
                _ => atual,
            },
            EtapaConexao::LendoConfig
            | EtapaConexao::GravandoConfig { .. }
            | EtapaConexao::RestringindoConfig => escreve_config_segura(
                &args,
                workdir.as_str(),
                atual,
                evento,
            ),
            EtapaConexao::GravandoAuth { .. } | EtapaConexao::RestringindoAuth => grava_auth_file(
                &args,
                workdir.as_str(),
                atual,
                evento,
            ),
            EtapaConexao::IniciandoCliente | EtapaConexao::AnunciandoCliente => executa_cliente(
                atual,
                evento,
                agora,
            ),
            EtapaConexao::ListandoInterfaces { .. }
            | EtapaConexao::PausandoInterfaces { .. }
            | EtapaConexao::LendoIp { .. }
            | EtapaConexao::PausandoIp { .. } => aguarda_tunel(&args, atual, evento, agora),
            EtapaConexao::AnunciandoTunel { .. }
            | EtapaConexao::PublicandoInterface { .. }
            | EtapaConexao::PublicandoIp { .. } => publica_outputs(&args, atual, evento),
            EtapaConexao::Verificando { .. }
            | EtapaConexao::Retentando { .. }
            | EtapaConexao::AnunciandoSaude { .. } => conduz_healthcheck(
                &args,
                atual,
                evento,
                agora,
                espera,
            ),
            EtapaConexao::RelatandoEnsaio | EtapaConexao::Avisando => match evento {
                Evento::Feito => EtapaConexao::Encerrada(Ok(())),
                _ => atual,
            },
            EtapaConexao::Encerrada(_) => atual,
        };
        Conexao { args, workdir, etapa }
    }

    /// Takes note of what came of the action, at `agora`. The wait after an attempt of the
    /// health check that failed has a random part.
    pub fn avanca(self, evento: Evento, agora: Duracao) -> (r: Conexao)
        requires
            self@.contavel(),
        ensures
            exists|espera: Duracao|
                r@ == #[trigger] self@.proxima(evento@, agora, espera) && (
                self@.etapa matches EtapaConexao::Verificando { anteriores, .. }
                    ==> backoff_possivel(anteriores, espera)),
    {
        let espera = match &self.etapa {
            EtapaConexao::Verificando { anteriores, .. } => calcula_backoff(*anteriores),
            _ => Duracao { nanos: 0 },
        };
        self.avanca_com(evento, agora, espera)
    }

    /// How the command ended, or `None` while it is going on.
    pub fn resultado(self) -> (r: Option<Result<(), Erro>>)
        ensures
            match self@.etapa {
                EtapaConexao::Encerrada(fim) => r is Some && resultado(r->0) == fim,
                _ => r is None,
            },
    {
        match self.etapa {
            EtapaConexao::Encerrada(fim) => Some(fim),
            _ => None,
        }
    }
}

} // verus!
