//! What can go wrong, and the message that says so.

use vstd::prelude::*;
use vstd::string::*;

use crate::numero::{decimal, escreve_decimal, NumeroInvalido};

verus! {

/// A failure, with what its message tells. `T` is the type of text: `String` in
/// executable code, `Seq<char>` in specifications.
#[derive(Debug, PartialEq, Eq)]
pub enum Erro<T = String> {
    /// The work directory could not be created.
    DiretorioTrabalho { dir: T, causa: T },
    /// There is nothing at the path of the configuration.
    ConfigNaoEncontrada { config: T },
    /// The path of the configuration does not name a regular file.
    ConfigNaoRegular { config: T },
    /// A user name was given without a password.
    SenhaAusente,
    /// A password was given without a user name.
    UsuarioAusente,
    /// The configuration could not be read.
    LeituraConfig { config: T, causa: T },
    /// The private copy of the configuration could not be written.
    EscritaConfig { destino: T, causa: T },
    /// The authentication file could not be written.
    EscritaAuth { destino: T, causa: T },
    /// The permissions of a file could not be restricted.
    Permissoes { caminho: T, causa: T },
    /// The VPN client could not be run.
    OpenvpnNaoExecutou { causa: T },
    /// The VPN client ended with a failure status.
    OpenvpnRetornou { status: T, stderr: T, stdout: T },
    /// The command that lists the interfaces could not be run.
    IpLinkNaoExecutou { causa: T },
    /// The command that lists the interfaces ended with a failure status.
    IpLinkRetornou { status: T, stderr: T },
    /// The interfaces could not be listed while waiting for the tunnel.
    ListaInterfaces { causa: T },
    /// The interface of the given name did not appear in time.
    TimeoutInterface { segundos: u128, nome: T },
    /// No interface with the given prefix appeared in time.
    TimeoutPrefixo { segundos: u128, prefixo: T },
    /// The command that shows the address of an interface could not be run.
    IpAddrNaoExecutou { causa: T },
    /// The interface got no IPv4 address in time.
    TimeoutIp { segundos: u128, interface: T },
    /// The address of the health check could not be resolved.
    Resolucao { endereco: T, causa: T },
    /// The address of the health check resolved to nothing.
    NenhumEndereco { endereco: T },
    /// No resolved address accepted the connection; the cause is that of the last one.
    ConexaoTcp { endereco: T, causa: T },
    /// The health check did not succeed in time; the cause is that of the last attempt.
    Healthcheck { host: T, porta: u16, tentativas: u32, segundos: u128, causa: T },
    /// The file of the step outputs could not be opened.
    AberturaOutput { causa: T },
    /// The file of the step outputs could not be written.
    EscritaOutput { causa: T },
    /// The process id file could not be read.
    LeituraPid { caminho: T, causa: T },
    /// The process id file does not hold a process id.
    PidInvalido { caminho: T, motivo: NumeroInvalido },
    /// The command that asks a process to end could not be run.
    KillNaoExecutou { causa: T },
    /// The command that asks a process to end failed.
    KillFalhou { pid: u32, stderr: T },
    /// The command that tests whether a process exists could not be run.
    SondaNaoExecutou { causa: T },
    /// The process was still alive when the wait was over.
    NaoEncerrou { pid: u32, segundos: u128 },
    /// A mandatory environment variable is not set.
    VariavelAusente { nome: T },
}

impl View for Erro<String> {
    type V = Erro<Seq<char>>;

    open spec fn view(&self) -> Erro<Seq<char>> {
        match *self {
            Erro::DiretorioTrabalho { dir, causa } => Erro::DiretorioTrabalho {
                dir: dir@,
                causa: causa@,
            },
            Erro::ConfigNaoEncontrada { config } => Erro::ConfigNaoEncontrada { config: config@ },
            Erro::ConfigNaoRegular { config } => Erro::ConfigNaoRegular { config: config@ },
            Erro::SenhaAusente => Erro::SenhaAusente,
            Erro::UsuarioAusente => Erro::UsuarioAusente,
            Erro::LeituraConfig { config, causa } => Erro::LeituraConfig {
                config: config@,
                causa: causa@,
            },
            Erro::EscritaConfig { destino, causa } => Erro::EscritaConfig {
                destino: destino@,
                causa: causa@,
            },
            Erro::EscritaAuth { destino, causa } => Erro::EscritaAuth {
                destino: destino@,
                causa: causa@,
            },
            Erro::Permissoes { caminho, causa } => Erro::Permissoes {
                caminho: caminho@,
                causa: causa@,
            },
            Erro::OpenvpnNaoExecutou { causa } => Erro::OpenvpnNaoExecutou { causa: causa@ },
            Erro::OpenvpnRetornou { status, stderr, stdout } => Erro::OpenvpnRetornou {
                status: status@,
                stderr: stderr@,
                stdout: stdout@,
            },
            Erro::IpLinkNaoExecutou { causa } => Erro::IpLinkNaoExecutou { causa: causa@ },
            Erro::IpLinkRetornou { status, stderr } => Erro::IpLinkRetornou {
                status: status@,
                stderr: stderr@,
            },
            Erro::ListaInterfaces { causa } => Erro::ListaInterfaces { causa: causa@ },
            Erro::TimeoutInterface { segundos, nome } => Erro::TimeoutInterface {
                segundos,
                nome: nome@,
            },
            Erro::TimeoutPrefixo { segundos, prefixo } => Erro::TimeoutPrefixo {
                segundos,
                prefixo: prefixo@,
            },
            Erro::IpAddrNaoExecutou { causa } => Erro::IpAddrNaoExecutou { causa: causa@ },
            Erro::TimeoutIp { segundos, interface } => Erro::TimeoutIp {
                segundos,
                interface: interface@,
            },
            Erro::Resolucao { endereco, causa } => Erro::Resolucao {
                endereco: endereco@,
                causa: causa@,
            },
            Erro::NenhumEndereco { endereco } => Erro::NenhumEndereco { endereco: endereco@ },
            Erro::ConexaoTcp { endereco, causa } => Erro::ConexaoTcp {
                endereco: endereco@,
                causa: causa@,
            },
            Erro::Healthcheck { host, porta, tentativas, segundos, causa } => Erro::Healthcheck {
                host: host@,
                porta,
                tentativas,
                segundos,
                causa: causa@,
            },
            Erro::AberturaOutput { causa } => Erro::AberturaOutput { causa: causa@ },
            Erro::EscritaOutput { causa } => Erro::EscritaOutput { causa: causa@ },
            Erro::LeituraPid { caminho, causa } => Erro::LeituraPid {
                caminho: caminho@,
                causa: causa@,
            },
            Erro::PidInvalido { caminho, motivo } => Erro::PidInvalido {
                caminho: caminho@,
                motivo,
            },
            Erro::KillNaoExecutou { causa } => Erro::KillNaoExecutou { causa: causa@ },
            Erro::KillFalhou { pid, stderr } => Erro::KillFalhou { pid, stderr: stderr@ },
            Erro::SondaNaoExecutou { causa } => Erro::SondaNaoExecutou { causa: causa@ },
            Erro::NaoEncerrou { pid, segundos } => Erro::NaoEncerrou { pid, segundos },
            Erro::VariavelAusente { nome } => Erro::VariavelAusente { nome: nome@ },
        }
    }
}

impl DeepView for Erro<String> {
    type V = Erro<Seq<char>>;

    open spec fn deep_view(&self) -> Erro<Seq<char>> {
        self@
    }
}

/// The deep view of a `Result`: that of the value or that of the failure.
pub open spec fn resultado<A: DeepView, B: DeepView>(r: Result<A, B>) -> Result<A::V, B::V> {
    match r {
        Ok(a) => Ok(a.deep_view()),
        Err(b) => Err(b.deep_view()),
    }
}

/// The text that explains why a numeral was not accepted.
pub open spec fn motivo_texto(m: NumeroInvalido) -> Seq<char> {
    match m {
        NumeroInvalido::Vazio => "cannot parse integer from empty string"@,
        NumeroInvalido::Digito => "invalid digit found in string"@,
        NumeroInvalido::Grande => "number too large to fit in target type"@,
    }
}

/// The text that explains why a numeral was not accepted.
fn motivo_mensagem(m: NumeroInvalido) -> (r: &'static str)
    ensures
        r@ == motivo_texto(m),
{
    match m {
        NumeroInvalido::Vazio => "cannot parse integer from empty string",
        NumeroInvalido::Digito => "invalid digit found in string",
        NumeroInvalido::Grande => "number too large to fit in target type",
    }
}

impl Erro<Seq<char>> {
    /// The message of this failure, its causes included, outermost first.
    pub open spec fn texto(self) -> Seq<char> {
        match self {
            Erro::DiretorioTrabalho { dir, causa } => {
                "falha ao criar diretório de trabalho "@ + dir + ": "@ + causa
            },
            Erro::ConfigNaoEncontrada { config } => {
                "arquivo de configuração não encontrado: "@ + config
            },
            Erro::ConfigNaoRegular { config } => {
                "caminho de configuração não é um arquivo regular: "@ + config
            },
            Erro::SenhaAusente => "--username foi informado mas --password está ausente"@,
            Erro::UsuarioAusente => "--password foi informado mas --username está ausente"@,
            Erro::LeituraConfig { config, causa } => {
                "falha ao ler config: "@ + config + ": "@ + causa
            },
            Erro::EscritaConfig { destino, causa } => {
                "falha ao escrever config segura em "@ + destino + ": "@ + causa
            },
            Erro::EscritaAuth { destino, causa } => {
                "falha ao escrever auth file em "@ + destino + ": "@ + causa
            },
            Erro::Permissoes { caminho, causa } => {
                "falha ao restringir permissões de "@ + caminho + ": "@ + causa
            },
            Erro::OpenvpnNaoExecutou { causa } => {
                "falha ao executar openvpn — binário instalado e acessível?: "@ + causa
            },
            Erro::OpenvpnRetornou { status, stderr, stdout } => {
                "openvpn retornou "@ + status + " — stderr: "@ + stderr + " | stdout: "@ + stdout
            },
            Erro::IpLinkNaoExecutou { causa } => {
                "falha ao executar `ip link show` — iproute2 instalado?: "@ + causa
            },
            Erro::IpLinkRetornou { status, stderr } => {
                "`ip link show` retornou "@ + status + ": "@ + stderr
            },
            Erro::ListaInterfaces { causa } => "falha ao listar interfaces de rede: "@ + causa,
            Erro::TimeoutInterface { segundos, nome } => {
                "timeout de "@ + decimal(segundos as nat) + "s aguardando interface '"@ + nome
                    + "' aparecer"@
            },
            Erro::TimeoutPrefixo { segundos, prefixo } => {
                "timeout de "@ + decimal(segundos as nat)
                    + "s aguardando interface com prefixo '"@ + prefixo + "*' aparecer"@
            },
            Erro::IpAddrNaoExecutou { causa } => {
                "falha ao executar `ip -4 -o addr show`: "@ + causa
            },
            Erro::TimeoutIp { segundos, interface } => {
                "timeout de "@ + decimal(segundos as nat) + "s aguardando IPv4 na interface '"@
                    + interface + "'"@
            },
            Erro::Resolucao { endereco, causa } => {
                "não foi possível resolver "@ + endereco + ": "@ + causa
            },
            Erro::NenhumEndereco { endereco } => "nenhum endereço resolvido para "@ + endereco,
            Erro::ConexaoTcp { endereco, causa } => {
                "connect TCP para "@ + endereco + " falhou em todos os endereços: "@ + causa
            },
            Erro::Healthcheck { host, porta, tentativas, segundos, causa } => {
                "healthcheck falhou em "@ + host + ":"@ + decimal(porta as nat) + " após "@
                    + decimal(tentativas as nat) + " tentativa(s) em "@ + decimal(segundos as nat)
                    + "s: "@ + causa
            },
            Erro::AberturaOutput { causa } => "falha ao abrir $GITHUB_OUTPUT: "@ + causa,
            Erro::EscritaOutput { causa } => "falha ao escrever em $GITHUB_OUTPUT: "@ + causa,
            Erro::LeituraPid { caminho, causa } => "falha ao ler "@ + caminho + ": "@ + causa,
            Erro::PidInvalido { caminho, motivo } => {
                "conteúdo inválido em "@ + caminho + ": "@ + motivo_texto(motivo)
            },
            Erro::KillNaoExecutou { causa } => "falha ao executar `kill -TERM`: "@ + causa,
            Erro::KillFalhou { pid, stderr } => {
                "kill -TERM "@ + decimal(pid as nat) + " falhou: "@ + stderr
            },
            Erro::SondaNaoExecutou { causa } => "falha ao executar `kill -0`: "@ + causa,
            Erro::NaoEncerrou { pid, segundos } => {
                "openvpn (pid "@ + decimal(pid as nat) + ") não encerrou em "@
                    + decimal(segundos as nat) + "s após SIGTERM"@
            },
            Erro::VariavelAusente { nome } => {
                "variável de ambiente obrigatória não definida: "@ + nome
            },
        }
    }
}

impl Erro<String> {
    /// The message of this failure, its causes included, outermost first.
    pub fn mensagem(&self) -> (r: String)
        ensures
            r@ == self@.texto(),
    {
        match self {
            Erro::DiretorioTrabalho { dir, causa } => {
                "falha ao criar diretório de trabalho ".to_owned()
                    .concat(dir.as_str())
                    .concat(": ")
                    .concat(causa.as_str())
            },
            Erro::ConfigNaoEncontrada { config } => {
                "arquivo de configuração não encontrado: ".to_owned()
                    .concat(config.as_str())
            },
            Erro::ConfigNaoRegular { config } => {
                "caminho de configuração não é um arquivo regular: ".to_owned()
                    .concat(config.as_str())
            },
            Erro::SenhaAusente => "--username foi informado mas --password está ausente".to_owned(),
            Erro::UsuarioAusente => {
                "--password foi informado mas --username está ausente".to_owned()
            },
            Erro::LeituraConfig { config, causa } => {
                "falha ao ler config: ".to_owned()
                    .concat(config.as_str())
                    .concat(": ")
                    .concat(causa.as_str())
            },
            Erro::EscritaConfig { destino, causa } => {
                "falha ao escrever config segura em ".to_owned()
                    .concat(destino.as_str())
                    .concat(": ")
                    .concat(causa.as_str())
            },
            Erro::EscritaAuth { destino, causa } => {
                "falha ao escrever auth file em ".to_owned()
                    .concat(destino.as_str())
                    .concat(": ")
                    .concat(causa.as_str())
            },
            Erro::Permissoes { caminho, causa } => {
                "falha ao restringir permissões de ".to_owned()
                    .concat(caminho.as_str())
                    .concat(": ")
                    .concat(causa.as_str())
            },
            Erro::OpenvpnNaoExecutou { causa } => {
                "falha ao executar openvpn — binário instalado e acessível?: ".to_owned()
                    .concat(causa.as_str())
            },
            Erro::OpenvpnRetornou { status, stderr, stdout } => {
                "openvpn retornou ".to_owned()
                    .concat(status.as_str())
                    .concat(" — stderr: ")
                    .concat(stderr.as_str())
                    .concat(" | stdout: ")
                    .concat(stdout.as_str())
            },
            Erro::IpLinkNaoExecutou { causa } => {
                "falha ao executar `ip link show` — iproute2 instalado?: ".to_owned()
                    .concat(causa.as_str())
            },
            Erro::IpLinkRetornou { status, stderr } => {
                "`ip link show` retornou ".to_owned()
                    .concat(status.as_str())
                    .concat(": ")
                    .concat(stderr.as_str())
            },
            Erro::ListaInterfaces { causa } => {
                "falha ao listar interfaces de rede: ".to_owned()
                    .concat(causa.as_str())
            },
            Erro::TimeoutInterface { segundos, nome } => {
                "timeout de ".to_owned()
                    .concat(escreve_decimal(*segundos as u128).as_str())
                    .concat("s aguardando interface '")
                    .concat(nome.as_str())
                    .concat("' aparecer")
            },
            Erro::TimeoutPrefixo { segundos, prefixo } => {
                "timeout de ".to_owned()
                    .concat(escreve_decimal(*segundos as u128).as_str())
                    .concat("s aguardando interface com prefixo '")
                    .concat(prefixo.as_str())
                    .concat("*' aparecer")
            },
            Erro::IpAddrNaoExecutou { causa } => {
                "falha ao executar `ip -4 -o addr show`: ".to_owned()
                    .concat(causa.as_str())
            },
            Erro::TimeoutIp { segundos, interface } => {
                "timeout de ".to_owned()
                    .concat(escreve_decimal(*segundos as u128).as_str())
                    .concat("s aguardando IPv4 na interface '")
                    .concat(interface.as_str())
                    .concat("'")
            },
            Erro::Resolucao { endereco, causa } => {
                "não foi possível resolver ".to_owned()
                    .concat(endereco.as_str())
                    .concat(": ")
                    .concat(causa.as_str())
            },
            Erro::NenhumEndereco { endereco } => {
                "nenhum endereço resolvido para ".to_owned()
                    .concat(endereco.as_str())
            },
            Erro::ConexaoTcp { endereco, causa } => {
                "connect TCP para ".to_owned()
                    .concat(endereco.as_str())
                    .concat(" falhou em todos os endereços: ")
                    .concat(causa.as_str())
            },
            Erro::Healthcheck { host, porta, tentativas, segundos, causa } => {
                "healthcheck falhou em ".to_owned()
                    .concat(host.as_str())
                    .concat(":")
                    .concat(escreve_decimal(*porta as u128).as_str())
                    .concat(" após ")
                    .concat(escreve_decimal(*tentativas as u128).as_str())
                    .concat(" tentativa(s) em ")
                    .concat(escreve_decimal(*segundos as u128).as_str())
                    .concat("s: ")
                    .concat(causa.as_str())
            },
            Erro::AberturaOutput { causa } => {
                "falha ao abrir $GITHUB_OUTPUT: ".to_owned()
                    .concat(causa.as_str())
            },
            Erro::EscritaOutput { causa } => {
                "falha ao escrever em $GITHUB_OUTPUT: ".to_owned()
                    .concat(causa.as_str())
            },
            Erro::LeituraPid { caminho, causa } => {
                "falha ao ler ".to_owned()
                    .concat(caminho.as_str())
                    .concat(": ")
                    .concat(causa.as_str())
            },
            Erro::PidInvalido { caminho, motivo } => {
                "conteúdo inválido em ".to_owned()
                    .concat(caminho.as_str())
                    .concat(": ")
                    .concat(motivo_mensagem(*motivo))
            },
            Erro::KillNaoExecutou { causa } => {
                "falha ao executar `kill -TERM`: ".to_owned()
                    .concat(causa.as_str())
            },
            Erro::KillFalhou { pid, stderr } => {
                "kill -TERM ".to_owned()
                    .concat(escreve_decimal(*pid as u128).as_str())
                    .concat(" falhou: ")
                    .concat(stderr.as_str())
            },
            Erro::SondaNaoExecutou { causa } => {
                "falha ao executar `kill -0`: ".to_owned()
                    .concat(causa.as_str())
            },
            Erro::NaoEncerrou { pid, segundos } => {
                "openvpn (pid ".to_owned()
                    .concat(escreve_decimal(*pid as u128).as_str())
                    .concat(") não encerrou em ")
                    .concat(escreve_decimal(*segundos as u128).as_str())
                    .concat("s após SIGTERM")
            },
            Erro::VariavelAusente { nome } => {
                "variável de ambiente obrigatória não definida: ".to_owned()
                    .concat(nome.as_str())
            },
        }
    }
}

} // verus!
