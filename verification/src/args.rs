//! What the user asks for, and the rules on credentials.

use vstd::prelude::*;
use vstd::string::*;

use crate::erro::{resultado, Erro};

verus! {

/// Supported VPN providers.
#[derive(Clone, Copy, Debug, PartialEq, Eq, Structural)]
pub enum Provedor {
    Openvpn,
}

impl Provedor {
    /// Prefix that the interfaces of this provider share.
    pub open spec fn prefixo(self) -> Seq<char> {
        match self {
            Provedor::Openvpn => "tun"@,
        }
    }

    /// Name of this provider.
    pub open spec fn rotulo(self) -> Seq<char> {
        match self {
            Provedor::Openvpn => "Openvpn"@,
        }
    }

    /// Prefix that the interfaces of this provider share.
    pub fn prefixo_interface(&self) -> (r: &'static str)
        ensures
            r@ == self.prefixo(),
    {
        match self {
            Provedor::Openvpn => "tun",
        }
    }

    /// Name of this provider.
    pub fn nome(&self) -> (r: &'static str)
        ensures
            r@ == self.rotulo(),
    {
        match self {
            Provedor::Openvpn => "Openvpn",
        }
    }
}

/// Arguments of the command `conectar`. `T` is the type of text: `String` in executable
/// code, `Seq<char>` in specifications.
#[derive(Debug, PartialEq, Eq)]
pub struct ArgsConectar<T = String> {
    /// VPN provider to use.
    pub provider: Provedor,
    /// Path of the configuration file, as shown in messages.
    pub config: T,
    /// User name, if the provider wants one.
    pub username: Option<T>,
    /// Password, if the provider wants one.
    pub password: Option<T>,
    /// Internal host that has to answer once the tunnel is up.
    pub healthcheck_host: Option<T>,
    /// Port of that host.
    pub healthcheck_port: u16,
    /// How long the connection may take in all to count as successful, in seconds.
    pub timeout_secs: u64,
    /// Expected name of the tunnel's interface.
    pub interface: Option<T>,
    /// Do everything short of bringing the tunnel up.
    pub dry_run: bool,
}

/// A command of the program.
#[derive(Debug, PartialEq, Eq)]
pub enum Comando<T = String> {
    /// Bring the tunnel up and check that it works.
    Conectar(ArgsConectar<T>),
    /// Take the tunnel down.
    Desconectar,
}

impl View for ArgsConectar<String> {
    type V = ArgsConectar<Seq<char>>;

    open spec fn view(&self) -> ArgsConectar<Seq<char>> {
        ArgsConectar {
            provider: self.provider,
            config: self.config@,
            username: self.username.deep_view(),
            password: self.password.deep_view(),
            healthcheck_host: self.healthcheck_host.deep_view(),
            healthcheck_port: self.healthcheck_port,
            timeout_secs: self.timeout_secs,
            interface: self.interface.deep_view(),
            dry_run: self.dry_run,
        }
    }
}

impl View for Comando<String> {
    type V = Comando<Seq<char>>;

    open spec fn view(&self) -> Comando<Seq<char>> {
        match *self {
            Comando::Conectar(args) => Comando::Conectar(args@),
            Comando::Desconectar => Comando::Desconectar,
        }
    }
}

// ---------------- Credentials ----------------

/// A credential, where an empty one counts as absent: an input that was not filled in
/// arrives as an empty text.
pub open spec fn informado(valor: Option<Seq<char>>) -> Option<Seq<char>> {
    match valor {
        Some(v) => if v.len() > 0 {
            Some(v)
        } else {
            None
        },
        None => None,
    }
}

/// What the checks before `conectar` say: the configuration has to be there and be a
/// regular file, and a user name goes with a password.
pub open spec fn precondicoes(
    args: ArgsConectar<Seq<char>>,
    existe: bool,
    regular: bool,
) -> Result<(), Erro<Seq<char>>> {
    if !existe {
        Err(Erro::ConfigNaoEncontrada { config: args.config })
    } else if !regular {
        Err(Erro::ConfigNaoRegular { config: args.config })
    } else if informado(args.username) is Some && informado(args.password) is None {
        Err(Erro::SenhaAusente)
    } else if informado(args.username) is None && informado(args.password) is Some {
        Err(Erro::UsuarioAusente)
    } else {
        Ok(())
    }
}

/// Content of the authentication file (user name and password, one per line), or
/// `None` where there is nothing to write because one of them is absent.
pub open spec fn conteudo_auth(args: ArgsConectar<Seq<char>>) -> Option<Seq<char>> {
    match (informado(args.username), informado(args.password)) {
        (Some(usuario), Some(senha)) => Some(usuario + "\n"@ + senha + "\n"@),
        _ => None,
    }
}

/// The credential, where an empty one counts as absent.
fn filtra(valor: &Option<String>) -> (r: Option<&str>)
    ensures
        r.deep_view() == informado(valor.deep_view()),
{
    match valor {
        Some(v) => if v.as_str().is_empty() {
            None
        } else {
            Some(v.as_str())
        },
        None => None,
    }
}

/// Checks what has to hold before anything is done, given whether the path of the
/// configuration exists and whether it names a regular file.
pub fn valida_precondicoes(args: &ArgsConectar, existe: bool, regular: bool) -> (r: Result<
    (),
    Erro,
>)
    ensures
        resultado(r) == precondicoes(args@, existe, regular),
{
    if !existe {
        return Err(Erro::ConfigNaoEncontrada { config: args.config.clone() });
    }
    if !regular {
        return Err(Erro::ConfigNaoRegular { config: args.config.clone() });
    }
    match (filtra(&args.username), filtra(&args.password)) {
        (Some(_), None) => Err(Erro::SenhaAusente),
        (None, Some(_)) => Err(Erro::UsuarioAusente),
        _ => Ok(()),
    }
}

/// The secret that has to be hidden from the logs, if one was given.
pub fn mascara_credenciais(args: &ArgsConectar) -> (r: Option<String>)
    ensures
        r.deep_view() == args@.password,
{
    match &args.password {
        Some(senha) => Some(senha.clone()),
        None => None,
    }
}

/// Content of the authentication file, or `None` where the provider is to use the
/// certificate alone.
pub fn prepara_auth_file(args: &ArgsConectar) -> (r: Option<String>)
    ensures
        r.deep_view() == conteudo_auth(args@),
{
    match (filtra(&args.username), filtra(&args.password)) {
        (Some(usuario), Some(senha)) => Some(
            usuario.to_owned().concat("\n").concat(senha).concat("\n"),
        ),
        _ => None,
    }
}

// ---------------- Laws ----------------

/// The arguments with the empty credentials left out.
pub open spec fn sem_vazios(args: ArgsConectar<Seq<char>>) -> ArgsConectar<Seq<char>> {
    ArgsConectar {
        username: informado(args.username),
        password: informado(args.password),
        ..args
    }
}

/// Law: an empty credential is treated as one that was not given.
pub proof fn lei_vazio_equivale_a_ausente(
    args: ArgsConectar<Seq<char>>,
    existe: bool,
    regular: bool,
)
    ensures
        precondicoes(args, existe, regular) == precondicoes(sem_vazios(args), existe, regular),
        conteudo_auth(args) == conteudo_auth(sem_vazios(args)),
{
}

/// Law: where the checks pass, the credentials go together: the authentication file is
/// prepared if a user name was given, and also if a password was, and else not at all.
pub proof fn lei_credenciais_andam_juntas(
    args: ArgsConectar<Seq<char>>,
    existe: bool,
    regular: bool,
)
    requires
        precondicoes(args, existe, regular) is Ok,
    ensures
        conteudo_auth(args) is Some <==> informado(args.username) is Some,
        conteudo_auth(args) is Some <==> informado(args.password) is Some,
{
}

} // verus!
