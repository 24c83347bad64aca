//! What a command needs done, and what came of it.
//!
//! The commands are state machines. The state of one tells the next action; the program
//! performs it and hands the event that came of it back.

use vstd::prelude::*;

use crate::caminho::ArquivoTrabalho;
use crate::duracao::Duracao;
use crate::erro::{resultado, Erro};

verus! {

/// Permissions of the files that hold secrets: only the owner may read and write them.
pub const MODO_RESTRITO: u32 = 0o600;

/// Something to do in the outside world. The event that answers it is named with it.
#[derive(Debug, PartialEq, Eq)]
pub enum Acao<T = String> {
    /// Create the work directory; answered by `Diretorio`.
    PreparaDiretorio,
    /// Look at the path of the configuration; answered by `Config`.
    InspecionaConfig,
    /// Ask the runner to hide this text in its logs; answered by `Feito`.
    Mascara(T),
    /// Read the configuration; answered by `Lido`.
    LeConfig,
    /// Write a file of the work directory; answered by `Gravado`.
    EscreveArquivo { arquivo: ArquivoTrabalho, conteudo: T },
    /// Set the permissions of a file of the work directory; answered by `Gravado`.
    RestringePermissoes { arquivo: ArquivoTrabalho, modo: u32 },
    /// Print this text and a line feed on standard output; answered by `Feito`.
    Imprime(T),
    /// Show an annotation; answered by `Feito`.
    Anota { level: T, message: T },
    /// Start the VPN client; answered by `Executado`.
    ExecutaOpenvpn {
        config: ArquivoTrabalho,
        auth: Option<ArquivoTrabalho>,
        pid_file: ArquivoTrabalho,
    },
    /// List the network interfaces; answered by `Interfaces`.
    ListaInterfaces,
    /// Read the IPv4 address of an interface; answered by `Ipv4`.
    LeIpv4 { interface: T },
    /// Do nothing for this long; answered by `Feito`.
    Dorme(Duracao),
    /// Publish a step output; answered by `Executado`.
    PublicaOutput { key: T, value: T },
    /// Try one TCP connection, with this ceiling for each address; answered by `Executado`.
    TentaConexaoTcp { host: T, porta: u16, timeout: Duracao },
    /// Tell that the attempt number `tentativa` failed and do nothing for as long as
    /// `espera`; answered by `Feito`.
    Retenta { tentativa: u32, causa: T, espera: Duracao },
    /// Read the process id file; answered by `Pid`.
    LePid { pid_file: ArquivoTrabalho },
    /// Ask a process to end; answered by `Executado`.
    EnviaSinalTermino { pid: u32 },
    /// Test whether a process exists; answered by `Vivo`.
    ConsultaProcesso { pid: u32 },
    /// Remove a file of the work directory, if it can be removed; answered by `Feito`.
    RemoveArquivo(ArquivoTrabalho),
    /// Nothing: the command is over.
    Encerra,
}

/// What came of an action. Texts in `Err` tell the cause of a failure.
#[derive(Debug, PartialEq, Eq)]
pub enum Evento<T = String, L = Vec<String>> {
    /// It was done; there is nothing more to tell.
    Feito,
    /// The path of the work directory, as shown in messages, and whether it is there.
    Diretorio { dir: T, criado: Result<(), T> },
    /// Whether the path of the configuration exists, and names a regular file.
    Config { existe: bool, regular: bool },
    /// The content that was read.
    Lido(Result<T, T>),
    /// Whether a file was written, or its permissions set.
    Gravado(Result<(), T>),
    /// Whether an operation of the system succeeded.
    Executado(Result<(), Erro<T>>),
    /// The names of the network interfaces.
    Interfaces(Result<L, Erro<T>>),
    /// The address of an interface, if it has one.
    Ipv4(Result<Option<T>, Erro<T>>),
    /// The content of the process id file, or `None` if there is no such file.
    Pid(Option<Result<T, T>>),
    /// Whether a process exists.
    Vivo(Result<bool, Erro<T>>),
}

/// An event as specifications see it.
pub type EventoModelo = Evento<Seq<char>, Seq<Seq<char>>>;

impl View for Acao<String> {
    type V = Acao<Seq<char>>;

    open spec fn view(&self) -> Acao<Seq<char>> {
        match *self {
            Acao::PreparaDiretorio => Acao::PreparaDiretorio,
            Acao::InspecionaConfig => Acao::InspecionaConfig,
            Acao::Mascara(t) => Acao::Mascara(t@),
            Acao::LeConfig => Acao::LeConfig,
            Acao::EscreveArquivo { arquivo, conteudo } => Acao::EscreveArquivo {
                arquivo,
                conteudo: conteudo@,
            },
            Acao::RestringePermissoes { arquivo, modo } => Acao::RestringePermissoes {
                arquivo,
                modo,
            },
            Acao::Imprime(t) => Acao::Imprime(t@),
            Acao::Anota { level, message } => Acao::Anota { level: level@, message: message@ },
            Acao::ExecutaOpenvpn { config, auth, pid_file } => Acao::ExecutaOpenvpn {
                config,
                auth,
                pid_file,
            },
            Acao::ListaInterfaces => Acao::ListaInterfaces,
            Acao::LeIpv4 { interface } => Acao::LeIpv4 { interface: interface@ },
            Acao::Dorme(d) => Acao::Dorme(d),
            Acao::PublicaOutput { key, value } => Acao::PublicaOutput { key: key@, value: value@ },
            Acao::TentaConexaoTcp { host, porta, timeout } => Acao::TentaConexaoTcp {
                host: host@,
                porta,
                timeout,
            },
            Acao::Retenta { tentativa, causa, espera } => Acao::Retenta {
                tentativa,
                causa: causa@,
                espera,
            },
            Acao::LePid { pid_file } => Acao::LePid { pid_file },
            Acao::EnviaSinalTermino { pid } => Acao::EnviaSinalTermino { pid },
            Acao::ConsultaProcesso { pid } => Acao::ConsultaProcesso { pid },
            Acao::RemoveArquivo(a) => Acao::RemoveArquivo(a),
            Acao::Encerra => Acao::Encerra,
        }
    }
}

impl View for Evento<String, Vec<String>> {
    type V = EventoModelo;

    open spec fn view(&self) -> EventoModelo {
        match *self {
            Evento::Feito => Evento::Feito,
            Evento::Diretorio { dir, criado } => Evento::Diretorio {
                dir: dir@,
                criado: resultado(criado),
            },
            Evento::Config { existe, regular } => Evento::Config { existe, regular },
            Evento::Lido(r) => Evento::Lido(resultado(r)),
            Evento::Gravado(r) => Evento::Gravado(resultado(r)),
            Evento::Executado(r) => Evento::Executado(resultado(r)),
            Evento::Interfaces(r) => Evento::Interfaces(resultado(r)),
            Evento::Ipv4(r) => Evento::Ipv4(resultado(r)),
            Evento::Pid(None) => Evento::Pid(None),
            Evento::Pid(Some(r)) => Evento::Pid(Some(resultado(r))),
            Evento::Vivo(r) => Evento::Vivo(resultado(r)),
        }
    }
}

} // verus!
