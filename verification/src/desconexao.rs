//! The command `desconectar`, as a state machine.

use vstd::prelude::*;
use vstd::string::*;

use crate::acao::{Acao, Evento, EventoModelo};
use crate::caminho::ArquivoTrabalho;
use crate::duracao::{decorrido, segundos, Duracao};
use crate::erro::{resultado, Erro};
use crate::espera::{aguarda_processo_morrer, julga_sonda, Sondagem};
use crate::numero::{decimal, escreve_decimal, interpreta_u32, numero};
use crate::texto::{apara, aparado};

verus! {

/// How long the VPN client may take to end, in seconds.
pub const TIMEOUT_TERMINO_SECS: u64 = 10;

/// How far the command has come.
#[derive(Debug, PartialEq, Eq)]
pub enum EtapaDesconexao<T = String> {
    /// The process id file is to be read.
    LendoPid,
    /// It is to be told that the VPN client is about to be ended.
    AnunciandoEncerramento { pid: u32 },
    /// The VPN client is to be asked to end.
    Sinalizando { pid: u32 },
    /// It is to be tested whether the VPN client is still there.
    Sondando { pid: u32, inicio: Duracao },
    /// A pause before that is tested again.
    PausandoSonda { pid: u32, inicio: Duracao, pausa: Duracao },
    /// It is to be told that the VPN client has ended.
    AnunciandoFim,
    /// It is to be told that there is no VPN client to end.
    AnunciandoAusencia,
    /// A file of the work directory is to be removed.
    Removendo(ArquivoTrabalho),
    /// The command is over.
    Encerrada(Result<(), Erro<T>>),
}

impl View for EtapaDesconexao<String> {
    type V = EtapaDesconexao<Seq<char>>;

    open spec fn view(&self) -> EtapaDesconexao<Seq<char>> {
        match *self {
            EtapaDesconexao::LendoPid => EtapaDesconexao::LendoPid,
            EtapaDesconexao::AnunciandoEncerramento { pid } =>
            EtapaDesconexao::AnunciandoEncerramento { pid },
            EtapaDesconexao::Sinalizando { pid } => EtapaDesconexao::Sinalizando { pid },
            EtapaDesconexao::Sondando { pid, inicio } => EtapaDesconexao::Sondando { pid, inicio },
            EtapaDesconexao::PausandoSonda { pid, inicio, pausa } =>
            EtapaDesconexao::PausandoSonda { pid, inicio, pausa },
            EtapaDesconexao::AnunciandoFim => EtapaDesconexao::AnunciandoFim,
            EtapaDesconexao::AnunciandoAusencia => EtapaDesconexao::AnunciandoAusencia,
            EtapaDesconexao::Removendo(a) => EtapaDesconexao::Removendo(a),
            EtapaDesconexao::Encerrada(r) => EtapaDesconexao::Encerrada(resultado(r)),
        }
    }
}

/// A run of the command `desconectar`.
#[derive(Debug, PartialEq, Eq)]
pub struct Desconexao<T = String> {
    /// Path of the work directory, as shown in messages.
    pub workdir: T,
    pub etapa: EtapaDesconexao<T>,
}

impl View for Desconexao<String> {
    type V = Desconexao<Seq<char>>;

    open spec fn view(&self) -> Desconexao<Seq<char>> {
        Desconexao { workdir: self.workdir@, etapa: self.etapa@ }
    }
}

// ---------------- Process id file ----------------

/// The process id that the file shown as `caminho` holds: `None` if there is no such
/// file, which is no failure, unlike a file that cannot be read or holds something else.
/// White space around the number does not count.
pub open spec fn pid_lido(
    caminho: Seq<char>,
    leitura: Option<Result<Seq<char>, Seq<char>>>,
) -> Result<Option<u32>, Erro<Seq<char>>> {
    match leitura {
        None => Ok(None),
        Some(Err(causa)) => Err(Erro::LeituraPid { caminho, causa }),
        Some(Ok(conteudo)) => match numero(aparado(conteudo)) {
            Ok(pid) => Ok(Some(pid)),
            Err(motivo) => Err(Erro::PidInvalido { caminho, motivo }),
        },
    }
}

/// The deep view of what reading a file that may be absent gave.
pub open spec fn leitura_modelo(leitura: Option<Result<String, String>>) -> Option<
    Result<Seq<char>, Seq<char>>,
> {
    match leitura {
        None => None,
        Some(r) => Some(resultado(r)),
    }
}

/// Interprets the process id file shown as `caminho`, given its content, or `None` if
/// there is no such file.
pub fn le_pid_do_arquivo(caminho: &str, leitura: Option<Result<String, String>>) -> (r: Result<
    Option<u32>,
    Erro,
>)
    ensures
        resultado(r) == pid_lido(caminho@, leitura_modelo(leitura)),
{
    match leitura {
        None => Ok(None),
        Some(Err(causa)) => Err(Erro::LeituraPid { caminho: caminho.to_owned(), causa }),
        Some(Ok(conteudo)) => {
            match interpreta_u32(apara(conteudo.as_str()).as_str()) {
                Ok(pid) => Ok(Some(pid)),
                Err(motivo) => Err(Erro::PidInvalido { caminho: caminho.to_owned(), motivo }),
            }
        },
    }
}

// ---------------- Work files ----------------

/// The file that is removed after `arquivo`, if there is one.
pub open spec fn proximo_arquivo(arquivo: ArquivoTrabalho) -> Option<ArquivoTrabalho> {
    match arquivo {
        ArquivoTrabalho::Pid => Some(ArquivoTrabalho::Config),
        ArquivoTrabalho::Config => Some(ArquivoTrabalho::Auth),
        ArquivoTrabalho::Auth => None,
    }
}

/// The stage after the removal of `arquivo` was tried, whether it was there or not: all
/// the work files get their turn.
fn limpa_arquivos_de_trabalho(arquivo: ArquivoTrabalho) -> (r: EtapaDesconexao)
    ensures
        r@ == (match proximo_arquivo(arquivo) {
            Some(a) => EtapaDesconexao::<Seq<char>>::Removendo(a),
            None => EtapaDesconexao::Encerrada(Ok(())),
        }),
{
    match arquivo {
        ArquivoTrabalho::Pid => EtapaDesconexao::Removendo(ArquivoTrabalho::Config),
        ArquivoTrabalho::Config => EtapaDesconexao::Removendo(ArquivoTrabalho::Auth),
        ArquivoTrabalho::Auth => EtapaDesconexao::Encerrada(Ok(())),
    }
}

// ---------------- The command ----------------

/// Text that tells that the VPN client is about to be ended.
pub open spec fn texto_encerrando(pid: u32) -> Seq<char> {
    "encerrando openvpn (pid "@ + decimal(pid as nat) + ")"@
}

/// One step of the end of the VPN client: it is asked to end, and then looked at until it
/// has ended or its time is over.
pub open spec fn passo_termino(
    etapa: EtapaDesconexao<Seq<char>>,
    evento: EventoModelo,
    agora: Duracao,
) -> EtapaDesconexao<Seq<char>> {
    let timeout = segundos(TIMEOUT_TERMINO_SECS);
    match (etapa, evento) {
        (EtapaDesconexao::AnunciandoEncerramento { pid }, Evento::Feito) =>
        EtapaDesconexao::Sinalizando { pid },
        (EtapaDesconexao::Sinalizando { .. }, Evento::Executado(Err(e))) =>
        EtapaDesconexao::Encerrada(Err(e)),
        (EtapaDesconexao::Sinalizando { pid }, Evento::Executado(Ok(_))) =>
        EtapaDesconexao::Sondando { pid, inicio: agora },
        (EtapaDesconexao::Sondando { pid, inicio }, Evento::Vivo(vivo)) => match julga_sonda(
            pid,
            vivo,
            decorrido(inicio, agora),
            timeout,
        ) {
            Sondagem::Concluida(_) => EtapaDesconexao::AnunciandoFim,
            Sondagem::Repete(pausa) => EtapaDesconexao::PausandoSonda { pid, inicio, pausa },
            Sondagem::Falha(e) => EtapaDesconexao::Encerrada(Err(e)),
        },
        (EtapaDesconexao::PausandoSonda { pid, inicio, .. }, Evento::Feito) =>
        EtapaDesconexao::Sondando { pid, inicio },
        (etapa, _) => etapa,
    }
}

impl Desconexao<Seq<char>> {
    /// What the command needs done.
    pub open spec fn acao_modelo(self) -> Acao<Seq<char>> {
        match self.etapa {
            EtapaDesconexao::LendoPid => Acao::LePid { pid_file: ArquivoTrabalho::Pid },
            EtapaDesconexao::AnunciandoEncerramento { pid } => Acao::Imprime(
                texto_encerrando(pid),
            ),
            EtapaDesconexao::Sinalizando { pid } => Acao::EnviaSinalTermino { pid },
            EtapaDesconexao::Sondando { pid, .. } => Acao::ConsultaProcesso { pid },
            EtapaDesconexao::PausandoSonda { pausa, .. } => Acao::Dorme(pausa),
            EtapaDesconexao::AnunciandoFim => Acao::Imprime("openvpn encerrado"@),
            EtapaDesconexao::AnunciandoAusencia => Acao::Imprime("nenhum openvpn em execução"@),
            EtapaDesconexao::Removendo(arquivo) => Acao::RemoveArquivo(arquivo),
            EtapaDesconexao::Encerrada(_) => Acao::Encerra,
        }
    }

    /// The stage after `evento`, which was told at `agora`. An event that does not answer
    /// the action changes nothing.
    pub open spec fn proxima_etapa(self, evento: EventoModelo, agora: Duracao) -> EtapaDesconexao<
        Seq<char>,
    > {
        match self.etapa {
            EtapaDesconexao::LendoPid => match evento {
                Evento::Pid(leitura) => match pid_lido(
                    ArquivoTrabalho::Pid.em(self.workdir),
                    leitura,
                ) {
                    Ok(Some(pid)) => EtapaDesconexao::AnunciandoEncerramento { pid },
                    Ok(None) => EtapaDesconexao::AnunciandoAusencia,
                    Err(e) => EtapaDesconexao::Encerrada(Err(e)),
                },
                _ => self.etapa,
            },
            EtapaDesconexao::AnunciandoEncerramento { .. }
            | EtapaDesconexao::Sinalizando { .. }
            | EtapaDesconexao::Sondando { .. }
            | EtapaDesconexao::PausandoSonda { .. } => passo_termino(self.etapa, evento, agora),
            EtapaDesconexao::AnunciandoFim | EtapaDesconexao::AnunciandoAusencia => if evento is Feito {
                EtapaDesconexao::Removendo(ArquivoTrabalho::Pid)
            } else {
                self.etapa
            },
            EtapaDesconexao::Removendo(arquivo) => if evento is Feito {
                match proximo_arquivo(arquivo) {
                    Some(a) => EtapaDesconexao::Removendo(a),
                    None => EtapaDesconexao::Encerrada(Ok(())),
                }
            } else {
                self.etapa
            },
            EtapaDesconexao::Encerrada(_) => self.etapa,
        }
    }

    /// The run after `evento`.
    pub open spec fn proxima(self, evento: EventoModelo, agora: Duracao) -> Desconexao<Seq<char>> {
        Desconexao { etapa: self.proxima_etapa(evento, agora), ..self }
    }
}

/// A run of `desconectar` that has not begun.
pub open spec fn desconexao_inicial(workdir: Seq<char>) -> Desconexao<Seq<char>> {
    Desconexao { workdir, etapa: EtapaDesconexao::LendoPid }
}

/// Begins a run of `desconectar` in the work directory shown as `workdir`.
pub fn desconectar_com(workdir: String) -> (r: Desconexao)
    ensures
        r@ == desconexao_inicial(workdir@),
{
    Desconexao { workdir, etapa: EtapaDesconexao::LendoPid }
}

/// One step of the end of the VPN client.
fn conduz_termino(etapa: EtapaDesconexao, evento: Evento, agora: Duracao) -> (r: EtapaDesconexao)
    ensures
        r@ == passo_termino(etapa@, evento@, agora),
{
    let timeout = Duracao::from_secs(TIMEOUT_TERMINO_SECS);
    match (etapa, evento) {
        (EtapaDesconexao::AnunciandoEncerramento { pid }, Evento::Feito) =>
        EtapaDesconexao::Sinalizando { pid },
        (EtapaDesconexao::Sinalizando { .. }, Evento::Executado(Err(e))) =>
        EtapaDesconexao::Encerrada(Err(e)),
        (EtapaDesconexao::Sinalizando { pid }, Evento::Executado(Ok(_))) =>
        EtapaDesconexao::Sondando { pid, inicio: agora },
        (EtapaDesconexao::Sondando { pid, inicio }, Evento::Vivo(vivo)) => {
            match aguarda_processo_morrer(pid, vivo, inicio.ate(agora), timeout) {
                Sondagem::Concluida(_) => EtapaDesconexao::AnunciandoFim,
                Sondagem::Repete(pausa) => EtapaDesconexao::PausandoSonda { pid, inicio, pausa },
                Sondagem::Falha(e) => EtapaDesconexao::Encerrada(Err(e)),
            }
        },
        (EtapaDesconexao::PausandoSonda { pid, inicio, .. }, Evento::Feito) =>
        EtapaDesconexao::Sondando { pid, inicio },
        (etapa, _) => etapa,
    }
}

impl Desconexao<String> {
    /// What the command needs done.
    pub fn acao(&self) -> (r: Acao)
        ensures
            r@ == self@.acao_modelo(),
    {
        match &self.etapa {
            EtapaDesconexao::LendoPid => Acao::LePid { pid_file: ArquivoTrabalho::Pid },
            EtapaDesconexao::AnunciandoEncerramento { pid } => Acao::Imprime(
                "encerrando openvpn (pid ".to_owned().concat(
                    escreve_decimal(*pid as u128).as_str(),
                ).concat(")"),
            ),
            EtapaDesconexao::Sinalizando { pid } => Acao::EnviaSinalTermino { pid: *pid },
            EtapaDesconexao::Sondando { pid, .. } => Acao::ConsultaProcesso { pid: *pid },
            EtapaDesconexao::PausandoSonda { pausa, .. } => Acao::Dorme(*pausa),
            EtapaDesconexao::AnunciandoFim => Acao::Imprime("openvpn encerrado".to_owned()),
            EtapaDesconexao::AnunciandoAusencia => Acao::Imprime(
                "nenhum openvpn em execução".to_owned(),
            ),
            EtapaDesconexao::Removendo(arquivo) => Acao::RemoveArquivo(*arquivo),
            EtapaDesconexao::Encerrada(_) => Acao::Encerra,
        }
    }

    /// Takes note of what came of the action, at `agora`.
    pub fn avanca(self, evento: Evento, agora: Duracao) -> (r: Desconexao)
        ensures
            r@ == self@.proxima(evento@, agora),
    {
        let workdir = self.workdir;
        let atual = self.etapa;
        let etapa = match &atual {
            EtapaDesconexao::LendoPid => match evento {
                Evento::Pid(leitura) => {
                    let caminho = ArquivoTrabalho::Pid.caminho(workdir.as_str());
                    match le_pid_do_arquivo(caminho.as_str(), leitura) {
                        Ok(Some(pid)) => EtapaDesconexao::AnunciandoEncerramento { pid },
                        Ok(None) => EtapaDesconexao::AnunciandoAusencia,
                        Err(e) => EtapaDesconexao::Encerrada(Err(e)),
                    }
                },
                _ => atual,
            },
            EtapaDesconexao::AnunciandoEncerramento { .. }
            | EtapaDesconexao::Sinalizando { .. }
            | EtapaDesconexao::Sondando { .. }
            | EtapaDesconexao::PausandoSonda { .. } => conduz_termino(atual, evento, agora),
            EtapaDesconexao::AnunciandoFim | EtapaDesconexao::AnunciandoAusencia => match evento {
                Evento::Feito => EtapaDesconexao::Removendo(ArquivoTrabalho::Pid),
                _ => atual,
            },
            EtapaDesconexao::Removendo(arquivo) => match evento {
                Evento::Feito => limpa_arquivos_de_trabalho(*arquivo),
                _ => atual,
            },
            EtapaDesconexao::Encerrada(_) => atual,
        };
        Desconexao { workdir, etapa }
    }

    /// How the command ended, or `None` while it is going on.
    pub fn resultado(self) -> (r: Option<Result<(), Erro>>)
        ensures
            match self@.etapa {
                EtapaDesconexao::Encerrada(fim) => r is Some && resultado(r->0) == fim,
                _ => r is None,
            },
    {
        match self.etapa {
            EtapaDesconexao::Encerrada(fim) => Some(fim),
            _ => None,
        }
    }
}

} // verus!
