//! A run of the program, from the command that the user gave to its end.

use vstd::prelude::*;

use crate::acao::{Acao, Evento, EventoModelo};
use crate::args::{ArgsConectar, Comando};
use crate::conexao::{conectar_com, conexao_inicial, Conexao, EtapaConexao};
use crate::desconexao::{desconectar_com, desconexao_inicial, Desconexao, EtapaDesconexao};
use crate::duracao::Duracao;
use crate::erro::{resultado, Erro};
use crate::espera::backoff_possivel;

verus! {

/// A run of the program.
#[derive(Debug, PartialEq, Eq)]
pub enum Execucao<T = String> {
    /// The work directory is to be created; then the command follows.
    Preparando(Comando<T>),
    /// The command is `conectar`.
    Conectando(Conexao<T>),
    /// The command is `desconectar`.
    Desconectando(Desconexao<T>),
    /// There is no work directory; the program is over.
    SemDiretorio(Erro<T>),
}

impl View for Execucao<String> {
    type V = Execucao<Seq<char>>;

    open spec fn view(&self) -> Execucao<Seq<char>> {
        match *self {
            Execucao::Preparando(c) => Execucao::Preparando(c@),
            Execucao::Conectando(c) => Execucao::Conectando(c@),
            Execucao::Desconectando(d) => Execucao::Desconectando(d@),
            Execucao::SemDiretorio(e) => Execucao::SemDiretorio(e@),
        }
    }
}

/// The run of `comando` in the work directory shown as `dir`.
pub open spec fn comando_em(comando: Comando<Seq<char>>, dir: Seq<char>) -> Execucao<Seq<char>> {
    match comando {
        Comando::Conectar(args) => Execucao::Conectando(conexao_inicial(args, dir)),
        Comando::Desconectar => Execucao::Desconectando(desconexao_inicial(dir)),
    }
}

impl Execucao<Seq<char>> {
    /// What the program needs done.
    pub open spec fn acao_modelo(self) -> Acao<Seq<char>> {
        match self {
            Execucao::Preparando(_) => Acao::PreparaDiretorio,
            Execucao::Conectando(c) => c.acao_modelo(),
            Execucao::Desconectando(d) => d.acao_modelo(),
            Execucao::SemDiretorio(_) => Acao::Encerra,
        }
    }

    /// The run after `evento`, which was told at `agora`, if `espera` is the wait that
    /// comes after an attempt of the health check that failed.
    pub open spec fn proxima(
        self,
        evento: EventoModelo,
        agora: Duracao,
        espera: Duracao,
    ) -> Execucao<Seq<char>> {
        match self {
            Execucao::Preparando(comando) => match evento {
                Evento::Diretorio { dir, criado: Ok(_) } => comando_em(comando, dir),
                Evento::Diretorio { dir, criado: Err(causa) } => Execucao::SemDiretorio(
                    Erro::DiretorioTrabalho { dir, causa },
                ),
                _ => self,
            },
            Execucao::Conectando(c) => Execucao::Conectando(c.proxima(evento, agora, espera)),
            Execucao::Desconectando(d) => Execucao::Desconectando(d.proxima(evento, agora)),
            Execucao::SemDiretorio(_) => self,
        }
    }

    /// The attempts of the health check can still be counted.
    pub open spec fn contavel(self) -> bool {
        self matches Execucao::Conectando(c) ==> c.contavel()
    }

    /// `espera` is a wait that can come next.
    pub open spec fn espera_possivel(self, espera: Duracao) -> bool {
        match self {
            Execucao::Conectando(c) => c.etapa matches EtapaConexao::Verificando {
                anteriores,
                ..
            } ==> backoff_possivel(anteriores, espera),
            _ => true,
        }
    }

    /// How the program ended, or `None` while it is going on.
    pub open spec fn fim(self) -> Option<Result<(), Erro<Seq<char>>>> {
        match self {
            Execucao::Conectando(c) => match c.etapa {
                EtapaConexao::Encerrada(fim) => Some(fim),
                _ => None,
            },
            Execucao::Desconectando(d) => match d.etapa {
                EtapaDesconexao::Encerrada(fim) => Some(fim),
                _ => None,
            },
            Execucao::Preparando(_) => None,
            Execucao::SemDiretorio(e) => Some(Err(e)),
        }
    }
}

/// Begins the run of a command.
pub fn executa(comando: Comando) -> (r: Execucao)
    ensures
        r@ == Execucao::Preparando(comando@),
{
    match comando {
        Comando::Conectar(args) => conectar(args),
        Comando::Desconectar => desconectar(),
    }
}

/// Begins the run of the command `conectar`.
pub fn conectar(args: ArgsConectar) -> (r: Execucao)
    ensures
        r@ == Execucao::Preparando(Comando::Conectar(args@)),
{
    Execucao::Preparando(Comando::Conectar(args))
}

/// Begins the run of the command `desconectar`.
pub fn desconectar() -> (r: Execucao)
    ensures
        r@ == Execucao::Preparando(Comando::<Seq<char>>::Desconectar),
{
    Execucao::Preparando(Comando::Desconectar)
}

impl Execucao<String> {
    /// What the program needs done.
    pub fn acao(&self) -> (r: Acao)
        ensures
            r@ == self@.acao_modelo(),
    {
        match self {
            Execucao::Preparando(_) => Acao::PreparaDiretorio,
            Execucao::Conectando(c) => c.acao(),
            Execucao::Desconectando(d) => d.acao(),
            Execucao::SemDiretorio(_) => Acao::Encerra,
        }
    }

    /// Tells whether the attempts of the health check can still be counted.
    pub fn pode_avancar(&self) -> (r: bool)
        ensures
            r == self@.contavel(),
    {
        match self {
            Execucao::Conectando(c) => c.pode_avancar(),
            _ => true,
        }
    }

    /// Takes note of what came of the action, at `agora`.
    pub fn avanca(self, evento: Evento, agora: Duracao) -> (r: Execucao)
        requires
            self@.contavel(),
        ensures
            exists|espera: Duracao|
                r@ == #[trigger] self@.proxima(evento@, agora, espera) && self@.espera_possivel(
                    espera,
                ),
    {
        let ghost nenhuma = Duracao { nanos: 0 };
        match self {
            Execucao::Preparando(comando) => {
                let r = match evento {
                    Evento::Diretorio { dir, criado: Ok(_) } => match comando {
                        Comando::Conectar(args) => Execucao::Conectando(conectar_com(args, dir)),
                        Comando::Desconectar => Execucao::Desconectando(desconectar_com(dir)),
                    },
                    Evento::Diretorio { dir, criado: Err(causa) } => Execucao::SemDiretorio(
                        Erro::DiretorioTrabalho { dir, causa },
                    ),
                    _ => Execucao::Preparando(comando),
                };
                assert(r@ == self@.proxima(evento@, agora, nenhuma));
                r
            },
            Execucao::Conectando(c) => {
                let ghost antes = c@;
                let depois = c.avanca(evento, agora);
                let r = Execucao::Conectando(depois);
                proof {
                    let espera = choose|espera: Duracao|
                        depois@ == #[trigger] antes.proxima(evento@, agora, espera) && (
                        antes.etapa matches EtapaConexao::Verificando { anteriores, .. }
                            ==> backoff_possivel(anteriores, espera));
                    assert(r@ == self@.proxima(evento@, agora, espera));
                }
                r
            },
            Execucao::Desconectando(d) => {
                let r = Execucao::Desconectando(d.avanca(evento, agora));
                assert(r@ == self@.proxima(evento@, agora, nenhuma));
                r
            },
            Execucao::SemDiretorio(e) => {
                let r = Execucao::SemDiretorio(e);
                assert(r@ == self@.proxima(evento@, agora, nenhuma));
                r
            },
        }
    }

    /// How the program ended, or `None` while it is going on.
    pub fn resultado(self) -> (r: Option<Result<(), Erro>>)
        ensures
            match self@.fim() {
                Some(fim) => r is Some && resultado(r->0) == fim,
                None => r is None,
            },
    {
        match self {
            Execucao::Preparando(_) => None,
            Execucao::Conectando(c) => c.resultado(),
            Execucao::Desconectando(d) => d.resultado(),
            Execucao::SemDiretorio(e) => Some(Err(e)),
        }
    }
}

} // verus!
