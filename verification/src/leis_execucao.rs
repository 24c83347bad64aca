//! What holds of every run of the program: once there is a work directory, a run is that
//! of its command, so that the laws of the commands are laws of the program.

use vstd::prelude::*;

use crate::acao::EventoModelo;
use crate::args::{ArgsConectar, Comando};
use crate::conexao::conexao_inicial;
use crate::desconexao::desconexao_inicial;
use crate::duracao::Duracao;
use crate::erro::Erro;
use crate::execucao::Execucao;
use crate::leis_conexao::Resposta;
use crate::leis_desconexao::RespostaTermino;

verus! {

impl Execucao<Seq<char>> {
    /// The run after the answers `h`, in order.
    pub open spec fn apos(self, h: Seq<Resposta>) -> Execucao<Seq<char>>
        decreases h.len(),
    {
        if h.len() == 0 {
            self
        } else {
            self.apos(h.drop_last()).proxima(h.last().0, h.last().1, h.last().2)
        }
    }
}

/// The answer that the work directory shown as `dir` is there.
pub open spec fn diretorio_criado(dir: Seq<char>, agora: Duracao, espera: Duracao) -> Resposta {
    (EventoModelo::Diretorio { dir, criado: Ok(()) }, agora, espera)
}

/// The answers of `h` as `desconectar` sees them.
pub open spec fn sem_esperas(h: Seq<Resposta>) -> Seq<RespostaTermino> {
    h.map_values(|r: Resposta| (r.0, r.1))
}

/// Law: once there is a work directory, the program runs `conectar` in it.
pub proof fn lei_executa_conectar(
    args: ArgsConectar<Seq<char>>,
    dir: Seq<char>,
    agora: Duracao,
    espera: Duracao,
    h: Seq<Resposta>,
)
    ensures
        Execucao::Preparando(Comando::Conectar(args)).apos(
            seq![diretorio_criado(dir, agora, espera)] + h,
        ) == Execucao::Conectando(conexao_inicial(args, dir).apos(h)),
    decreases h.len(),
{
    let inicio = seq![diretorio_criado(dir, agora, espera)];
    let e = Execucao::Preparando(Comando::Conectar(args));
    let t = inicio + h;
    if h.len() == 0 {
        assert(e.apos(t.drop_last()) == e);
    } else {
        lei_executa_conectar(args, dir, agora, espera, h.drop_last());
        assert(t.drop_last() =~= inicio + h.drop_last());
    }
}

/// Law: once there is a work directory, the program runs `desconectar` in it.
pub proof fn lei_executa_desconectar(
    dir: Seq<char>,
    agora: Duracao,
    espera: Duracao,
    h: Seq<Resposta>,
)
    ensures
        Execucao::Preparando(Comando::<Seq<char>>::Desconectar).apos(
            seq![diretorio_criado(dir, agora, espera)] + h,
        ) == Execucao::Desconectando(desconexao_inicial(dir).apos(sem_esperas(h))),
    decreases h.len(),
{
    let inicio = seq![diretorio_criado(dir, agora, espera)];
    let e = Execucao::Preparando(Comando::<Seq<char>>::Desconectar);
    let t = inicio + h;
    if h.len() == 0 {
        assert(e.apos(t.drop_last()) == e);
    } else {
        lei_executa_desconectar(dir, agora, espera, h.drop_last());
        assert(t.drop_last() =~= inicio + h.drop_last());
        assert(sem_esperas(h).drop_last() =~= sem_esperas(h.drop_last()));
    }
}

/// Law: without a work directory neither command begins; the program ends with that
/// failure.
pub proof fn lei_sem_diretorio_nada_comeca(
    comando: Comando<Seq<char>>,
    dir: Seq<char>,
    causa: Seq<char>,
    agora: Duracao,
    espera: Duracao,
    h: Seq<Resposta>,
)
    ensures
        Execucao::Preparando(comando).apos(
            seq![(EventoModelo::Diretorio { dir, criado: Err(causa) }, agora, espera)] + h,
        ).fim() == Some(
            Err::<(), Erro<Seq<char>>>(Erro::DiretorioTrabalho { dir, causa }),
        ),
    decreases h.len(),
{
    let inicio = seq![(EventoModelo::Diretorio { dir, criado: Err(causa) }, agora, espera)];
    let e = Execucao::Preparando(comando);
    let t = inicio + h;
    if h.len() == 0 {
        assert(e.apos(t.drop_last()) == e);
    } else {
        lei_sem_diretorio_nada_comeca(comando, dir, causa, agora, espera, h.drop_last());
        assert(t.drop_last() =~= inicio + h.drop_last());
    }
}

} // verus!
