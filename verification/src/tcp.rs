//! One TCP connection attempt against `host:porta`, address by address.
//!
//! The attempt is a state machine: its state tells what to do next, and what came of it
//! takes the machine to the next state. Name resolution and the connections themselves
//! are left to the caller.

use vstd::prelude::*;
use vstd::string::*;

use crate::duracao::Duracao;
use crate::erro::{resultado, Erro};
use crate::numero::{decimal, escreve_decimal};
use crate::sistema::AmbienteReal;

verus! {

/// How far an attempt has come.
#[derive(Debug, PartialEq, Eq)]
pub enum EtapaTcp<T = String> {
    /// The name is to be resolved.
    Resolvendo,
    /// The address number `proximo`, counted from zero, of `total` is to be tried.
    Conectando { proximo: usize, total: usize },
    /// The attempt is over.
    Encerrada(Result<(), Erro<T>>),
}

/// An attempt to connect to `endereco`, with a ceiling of `timeout` for each address.
#[derive(Debug, PartialEq, Eq)]
pub struct TentativaTcp<T = String> {
    pub endereco: T,
    pub timeout: Duracao,
    pub etapa: EtapaTcp<T>,
}

/// What an attempt needs done.
#[derive(Debug, PartialEq, Eq)]
pub enum AcaoTcp<T = String> {
    /// Resolve this `host:porta`.
    Resolve(T),
    /// Connect to the resolved address of this number.
    Conecta { indice: usize, timeout: Duracao },
    /// Nothing: the attempt is over.
    Encerra,
}

/// What came of an action.
#[derive(Debug, PartialEq, Eq)]
pub enum EventoTcp<T = String> {
    /// The number of addresses that the name resolved to, or why it did not.
    Resolvido(Result<usize, T>),
    /// Whether the connection was made, or why it was not.
    Conectou(Result<(), T>),
}

impl View for EtapaTcp<String> {
    type V = EtapaTcp<Seq<char>>;

    open spec fn view(&self) -> EtapaTcp<Seq<char>> {
        match *self {
            EtapaTcp::Resolvendo => EtapaTcp::Resolvendo,
            EtapaTcp::Conectando { proximo, total } => EtapaTcp::Conectando { proximo, total },
            EtapaTcp::Encerrada(r) => EtapaTcp::Encerrada(resultado(r)),
        }
    }
}

impl View for TentativaTcp<String> {
    type V = TentativaTcp<Seq<char>>;

    open spec fn view(&self) -> TentativaTcp<Seq<char>> {
        TentativaTcp { endereco: self.endereco@, timeout: self.timeout, etapa: self.etapa@ }
    }
}

impl View for AcaoTcp<String> {
    type V = AcaoTcp<Seq<char>>;

    open spec fn view(&self) -> AcaoTcp<Seq<char>> {
        match *self {
            AcaoTcp::Resolve(t) => AcaoTcp::Resolve(t@),
            AcaoTcp::Conecta { indice, timeout } => AcaoTcp::Conecta { indice, timeout },
            AcaoTcp::Encerra => AcaoTcp::Encerra,
        }
    }
}

impl View for EventoTcp<String> {
    type V = EventoTcp<Seq<char>>;

    open spec fn view(&self) -> EventoTcp<Seq<char>> {
        match *self {
            EventoTcp::Resolvido(r) => EventoTcp::Resolvido(resultado(r)),
            EventoTcp::Conectou(r) => EventoTcp::Conectou(resultado(r)),
        }
    }
}

/// The text `host:porta`.
pub open spec fn host_porta(host: Seq<char>, porta: u16) -> Seq<char> {
    host + ":"@ + decimal(porta as nat)
}

/// An attempt that has not begun.
pub open spec fn tentativa_inicial(
    host: Seq<char>,
    porta: u16,
    timeout: Duracao,
) -> TentativaTcp<Seq<char>> {
    TentativaTcp { endereco: host_porta(host, porta), timeout, etapa: EtapaTcp::Resolvendo }
}

impl TentativaTcp<Seq<char>> {
    /// What the attempt needs done.
    pub open spec fn acao_modelo(self) -> AcaoTcp<Seq<char>> {
        match self.etapa {
            EtapaTcp::Resolvendo => AcaoTcp::Resolve(self.endereco),
            EtapaTcp::Conectando { proximo, .. } => AcaoTcp::Conecta {
                indice: proximo,
                timeout: self.timeout,
            },
            EtapaTcp::Encerrada(_) => AcaoTcp::Encerra,
        }
    }

    /// The stage after `evento`. The addresses are tried in order until one accepts; an
    /// event that does not answer the action changes nothing.
    pub open spec fn proxima_etapa(self, evento: EventoTcp<Seq<char>>) -> EtapaTcp<Seq<char>> {
        match (self.etapa, evento) {
            (EtapaTcp::Resolvendo, EventoTcp::Resolvido(Err(causa))) => EtapaTcp::Encerrada(
                Err(Erro::Resolucao { endereco: self.endereco, causa }),
            ),
            (EtapaTcp::Resolvendo, EventoTcp::Resolvido(Ok(total))) => if total == 0 {
                EtapaTcp::Encerrada(Err(Erro::NenhumEndereco { endereco: self.endereco }))
            } else {
                EtapaTcp::Conectando { proximo: 0, total }
            },
            (EtapaTcp::Conectando { .. }, EventoTcp::Conectou(Ok(_))) => EtapaTcp::Encerrada(
                Ok(()),
            ),
            (
                EtapaTcp::Conectando { proximo, total },
                EventoTcp::Conectou(Err(causa)),
            ) => if proximo + 1 < total {
                EtapaTcp::Conectando { proximo: (proximo + 1) as usize, total }
            } else {
                EtapaTcp::Encerrada(Err(Erro::ConexaoTcp { endereco: self.endereco, causa }))
            },
            (etapa, _) => etapa,
        }
    }

    /// The attempt after `evento`.
    pub open spec fn proxima(self, evento: EventoTcp<Seq<char>>) -> TentativaTcp<Seq<char>> {
        TentativaTcp { etapa: self.proxima_etapa(evento), ..self }
    }

    /// The attempt after the events `h`, in order.
    pub open spec fn apos(self, h: Seq<EventoTcp<Seq<char>>>) -> TentativaTcp<Seq<char>>
        decreases h.len(),
    {
        if h.len() == 0 {
            self
        } else {
            self.apos(h.drop_last()).proxima(h.last())
        }
    }
}

impl AmbienteReal {
    /// Begins one TCP connection attempt against `host:porta`.
    pub fn tenta_conexao_tcp(host: &str, porta: u16, timeout: Duracao) -> (r: TentativaTcp)
        ensures
            r@ == tentativa_inicial(host@, porta, timeout),
    {
        let endereco = host.to_owned().concat(":").concat(
            escreve_decimal(porta as u128).as_str(),
        );
        TentativaTcp { endereco, timeout, etapa: EtapaTcp::Resolvendo }
    }
}

impl TentativaTcp<String> {
    /// What the attempt needs done.
    pub fn acao(&self) -> (r: AcaoTcp)
        ensures
            r@ == self@.acao_modelo(),
    {
        match &self.etapa {
            EtapaTcp::Resolvendo => AcaoTcp::Resolve(self.endereco.clone()),
            EtapaTcp::Conectando { proximo, .. } => AcaoTcp::Conecta {
                indice: *proximo,
                timeout: self.timeout,
            },
            EtapaTcp::Encerrada(_) => AcaoTcp::Encerra,
        }
    }

    /// Takes note of what came of the action.
    pub fn avanca(self, evento: EventoTcp) -> (r: TentativaTcp)
        ensures
            r@ == self@.proxima(evento@),
    {
        let endereco = self.endereco;
        let timeout = self.timeout;
        let etapa = match (self.etapa, evento) {
            (EtapaTcp::Resolvendo, EventoTcp::Resolvido(Err(causa))) => EtapaTcp::Encerrada(
                Err(Erro::Resolucao { endereco: endereco.clone(), causa }),
            ),
            (EtapaTcp::Resolvendo, EventoTcp::Resolvido(Ok(total))) => {
                if total == 0 {
                    EtapaTcp::Encerrada(Err(Erro::NenhumEndereco { endereco: endereco.clone() }))
                } else {
                    EtapaTcp::Conectando { proximo: 0, total }
                }
            },
            (EtapaTcp::Conectando { .. }, EventoTcp::Conectou(Ok(_))) => EtapaTcp::Encerrada(
                Ok(()),
            ),
            (
                EtapaTcp::Conectando { proximo, total },
                EventoTcp::Conectou(Err(causa)),
            ) => {
                if proximo < total && proximo < total - 1 {
                    EtapaTcp::Conectando { proximo: proximo + 1, total }
                } else {
                    EtapaTcp::Encerrada(
                        Err(Erro::ConexaoTcp { endereco: endereco.clone(), causa }),
                    )
                }
            },
            (etapa, _) => etapa,
        };
        TentativaTcp { endereco, timeout, etapa }
    }

    /// How the attempt ended, or `None` while it is going on.
    pub fn resultado(self) -> (r: Option<Result<(), Erro>>)
        ensures
            match self@.etapa {
                EtapaTcp::Encerrada(fim) => r is Some && resultado(r->0) == fim,
                _ => r is None,
            },
    {
        match self.etapa {
            EtapaTcp::Encerrada(r) => Some(r),
            _ => None,
        }
    }
}

// ---------------- Laws ----------------

/// The events of an attempt whose name resolved to `total` addresses and whose first
/// connections gave `conexoes`.
pub open spec fn historia(total: usize, conexoes: Seq<Result<(), Seq<char>>>) -> Seq<
    EventoTcp<Seq<char>>,
> {
    seq![EventoTcp::Resolvido(Ok(total))] + conexoes.map_values(
        |c: Result<(), Seq<char>>| EventoTcp::Conectou(c),
    )
}

/// Law: the addresses are tried in order, each at most once. After `k` refusals, with
/// addresses left, it is the turn of the address number `k`.
pub proof fn lei_enderecos_em_ordem(
    inicial: TentativaTcp<Seq<char>>,
    total: usize,
    recusas: Seq<Result<(), Seq<char>>>,
)
    requires
        inicial.etapa == EtapaTcp::<Seq<char>>::Resolvendo,
        recusas.len() < total,
        forall|i: int| 0 <= i < recusas.len() ==> #[trigger] recusas[i] is Err,
    ensures
        inicial.apos(historia(total, recusas)) == (TentativaTcp {
            etapa: EtapaTcp::Conectando { proximo: recusas.len() as usize, total },
            ..inicial
        }),
    decreases recusas.len(),
{
    let h = historia(total, recusas);
    if recusas.len() == 0 {
        assert(inicial.apos(h.drop_last()) == inicial);
    } else {
        let menos = recusas.drop_last();
        assert forall|i: int| 0 <= i < menos.len() implies #[trigger] menos[i] is Err by {
            assert(menos[i] == recusas[i]);
        }
        lei_enderecos_em_ordem(inicial, total, menos);
        assert(h.drop_last() =~= historia(total, menos));
    }
}

/// Law: an attempt succeeds as soon as one address accepts, whatever the ones before it
/// answered.
pub proof fn lei_um_endereco_basta(
    inicial: TentativaTcp<Seq<char>>,
    total: usize,
    recusas: Seq<Result<(), Seq<char>>>,
)
    requires
        inicial.etapa == EtapaTcp::<Seq<char>>::Resolvendo,
        recusas.len() < total,
        forall|i: int| 0 <= i < recusas.len() ==> #[trigger] recusas[i] is Err,
    ensures
        inicial.apos(historia(total, recusas.push(Ok(())))).etapa == EtapaTcp::Encerrada(
            Ok::<(), Erro<Seq<char>>>(()),
        ),
{
    lei_enderecos_em_ordem(inicial, total, recusas);
    let h = historia(total, recusas.push(Ok(())));
    assert(h.drop_last() =~= historia(total, recusas));
}

/// Law: an attempt fails once every address has refused, and tells the last refusal.
pub proof fn lei_todos_os_enderecos_recusam(
    inicial: TentativaTcp<Seq<char>>,
    total: usize,
    recusas: Seq<Result<(), Seq<char>>>,
)
    requires
        inicial.etapa == EtapaTcp::<Seq<char>>::Resolvendo,
        0 < recusas.len() == total,
        forall|i: int| 0 <= i < recusas.len() ==> #[trigger] recusas[i] is Err,
    ensures
        inicial.apos(historia(total, recusas)).etapa == EtapaTcp::Encerrada(
            Err::<(), Erro<Seq<char>>>(
                Erro::ConexaoTcp { endereco: inicial.endereco, causa: recusas.last()->Err_0 },
            ),
        ),
{
    let menos = recusas.drop_last();
    assert forall|i: int| 0 <= i < menos.len() implies #[trigger] menos[i] is Err by {
        assert(menos[i] == recusas[i]);
    }
    lei_enderecos_em_ordem(inicial, total, menos);
    let h = historia(total, recusas);
    assert(h.drop_last() =~= historia(total, menos));
}

} // verus!
