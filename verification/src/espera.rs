//! Waiting: backoff between attempts, and what each look at the system means for a wait
//! that is going on.
//!
//! A wait looks at the system again and again until it has what it wants or its time is
//! over. The functions here take what one look gave, and how much time has passed since
//! the wait began; looking and sleeping are left to the caller.

use vstd::prelude::*;
use vstd::arithmetic::power2::{lemma2_to64, pow2};

use crate::args::ArgsConectar;
use crate::duracao::{milissegundos, Duracao};
use crate::erro::{resultado, Erro};
use crate::texto::{comeca_com, iguais};

verus! {

/// First wait between attempts, in milliseconds.
pub const BASE_MS: u64 = 500;

/// Longest wait between attempts before the random part, in milliseconds.
pub const CAP_MS: u64 = 8_000;

/// Bound of the random part of a wait, in milliseconds.
pub const JITTER_MS: u64 = 200;

/// Pause between looks at the interfaces and their addresses, in milliseconds.
pub const INTERVALO_REDE_MS: u64 = 500;

/// Pause between looks at a process that is ending, in milliseconds.
pub const INTERVALO_PROCESSO_MS: u64 = 200;

// ---------------- Backoff ----------------

/// `fastrand::u64` over the range `0..limite`: some number of that range. Which one is
/// left to chance. The outside function panics on an empty range.
#[verifier::external_body]
fn sorteia(limite: u64) -> (r: u64)
    requires
        limite > 0,
    ensures
        r < limite,
{
    fastrand::u64(0..limite)
}

/// The wait after `tentativa` earlier waits, in milliseconds and before the random part:
/// it doubles each time, up to a ceiling.
pub open spec fn base_ms(tentativa: u32) -> nat {
    let expoente: nat = if tentativa < 4 {
        tentativa as nat
    } else {
        4
    };
    let dobrada = BASE_MS as nat * pow2(expoente);
    if dobrada < CAP_MS {
        dobrada
    } else {
        CAP_MS as nat
    }
}

/// The wait after `tentativa` earlier waits, with the random part `jitter` in
/// milliseconds.
pub open spec fn backoff(tentativa: u32, jitter: u64) -> Duracao {
    milissegundos((base_ms(tentativa) + jitter) as u64)
}

/// `r` is the wait after `tentativa` earlier waits, for some value of its random part.
pub open spec fn backoff_possivel(tentativa: u32, r: Duracao) -> bool {
    exists|jitter: u64| jitter < JITTER_MS && r == #[trigger] backoff(tentativa, jitter)
}

/// The values of `base_ms`.
pub proof fn lema_base(tentativa: u32)
    ensures
        tentativa == 0 ==> base_ms(tentativa) == 500,
        tentativa == 1 ==> base_ms(tentativa) == 1_000,
        tentativa == 2 ==> base_ms(tentativa) == 2_000,
        tentativa == 3 ==> base_ms(tentativa) == 4_000,
        tentativa >= 4 ==> base_ms(tentativa) == 8_000,
{
    lemma2_to64();
}

/// The wait after `tentativa` earlier waits, with the random part `jitter` in
/// milliseconds.
pub fn backoff_com_jitter(tentativa: u32, jitter: u64) -> (r: Duracao)
    requires
        jitter < JITTER_MS,
    ensures
        r == backoff(tentativa, jitter),
        r.nanos == (base_ms(tentativa) + jitter) * 1_000_000,
{
    let expoente: u32 = if tentativa < 4 {
        tentativa
    } else {
        4
    };
    proof {
        lema_base(tentativa);
        lemma2_to64();
        assert(1u64 << 0u32 == 1) by (bit_vector);
        assert(1u64 << 1u32 == 2) by (bit_vector);
        assert(1u64 << 2u32 == 4) by (bit_vector);
        assert(1u64 << 3u32 == 8) by (bit_vector);
        assert(1u64 << 4u32 == 16) by (bit_vector);
    }
    let dobrada: u64 = BASE_MS * (1u64 << expoente);
    let base: u64 = if dobrada < CAP_MS {
        dobrada
    } else {
        CAP_MS
    };
    Duracao::from_millis(base + jitter)
}

/// The wait before the next attempt: exponential, with a random part so that many
/// clients do not retry in step.
pub fn calcula_backoff(tentativa: u32) -> (r: Duracao)
    ensures
        backoff_possivel(tentativa, r),
{
    let jitter = sorteia(JITTER_MS);
    backoff_com_jitter(tentativa, jitter)
}

// ---------------- One look during a wait ----------------

/// What a look at the system means for a wait.
#[derive(Debug, PartialEq, Eq)]
pub enum Sondagem<R, T = String> {
    /// The wait is over, with what it was for.
    Concluida(R),
    /// Look again after this pause.
    Repete(Duracao),
    /// The wait is over, in vain.
    Falha(Erro<T>),
}

/// The deep view of what a look means.
pub open spec fn sondagem<R: DeepView>(s: Sondagem<R, String>) -> Sondagem<R::V, Seq<char>> {
    match s {
        Sondagem::Concluida(r) => Sondagem::Concluida(r.deep_view()),
        Sondagem::Repete(d) => Sondagem::Repete(d),
        Sondagem::Falha(e) => Sondagem::Falha(e@),
    }
}

/// The first of `nomes` that starts with `prefixo`.
pub open spec fn primeira_com_prefixo(nomes: Seq<Seq<char>>, prefixo: Seq<char>) -> Option<
    Seq<char>,
>
    decreases nomes.len(),
{
    if nomes.len() == 0 {
        None
    } else if prefixo.is_prefix_of(nomes[0]) {
        Some(nomes[0])
    } else {
        primeira_com_prefixo(nomes.drop_first(), prefixo)
    }
}

/// The interface of the tunnel among `nomes`: the one that was asked for by name, or else
/// the first with the prefix of the provider.
pub open spec fn interface_do_tunel(
    args: ArgsConectar<Seq<char>>,
    nomes: Seq<Seq<char>>,
) -> Option<Seq<char>> {
    match args.interface {
        Some(nome) => if nomes.contains(nome) {
            Some(nome)
        } else {
            None
        },
        None => primeira_com_prefixo(nomes, args.provider.prefixo()),
    }
}

/// The failure of a wait for the interface of the tunnel.
pub open spec fn interface_nao_apareceu(
    args: ArgsConectar<Seq<char>>,
    timeout: Duracao,
) -> Erro<Seq<char>> {
    let segundos = timeout.nanos / 1_000_000_000;
    match args.interface {
        Some(nome) => Erro::TimeoutInterface { segundos, nome },
        None => Erro::TimeoutPrefixo { segundos, prefixo: args.provider.prefixo() },
    }
}

/// What one listing of the interfaces means for the wait for that of the tunnel.
pub open spec fn procura_interface(
    args: ArgsConectar<Seq<char>>,
    listagem: Result<Seq<Seq<char>>, Erro<Seq<char>>>,
    passado: Duracao,
    timeout: Duracao,
) -> Sondagem<Seq<char>, Seq<char>> {
    match listagem {
        Err(e) => Sondagem::Falha(Erro::ListaInterfaces { causa: e.texto() }),
        Ok(nomes) => match interface_do_tunel(args, nomes) {
            Some(interface) => Sondagem::Concluida(interface),
            None => if passado.nanos >= timeout.nanos {
                Sondagem::Falha(interface_nao_apareceu(args, timeout))
            } else {
                Sondagem::Repete(milissegundos(INTERVALO_REDE_MS))
            },
        },
    }
}

/// What one reading of the address of `interface` means for the wait for it.
pub open spec fn procura_ip(
    interface: Seq<char>,
    leitura: Result<Option<Seq<char>>, Erro<Seq<char>>>,
    passado: Duracao,
    timeout: Duracao,
) -> Sondagem<Seq<char>, Seq<char>> {
    match leitura {
        Err(e) => Sondagem::Falha(e),
        Ok(Some(ip)) => Sondagem::Concluida(ip),
        Ok(None) => if passado.nanos >= timeout.nanos {
            Sondagem::Falha(
                Erro::TimeoutIp { segundos: timeout.nanos / 1_000_000_000, interface },
            )
        } else {
            Sondagem::Repete(milissegundos(INTERVALO_REDE_MS))
        },
    }
}

/// Whether `nome` is one of `nomes`.
fn esta_entre(nomes: &Vec<String>, nome: &str) -> (r: bool)
    ensures
        r == nomes.deep_view().contains(nome@),
{
    let mut i: usize = 0;
    while i < nomes.len()
        invariant
            i <= nomes@.len(),
            forall|j: int| 0 <= j < i ==> nomes.deep_view()[j] != nome@,
        decreases nomes@.len() - i,
    {
        assert(nomes.deep_view()[i as int] == nomes@[i as int]@);
        if iguais(nomes[i].as_str(), nome) {
            return true;
        }
        i += 1;
    }
    false
}

/// The first of `nomes` that starts with `prefixo`.
fn busca_prefixo(nomes: &Vec<String>, prefixo: &str) -> (r: Option<String>)
    ensures
        r.deep_view() == primeira_com_prefixo(nomes.deep_view(), prefixo@),
{
    let ghost todos = nomes.deep_view();
    let mut i: usize = 0;
    assert(todos.skip(0) =~= todos);
    while i < nomes.len()
        invariant
            i <= nomes@.len(),
            todos == nomes.deep_view(),
            primeira_com_prefixo(todos, prefixo@) == primeira_com_prefixo(
                todos.skip(i as int),
                prefixo@,
            ),
        decreases nomes@.len() - i,
    {
        assert(todos.skip(i as int)[0] == nomes@[i as int]@);
        assert(todos.skip(i as int).drop_first() =~= todos.skip(i + 1));
        if comeca_com(nomes[i].as_str(), prefixo) {
            return Some(nomes[i].clone());
        }
        i += 1;
    }
    None
}

/// Judges one listing of the interfaces while waiting for that of the tunnel.
pub fn descobre_interface(
    args: &ArgsConectar,
    listagem: Result<Vec<String>, Erro>,
    passado: Duracao,
    timeout: Duracao,
) -> (r: Sondagem<String>)
    ensures
        sondagem(r) == procura_interface(args@, resultado(listagem), passado, timeout),
{
    let nomes = match listagem {
        Err(e) => return Sondagem::Falha(Erro::ListaInterfaces { causa: e.mensagem() }),
        Ok(nomes) => nomes,
    };
    let encontrada = match &args.interface {
        Some(nome) => {
            if esta_entre(&nomes, nome.as_str()) {
                Some(nome.clone())
            } else {
                None
            }
        },
        None => busca_prefixo(&nomes, args.provider.prefixo_interface()),
    };
    if let Some(interface) = encontrada {
        return Sondagem::Concluida(interface);
    }
    if passado.nanos >= timeout.nanos {
        let segundos: u128 = timeout.as_secs();
        return Sondagem::Falha(
            match &args.interface {
                Some(nome) => Erro::TimeoutInterface { segundos, nome: nome.clone() },
                None => Erro::TimeoutPrefixo {
                    segundos,
                    prefixo: args.provider.prefixo_interface().to_owned(),
                },
            },
        );
    }
    Sondagem::Repete(Duracao::from_millis(INTERVALO_REDE_MS))
}

/// Judges one reading of the IPv4 address of `interface` while waiting for it.
pub fn descobre_ip(
    interface: &str,
    leitura: Result<Option<String>, Erro>,
    passado: Duracao,
    timeout: Duracao,
) -> (r: Sondagem<String>)
    ensures
        sondagem(r) == procura_ip(interface@, resultado(leitura), passado, timeout),
{
    match leitura {
        Err(e) => Sondagem::Falha(e),
        Ok(Some(ip)) => Sondagem::Concluida(ip),
        Ok(None) => {
            if passado.nanos >= timeout.nanos {
                return Sondagem::Falha(
                    Erro::TimeoutIp {
                        segundos: timeout.as_secs(),
                        interface: interface.to_owned(),
                    },
                );
            }
            Sondagem::Repete(Duracao::from_millis(INTERVALO_REDE_MS))
        },
    }
}

// ---------------- Health check ----------------

/// What one attempt of the health check means.
#[derive(Debug, PartialEq, Eq)]
pub enum Saude<T = String> {
    /// The host answered.
    Saudavel,
    /// Try again after this wait; `causa` tells why the attempt failed.
    Retenta { espera: Duracao, causa: T },
    /// The time is over.
    Falha(Erro<T>),
}

impl View for Saude<String> {
    type V = Saude<Seq<char>>;

    open spec fn view(&self) -> Saude<Seq<char>> {
        match *self {
            Saude::Saudavel => Saude::Saudavel,
            Saude::Retenta { espera, causa } => Saude::Retenta { espera, causa: causa@ },
            Saude::Falha(e) => Saude::Falha(e@),
        }
    }
}

/// What the attempt number `tentativa` means, if `espera` is the wait that comes after it.
pub open spec fn julga_tentativa(
    host: Seq<char>,
    porta: u16,
    tentativa: u32,
    tcp: Result<(), Erro<Seq<char>>>,
    passado: Duracao,
    timeout: Duracao,
    espera: Duracao,
) -> Saude<Seq<char>> {
    match tcp {
        Ok(_) => Saude::Saudavel,
        Err(e) => if passado.nanos >= timeout.nanos {
            Saude::Falha(
                Erro::Healthcheck {
                    host,
                    porta,
                    tentativas: tentativa,
                    segundos: timeout.nanos / 1_000_000_000,
                    causa: e.texto(),
                },
            )
        } else {
            Saude::Retenta { espera, causa: e.texto() }
        },
    }
}

/// Judges the attempt number `tentativa` of the health check against `host:porta`, given
/// the wait that comes after it if it failed and there is time left.
pub fn verifica_healthcheck(
    host: &str,
    porta: u16,
    tentativa: u32,
    tcp: Result<(), Erro>,
    passado: Duracao,
    timeout: Duracao,
    espera: Duracao,
) -> (r: Saude)
    ensures
        r@ == julga_tentativa(
            host@,
            porta,
            tentativa,
            resultado(tcp),
            passado,
            timeout,
            espera,
        ),
{
    match tcp {
        Ok(_) => Saude::Saudavel,
        Err(e) => {
            let causa = e.mensagem();
            if passado.nanos >= timeout.nanos {
                return Saude::Falha(
                    Erro::Healthcheck {
                        host: host.to_owned(),
                        porta,
                        tentativas: tentativa,
                        segundos: timeout.as_secs(),
                        causa,
                    },
                );
            }
            Saude::Retenta { espera, causa }
        },
    }
}

// ---------------- End of a process ----------------

/// What one look at the process means for the wait for its end. The process is looked at
/// before the clock, so that the wait is only in vain if the process is still there.
pub open spec fn julga_sonda(
    pid: u32,
    vivo: Result<bool, Erro<Seq<char>>>,
    passado: Duracao,
    timeout: Duracao,
) -> Sondagem<(), Seq<char>> {
    match vivo {
        Err(e) => Sondagem::Falha(e),
        Ok(false) => Sondagem::Concluida(()),
        Ok(true) => if passado.nanos >= timeout.nanos {
            Sondagem::Falha(Erro::NaoEncerrou { pid, segundos: timeout.nanos / 1_000_000_000 })
        } else {
            Sondagem::Repete(milissegundos(INTERVALO_PROCESSO_MS))
        },
    }
}

/// Judges one look at the process `pid`, `passado` after the wait for its end began.
pub fn aguarda_processo_morrer(
    pid: u32,
    vivo: Result<bool, Erro>,
    passado: Duracao,
    timeout: Duracao,
) -> (r: Sondagem<()>)
    ensures
        sondagem(r) == julga_sonda(pid, resultado(vivo), passado, timeout),
{
    match vivo {
        Err(e) => Sondagem::Falha(e),
        Ok(false) => Sondagem::Concluida(()),
        Ok(true) => {
            if passado.nanos >= timeout.nanos {
                return Sondagem::Falha(Erro::NaoEncerrou { pid, segundos: timeout.as_secs() });
            }
            Sondagem::Repete(Duracao::from_millis(INTERVALO_PROCESSO_MS))
        },
    }
}

// ---------------- Laws ----------------

/// Law: until the ceiling is reached, every wait is shorter than every later one,
/// whatever their random parts.
pub proof fn lei_backoff_cresce(a: u32, b: u32, da: Duracao, db: Duracao)
    requires
        a < b,
        a < 4,
        backoff_possivel(a, da),
        backoff_possivel(b, db),
    ensures
        da.nanos < db.nanos,
{
    lema_base(a);
    lema_base(b);
}

/// Law: no wait reaches the ceiling plus the bound of the random part.
pub proof fn lei_backoff_tem_teto(tentativa: u32, d: Duracao)
    requires
        backoff_possivel(tentativa, d),
    ensures
        d.nanos < (CAP_MS + JITTER_MS) * 1_000_000,
{
    lema_base(tentativa);
}

/// Law: the random part only adds, and less than its bound.
pub proof fn lei_jitter_limitado(tentativa: u32, d: Duracao)
    requires
        backoff_possivel(tentativa, d),
    ensures
        base_ms(tentativa) * 1_000_000 <= d.nanos < (base_ms(tentativa) + JITTER_MS) * 1_000_000,
{
    lema_base(tentativa);
}

/// The first name with the prefix is one of the names, has the prefix, and no name before
/// it does.
pub proof fn lema_primeira_com_prefixo(nomes: Seq<Seq<char>>, prefixo: Seq<char>)
    ensures
        match primeira_com_prefixo(nomes, prefixo) {
            Some(n) => exists|i: int|
                0 <= i < nomes.len() && #[trigger] nomes[i] == n && prefixo.is_prefix_of(n) && (
                forall|j: int| 0 <= j < i ==> !prefixo.is_prefix_of(#[trigger] nomes[j])),
            None => forall|j: int|
                0 <= j < nomes.len() ==> !prefixo.is_prefix_of(#[trigger] nomes[j]),
        },
    decreases nomes.len(),
{
    if nomes.len() > 0 {
        if prefixo.is_prefix_of(nomes[0]) {
            assert(nomes[0] == primeira_com_prefixo(nomes, prefixo)->0);
        } else {
            let resto = nomes.drop_first();
            lema_primeira_com_prefixo(resto, prefixo);
            match primeira_com_prefixo(resto, prefixo) {
                Some(n) => {
                    let i = choose|i: int|
                        0 <= i < resto.len() && #[trigger] resto[i] == n && prefixo.is_prefix_of(n)
                            && (forall|j: int|
                            0 <= j < i ==> !prefixo.is_prefix_of(#[trigger] resto[j]));
                    assert(nomes[i + 1] == n);
                    assert forall|j: int| 0 <= j < i + 1 implies !prefixo.is_prefix_of(
                        #[trigger] nomes[j],
                    ) by {
                        if j > 0 {
                            assert(nomes[j] == resto[j - 1]);
                        }
                    }
                },
                None => {
                    assert forall|j: int| 0 <= j < nomes.len() implies !prefixo.is_prefix_of(
                        #[trigger] nomes[j],
                    ) by {
                        if j > 0 {
                            assert(nomes[j] == resto[j - 1]);
                        }
                    }
                },
            }
        }
    }
}

/// Law: an interface that was asked for by name is the one that is used, and it is used
/// as soon as it is listed.
pub proof fn lei_interface_explicita_e_respeitada(
    args: ArgsConectar<Seq<char>>,
    nomes: Seq<Seq<char>>,
    passado: Duracao,
    timeout: Duracao,
    pedida: Seq<char>,
)
    requires
        args.interface == Some(pedida),
    ensures
        nomes.contains(pedida) ==> procura_interface(args, Ok(nomes), passado, timeout)
            == Sondagem::<Seq<char>, Seq<char>>::Concluida(pedida),
        procura_interface(args, Ok(nomes), passado, timeout) is Concluida ==> nomes.contains(
            pedida,
        ),
{
}

/// Law: where no interface was asked for by name, the one that is used is the first
/// listed with the prefix of the provider, and there is one to use if any has it.
pub proof fn lei_interface_auto_detectada(
    args: ArgsConectar<Seq<char>>,
    nomes: Seq<Seq<char>>,
    passado: Duracao,
    timeout: Duracao,
)
    requires
        args.interface is None,
    ensures
        match procura_interface(args, Ok(nomes), passado, timeout) {
            Sondagem::Concluida(n) => exists|i: int|
                0 <= i < nomes.len() && #[trigger] nomes[i] == n
                    && args.provider.prefixo().is_prefix_of(n) && (forall|j: int|
                    0 <= j < i ==> !args.provider.prefixo().is_prefix_of(#[trigger] nomes[j])),
            _ => forall|j: int|
                0 <= j < nomes.len() ==> !args.provider.prefixo().is_prefix_of(#[trigger] nomes[j]),
        },
{
    lema_primeira_com_prefixo(nomes, args.provider.prefixo());
}

/// Law: a wait that still has time is not given up because what it is for is not there
/// yet, and one whose time is over does not go on.
pub proof fn lei_espera_ate_o_timeout(
    args: ArgsConectar<Seq<char>>,
    nomes: Seq<Seq<char>>,
    interface: Seq<char>,
    leitura: Option<Seq<char>>,
    host: Seq<char>,
    porta: u16,
    tentativa: u32,
    tcp: Result<(), Erro<Seq<char>>>,
    espera: Duracao,
    pid: u32,
    vivo: bool,
    passado: Duracao,
    timeout: Duracao,
)
    ensures
        passado.nanos < timeout.nanos ==> {
            &&& !(procura_interface(args, Ok(nomes), passado, timeout) is Falha)
            &&& !(procura_ip(interface, Ok(leitura), passado, timeout) is Falha)
            &&& !(julga_tentativa(host, porta, tentativa, tcp, passado, timeout, espera) is Falha)
            &&& !(julga_sonda(pid, Ok(vivo), passado, timeout) is Falha)
        },
        passado.nanos >= timeout.nanos ==> {
            &&& !(procura_interface(args, Ok(nomes), passado, timeout) is Repete)
            &&& !(procura_ip(interface, Ok(leitura), passado, timeout) is Repete)
            &&& !(julga_tentativa(host, porta, tentativa, tcp, passado, timeout, espera) is Retenta)
            &&& !(julga_sonda(pid, Ok(vivo), passado, timeout) is Repete)
        },
{
}

/// Law: the wait for the end of a process is over as soon as the process is found gone,
/// however late that is, and is in vain only if the process is still there once the time
/// is over.
pub proof fn lei_falha_so_se_ainda_vivo(pid: u32, vivo: bool, passado: Duracao, timeout: Duracao)
    ensures
        julga_sonda(pid, Ok(vivo), passado, timeout) is Concluida <==> !vivo,
        julga_sonda(pid, Ok(vivo), passado, timeout) is Falha <==> vivo && passado.nanos
            >= timeout.nanos,
{
}

} // verus!
