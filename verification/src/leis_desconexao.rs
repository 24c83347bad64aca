//! What holds of every run of `desconectar`, whatever the outside world answers.
//!
//! A run is given by the history of the answers to its actions. The laws speak of the
//! action that is due after an arbitrary history.

use vstd::prelude::*;

use crate::acao::{Acao, Evento, EventoModelo};
use crate::args::ArgsConectar;
use crate::caminho::ArquivoTrabalho;
use crate::conexao::conexao_inicial;
use crate::desconexao::{
    desconexao_inicial, pid_lido, Desconexao, EtapaDesconexao, TIMEOUT_TERMINO_SECS,
};
use crate::duracao::{decorrido, segundos, Duracao};
use crate::erro::Erro;
use crate::leis_conexao::{lei_arquivos_prontos_antes_do_cliente, Resposta};
use crate::numero::{
    decimal, lei_decimal_ida_e_volta, lema_decimal_digitos, numero, NumeroInvalido,
};
use crate::texto::{aparado, branco};

verus! {

/// An answer to an action of `desconectar`: the event, and when it was told.
pub type RespostaTermino = (EventoModelo, Duracao);

impl Desconexao<Seq<char>> {
    /// The run after the answers `h`, in order.
    pub open spec fn apos(self, h: Seq<RespostaTermino>) -> Desconexao<Seq<char>>
        decreases h.len(),
    {
        if h.len() == 0 {
            self
        } else {
            self.apos(h.drop_last()).proxima(h.last().0, h.last().1)
        }
    }

    /// The answer number `i` of `h` was `evento`, and answered `acao`.
    pub open spec fn respondida(
        self,
        h: Seq<RespostaTermino>,
        i: int,
        acao: Acao<Seq<char>>,
        evento: EventoModelo,
    ) -> bool {
        0 <= i < h.len() && self.apos(h.take(i)).acao_modelo() == acao && h[i].0 == evento
    }

    /// Some answer of `h` was `evento`, and answered `acao`.
    #[verifier::opaque]
    pub open spec fn houve(
        self,
        h: Seq<RespostaTermino>,
        acao: Acao<Seq<char>>,
        evento: EventoModelo,
    ) -> bool {
        exists|i: int| self.respondida(h, i, acao, evento)
    }

    /// There was no process id file.
    pub open spec fn sem_pid(self, h: Seq<RespostaTermino>) -> bool {
        self.houve(h, Acao::LePid { pid_file: ArquivoTrabalho::Pid }, Evento::Pid(None))
    }

    /// The process id file holds `pid`.
    pub open spec fn pid_no_arquivo(self, h: Seq<RespostaTermino>, pid: u32) -> bool {
        exists|conteudo: Seq<char>|
            #[trigger] self.houve(
                h,
                Acao::LePid { pid_file: ArquivoTrabalho::Pid },
                Evento::Pid(Some(Ok(conteudo))),
            ) && numero(aparado(conteudo)) == Ok::<u32, NumeroInvalido>(pid)
    }

    /// The process of the process id file was asked to end.
    pub open spec fn pedido(self, h: Seq<RespostaTermino>, pid: u32) -> bool {
        &&& self.pid_no_arquivo(h, pid)
        &&& self.houve(h, Acao::EnviaSinalTermino { pid }, Evento::Executado(Ok(())))
    }

    /// The process of the process id file was asked to end, and was then found gone.
    pub open spec fn encerrado(self, h: Seq<RespostaTermino>) -> bool {
        exists|pid: u32|
            #[trigger] self.pedido(h, pid) && self.houve(
                h,
                Acao::ConsultaProcesso { pid },
                Evento::Vivo(Ok(false)),
            )
    }

    /// No VPN client is left.
    pub open spec fn nada_roda(self, h: Seq<RespostaTermino>) -> bool {
        self.sem_pid(h) || self.encerrado(h)
    }

    /// The removal of `arquivo` was tried.
    pub open spec fn removido(self, h: Seq<RespostaTermino>, arquivo: ArquivoTrabalho) -> bool {
        self.houve(h, Acao::RemoveArquivo(arquivo), Evento::Feito)
    }

    /// What the stage `etapa`, reached after `h`, tells of `h`.
    spec fn revela(self, h: Seq<RespostaTermino>, etapa: EtapaDesconexao<Seq<char>>) -> bool {
        match etapa {
            EtapaDesconexao::LendoPid => true,
            EtapaDesconexao::AnunciandoEncerramento { pid }
            | EtapaDesconexao::Sinalizando { pid } => self.pid_no_arquivo(h, pid),
            EtapaDesconexao::Sondando { pid, .. }
            | EtapaDesconexao::PausandoSonda { pid, .. } => self.pedido(h, pid),
            EtapaDesconexao::AnunciandoFim => self.encerrado(h),
            EtapaDesconexao::AnunciandoAusencia => self.sem_pid(h),
            EtapaDesconexao::Removendo(arquivo) => {
                &&& self.nada_roda(h)
                &&& arquivo != ArquivoTrabalho::Pid ==> self.removido(h, ArquivoTrabalho::Pid)
                &&& arquivo == ArquivoTrabalho::Auth ==> self.removido(h, ArquivoTrabalho::Config)
            },
            EtapaDesconexao::Encerrada(Ok(_)) => {
                &&& self.nada_roda(h)
                &&& self.removido(h, ArquivoTrabalho::Pid)
                &&& self.removido(h, ArquivoTrabalho::Config)
                &&& self.removido(h, ArquivoTrabalho::Auth)
            },
            EtapaDesconexao::Encerrada(Err(_)) => true,
        }
    }
}

/// All that had happened before the last answer still has, and so has the last answer.
proof fn lema_houve(d: Desconexao<Seq<char>>, h: Seq<RespostaTermino>)
    requires
        h.len() > 0,
    ensures
        forall|acao: Acao<Seq<char>>, evento: EventoModelo|
            d.houve(h.drop_last(), acao, evento) ==> #[trigger] d.houve(h, acao, evento),
        d.houve(h, d.apos(h.drop_last()).acao_modelo(), h.last().0),
{
    reveal(Desconexao::houve);
    let a = h.drop_last();
    assert forall|acao: Acao<Seq<char>>, evento: EventoModelo|
        d.houve(a, acao, evento) implies #[trigger] d.houve(h, acao, evento) by {
        let i = choose|i: int| d.respondida(a, i, acao, evento);
        assert(a.take(i) =~= h.take(i));
        assert(d.respondida(h, i, acao, evento));
    }
    let u = h.len() - 1;
    assert(d.respondida(h, u, d.apos(a).acao_modelo(), h.last().0));
}

/// What was known of the process before the last answer still is.
proof fn lema_processo(d: Desconexao<Seq<char>>, h: Seq<RespostaTermino>)
    requires
        h.len() > 0,
    ensures
        forall|pid: u32|
            d.pid_no_arquivo(h.drop_last(), pid) ==> #[trigger] d.pid_no_arquivo(h, pid),
        forall|pid: u32| d.pedido(h.drop_last(), pid) ==> #[trigger] d.pedido(h, pid),
        d.nada_roda(h.drop_last()) ==> d.nada_roda(h),
        d.encerrado(h.drop_last()) ==> d.encerrado(h),
{
    lema_houve(d, h);
    let a = h.drop_last();
    assert forall|pid: u32| d.pid_no_arquivo(a, pid) implies #[trigger] d.pid_no_arquivo(
        h,
        pid,
    ) by {
        let conteudo = choose|conteudo: Seq<char>|
            #[trigger] d.houve(
                a,
                Acao::LePid { pid_file: ArquivoTrabalho::Pid },
                Evento::Pid(Some(Ok(conteudo))),
            ) && numero(aparado(conteudo)) == Ok::<u32, NumeroInvalido>(pid);
        assert(d.houve(
            h,
            Acao::LePid { pid_file: ArquivoTrabalho::Pid },
            Evento::Pid(Some(Ok(conteudo))),
        ));
    }
    if d.encerrado(a) {
        let pid = choose|pid: u32|
            #[trigger] d.pedido(a, pid) && d.houve(
                a,
                Acao::ConsultaProcesso { pid },
                Evento::Vivo(Ok(false)),
            );
        assert(d.pedido(h, pid));
    }
}

/// The stage that a run has reached tells what has happened.
proof fn lema_coerente(workdir: Seq<char>, h: Seq<RespostaTermino>)
    ensures
        ({
            let d = desconexao_inicial(workdir);
            d.apos(h).workdir == workdir && d.revela(h, d.apos(h).etapa)
        }),
    decreases h.len(),
{
    let d = desconexao_inicial(workdir);
    if h.len() > 0 {
        let a = h.drop_last();
        lema_coerente(workdir, a);
        lema_houve(d, h);
        lema_processo(d, h);
        let antes = d.apos(a);
        match antes.etapa {
            EtapaDesconexao::LendoPid => {
                if let Evento::Pid(Some(Ok(conteudo))) = h.last().0 {
                    assert(d.houve(
                        h,
                        Acao::LePid { pid_file: ArquivoTrabalho::Pid },
                        Evento::Pid(Some(Ok(conteudo))),
                    ));
                    if let Ok(pid) = numero(aparado(conteudo)) {
                        assert(d.pid_no_arquivo(h, pid));
                    }
                }
            },
            EtapaDesconexao::Sinalizando { pid } => {
                if let Evento::Executado(Ok(u)) = h.last().0 {
                    assert(u == ());
                }
            },
            EtapaDesconexao::Sondando { pid, .. } => {
                if h.last().0 == EventoModelo::Vivo(Ok(false)) {
                    assert(d.pedido(h, pid));
                }
            },
            _ => {},
        }
    }
}

// ---------------- Laws ----------------

/// Law: only the process of the process id file is signalled or looked at.
pub proof fn lei_so_o_processo_do_arquivo(workdir: Seq<char>, h: Seq<RespostaTermino>)
    ensures
        match desconexao_inicial(workdir).apos(h).acao_modelo() {
            Acao::EnviaSinalTermino { pid } => desconexao_inicial(workdir).pid_no_arquivo(h, pid),
            Acao::ConsultaProcesso { pid } => desconexao_inicial(workdir).pedido(h, pid),
            _ => true,
        },
{
    lema_coerente(workdir, h);
}

/// Law: work files are removed only once no VPN client is left; a run that fails before
/// that leaves them for the next one.
pub proof fn lei_remove_so_sem_cliente(workdir: Seq<char>, h: Seq<RespostaTermino>)
    ensures
        desconexao_inicial(workdir).apos(h).acao_modelo() is RemoveArquivo ==> desconexao_inicial(
            workdir,
        ).nada_roda(h),
{
    lema_coerente(workdir, h);
}

/// Law: after a success no VPN client is left, and the removal of every work file was
/// tried.
pub proof fn lei_sucesso_limpa_tudo(
    workdir: Seq<char>,
    h: Seq<RespostaTermino>,
    arquivo: ArquivoTrabalho,
)
    requires
        desconexao_inicial(workdir).apos(h).etapa == EtapaDesconexao::Encerrada(
            Ok::<(), Erro<Seq<char>>>(()),
        ),
    ensures
        desconexao_inicial(workdir).nada_roda(h),
        desconexao_inicial(workdir).removido(h, arquivo),
{
    lema_coerente(workdir, h);
}

/// Law: a run that is over stays as it is.
pub proof fn lei_fim_e_definitivo(
    d: Desconexao<Seq<char>>,
    h: Seq<RespostaTermino>,
    depois: Seq<RespostaTermino>,
)
    requires
        d.apos(h).acao_modelo() is Encerra,
    ensures
        d.apos(h + depois) == d.apos(h),
    decreases depois.len(),
{
    if depois.len() == 0 {
        assert(h + depois =~= h);
    } else {
        lei_fim_e_definitivo(d, h, depois.drop_last());
        assert((h + depois).drop_last() =~= h + depois.drop_last());
    }
}

/// Law: without a process id file the command sends no signal and looks at no process,
/// whatever comes after, and cannot fail. So running it once more, or without ever having
/// connected, is no failure.
pub proof fn lei_idempotente_sem_pid(
    workdir: Seq<char>,
    agora: Duracao,
    depois: Seq<RespostaTermino>,
)
    ensures
        ({
            let h = seq![(EventoModelo::Pid(None), agora)] + depois;
            let fim = desconexao_inicial(workdir).apos(h);
            &&& fim.acao_modelo() is Imprime || fim.acao_modelo() is RemoveArquivo
                || fim.acao_modelo() is Encerra
            &&& fim.etapa is AnunciandoAusencia || fim.etapa is Removendo || fim.etapa
                == EtapaDesconexao::Encerrada(Ok::<(), Erro<Seq<char>>>(()))
        }),
    decreases depois.len(),
{
    let inicio = seq![(EventoModelo::Pid(None), agora)];
    let h = inicio + depois;
    let d = desconexao_inicial(workdir);
    if depois.len() == 0 {
        assert(d.apos(h.drop_last()) == d);
    } else {
        lei_idempotente_sem_pid(workdir, agora, depois.drop_last());
        assert(h.drop_last() =~= inicio + depois.drop_last());
    }
}

/// Law: without a process id file the command succeeds after one message and the three
/// removals.
pub proof fn lei_sem_pid_termina(
    workdir: Seq<char>,
    t: Seq<Duracao>,
)
    requires
        t.len() == 5,
    ensures
        desconexao_inicial(workdir).apos(
            seq![
                (EventoModelo::Pid(None), t[0]),
                (EventoModelo::Feito, t[1]),
                (EventoModelo::Feito, t[2]),
                (EventoModelo::Feito, t[3]),
                (EventoModelo::Feito, t[4]),
            ],
        ).etapa == EtapaDesconexao::Encerrada(Ok::<(), Erro<Seq<char>>>(())),
{
    let d = desconexao_inicial(workdir);
    let h0 = Seq::<RespostaTermino>::empty();
    let h1 = h0.push((EventoModelo::Pid(None), t[0]));
    let h2 = h1.push((EventoModelo::Feito, t[1]));
    let h3 = h2.push((EventoModelo::Feito, t[2]));
    let h4 = h3.push((EventoModelo::Feito, t[3]));
    let h5 = h4.push((EventoModelo::Feito, t[4]));
    assert(h1.drop_last() =~= h0);
    assert(h2.drop_last() =~= h1);
    assert(h3.drop_last() =~= h2);
    assert(h4.drop_last() =~= h3);
    assert(h5.drop_last() =~= h4);
    assert(d.apos(h0) == d);
    assert(d.apos(h1).etapa is AnunciandoAusencia);
    assert(d.apos(h2).etapa == EtapaDesconexao::<Seq<char>>::Removendo(ArquivoTrabalho::Pid));
    assert(d.apos(h3).etapa == EtapaDesconexao::<Seq<char>>::Removendo(ArquivoTrabalho::Config));
    assert(d.apos(h4).etapa == EtapaDesconexao::<Seq<char>>::Removendo(ArquivoTrabalho::Auth));
    assert(h5 =~= seq![
        (EventoModelo::Pid(None), t[0]),
        (EventoModelo::Feito, t[1]),
        (EventoModelo::Feito, t[2]),
        (EventoModelo::Feito, t[3]),
        (EventoModelo::Feito, t[4]),
    ]);
}

/// The answers to a run that finds a process id file with the content `conteudo`, and
/// whose process ends as soon as it is asked to.
pub open spec fn historia_de_termino(conteudo: Seq<char>, t: Seq<Duracao>) -> Seq<
    RespostaTermino,
> {
    seq![
        (EventoModelo::Pid(Some(Ok(conteudo))), t[0]),
        (EventoModelo::Feito, t[1]),
        (EventoModelo::Executado(Ok(())), t[2]),
        (EventoModelo::Vivo(Ok(false)), t[3]),
        (EventoModelo::Feito, t[4]),
        (EventoModelo::Feito, t[5]),
        (EventoModelo::Feito, t[6]),
        (EventoModelo::Feito, t[7]),
    ]
}

/// Law: the process of the process id file is asked to end, and once it has ended the
/// command succeeds.
pub proof fn lei_encerra_o_processo_do_arquivo(
    workdir: Seq<char>,
    conteudo: Seq<char>,
    pid: u32,
    t: Seq<Duracao>,
)
    requires
        pid_lido(ArquivoTrabalho::Pid.em(workdir), Some(Ok(conteudo))) == Ok::<
            Option<u32>,
            Erro<Seq<char>>,
        >(Some(pid)),
        t.len() == 8,
    ensures
        ({
            let d = desconexao_inicial(workdir);
            let h = historia_de_termino(conteudo, t);
            &&& d.apos(h.take(2)).acao_modelo() == Acao::<Seq<char>>::EnviaSinalTermino { pid }
            &&& d.apos(h).etapa == EtapaDesconexao::Encerrada(Ok::<(), Erro<Seq<char>>>(()))
        }),
{
    let d = desconexao_inicial(workdir);
    let h = historia_de_termino(conteudo, t);
    assert(h.take(1).drop_last() =~= h.take(0));
    assert(h.take(2).drop_last() =~= h.take(1));
    assert(h.take(3).drop_last() =~= h.take(2));
    assert(h.take(4).drop_last() =~= h.take(3));
    assert(h.take(5).drop_last() =~= h.take(4));
    assert(h.take(6).drop_last() =~= h.take(5));
    assert(h.take(7).drop_last() =~= h.take(6));
    assert(d.apos(h.take(0)) == d);
    assert(d.apos(h.take(1)).etapa == EtapaDesconexao::<Seq<char>>::AnunciandoEncerramento { pid });
    assert(d.apos(h.take(3)).etapa == EtapaDesconexao::<Seq<char>>::Sondando { pid, inicio: t[2] });
    assert(d.apos(h.take(4)).etapa == EtapaDesconexao::<Seq<char>>::AnunciandoFim);
    assert(d.apos(h.take(5)).etapa == EtapaDesconexao::<Seq<char>>::Removendo(ArquivoTrabalho::Pid));
    assert(d.apos(h.take(6)).etapa == EtapaDesconexao::<Seq<char>>::Removendo(
        ArquivoTrabalho::Config,
    ));
    assert(d.apos(h.take(7)).etapa == EtapaDesconexao::<Seq<char>>::Removendo(
        ArquivoTrabalho::Auth,
    ));
}

// ---------------- The time of the wait ----------------

impl Desconexao<Seq<char>> {
    /// When the VPN client was asked to end, if it was.
    pub open spec fn sinal(self, h: Seq<RespostaTermino>) -> Option<Duracao>
        decreases h.len(),
    {
        if h.len() == 0 {
            None
        } else if self.sinal(h.drop_last()) is Some {
            self.sinal(h.drop_last())
        } else if self.apos(h.drop_last()).etapa is Sinalizando && (h.last().0 matches
            Evento::Executado(r) && r is Ok) {
            Some(h.last().1)
        } else {
            None
        }
    }

    /// At `agora`, less than the time for the VPN client to end has passed since `inicio`.
    pub open spec fn ha_tempo(self, inicio: Duracao, agora: Duracao) -> bool {
        decorrido(inicio, agora).nanos < segundos(TIMEOUT_TERMINO_SECS).nanos
    }

    /// The VPN client is still there, and there is time left.
    pub open spec fn adiada(self, evento: EventoModelo, agora: Duracao) -> bool {
        &&& self.etapa matches EtapaDesconexao::Sondando { inicio, .. }
        &&& evento == EventoModelo::Vivo(Ok(true))
        &&& self.ha_tempo(inicio, agora)
    }
}

/// A run that waits for the end of the VPN client knows when it was asked to end.
proof fn lema_sinal(workdir: Seq<char>, h: Seq<RespostaTermino>)
    ensures
        ({
            let d = desconexao_inicial(workdir);
            match d.apos(h).etapa {
                EtapaDesconexao::LendoPid
                | EtapaDesconexao::AnunciandoEncerramento { .. }
                | EtapaDesconexao::Sinalizando { .. } => d.sinal(h) is None,
                EtapaDesconexao::Sondando { inicio, .. }
                | EtapaDesconexao::PausandoSonda { inicio, .. } => d.sinal(h) == Some(inicio),
                _ => true,
            }
        }),
    decreases h.len(),
{
    if h.len() > 0 {
        lema_sinal(workdir, h.drop_last());
    }
}

/// Law: a look at the VPN client decides, and the clock only if it is still there. Found
/// gone, it has ended, however late that is; found there, it is a failure if the timeout
/// has passed since it was asked to end, and else it is looked at again.
pub proof fn lei_espera_o_cliente_ate_o_timeout(
    workdir: Seq<char>,
    h: Seq<RespostaTermino>,
    pid: u32,
    vivo: bool,
    agora: Duracao,
)
    requires
        desconexao_inicial(workdir).apos(h).acao_modelo() == (Acao::<
            Seq<char>,
        >::ConsultaProcesso { pid }),
    ensures
        ({
            let d = desconexao_inicial(workdir);
            let depois = d.apos(h.push((EventoModelo::Vivo(Ok(vivo)), agora))).etapa;
            &&& d.sinal(h) matches Some(inicio)
            &&& !vivo <==> depois is AnunciandoFim
            &&& vivo && d.ha_tempo(inicio, agora) <==> depois is PausandoSonda
            &&& vivo && !d.ha_tempo(inicio, agora) <==> depois == EtapaDesconexao::Encerrada(
                Err::<(), Erro<Seq<char>>>(
                    Erro::NaoEncerrou { pid, segundos: TIMEOUT_TERMINO_SECS as u128 },
                ),
            )
        }),
{
    lema_sinal(workdir, h);
    assert(h.push((EventoModelo::Vivo(Ok(vivo)), agora)).drop_last() =~= h);
}

// ---------------- Success ----------------

impl Desconexao<Seq<char>> {
    /// `evento` is the answer that one hopes for to the action that is due.
    pub open spec fn boa_resposta(self, evento: EventoModelo) -> bool {
        match self.acao_modelo() {
            Acao::LePid { .. } => {
                &&& evento matches Evento::Pid(leitura)
                &&& pid_lido(ArquivoTrabalho::Pid.em(self.workdir), leitura) is Ok
            },
            Acao::EnviaSinalTermino { .. } => evento matches Evento::Executado(r) && r is Ok,
            Acao::ConsultaProcesso { .. } => evento == EventoModelo::Vivo(Ok(false)),
            Acao::Encerra => true,
            _ => evento is Feito,
        }
    }

    /// Number of looks of `h` that found the VPN client still there with time left.
    pub open spec fn adiamentos(self, h: Seq<RespostaTermino>) -> nat
        decreases h.len(),
    {
        if h.len() == 0 {
            0
        } else if self.apos(h.drop_last()).adiada(h.last().0, h.last().1) {
            self.adiamentos(h.drop_last()) + 1
        } else {
            self.adiamentos(h.drop_last())
        }
    }

    /// Every answer of `h` is the one that one hopes for, or is in vain with time left.
    pub open spec fn tudo_bem(self, h: Seq<RespostaTermino>) -> bool {
        forall|i: int|
            0 <= i < h.len() ==> {
                let atual = #[trigger] self.apos(h.take(i));
                atual.boa_resposta(h[i].0) || atual.adiada(h[i].0, h[i].1)
            }
    }

    /// Bound on the number of good answers that are still wanted.
    spec fn faltam(self) -> nat {
        match self.etapa {
            EtapaDesconexao::LendoPid => 8,
            EtapaDesconexao::AnunciandoEncerramento { .. } => 7,
            EtapaDesconexao::Sinalizando { .. } => 6,
            EtapaDesconexao::PausandoSonda { .. } => 6,
            EtapaDesconexao::Sondando { .. } => 5,
            EtapaDesconexao::AnunciandoFim => 4,
            EtapaDesconexao::AnunciandoAusencia => 4,
            EtapaDesconexao::Removendo(ArquivoTrabalho::Pid) => 3,
            EtapaDesconexao::Removendo(ArquivoTrabalho::Config) => 2,
            EtapaDesconexao::Removendo(ArquivoTrabalho::Auth) => 1,
            EtapaDesconexao::Encerrada(_) => 0,
        }
    }
}

/// Good answers bring a run closer to its end; one in vain puts it off by two, itself and
/// the pause after it; neither leads to a failure.
proof fn lema_boas_respostas(workdir: Seq<char>, h: Seq<RespostaTermino>)
    requires
        desconexao_inicial(workdir).tudo_bem(h),
    ensures
        ({
            let d = desconexao_inicial(workdir);
            let atual = d.apos(h);
            &&& atual.faltam() == 0 || atual.faltam() + h.len() <= 8 + 2 * d.adiamentos(h)
            &&& atual.etapa matches EtapaDesconexao::Encerrada(fim) ==> fim is Ok
        }),
    decreases h.len(),
{
    let d = desconexao_inicial(workdir);
    if h.len() > 0 {
        let a = h.drop_last();
        assert forall|i: int| 0 <= i < a.len() implies {
            let atual = #[trigger] d.apos(a.take(i));
            atual.boa_resposta(a[i].0) || atual.adiada(a[i].0, a[i].1)
        } by {
            assert(a.take(i) =~= h.take(i));
        }
        lema_boas_respostas(workdir, a);
        assert(h.take(h.len() - 1) =~= a);
        assert(d.apos(a).boa_resposta(h.last().0) || d.apos(a).adiada(h.last().0, h.last().1));
    }
}

/// Law: success is owed. Where every action is answered as one hopes, but for looks that
/// find the VPN client still there while there is time left, the run ends, and as a
/// success.
pub proof fn lei_boas_respostas_levam_ao_sucesso(workdir: Seq<char>, h: Seq<RespostaTermino>)
    requires
        desconexao_inicial(workdir).tudo_bem(h),
        h.len() >= 8 + 2 * desconexao_inicial(workdir).adiamentos(h),
    ensures
        desconexao_inicial(workdir).apos(h).etapa == EtapaDesconexao::Encerrada(
            Ok::<(), Erro<Seq<char>>>(()),
        ),
{
    lema_boas_respostas(workdir, h);
    if let EtapaDesconexao::Encerrada(Ok(u)) = desconexao_inicial(workdir).apos(h).etapa {
        assert(u == ());
    }
}

// ---------------- The process id file ----------------

/// Law: `desconectar` looks for the process id where `conectar` has the VPN client leave
/// it.
pub proof fn lei_mesmo_arquivo_de_pid(
    args: ArgsConectar<Seq<char>>,
    workdir: Seq<char>,
    h: Seq<Resposta>,
    k: Seq<RespostaTermino>,
)
    ensures
        match (
            conexao_inicial(args, workdir).apos(h).acao_modelo(),
            desconexao_inicial(workdir).apos(k).acao_modelo(),
        ) {
            (
                Acao::ExecutaOpenvpn { pid_file: escrito, .. },
                Acao::LePid { pid_file: lido },
            ) => escrito == lido,
            _ => true,
        },
{
    lei_arquivos_prontos_antes_do_cliente(args, workdir, h);
}

/// Trimming takes away the white space before and after a text that has none at its ends.
proof fn lema_aparado(antes: Seq<char>, s: Seq<char>, depois: Seq<char>)
    requires
        forall|i: int| 0 <= i < antes.len() ==> branco(#[trigger] antes[i]),
        forall|i: int| 0 <= i < depois.len() ==> branco(#[trigger] depois[i]),
        s.len() > 0,
        !branco(s.first()),
        !branco(s.last()),
    ensures
        aparado(antes + s + depois) == s,
    decreases antes.len() + depois.len(),
{
    let t = antes + s + depois;
    if antes.len() > 0 {
        assert(t.drop_first() =~= antes.drop_first() + s + depois);
        assert forall|i: int| 0 <= i < antes.drop_first().len() implies branco(
            #[trigger] antes.drop_first()[i],
        ) by {
            assert(antes.drop_first()[i] == antes[i + 1]);
        }
        lema_aparado(antes.drop_first(), s, depois);
    } else if depois.len() > 0 {
        assert(t.drop_last() =~= antes + s + depois.drop_last());
        assert forall|i: int| 0 <= i < depois.drop_last().len() implies branco(
            #[trigger] depois.drop_last()[i],
        ) by {
            assert(depois.drop_last()[i] == depois[i]);
        }
        lema_aparado(antes, s, depois.drop_last());
    } else {
        assert(t =~= s);
    }
}

/// Law: a process id that was written in decimal is read back, whatever white space
/// stands around it.
pub proof fn lei_pid_ida_e_volta(
    caminho: Seq<char>,
    pid: u32,
    antes: Seq<char>,
    depois: Seq<char>,
)
    requires
        forall|i: int| 0 <= i < antes.len() ==> branco(#[trigger] antes[i]),
        forall|i: int| 0 <= i < depois.len() ==> branco(#[trigger] depois[i]),
    ensures
        pid_lido(caminho, Some(Ok(antes + decimal(pid as nat) + depois))) == Ok::<
            Option<u32>,
            Erro<Seq<char>>,
        >(Some(pid)),
{
    let s = decimal(pid as nat);
    lema_decimal_digitos(pid as nat);
    lema_aparado(antes, s, depois);
    lei_decimal_ida_e_volta(pid);
}

} // verus!
