//! What the answers of the system mean, said of the text of the answers.

use vstd::prelude::*;

use crate::args::ArgsConectar;
use crate::caminho::ArquivoTrabalho;
use crate::desconexao::pid_lido;
use crate::duracao::Duracao;
use crate::erro::Erro;
use crate::espera::{
    julga_sonda, julga_tentativa, lema_primeira_com_prefixo, primeira_com_prefixo,
    procura_interface, procura_ip, Saude, Sondagem,
};
use crate::leis_texto::{
    lei_aparado, lei_ate_o_primeiro, lei_campos_ida_e_volta, lei_contem, lei_linhas,
    lei_sem_sufixo, linha_de, livre_de, repetido, separados, so_brancos,
};
use crate::numero::{decimal, numero};
use crate::sistema::{
    argumentos_openvpn, interfaces_listadas, ipv4_lido, ipv4_na_linha, nome_na_linha, nomes,
    openvpn_iniciado, primeiro_ipv4, processo_existe, termino_pedido, Argumento, SaidaProcesso,
};
use crate::tcp::{tentativa_inicial, AcaoTcp, EtapaTcp, EventoTcp, TentativaTcp};
use crate::texto::{branco, linhas};

verus! {

// ---------------- Exit statuses ----------------

/// Law: a process exists exactly if the command that tests it ended with success, whatever
/// it wrote; so two runs with the same status say the same.
pub proof fn lei_so_o_status_diz_se_vive(
    s: SaidaProcesso<Seq<char>>,
    t: SaidaProcesso<Seq<char>>,
    causa: Seq<char>,
)
    ensures
        s.sucesso ==> processo_existe(Ok(s)) == Ok::<bool, Erro<Seq<char>>>(true),
        !s.sucesso ==> processo_existe(Ok(s)) == Ok::<bool, Erro<Seq<char>>>(false),
        s.sucesso == t.sucesso ==> processo_existe(Ok(s)) == processo_existe(Ok(t)),
        processo_existe(Err(causa)) == Err::<bool, _>(Erro::SondaNaoExecutou { causa }),
{
}

/// Law: the VPN client was started exactly if the command ended with success, whatever it
/// wrote; else the failure tells the status and both outputs, without the white space
/// around them.
pub proof fn lei_so_o_status_diz_se_iniciou(
    s: SaidaProcesso<Seq<char>>,
    a: Seq<char>,
    stderr: Seq<char>,
    b: Seq<char>,
    c: Seq<char>,
    stdout: Seq<char>,
    d: Seq<char>,
    causa: Seq<char>,
)
    ensures
        openvpn_iniciado(Ok(s)) is Ok <==> s.sucesso,
        openvpn_iniciado(Err(causa)) == Err::<(), _>(Erro::OpenvpnNaoExecutou { causa }),
        !s.sucesso && cercado(s.stderr, a, stderr, b) && cercado(s.stdout, c, stdout, d)
            ==> openvpn_iniciado(Ok(s)) == Err::<(), _>(
            Erro::OpenvpnRetornou { status: s.status, stderr, stdout },
        ),
{
    if cercado(s.stderr, a, stderr, b) && cercado(s.stdout, c, stdout, d) {
        lei_aparado(a, stderr, b);
        lei_aparado(c, stdout, d);
    }
}

/// `t` is `s`, which neither begins nor ends with white space, between the white space `a`
/// and `b`.
pub open spec fn cercado(t: Seq<char>, a: Seq<char>, s: Seq<char>, b: Seq<char>) -> bool {
    &&& t == a + s + b
    &&& so_brancos(a)
    &&& so_brancos(b)
    &&& s.len() > 0 ==> !branco(s.first()) && !branco(s.last())
}

/// Law: asking a process to end works exactly if the command ended with success or wrote
/// that there is no such process; else the failure names the process and tells what was
/// written, without the white space around it.
pub proof fn lei_termino(
    pid: u32,
    s: SaidaProcesso<Seq<char>>,
    a: Seq<char>,
    stderr: Seq<char>,
    b: Seq<char>,
    causa: Seq<char>,
)
    ensures
        termino_pedido(pid, Ok(s)) is Ok <==> s.sucesso || exists|x: Seq<char>, y: Seq<char>|
            s.stderr == #[trigger] (x + "No such process"@ + y),
        termino_pedido(pid, Ok(s)) is Err && cercado(s.stderr, a, stderr, b) ==> termino_pedido(
            pid,
            Ok(s),
        ) == Err::<(), _>(Erro::KillFalhou { pid, stderr }),
        termino_pedido(pid, Err(causa)) == Err::<(), _>(Erro::KillNaoExecutou { causa }),
{
    let parte = "No such process"@;
    if exists|x: Seq<char>, y: Seq<char>| s.stderr == #[trigger] (x + parte + y) {
        let (x, y) = choose|x: Seq<char>, y: Seq<char>| s.stderr == #[trigger] (x + parte + y);
        lei_contem(s.stderr, parte, x, y);
    }
    lei_contem(s.stderr, parte, a, b);
    if cercado(s.stderr, a, stderr, b) {
        lei_aparado(a, stderr, b);
    }
}

/// Law: the interfaces are those of the output if the command ended with success, whatever
/// it wrote to standard error; else the failure tells the status and what was written there.
pub proof fn lei_listagem(
    s: SaidaProcesso<Seq<char>>,
    a: Seq<char>,
    stderr: Seq<char>,
    b: Seq<char>,
    causa: Seq<char>,
)
    ensures
        s.sucesso ==> interfaces_listadas(Ok(s)) == Ok::<_, Erro<Seq<char>>>(
            nomes(linhas(s.stdout)),
        ),
        !s.sucesso && cercado(s.stderr, a, stderr, b) ==> interfaces_listadas(Ok(s)) == Err::<
            Seq<Seq<char>>,
            _,
        >(Erro::IpLinkRetornou { status: s.status, stderr }),
        interfaces_listadas(Err(causa)) == Err::<Seq<Seq<char>>, _>(
            Erro::IpLinkNaoExecutou { causa },
        ),
{
    if cercado(s.stderr, a, stderr, b) {
        lei_aparado(a, stderr, b);
    }
}

/// Law: the address is that of the output if the command ended with success, whatever it
/// wrote to standard error; else there is none yet.
pub proof fn lei_leitura_do_endereco(s: SaidaProcesso<Seq<char>>, causa: Seq<char>)
    ensures
        s.sucesso ==> ipv4_lido(Ok(s)) == Ok::<_, Erro<Seq<char>>>(
            primeiro_ipv4(linhas(s.stdout)),
        ),
        !s.sucesso ==> ipv4_lido(Ok(s)) == Ok::<Option<Seq<char>>, Erro<Seq<char>>>(None),
        ipv4_lido(Err(causa)) == Err::<Option<Seq<char>>, _>(Erro::IpAddrNaoExecutou { causa }),
{
}

/// Law: the VPN client is given the configuration, is a daemon, leaves its process id, and
/// reads the credentials only where there is a file of them.
pub proof fn lei_argumentos_do_openvpn(
    config: ArquivoTrabalho,
    auth: ArquivoTrabalho,
    pid_file: ArquivoTrabalho,
)
    ensures
        argumentos_openvpn(config, None, pid_file) == seq![
            Argumento::Texto("--config"@),
            Argumento::Arquivo(config),
            Argumento::Texto("--daemon"@),
            Argumento::Texto("--writepid"@),
            Argumento::Arquivo(pid_file),
        ],
        argumentos_openvpn(config, Some(auth), pid_file) == argumentos_openvpn(
            config,
            None,
            pid_file,
        ) + seq![Argumento::Texto("--auth-user-pass"@), Argumento::Arquivo(auth)],
{
}

// ---------------- Addresses and names ----------------

/// Law: the address in a line is the field right after the first field `inet`, up to its
/// slash if it has one, whatever white space stands between the fields and whatever fields
/// follow.
pub proof fn lei_endereco_na_linha(
    fs: Seq<Seq<char>>,
    bs: Seq<Seq<char>>,
    fim: Seq<char>,
    p: int,
    ip: Seq<char>,
    prefixo: Seq<char>,
)
    requires
        separados(fs, bs),
        so_brancos(fim),
        0 <= p < fs.len() - 1,
        fs[p] == "inet"@,
        forall|j: int| 0 <= j < p ==> #[trigger] fs[j] != "inet"@,
        livre_de(ip, '/'),
        fs[p + 1] == ip || fs[p + 1] == ip + seq!['/'] + prefixo,
    ensures
        ipv4_na_linha(linha_de(fs, bs) + fim) == Some(ip),
{
    lei_campos_ida_e_volta(fs, bs, fim);
    fs.index_of_first_ensures("inet"@);
    lei_ate_o_primeiro(ip, '/', prefixo);
    assert(ip.push('/') + prefixo =~= ip + seq!['/'] + prefixo);
}

/// Law: a line without a field `inet`, or whose first one is its last field, has no address.
pub proof fn lei_linha_sem_endereco(fs: Seq<Seq<char>>, bs: Seq<Seq<char>>, fim: Seq<char>)
    requires
        separados(fs, bs),
        so_brancos(fim),
        forall|j: int| 0 <= j < fs.len() - 1 ==> #[trigger] fs[j] != "inet"@,
    ensures
        ipv4_na_linha(linha_de(fs, bs) + fim) is None,
{
    lei_campos_ida_e_volta(fs, bs, fim);
    fs.index_of_first_ensures("inet"@);
}

/// Law: the address in an output is that of its first line with one; lines before it
/// without an address, and all lines after it, do not matter.
pub proof fn lei_primeira_linha_com_endereco(
    antes: Seq<Seq<char>>,
    linha: Seq<char>,
    depois: Seq<Seq<char>>,
)
    requires
        forall|i: int| 0 <= i < antes.len() ==> ipv4_na_linha(#[trigger] antes[i]) is None,
    ensures
        primeiro_ipv4(antes) is None,
        ipv4_na_linha(linha) is Some ==> primeiro_ipv4(antes + seq![linha] + depois)
            == ipv4_na_linha(linha),
    decreases antes.len(),
{
    let ls = antes + seq![linha] + depois;
    if antes.len() == 0 {
        assert(ls[0] == linha);
    } else {
        let resto = antes.drop_first();
        assert forall|i: int| 0 <= i < resto.len() implies ipv4_na_linha(
            #[trigger] resto[i],
        ) is None by {
            assert(resto[i] == antes[i + 1]);
        }
        lei_primeira_linha_com_endereco(resto, linha, depois);
        assert(ls[0] == antes[0]);
        assert(ls.drop_first() =~= resto + seq![linha] + depois);
    }
}

/// Law: a successful run whose output is one line with an address gives that address,
/// whatever the status is called and whatever was written to standard error.
pub proof fn lei_endereco_publicado(
    s: SaidaProcesso<Seq<char>>,
    fs: Seq<Seq<char>>,
    bs: Seq<Seq<char>>,
    fim: Seq<char>,
    p: int,
    ip: Seq<char>,
    prefixo: Seq<char>,
)
    requires
        s.sucesso,
        separados(fs, bs),
        so_brancos(fim),
        0 <= p < fs.len() - 1,
        fs[p] == "inet"@,
        forall|j: int| 0 <= j < p ==> #[trigger] fs[j] != "inet"@,
        livre_de(ip, '/'),
        fs[p + 1] == ip || fs[p + 1] == ip + seq!['/'] + prefixo,
        livre_de(linha_de(fs, bs) + fim, '\n'),
        s.stdout == (linha_de(fs, bs) + fim).push('\r').push('\n'),
    ensures
        ipv4_lido(Ok(s)) == Ok::<_, Erro<Seq<char>>>(Some(ip)),
{
    let linha = linha_de(fs, bs) + fim;
    let vazio = Seq::<char>::empty();
    lei_endereco_na_linha(fs, bs, fim, p, ip, prefixo);
    lei_linhas(linha, vazio);
    assert(linha.push('\r').push('\n') + vazio =~= s.stdout);
    assert(seq![linha] + linhas(vazio) =~= seq![linha]);
    lei_primeira_linha_com_endereco(Seq::empty(), linha, Seq::empty());
    assert(Seq::<Seq<char>>::empty() + seq![linha] + Seq::<Seq<char>>::empty() =~= seq![linha]);
}

/// Law: the interface that a line describes is its second field without the colons at its
/// end, whatever fields follow; a line with fewer than two fields describes none.
pub proof fn lei_nome_na_linha(
    fs: Seq<Seq<char>>,
    bs: Seq<Seq<char>>,
    fim: Seq<char>,
    nome: Seq<char>,
    n: nat,
)
    requires
        separados(fs, bs),
        so_brancos(fim),
    ensures
        fs.len() < 2 ==> nome_na_linha(linha_de(fs, bs) + fim) is None,
        fs.len() >= 2 && fs[1] == nome + repetido(':', n) && (nome.len() > 0 ==> nome.last() != ':')
            ==> nome_na_linha(linha_de(fs, bs) + fim) == Some(nome),
{
    lei_campos_ida_e_volta(fs, bs, fim);
    if nome.len() > 0 ==> nome.last() != ':' {
        lei_sem_sufixo(nome, ':', n);
    }
}

/// Law: the interfaces of an output are those of its lines, in order: those of two parts are
/// those of the first followed by those of the second, and one line gives its one, if any.
pub proof fn lei_nomes_por_linha(a: Seq<Seq<char>>, b: Seq<Seq<char>>, linha: Seq<char>)
    ensures
        nomes(a + b) == nomes(a) + nomes(b),
        nomes(Seq::<Seq<char>>::empty()) == Seq::<Seq<char>>::empty(),
        nomes(seq![linha]) == (match nome_na_linha(linha) {
            Some(nome) => seq![nome],
            None => Seq::empty(),
        }),
    decreases b.len(),
{
    let vazio = Seq::<Seq<char>>::empty();
    assert(seq![linha].drop_last() =~= vazio);
    assert(nomes(vazio) =~= vazio);
    if b.len() == 0 {
        assert(a + b =~= a);
        assert(nomes(a) + nomes(b) =~= nomes(a));
    } else {
        lei_nomes_por_linha(a, b.drop_last(), linha);
        assert((a + b).drop_last() =~= a + b.drop_last());
        assert((a + b).last() == b.last());
        assert(nomes(a + b) =~= nomes(a) + nomes(b));
    }
}

// ---------------- Process ids ----------------

/// Law: the process id is the number in the file, whatever white space stands around it; no
/// file is no process id, and any other content or a failure to read is told with the path.
pub proof fn lei_pid_do_arquivo(
    caminho: Seq<char>,
    a: Seq<char>,
    s: Seq<char>,
    b: Seq<char>,
    causa: Seq<char>,
)
    requires
        so_brancos(a),
        so_brancos(b),
        s.len() > 0 ==> !branco(s.first()) && !branco(s.last()),
    ensures
        pid_lido(caminho, None) == Ok::<Option<u32>, Erro<Seq<char>>>(None),
        pid_lido(caminho, Some(Err(causa))) == Err::<Option<u32>, _>(
            Erro::LeituraPid { caminho, causa },
        ),
        match numero(s) {
            Ok(pid) => pid_lido(caminho, Some(Ok(a + s + b))) == Ok::<_, Erro<Seq<char>>>(
                Some(pid),
            ),
            Err(motivo) => pid_lido(caminho, Some(Ok(a + s + b))) == Err::<Option<u32>, _>(
                Erro::PidInvalido { caminho, motivo },
            ),
        },
{
    lei_aparado(a, s, b);
}

// ---------------- Waits ----------------

/// Law: a listing ends the wait for the interface if it has the one that was asked for, or
/// the first that begins with `tun` where none was; else the wait ends in vain if the
/// timeout has passed, and goes on after half a second if it has not.
pub proof fn lei_listagem_na_espera(
    args: ArgsConectar<Seq<char>>,
    ns: Seq<Seq<char>>,
    nome: Seq<char>,
    i: int,
    passado: Duracao,
    timeout: Duracao,
    e: Erro<Seq<char>>,
)
    ensures
        ({
            let r = procura_interface(args, Ok(ns), passado, timeout);
            let acabou = passado.nanos >= timeout.nanos;
            let s = timeout.nanos / 1_000_000_000;
            let pausa = Sondagem::<Seq<char>, Seq<char>>::Repete(Duracao { nanos: 500_000_000 });
            let concluida = Sondagem::<Seq<char>, Seq<char>>::Concluida(nome);
            &&& args.interface == Some(nome) && ns.contains(nome) ==> r == concluida
            &&& args.interface == Some(nome) && !ns.contains(nome) ==> r == if acabou {
                Sondagem::<Seq<char>, _>::Falha(Erro::TimeoutInterface { segundos: s, nome })
            } else {
                pausa
            }
            &&& args.interface is None && 0 <= i < ns.len() && ns[i] == nome && comeca_com_tun(nome)
                && (forall|j: int| 0 <= j < i ==> !comeca_com_tun(#[trigger] ns[j])) ==> r
                == concluida
            &&& args.interface is None && (forall|j: int|
                0 <= j < ns.len() ==> !comeca_com_tun(#[trigger] ns[j])) ==> r == if acabou {
                Sondagem::<Seq<char>, _>::Falha(
                    Erro::TimeoutPrefixo { segundos: s, prefixo: "tun"@ },
                )
            } else {
                pausa
            }
            &&& procura_interface(args, Err(e), passado, timeout) == Sondagem::<
                Seq<char>,
                _,
            >::Falha(Erro::ListaInterfaces { causa: e.texto() })
        }),
{
    let tun = "tun"@;
    assert forall|n: Seq<char>| #[trigger] comeca_com_tun(n) == tun.is_prefix_of(n) by {
        reveal_strlit("tun");
        if comeca_com_tun(n) {
            assert(tun =~= n.subrange(0, 3));
        }
        if tun.is_prefix_of(n) {
            assert(tun == n.subrange(0, 3));
            assert(tun[0] == n[0] && tun[1] == n[1] && tun[2] == n[2]);
        }
    }
    lema_primeira_com_prefixo(ns, tun);
    if args.interface is None {
        if let Some(n) = primeira_com_prefixo(ns, tun) {
            let k = choose|k: int|
                0 <= k < ns.len() && #[trigger] ns[k] == n && tun.is_prefix_of(n) && (forall|j: int|
                    0 <= j < k ==> !tun.is_prefix_of(#[trigger] ns[j]));
            assert(comeca_com_tun(ns[k]));
            if 0 <= i < ns.len() && ns[i] == nome && comeca_com_tun(nome) && (forall|j: int|
                0 <= j < i ==> !comeca_com_tun(#[trigger] ns[j])) {
                if k < i {
                    assert(!comeca_com_tun(ns[k]));
                }
                if i < k {
                    assert(!tun.is_prefix_of(ns[i]));
                }
            }
        } else if 0 <= i < ns.len() && ns[i] == nome && comeca_com_tun(nome) {
            assert(!tun.is_prefix_of(ns[i]));
        }
    }
}

/// `n` begins with the letters `t`, `u` and `n`.
pub open spec fn comeca_com_tun(n: Seq<char>) -> bool {
    n.len() >= 3 && n[0] == 't' && n[1] == 'u' && n[2] == 'n'
}

/// Law: a reading ends the wait for the address if there is one; else the wait ends in vain
/// if the timeout has passed, and goes on after half a second if it has not. A reading that
/// failed ends it with that failure.
pub proof fn lei_leitura_na_espera(
    interface: Seq<char>,
    ip: Seq<char>,
    passado: Duracao,
    timeout: Duracao,
    e: Erro<Seq<char>>,
)
    ensures
        procura_ip(interface, Ok(Some(ip)), passado, timeout) == Sondagem::<
            Seq<char>,
            Seq<char>,
        >::Concluida(ip),
        procura_ip(interface, Err(e), passado, timeout) == Sondagem::<Seq<char>, _>::Falha(e),
        passado.nanos < timeout.nanos ==> procura_ip(interface, Ok(None), passado, timeout)
            == Sondagem::<Seq<char>, Seq<char>>::Repete((Duracao { nanos: 500_000_000 })),
        passado.nanos >= timeout.nanos ==> procura_ip(interface, Ok(None), passado, timeout)
            == Sondagem::<Seq<char>, _>::Falha(
            (Erro::TimeoutIp { segundos: timeout.nanos / 1_000_000_000, interface }),
        ),
{
}

/// Law: an attempt that succeeds ends the health check; one that fails ends it in vain if
/// the timeout has passed, with the number of attempts and the cause, and else is followed
/// by the wait that was drawn for it.
pub proof fn lei_tentativa_na_espera(
    host: Seq<char>,
    porta: u16,
    tentativa: u32,
    e: Erro<Seq<char>>,
    passado: Duracao,
    timeout: Duracao,
    espera: Duracao,
)
    ensures
        julga_tentativa(host, porta, tentativa, Ok(()), passado, timeout, espera) == Saude::<
            Seq<char>,
        >::Saudavel,
        passado.nanos < timeout.nanos ==> julga_tentativa(
            host,
            porta,
            tentativa,
            Err(e),
            passado,
            timeout,
            espera,
        ) == (Saude::Retenta { espera, causa: e.texto() }),
        passado.nanos >= timeout.nanos ==> julga_tentativa(
            host,
            porta,
            tentativa,
            Err(e),
            passado,
            timeout,
            espera,
        ) == Saude::Falha(
            (Erro::Healthcheck {
                host,
                porta,
                tentativas: tentativa,
                segundos: timeout.nanos / 1_000_000_000,
                causa: e.texto(),
            }),
        ),
{
}

/// Law: a process that is gone ends the wait for its end; one that is still there ends it in
/// vain if the timeout has passed, and else is looked at again after a fifth of a second.
pub proof fn lei_sonda_na_espera(
    pid: u32,
    passado: Duracao,
    timeout: Duracao,
    e: Erro<Seq<char>>,
)
    ensures
        julga_sonda(pid, Ok(false), passado, timeout) == Sondagem::<(), Seq<char>>::Concluida(()),
        julga_sonda(pid, Err(e), passado, timeout) == Sondagem::<(), _>::Falha(e),
        passado.nanos < timeout.nanos ==> julga_sonda(pid, Ok(true), passado, timeout)
            == Sondagem::<(), Seq<char>>::Repete((Duracao { nanos: 200_000_000 })),
        passado.nanos >= timeout.nanos ==> julga_sonda(pid, Ok(true), passado, timeout)
            == Sondagem::<(), Seq<char>>::Falha(
            (Erro::NaoEncerrou { pid, segundos: timeout.nanos / 1_000_000_000 }),
        ),
{
}

// ---------------- TCP ----------------

/// Law: an attempt begins with the resolution of the host and port as they were given, and
/// keeps its address and its ceiling to the end; it asks for the address whose turn it is,
/// with that ceiling.
pub proof fn lei_tentativa_tcp(
    host: Seq<char>,
    porta: u16,
    teto: Duracao,
    t: TentativaTcp<Seq<char>>,
    evento: EventoTcp<Seq<char>>,
)
    ensures
        tentativa_inicial(host, porta, teto).acao_modelo() == AcaoTcp::Resolve(
            host + ":"@ + decimal(porta as nat),
        ),
        tentativa_inicial(host, porta, teto).timeout == teto,
        tentativa_inicial(host, porta, teto).endereco == host + ":"@ + decimal(porta as nat),
        t.proxima(evento).endereco == t.endereco,
        t.proxima(evento).timeout == t.timeout,
        match t.etapa {
            EtapaTcp::Resolvendo => t.acao_modelo() == AcaoTcp::Resolve(t.endereco),
            EtapaTcp::Conectando { proximo, .. } => t.acao_modelo() == (AcaoTcp::<
                Seq<char>,
            >::Conecta { indice: proximo, timeout: t.timeout }),
            EtapaTcp::Encerrada(_) => t.acao_modelo() is Encerra && t.proxima(evento) == t,
        },
{
}

/// Law: a name that does not resolve ends the attempt with the cause, and one without
/// addresses with the name; an address that accepts ends it with success; one that refuses
/// gives way to the next, or ends it with the refusal if it is the last. Nothing else
/// changes an attempt.
pub proof fn lei_passo_tcp(
    t: TentativaTcp<Seq<char>>,
    k: usize,
    n: usize,
    causa: Seq<char>,
    r: Result<(), Seq<char>>,
    q: Result<usize, Seq<char>>,
)
    ensures
        t.etapa is Resolvendo ==> {
            &&& t.proxima(EventoTcp::Resolvido(Err(causa))).etapa == EtapaTcp::Encerrada(
                Err::<(), _>(Erro::Resolucao { endereco: t.endereco, causa }),
            )
            &&& n == 0 ==> t.proxima(EventoTcp::Resolvido(Ok(n))).etapa == EtapaTcp::Encerrada(
                Err::<(), _>(Erro::NenhumEndereco { endereco: t.endereco }),
            )
            &&& n > 0 ==> t.proxima(EventoTcp::Resolvido(Ok(n))).etapa == (EtapaTcp::<
                Seq<char>,
            >::Conectando { proximo: 0, total: n })
            &&& t.proxima(EventoTcp::Conectou(r)) == t
        },
        t.etapa == (EtapaTcp::<Seq<char>>::Conectando { proximo: k, total: n }) ==> {
            &&& t.proxima(EventoTcp::Conectou(Ok(()))).etapa == EtapaTcp::Encerrada(
                Ok::<(), Erro<Seq<char>>>(()),
            )
            &&& k + 1 < n ==> t.proxima(EventoTcp::Conectou(Err(causa))).etapa == (EtapaTcp::<
                Seq<char>,
            >::Conectando { proximo: (k + 1) as usize, total: n })
            &&& k + 1 >= n ==> t.proxima(EventoTcp::Conectou(Err(causa))).etapa
                == EtapaTcp::Encerrada(
                Err::<(), _>(Erro::ConexaoTcp { endereco: t.endereco, causa }),
            )
            &&& t.proxima(EventoTcp::Resolvido(q)) == t
        },
{
}

} // verus!
