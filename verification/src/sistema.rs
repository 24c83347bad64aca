//! The commands of the operating system: how each is called, and what its output means.
//!
//! Running a command is left to the caller. For each one there is a function that gives
//! the call to make and a function that interprets what came back.

use vstd::prelude::*;
use vstd::string::*;

use crate::caminho::ArquivoTrabalho;
use crate::erro::{resultado, Erro};
use crate::numero::{decimal, escreve_decimal};
use crate::texto::{
    apara, aparado, ate, branco, campos, contem, contem_texto, corta_em, iguais, largura,
    lema_largura, lema_posicao, linhas, remove_sufixo, sem_sufixo, separa_campos, separa_linhas,
};

verus! {

/// What a command that ran to its end left behind.
#[derive(Debug, PartialEq, Eq)]
pub struct SaidaProcesso<T = String> {
    /// The exit status was that of success.
    pub sucesso: bool,
    /// The exit status, as shown in messages.
    pub status: T,
    /// What was written to standard output.
    pub stdout: T,
    /// What was written to standard error.
    pub stderr: T,
}

impl View for SaidaProcesso<String> {
    type V = SaidaProcesso<Seq<char>>;

    open spec fn view(&self) -> SaidaProcesso<Seq<char>> {
        SaidaProcesso {
            sucesso: self.sucesso,
            status: self.status@,
            stdout: self.stdout@,
            stderr: self.stderr@,
        }
    }
}

impl DeepView for SaidaProcesso<String> {
    type V = SaidaProcesso<Seq<char>>;

    open spec fn deep_view(&self) -> SaidaProcesso<Seq<char>> {
        self@
    }
}

/// One argument of a command.
#[derive(Debug, PartialEq, Eq)]
pub enum Argumento<T = String> {
    /// The text itself.
    Texto(T),
    /// The path of a file of the work directory.
    Arquivo(ArquivoTrabalho),
}

impl DeepView for Argumento<String> {
    type V = Argumento<Seq<char>>;

    open spec fn deep_view(&self) -> Argumento<Seq<char>> {
        match *self {
            Argumento::Texto(t) => Argumento::Texto(t@),
            Argumento::Arquivo(a) => Argumento::Arquivo(a),
        }
    }
}

/// A command to run, with nothing on its standard input.
#[derive(Debug, PartialEq, Eq)]
pub struct Chamada<T = String, L = Vec<Argumento>> {
    /// Name of the program.
    pub programa: T,
    /// Its arguments, in order.
    pub argumentos: L,
}

impl View for Chamada<String, Vec<Argumento>> {
    type V = Chamada<Seq<char>, Seq<Argumento<Seq<char>>>>;

    open spec fn view(&self) -> Chamada<Seq<char>, Seq<Argumento<Seq<char>>>> {
        Chamada { programa: self.programa@, argumentos: self.argumentos.deep_view() }
    }
}

/// The argument that is the text `t`.
fn texto(t: &str) -> (r: Argumento)
    ensures
        r.deep_view() == Argumento::Texto(t@),
{
    Argumento::Texto(t.to_owned())
}

// ---------------- Interpreting listings ----------------

/// Name of the interface that a line of `ip -o link show` describes: its second field,
/// without the colons at its end.
pub open spec fn nome_na_linha(linha: Seq<char>) -> Option<Seq<char>> {
    if campos(linha).len() > 1 {
        Some(sem_sufixo(campos(linha)[1], ':'))
    } else {
        None
    }
}

/// Names of the interfaces in the lines of `ip -o link show`, in order.
pub open spec fn nomes(ls: Seq<Seq<char>>) -> Seq<Seq<char>>
    decreases ls.len(),
{
    if ls.len() == 0 {
        seq![]
    } else {
        match nome_na_linha(ls.last()) {
            Some(n) => nomes(ls.drop_last()).push(n),
            None => nomes(ls.drop_last()),
        }
    }
}

/// Names of the interfaces in the output of `ip -o link show`.
pub fn extrai_interfaces(stdout: &str) -> (r: Vec<String>)
    ensures
        r.deep_view() == nomes(linhas(stdout@)),
{
    let ls = separa_linhas(stdout);
    let mut r: Vec<String> = Vec::new();
    let mut i: usize = 0;
    while i < ls.len()
        invariant
            i <= ls@.len(),
            r.deep_view() == nomes(ls.deep_view().take(i as int)),
        decreases ls@.len() - i,
    {
        let cs = separa_campos(ls[i].as_str());
        assert(ls.deep_view().take(i + 1).drop_last() =~= ls.deep_view().take(i as int));
        if cs.len() > 1 {
            let nome = remove_sufixo(cs[1].as_str(), ':');
            r.push(nome);
        }
        i += 1;
    }
    assert(ls.deep_view().take(i as int) =~= ls.deep_view());
    r
}

/// The address in a line of `ip -4 -o addr show`: what stands before the slash in the
/// field after the first field `inet`.
pub open spec fn ipv4_na_linha(linha: Seq<char>) -> Option<Seq<char>> {
    let c = campos(linha);
    match c.index_of_first("inet"@) {
        Some(p) => if p + 1 < c.len() {
            Some(ate(c[p + 1], '/'))
        } else {
            None
        },
        None => None,
    }
}

/// The address in the first of the lines `ls` that has one.
pub open spec fn primeiro_ipv4(ls: Seq<Seq<char>>) -> Option<Seq<char>>
    decreases ls.len(),
{
    if ls.len() == 0 {
        None
    } else {
        match ipv4_na_linha(ls[0]) {
            Some(ip) => Some(ip),
            None => primeiro_ipv4(ls.drop_first()),
        }
    }
}

/// The address in a line of `ip -4 -o addr show`.
fn extrai_ipv4_da_linha(linha: &str) -> (r: Option<String>)
    ensures
        r.deep_view() == ipv4_na_linha(linha@),
{
    let cs = separa_campos(linha);
    let ghost c = cs.deep_view();
    proof {
        c.index_of_first_ensures("inet"@);
    }
    let mut p: usize = 0;
    while p < cs.len()
        invariant
            p <= cs@.len(),
            c == cs.deep_view(),
            c == campos(linha@),
            forall|j: int| 0 <= j < p ==> c[j] != "inet"@,
            match c.index_of_first("inet"@) {
                Some(q) => 0 <= q < c.len() && c[q] == "inet"@ && forall|j: int|
                    0 <= j < q ==> c[j] != "inet"@,
                None => forall|j: int| 0 <= j < c.len() ==> c[j] != "inet"@,
            },
        decreases cs@.len() - p,
    {
        assert(c[p as int] == cs@[p as int]@);
        if iguais(cs[p].as_str(), "inet") {
            if p + 1 < cs.len() {
                return Some(corta_em(cs[p + 1].as_str(), '/'));
            }
            return None;
        }
        p += 1;
    }
    None
}

/// Extracts the first IPv4 address, without its prefix length, from the output of
/// `ip -4 -o addr show`.
pub fn extrai_ipv4(stdout: &str) -> (r: Option<String>)
    ensures
        r.deep_view() == primeiro_ipv4(linhas(stdout@)),
{
    let ls = separa_linhas(stdout);
    let mut i: usize = 0;
    assert(ls.deep_view().skip(0) =~= ls.deep_view());
    while i < ls.len()
        invariant
            i <= ls@.len(),
            ls.deep_view() == linhas(stdout@),
            primeiro_ipv4(linhas(stdout@)) == primeiro_ipv4(ls.deep_view().skip(i as int)),
        decreases ls@.len() - i,
    {
        assert(ls.deep_view().skip(i as int).drop_first() =~= ls.deep_view().skip(i + 1));
        let ip = extrai_ipv4_da_linha(ls[i].as_str());
        if ip.is_some() {
            return ip;
        }
        i += 1;
    }
    None
}

// ---------------- Commands ----------------

/// The deep view of what running a command gave: its output, or why it did not run.
pub type SaidaModelo = Result<SaidaProcesso<Seq<char>>, Seq<char>>;

/// Arguments of `openvpn`: the configuration, daemon mode, where to leave the process id,
/// and the authentication file if there is one.
pub open spec fn argumentos_openvpn(
    config: ArquivoTrabalho,
    auth: Option<ArquivoTrabalho>,
    pid_file: ArquivoTrabalho,
) -> Seq<Argumento<Seq<char>>> {
    let base = seq![
        Argumento::Texto("--config"@),
        Argumento::Arquivo(config),
        Argumento::Texto("--daemon"@),
        Argumento::Texto("--writepid"@),
        Argumento::Arquivo(pid_file),
    ];
    match auth {
        Some(a) => base.push(Argumento::Texto("--auth-user-pass"@)).push(Argumento::Arquivo(a)),
        None => base,
    }
}

/// The interfaces that the run of `ip -o link show` shows.
pub open spec fn interfaces_listadas(e: SaidaModelo) -> Result<Seq<Seq<char>>, Erro<Seq<char>>> {
    match e {
        Err(causa) => Err(Erro::IpLinkNaoExecutou { causa }),
        Ok(saida) => if saida.sucesso {
            Ok(nomes(linhas(saida.stdout)))
        } else {
            Err(Erro::IpLinkRetornou { status: saida.status, stderr: aparado(saida.stderr) })
        },
    }
}

/// The address that the run of `ip -4 -o addr show` shows. A failure status means that
/// the interface does not exist yet or has no address yet.
pub open spec fn ipv4_lido(e: SaidaModelo) -> Result<Option<Seq<char>>, Erro<Seq<char>>> {
    match e {
        Err(causa) => Err(Erro::IpAddrNaoExecutou { causa }),
        Ok(saida) => if saida.sucesso {
            Ok(primeiro_ipv4(linhas(saida.stdout)))
        } else {
            Ok(None)
        },
    }
}

/// Whether the run of `openvpn` started the client.
pub open spec fn openvpn_iniciado(e: SaidaModelo) -> Result<(), Erro<Seq<char>>> {
    match e {
        Err(causa) => Err(Erro::OpenvpnNaoExecutou { causa }),
        Ok(saida) => if saida.sucesso {
            Ok(())
        } else {
            Err(
                Erro::OpenvpnRetornou {
                    status: saida.status,
                    stderr: aparado(saida.stderr),
                    stdout: aparado(saida.stdout),
                },
            )
        },
    }
}

/// Whether the run of `kill -TERM` did its work. That there is no such process any more
/// is as good.
pub open spec fn termino_pedido(pid: u32, e: SaidaModelo) -> Result<(), Erro<Seq<char>>> {
    match e {
        Err(causa) => Err(Erro::KillNaoExecutou { causa }),
        Ok(saida) => if saida.sucesso || contem(saida.stderr, "No such process"@) {
            Ok(())
        } else {
            Err(Erro::KillFalhou { pid, stderr: aparado(saida.stderr) })
        },
    }
}

/// What the run of `kill -0` says of a process: whether it exists and may be signalled.
pub open spec fn processo_existe(e: SaidaModelo) -> Result<bool, Erro<Seq<char>>> {
    match e {
        Err(causa) => Err(Erro::SondaNaoExecutou { causa }),
        Ok(saida) => Ok(saida.sucesso),
    }
}

/// The operating system, reached through its commands.
pub struct AmbienteReal;

impl AmbienteReal {
    /// The call that lists the network interfaces.
    pub fn chamada_lista_interfaces() -> (r: Chamada)
        ensures
            r@.programa == "ip"@,
            r@.argumentos == seq![
                Argumento::Texto("-o"@),
                Argumento::Texto("link"@),
                Argumento::Texto("show"@),
            ],
    {
        let argumentos = vec![texto("-o"), texto("link"), texto("show")];
        Chamada { programa: "ip".to_owned(), argumentos }
    }

    /// The names of the network interfaces, from the run of that call.
    pub fn lista_interfaces(execucao: Result<SaidaProcesso, String>) -> (r: Result<
        Vec<String>,
        Erro,
    >)
        ensures
            resultado(r) == interfaces_listadas(resultado(execucao)),
    {
        match execucao {
            Err(causa) => Err(Erro::IpLinkNaoExecutou { causa }),
            Ok(saida) => {
                if !saida.sucesso {
                    let stderr = apara(saida.stderr.as_str());
                    return Err(Erro::IpLinkRetornou { status: saida.status, stderr });
                }
                Ok(extrai_interfaces(saida.stdout.as_str()))
            },
        }
    }

    /// The call that shows the IPv4 addresses of `interface`.
    pub fn chamada_le_ipv4(interface: &str) -> (r: Chamada)
        ensures
            r@.programa == "ip"@,
            r@.argumentos == seq![
                Argumento::Texto("-4"@),
                Argumento::Texto("-o"@),
                Argumento::Texto("addr"@),
                Argumento::Texto("show"@),
                Argumento::Texto("dev"@),
                Argumento::Texto(interface@),
            ],
    {
        let argumentos = vec![
            texto("-4"),
            texto("-o"),
            texto("addr"),
            texto("show"),
            texto("dev"),
            texto(interface),
        ];
        Chamada { programa: "ip".to_owned(), argumentos }
    }

    /// The IPv4 address of an interface, from the run of that call, or `None` if it has
    /// none yet.
    pub fn le_ipv4_da_interface(execucao: Result<SaidaProcesso, String>) -> (r: Result<
        Option<String>,
        Erro,
    >)
        ensures
            resultado(r) == ipv4_lido(resultado(execucao)),
    {
        match execucao {
            Err(causa) => Err(Erro::IpAddrNaoExecutou { causa }),
            Ok(saida) => {
                if !saida.sucesso {
                    return Ok(None);
                }
                Ok(extrai_ipv4(saida.stdout.as_str()))
            },
        }
    }

    /// The call that starts the VPN client as a daemon.
    pub fn chamada_openvpn(
        config: ArquivoTrabalho,
        auth: Option<ArquivoTrabalho>,
        pid_file: ArquivoTrabalho,
    ) -> (r: Chamada)
        ensures
            r@.programa == "openvpn"@,
            r@.argumentos == argumentos_openvpn(config, auth, pid_file),
    {
        let mut argumentos = vec![
            texto("--config"),
            Argumento::Arquivo(config),
            texto("--daemon"),
            texto("--writepid"),
            Argumento::Arquivo(pid_file),
        ];
        if let Some(a) = auth {
            argumentos.push(texto("--auth-user-pass"));
            argumentos.push(Argumento::Arquivo(a));
        }
        Chamada { programa: "openvpn".to_owned(), argumentos }
    }

    /// Whether the VPN client was started, from the run of that call.
    pub fn executa_openvpn(execucao: Result<SaidaProcesso, String>) -> (r: Result<(), Erro>)
        ensures
            resultado(r) == openvpn_iniciado(resultado(execucao)),
    {
        match execucao {
            Err(causa) => Err(Erro::OpenvpnNaoExecutou { causa }),
            Ok(saida) => {
                if !saida.sucesso {
                    let stderr = apara(saida.stderr.as_str());
                    let stdout = apara(saida.stdout.as_str());
                    return Err(Erro::OpenvpnRetornou { status: saida.status, stderr, stdout });
                }
                Ok(())
            },
        }
    }

    /// The call that asks the process `pid` to end.
    pub fn chamada_termino(pid: u32) -> (r: Chamada)
        ensures
            r@.programa == "kill"@,
            r@.argumentos == seq![
                Argumento::Texto("-TERM"@),
                Argumento::Texto(decimal(pid as nat)),
            ],
    {
        let argumentos = vec![
            texto("-TERM"),
            Argumento::Texto(escreve_decimal(pid as u128)),
        ];
        Chamada { programa: "kill".to_owned(), argumentos }
    }

    /// Whether the process was asked to end, or is gone already, from the run of that
    /// call.
    pub fn envia_sinal_termino(pid: u32, execucao: Result<SaidaProcesso, String>) -> (r: Result<
        (),
        Erro,
    >)
        ensures
            resultado(r) == termino_pedido(pid, resultado(execucao)),
    {
        match execucao {
            Err(causa) => Err(Erro::KillNaoExecutou { causa }),
            Ok(saida) => {
                if !saida.sucesso {
                    if contem_texto(saida.stderr.as_str(), "No such process") {
                        return Ok(());
                    }
                    return Err(Erro::KillFalhou { pid, stderr: apara(saida.stderr.as_str()) });
                }
                Ok(())
            },
        }
    }

    /// The call that tests whether the process `pid` exists, without signalling it.
    pub fn chamada_sonda(pid: u32) -> (r: Chamada)
        ensures
            r@.programa == "kill"@,
            r@.argumentos == seq![
                Argumento::Texto("-0"@),
                Argumento::Texto(decimal(pid as nat)),
            ],
    {
        let argumentos = vec![texto("-0"), Argumento::Texto(escreve_decimal(pid as u128))];
        Chamada { programa: "kill".to_owned(), argumentos }
    }

    /// Whether the process exists and may be signalled, from the run of that call.
    pub fn processo_vivo(execucao: Result<SaidaProcesso, String>) -> (r: Result<bool, Erro>)
        ensures
            resultado(r) == processo_existe(resultado(execucao)),
    {
        match execucao {
            Err(causa) => Err(Erro::SondaNaoExecutou { causa }),
            Ok(saida) => Ok(saida.sucesso),
        }
    }
}

// ---------------- Laws ----------------

/// `s` has no white space.
pub open spec fn sem_branco(s: Seq<char>) -> bool {
    forall|i: int| 0 <= i < s.len() ==> !branco(#[trigger] s[i])
}

/// A field has no white space.
proof fn lema_campo(s: Seq<char>, i: int)
    requires
        0 <= i < campos(s).len(),
    ensures
        sem_branco(campos(s)[i]),
    decreases s.len(),
{
    if branco(s[0]) {
        lema_campo(s.drop_first(), i);
    } else {
        lema_largura(s);
        let k = largura(s) as int;
        if i > 0 {
            lema_campo(s.skip(k), i - 1);
        }
    }
}

/// Taking a run of one character off the end leaves a prefix that does not end in it.
proof fn lema_sem_sufixo(s: Seq<char>, c: char)
    ensures
        sem_sufixo(s, c).len() <= s.len(),
        sem_sufixo(s, c) == s.take(sem_sufixo(s, c).len() as int),
        sem_sufixo(s, c).len() > 0 ==> sem_sufixo(s, c).last() != c,
    decreases s.len(),
{
    if s.len() > 0 && s.last() == c {
        lema_sem_sufixo(s.drop_last(), c);
    }
}

/// Law: an extracted address has no white space and no prefix length.
pub proof fn lei_ipv4_sem_prefixo(ls: Seq<Seq<char>>)
    ensures
        primeiro_ipv4(ls) matches Some(ip) ==> sem_branco(ip) && forall|i: int|
            0 <= i < ip.len() ==> #[trigger] ip[i] != '/',
    decreases ls.len(),
{
    if ls.len() > 0 {
        let c = campos(ls[0]);
        c.index_of_first_ensures("inet"@);
        match ipv4_na_linha(ls[0]) {
            Some(ip) => {
                let p = c.index_of_first("inet"@)->0;
                lema_campo(ls[0], p + 1);
                lema_posicao(c[p + 1], '/');
                assert forall|i: int| 0 <= i < ip.len() implies !branco(#[trigger] ip[i]) && ip[i]
                    != '/' by {
                    assert(ip[i] == c[p + 1][i]);
                }
            },
            None => {
                lei_ipv4_sem_prefixo(ls.drop_first());
            },
        }
    }
}

/// Law: an extracted name of an interface has no white space and does not end in a colon.
pub proof fn lei_nomes_limpos(ls: Seq<Seq<char>>, i: int)
    requires
        0 <= i < nomes(ls).len(),
    ensures
        sem_branco(nomes(ls)[i]),
        nomes(ls)[i].len() > 0 ==> nomes(ls)[i].last() != ':',
    decreases ls.len(),
{
    let antes = nomes(ls.drop_last());
    if i < antes.len() {
        lei_nomes_limpos(ls.drop_last(), i);
    } else {
        let campo = campos(ls.last())[1];
        lema_campo(ls.last(), 1);
        lema_sem_sufixo(campo, ':');
        let nome = sem_sufixo(campo, ':');
        assert forall|j: int| 0 <= j < nome.len() implies !branco(#[trigger] nome[j]) by {
            assert(nome[j] == campo[j]);
        }
    }
}

/// Law: asking a process to end that is not there any more is no failure, whatever the
/// status of the command.
pub proof fn lei_processo_ausente_nao_e_falha(pid: u32, saida: SaidaProcesso<Seq<char>>)
    requires
        contem(saida.stderr, "No such process"@),
    ensures
        termino_pedido(pid, Ok(saida)) is Ok,
{
}

/// Law: an interface that cannot be shown yet is one without an address, so that the wait
/// for the address goes on.
pub proof fn lei_interface_ausente_nao_e_falha(saida: SaidaProcesso<Seq<char>>)
    requires
        !saida.sucesso,
    ensures
        ipv4_lido(Ok(saida)) == Ok::<Option<Seq<char>>, Erro<Seq<char>>>(None),
{
}

/// Law: a blank line at the start of the output changes nothing.
pub proof fn lei_linha_em_branco_ignorada(saida: Seq<char>)
    ensures
        primeiro_ipv4(linhas(seq!['\n'] + saida)) == primeiro_ipv4(linhas(saida)),
        nomes(linhas(seq!['\n'] + saida)) == nomes(linhas(saida)),
{
    let t = seq!['\n'] + saida;
    let vazia = Seq::<char>::empty();
    assert(t.take(0) =~= vazia);
    assert(t.skip(1) =~= saida);
    campos(vazia).index_of_first_ensures("inet"@);
    assert(linhas(t).drop_first() =~= linhas(saida));
    lema_nomes_sem_primeira(linhas(saida), vazia);
}

/// A first line that names no interface changes nothing.
proof fn lema_nomes_sem_primeira(ls: Seq<Seq<char>>, primeira: Seq<char>)
    requires
        nome_na_linha(primeira) is None,
    ensures
        nomes(seq![primeira] + ls) == nomes(ls),
    decreases ls.len(),
{
    let t = seq![primeira] + ls;
    if ls.len() == 0 {
        assert(nomes(t.drop_last()) =~= Seq::<Seq<char>>::empty());
    } else {
        lema_nomes_sem_primeira(ls.drop_last(), primeira);
        assert(t.drop_last() =~= seq![primeira] + ls.drop_last());
    }
}

} // verus!
