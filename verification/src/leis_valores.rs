//! What the values of the program mean: spans of time, paths, credentials, lines for the
//! runner, messages.

use vstd::prelude::*;
use vstd::string::*;

use crate::args::{conteudo_auth, precondicoes, ArgsConectar, Provedor};
use crate::caminho::{diretorio_modelo, ArquivoTrabalho};
use crate::duracao::{decorrido, milissegundos, segundos, Duracao};
use crate::erro::Erro;
use crate::espera::{backoff, backoff_possivel, base_ms, lema_base, JITTER_MS};
use crate::numero::{decimal, NumeroInvalido};
use crate::toolcore::{linha_anotacao, linha_mascara, linha_output, Linha};

verus! {

// ---------------- Time ----------------

/// Law: a span of seconds or milliseconds is that many times as many nanoseconds, and the
/// time between two readings of the clock is their difference, or nothing if the later one
/// shows no more. So readings that are moved by the same span are as far apart as before.
pub proof fn lei_tempo(s: u64, inicio: Duracao, agora: Duracao)
    ensures
        segundos(s).nanos == s * 1_000_000_000,
        milissegundos(s).nanos == s * 1_000_000,
        agora.nanos >= inicio.nanos ==> decorrido(inicio, agora).nanos == agora.nanos
            - inicio.nanos,
        agora.nanos < inicio.nanos ==> decorrido(inicio, agora).nanos == 0,
        forall|d: Duracao|
            inicio.nanos + d.nanos <= u128::MAX && agora.nanos + d.nanos <= u128::MAX
                ==> #[trigger] decorrido(
                Duracao { nanos: (inicio.nanos + d.nanos) as u128 },
                Duracao { nanos: (agora.nanos + d.nanos) as u128 },
            ) == decorrido(inicio, agora),
{
}

/// Law: the wait between attempts begins at half a second, doubles each time and stops
/// growing at eight seconds; the random part adds whole milliseconds, fewer than two
/// hundred, and every such number can come.
pub proof fn lei_backoff_dobra(tentativa: u32, jitter: u64, d: Duracao)
    requires
        jitter < 200,
    ensures
        base_ms(0) == 500,
        tentativa < 4 ==> base_ms((tentativa + 1) as u32) == 2 * base_ms(tentativa),
        tentativa >= 4 ==> base_ms(tentativa) == 8_000,
        backoff(tentativa, jitter).nanos == (base_ms(tentativa) + jitter) * 1_000_000,
        backoff_possivel(tentativa, d) <==> d.nanos % 1_000_000 == 0 && base_ms(tentativa)
            * 1_000_000 <= d.nanos < (base_ms(tentativa) + 200) * 1_000_000,
{
    lema_base(0);
    lema_base(tentativa);
    if tentativa < 4 {
        lema_base((tentativa + 1) as u32);
    }
    let base = base_ms(tentativa);
    if backoff_possivel(tentativa, d) {
        let j = choose|j: u64|
            j < JITTER_MS && d == #[trigger] backoff(tentativa, j);
        assert(d.nanos == (base + j) * 1_000_000);
    }
    if d.nanos % 1_000_000 == 0 && base * 1_000_000 <= d.nanos < (base + 200) * 1_000_000 {
        let j = (d.nanos / 1_000_000 - base) as u64;
        assert(backoff(tentativa, j).nanos == (base + j) * 1_000_000);
        assert(d == backoff(tentativa, j));
    }
}

// ---------------- Paths ----------------

/// Law: a work file has a fixed name, and its path is the work directory and that name,
/// with one slash between them.
pub proof fn lei_caminho(dir: Seq<char>)
    ensures
        ({
            let sem_barra = dir.len() > 0 && dir.last() != '/';
            let pid = ArquivoTrabalho::Pid.em(dir);
            let config = ArquivoTrabalho::Config.em(dir);
            let auth = ArquivoTrabalho::Auth.em(dir);
            &&& sem_barra ==> pid == dir + seq!['/'] + "openvpn.pid"@
            &&& sem_barra ==> config == dir + seq!['/'] + "vpn.conf"@
            &&& sem_barra ==> auth == dir + seq!['/'] + "auth.txt"@
            &&& !sem_barra ==> pid == dir + "openvpn.pid"@
            &&& !sem_barra ==> config == dir + "vpn.conf"@
            &&& !sem_barra ==> auth == dir + "auth.txt"@
        }),
{
    if dir.len() == 0 {
        assert(dir + "openvpn.pid"@ =~= "openvpn.pid"@);
        assert(dir + "vpn.conf"@ =~= "vpn.conf"@);
        assert(dir + "auth.txt"@ =~= "auth.txt"@);
    } else {
        assert(dir.push('/') =~= dir + seq!['/']);
    }
}

/// Law: the three work files are three: in one directory no two of them share a path.
pub proof fn lei_caminhos_distintos(a: ArquivoTrabalho, b: ArquivoTrabalho, dir: Seq<char>)
    requires
        a.em(dir) == b.em(dir),
    ensures
        a == b,
{
    lei_caminho(dir);
    reveal_strlit("openvpn.pid");
    reveal_strlit("vpn.conf");
    reveal_strlit("auth.txt");
    let n = if dir.len() > 0 && dir.last() != '/' {
        dir.len() + 1
    } else {
        dir.len()
    };
    assert(a.em(dir)[n as int] == a.nome_modelo()[0]);
    assert(b.em(dir)[n as int] == b.nome_modelo()[0]);
}

/// Law: the work directory is `vpnctl` inside the directory that the runner gave, with one
/// slash between them, or else `/tmp/vpnctl`.
pub proof fn lei_diretorio(base: Seq<u8>)
    ensures
        base.len() > 0 && base.last() != 47 ==> diretorio_modelo(Some(base)) == base + seq![47u8]
            + "vpnctl".spec_bytes(),
        base.len() == 0 || base.last() == 47 ==> diretorio_modelo(Some(base)) == base
            + "vpnctl".spec_bytes(),
        diretorio_modelo(None) == "/tmp".spec_bytes() + seq![47u8] + "vpnctl".spec_bytes(),
{
    reveal_strlit("/tmp");
    is_ascii_spec_bytes("/tmp");
    assert(base.push(47u8) =~= base + seq![47u8]);
    assert("/tmp".spec_bytes().push(47u8) =~= "/tmp".spec_bytes() + seq![47u8]);
    if base.len() == 0 {
        assert(base + "vpnctl".spec_bytes() =~= "vpnctl".spec_bytes());
    }
}

// ---------------- Credentials ----------------

/// Law: with both credentials the authentication file holds the user name and the password
/// as they were given, each on a line of its own; without one of them there is none.
pub proof fn lei_auth_tem_as_credenciais(
    args: ArgsConectar<Seq<char>>,
    usuario: Seq<char>,
    senha: Seq<char>,
)
    ensures
        usuario.len() > 0 && senha.len() > 0 && args.username == Some(usuario) && args.password
            == Some(senha) ==> conteudo_auth(args) == Some(usuario + "\n"@ + senha + "\n"@),
        args.username is None || args.password is None || args.username == Some(
            Seq::<char>::empty(),
        ) || args.password == Some(Seq::<char>::empty()) ==> conteudo_auth(args) is None,
{
}

/// A credential was given and is not empty.
pub open spec fn preenchido(valor: Option<Seq<char>>) -> bool {
    valor matches Some(v) && v.len() > 0
}

/// Law: the checks pass exactly if the configuration is a regular file and the user name
/// and the password were both given or both not; what is told first is that the file is
/// missing, then that it is no regular file, then which of the two is missing.
pub proof fn lei_precondicoes(args: ArgsConectar<Seq<char>>, existe: bool, regular: bool)
    ensures
        ({
            let r = precondicoes(args, existe, regular);
            let u = preenchido(args.username);
            let s = preenchido(args.password);
            &&& r is Ok <==> existe && regular && u == s
            &&& r == Err::<(), _>(Erro::ConfigNaoEncontrada { config: args.config }) <==> !existe
            &&& r == Err::<(), _>(Erro::ConfigNaoRegular { config: args.config }) <==> existe
                && !regular
            &&& r == Err::<(), Erro<Seq<char>>>(Erro::SenhaAusente) <==> existe && regular && u
                && !s
            &&& r == Err::<(), Erro<Seq<char>>>(Erro::UsuarioAusente) <==> existe && regular && !u
                && s
        }),
{
}

/// Law: the only provider names its interfaces `tun` and something, and is called
/// `Openvpn`.
pub proof fn lei_provedor(provedor: Provedor)
    ensures
        provedor.prefixo() == "tun"@,
        provedor.rotulo() == "Openvpn"@,
{
}

// ---------------- Lines for the runner ----------------

/// Law: an output is its key, an equals sign and its value, on the outputs file where there
/// is one and else on standard output; an annotation is a command of the runner on standard
/// output inside one and else a line on standard error; a value is hidden inside a runner,
/// and only if there is one to hide. Keys, values and messages are written as they are.
pub proof fn lei_linhas_do_runner(a: Seq<char>, b: Seq<char>)
    ensures
        linha_output(a, b, true) == Linha::Output(a + "="@ + b),
        linha_output(a, b, false) == Linha::Stdout(a + "="@ + b),
        linha_anotacao(a, b, true) == Linha::Stdout("::"@ + a + "::"@ + b),
        linha_anotacao(a, b, false) == Linha::Stderr("["@ + a + "] "@ + b),
        a.len() > 0 ==> linha_mascara(a, true) == Some(Linha::Stdout("::add-mask::"@ + a)),
        a.len() == 0 ==> linha_mascara(a, true) is None,
        linha_mascara(a, false) is None,
{
}

// ---------------- Messages ----------------

/// Law: the messages about what has to be there before the tunnel name the path and the
/// cause as they were given.
pub proof fn lei_mensagens_da_preparacao(p: Seq<char>, c: Seq<char>)
    ensures
        (Erro::DiretorioTrabalho { dir: p, causa: c }).texto()
            == "falha ao criar diretório de trabalho "@ + p + ": "@ + c,
        (Erro::ConfigNaoEncontrada { config: p }).texto()
            == "arquivo de configuração não encontrado: "@ + p,
        (Erro::ConfigNaoRegular { config: p }).texto()
            == "caminho de configuração não é um arquivo regular: "@ + p,
        Erro::<Seq<char>>::SenhaAusente.texto()
            == "--username foi informado mas --password está ausente"@,
        Erro::<Seq<char>>::UsuarioAusente.texto()
            == "--password foi informado mas --username está ausente"@,
        (Erro::LeituraConfig { config: p, causa: c }).texto() == "falha ao ler config: "@ + p + ": "@
            + c,
        (Erro::EscritaConfig { destino: p, causa: c }).texto()
            == "falha ao escrever config segura em "@ + p + ": "@ + c,
        (Erro::EscritaAuth { destino: p, causa: c }).texto() == "falha ao escrever auth file em "@ + p
            + ": "@ + c,
        (Erro::Permissoes { caminho: p, causa: c }).texto() == "falha ao restringir permissões de "@
            + p + ": "@ + c,
        (Erro::VariavelAusente { nome: p }).texto()
            == "variável de ambiente obrigatória não definida: "@ + p,
        (Erro::AberturaOutput { causa: c }).texto() == "falha ao abrir $GITHUB_OUTPUT: "@ + c,
        (Erro::EscritaOutput { causa: c }).texto() == "falha ao escrever em $GITHUB_OUTPUT: "@ + c,
{
}

/// Law: the messages about commands of the system tell the status and what the command
/// wrote, or why it did not run, as they were given.
pub proof fn lei_mensagens_dos_comandos(s: Seq<char>, a: Seq<char>, b: Seq<char>, pid: u32)
    ensures
        (Erro::OpenvpnNaoExecutou { causa: a }).texto()
            == "falha ao executar openvpn — binário instalado e acessível?: "@ + a,
        (Erro::OpenvpnRetornou { status: s, stderr: a, stdout: b }).texto() == "openvpn retornou "@
            + s + " — stderr: "@ + a + " | stdout: "@ + b,
        (Erro::IpLinkNaoExecutou { causa: a }).texto()
            == "falha ao executar `ip link show` — iproute2 instalado?: "@ + a,
        (Erro::IpLinkRetornou { status: s, stderr: a }).texto() == "`ip link show` retornou "@ + s
            + ": "@ + a,
        (Erro::ListaInterfaces { causa: a }).texto() == "falha ao listar interfaces de rede: "@ + a,
        (Erro::IpAddrNaoExecutou { causa: a }).texto() == "falha ao executar `ip -4 -o addr show`: "@
            + a,
        (Erro::KillNaoExecutou { causa: a }).texto() == "falha ao executar `kill -TERM`: "@ + a,
        (Erro::KillFalhou { pid, stderr: a }).texto() == "kill -TERM "@ + decimal(pid as nat)
            + " falhou: "@ + a,
        (Erro::SondaNaoExecutou { causa: a }).texto() == "falha ao executar `kill -0`: "@ + a,
        (Erro::LeituraPid { caminho: s, causa: a }).texto() == "falha ao ler "@ + s + ": "@ + a,
        (Erro::PidInvalido { caminho: s, motivo: NumeroInvalido::Vazio }).texto()
            == "conteúdo inválido em "@ + s + ": "@ + "cannot parse integer from empty string"@,
        (Erro::PidInvalido { caminho: s, motivo: NumeroInvalido::Digito }).texto()
            == "conteúdo inválido em "@ + s + ": "@ + "invalid digit found in string"@,
        (Erro::PidInvalido { caminho: s, motivo: NumeroInvalido::Grande }).texto()
            == "conteúdo inválido em "@ + s + ": "@ + "number too large to fit in target type"@,
{
}

/// Law: the messages about waits tell how long was waited, in decimal, and for what.
pub proof fn lei_mensagens_das_esperas(
    t: u128,
    n: Seq<char>,
    c: Seq<char>,
    porta: u16,
    k: u32,
    pid: u32,
)
    ensures
        (Erro::TimeoutInterface { segundos: t, nome: n }).texto() == "timeout de "@ + decimal(
            t as nat,
        ) + "s aguardando interface '"@ + n + "' aparecer"@,
        (Erro::TimeoutPrefixo { segundos: t, prefixo: n }).texto() == "timeout de "@ + decimal(
            t as nat,
        ) + "s aguardando interface com prefixo '"@ + n + "*' aparecer"@,
        (Erro::TimeoutIp { segundos: t, interface: n }).texto() == "timeout de "@ + decimal(t as nat)
            + "s aguardando IPv4 na interface '"@ + n + "'"@,
        (Erro::Resolucao { endereco: n, causa: c }).texto() == "não foi possível resolver "@ + n
            + ": "@ + c,
        (Erro::NenhumEndereco { endereco: n }).texto() == "nenhum endereço resolvido para "@ + n,
        (Erro::ConexaoTcp { endereco: n, causa: c }).texto() == "connect TCP para "@ + n
            + " falhou em todos os endereços: "@ + c,
        (Erro::Healthcheck { host: n, porta, tentativas: k, segundos: t, causa: c }).texto()
            == "healthcheck falhou em "@ + n + ":"@ + decimal(porta as nat) + " após "@ + decimal(
            k as nat,
        ) + " tentativa(s) em "@ + decimal(t as nat) + "s: "@ + c,
        (Erro::<Seq<char>>::NaoEncerrou { pid, segundos: t }).texto() == "openvpn (pid "@ + decimal(
            pid as nat,
        ) + ") não encerrou em "@ + decimal(t as nat) + "s após SIGTERM"@,
{
}

} // verus!
