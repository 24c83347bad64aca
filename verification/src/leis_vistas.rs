//! The views: in specifications every value is itself, with its texts as sequences of
//! characters. No field is left out, changed or exchanged for another.

use vstd::prelude::*;

use crate::acao::{Acao, Evento, EventoModelo};
use crate::args::{ArgsConectar, Comando};
use crate::conexao::{Conexao, EtapaConexao};
use crate::desconexao::{leitura_modelo, Desconexao, EtapaDesconexao};
use crate::duracao::Duracao;
use crate::erro::{resultado, Erro};
use crate::espera::{sondagem, Saude, Sondagem};
use crate::execucao::Execucao;
use crate::sistema::{Argumento, Chamada, SaidaProcesso};
use crate::tcp::{AcaoTcp, EtapaTcp, EventoTcp, TentativaTcp};
use crate::toolcore::Linha;

verus! {

/// Law: a result is seen as the value or the failure that it holds.
pub proof fn lei_vista_do_resultado<A: DeepView, B: DeepView>(a: A, b: B)
    ensures
        resultado(Ok::<A, B>(a)) == Ok::<A::V, B::V>(a.deep_view()),
        resultado(Err::<A, B>(b)) == Err::<A::V, B::V>(b.deep_view()),
{
}

/// Law: what a look during a wait means is seen as it is.
pub proof fn lei_vista_da_sondagem<R: DeepView>(r: R, d: Duracao, e: Erro)
    ensures
        sondagem(Sondagem::<R>::Concluida(r)) == Sondagem::<R::V, Seq<char>>::Concluida(
            r.deep_view(),
        ),
        sondagem(Sondagem::<R>::Repete(d)) == Sondagem::<R::V, Seq<char>>::Repete(d),
        sondagem(Sondagem::<R>::Falha(e)) == Sondagem::<R::V, Seq<char>>::Falha(e@),
        e.deep_view() == e@,
{
}

/// Law: the reading of a file that may be absent is seen as it is.
pub proof fn lei_vista_da_leitura(t: String)
    ensures
        leitura_modelo(None) is None,
        leitura_modelo(Some(Ok(t))) == Some(Ok::<Seq<char>, Seq<char>>(t@)),
        leitura_modelo(Some(Err(t))) == Some(Err::<Seq<char>, Seq<char>>(t@)),
{
}

/// A text that may be absent, seen as it is.
pub open spec fn opcional(t: Option<String>) -> Option<Seq<char>> {
    match t {
        Some(s) => Some(s@),
        None => None,
    }
}

/// Law: the arguments are seen as they are, each under its own name.
pub proof fn lei_vista_dos_argumentos(v: ArgsConectar)
    ensures
        v@.provider == v.provider,
        v@.config == v.config@,
        v@.username == opcional(v.username),
        v@.password == opcional(v.password),
        v@.healthcheck_host == opcional(v.healthcheck_host),
        v@.healthcheck_port == v.healthcheck_port,
        v@.timeout_secs == v.timeout_secs,
        v@.interface == opcional(v.interface),
        v@.dry_run == v.dry_run,
{
}

/// Law: the runs of the commands and of a TCP attempt are seen as they are.
pub proof fn lei_vista_dos_comandos(c: Conexao, d: Desconexao, t: TentativaTcp)
    ensures
        c@.args == c.args@,
        c@.workdir == c.workdir@,
        c@.etapa == c.etapa@,
        d@.workdir == d.workdir@,
        d@.etapa == d.etapa@,
        t@.endereco == t.endereco@,
        t@.timeout == t.timeout,
        t@.etapa == t.etapa@,
{
}

/// Law: a call of a command, and what it left behind, are seen as they are.
pub proof fn lei_vista_das_chamadas(c: Chamada, s: SaidaProcesso)
    ensures
        c@.programa == c.programa@,
        c@.argumentos.len() == c.argumentos@.len(),
        forall|i: int|
            0 <= i < c.argumentos@.len() ==> #[trigger] c@.argumentos[i]
                == c.argumentos@[i].deep_view(),
        s@.sucesso == s.sucesso,
        s@.status == s.status@,
        s@.stdout == s.stdout@,
        s@.stderr == s.stderr@,
        s.deep_view() == s@,
{
}

/// Law: an action is seen as it is.
pub proof fn lei_vista_da_acao(v: Acao)
    ensures
        match v {
            Acao::PreparaDiretorio => v@ is PreparaDiretorio,
            Acao::InspecionaConfig => v@ is InspecionaConfig,
            Acao::Mascara(t) => v@ == Acao::<Seq<char>>::Mascara(t@),
            Acao::LeConfig => v@ is LeConfig,
            Acao::EscreveArquivo { arquivo, conteudo } => v@ == (Acao::<Seq<char>>::EscreveArquivo {
                arquivo,
                conteudo: conteudo@,
            }),
            Acao::RestringePermissoes { arquivo, modo } => v@
                == (Acao::<Seq<char>>::RestringePermissoes {
                arquivo,
                modo,
            }),
            Acao::Imprime(t) => v@ == Acao::<Seq<char>>::Imprime(t@),
            Acao::Anota { level, message } => v@ == (Acao::<Seq<char>>::Anota {
                level: level@,
                message: message@,
            }),
            Acao::ExecutaOpenvpn { config, auth, pid_file } => v@
                == (Acao::<Seq<char>>::ExecutaOpenvpn {
                config,
                auth,
                pid_file,
            }),
            Acao::ListaInterfaces => v@ is ListaInterfaces,
            Acao::LeIpv4 { interface } => v@ == (Acao::<Seq<char>>::LeIpv4 {
                interface: interface@,
            }),
            Acao::Dorme(d) => v@ == Acao::<Seq<char>>::Dorme(d),
            Acao::PublicaOutput { key, value } => v@ == (Acao::<Seq<char>>::PublicaOutput {
                key: key@,
                value: value@,
            }),
            Acao::TentaConexaoTcp { host, porta, timeout } => v@ == (Acao::TentaConexaoTcp {
                host: host@,
                porta,
                timeout,
            }),
            Acao::Retenta { tentativa, causa, espera } => v@ == (Acao::<Seq<char>>::Retenta {
                tentativa,
                causa: causa@,
                espera,
            }),
            Acao::LePid { pid_file } => v@ == (Acao::<Seq<char>>::LePid { pid_file }),
            Acao::EnviaSinalTermino { pid } => v@ == (Acao::<Seq<char>>::EnviaSinalTermino { pid }),
            Acao::ConsultaProcesso { pid } => v@ == (Acao::<Seq<char>>::ConsultaProcesso { pid }),
            Acao::RemoveArquivo(a) => v@ == Acao::<Seq<char>>::RemoveArquivo(a),
            Acao::Encerra => v@ is Encerra,
        },
{
}

/// Law: an event is seen as it is.
pub proof fn lei_vista_do_evento(v: Evento)
    ensures
        match v {
            Evento::Feito => v@ is Feito,
            Evento::Diretorio { dir, criado } => v@ == (EventoModelo::Diretorio {
                dir: dir@,
                criado: resultado(criado),
            }),
            Evento::Config { existe, regular } => v@ == (EventoModelo::Config { existe, regular }),
            Evento::Lido(r) => v@ == EventoModelo::Lido(resultado(r)),
            Evento::Gravado(r) => v@ == EventoModelo::Gravado(resultado(r)),
            Evento::Executado(r) => v@ == EventoModelo::Executado(resultado(r)),
            Evento::Interfaces(r) => v@ == EventoModelo::Interfaces(resultado(r)),
            Evento::Ipv4(r) => v@ == EventoModelo::Ipv4(resultado(r)),
            Evento::Pid(None) => v@ == EventoModelo::Pid(None),
            Evento::Pid(Some(r)) => v@ == EventoModelo::Pid(Some(resultado(r))),
            Evento::Vivo(r) => v@ == EventoModelo::Vivo(resultado(r)),
        },
{
}

/// Law: a command is seen as it is.
pub proof fn lei_vista_do_comando(v: Comando)
    ensures
        match v {
            Comando::Conectar(args) => v@ == Comando::<Seq<char>>::Conectar(args@),
            Comando::Desconectar => v@ is Desconectar,
        },
{
}

/// Law: a stage of `conectar` is seen as it is.
pub proof fn lei_vista_da_etapa_de_conexao(v: EtapaConexao)
    ensures
        match v {
            EtapaConexao::Validando => v@ is Validando,
            EtapaConexao::Mascarando { senha } => v@ == (EtapaConexao::<Seq<char>>::Mascarando {
                senha: senha@,
            }),
            EtapaConexao::LendoConfig => v@ is LendoConfig,
            EtapaConexao::GravandoConfig { conteudo } => v@ == (EtapaConexao::GravandoConfig {
                conteudo: conteudo@,
            }),
            EtapaConexao::RestringindoConfig => v@ is RestringindoConfig,
            EtapaConexao::GravandoAuth { conteudo } => v@ == (EtapaConexao::GravandoAuth {
                conteudo: conteudo@,
            }),
            EtapaConexao::RestringindoAuth => v@ is RestringindoAuth,
            EtapaConexao::RelatandoEnsaio => v@ is RelatandoEnsaio,
            EtapaConexao::IniciandoCliente => v@ is IniciandoCliente,
            EtapaConexao::AnunciandoCliente => v@ is AnunciandoCliente,
            EtapaConexao::ListandoInterfaces { inicio } => v@
                == (EtapaConexao::<Seq<char>>::ListandoInterfaces {
                inicio,
            }),
            EtapaConexao::PausandoInterfaces { inicio, pausa } => v@
                == (EtapaConexao::<Seq<char>>::PausandoInterfaces {
                inicio,
                pausa,
            }),
            EtapaConexao::LendoIp { interface, inicio } => v@ == (EtapaConexao::LendoIp {
                interface: interface@,
                inicio,
            }),
            EtapaConexao::PausandoIp { interface, inicio, pausa } => v@
                == (EtapaConexao::PausandoIp {
                interface: interface@,
                inicio,
                pausa,
            }),
            EtapaConexao::AnunciandoTunel { interface, ip, inicio } => v@
                == (EtapaConexao::AnunciandoTunel {
                interface: interface@,
                ip: ip@,
                inicio,
            }),
            EtapaConexao::PublicandoInterface { interface, ip, inicio } => v@
                == (EtapaConexao::PublicandoInterface {
                interface: interface@,
                ip: ip@,
                inicio,
            }),
            EtapaConexao::PublicandoIp { ip, inicio } => v@ == (EtapaConexao::PublicandoIp {
                ip: ip@,
                inicio,
            }),
            EtapaConexao::Verificando { host, anteriores, inicio } => v@
                == (EtapaConexao::Verificando {
                host: host@,
                anteriores,
                inicio,
            }),
            EtapaConexao::Retentando { host, tentativa, causa, espera, inicio } => v@
                == (EtapaConexao::Retentando {
                host: host@,
                tentativa,
                causa: causa@,
                espera,
                inicio,
            }),
            EtapaConexao::AnunciandoSaude { host, tentativa } => v@
                == (EtapaConexao::AnunciandoSaude {
                host: host@,
                tentativa,
            }),
            EtapaConexao::Avisando => v@ is Avisando,
            EtapaConexao::Encerrada(r) => v@ == EtapaConexao::<Seq<char>>::Encerrada(resultado(r)),
        },
{
}

/// Law: a stage of `desconectar` is seen as it is.
pub proof fn lei_vista_da_etapa_de_desconexao(v: EtapaDesconexao)
    ensures
        match v {
            EtapaDesconexao::LendoPid => v@ is LendoPid,
            EtapaDesconexao::AnunciandoEncerramento { pid } => v@
                == (EtapaDesconexao::<Seq<char>>::AnunciandoEncerramento {
                pid,
            }),
            EtapaDesconexao::Sinalizando { pid } => v@
                == (EtapaDesconexao::<Seq<char>>::Sinalizando {
                pid,
            }),
            EtapaDesconexao::Sondando { pid, inicio } => v@
                == (EtapaDesconexao::<Seq<char>>::Sondando {
                pid,
                inicio,
            }),
            EtapaDesconexao::PausandoSonda { pid, inicio, pausa } => v@
                == (EtapaDesconexao::<Seq<char>>::PausandoSonda {
                pid,
                inicio,
                pausa,
            }),
            EtapaDesconexao::AnunciandoFim => v@ is AnunciandoFim,
            EtapaDesconexao::AnunciandoAusencia => v@ is AnunciandoAusencia,
            EtapaDesconexao::Removendo(a) => v@ == EtapaDesconexao::<Seq<char>>::Removendo(a),
            EtapaDesconexao::Encerrada(r) => v@
                == EtapaDesconexao::<Seq<char>>::Encerrada(resultado(r)),
        },
{
}

/// Law: a run of the program is seen as it is.
pub proof fn lei_vista_da_execucao(v: Execucao)
    ensures
        match v {
            Execucao::Preparando(c) => v@ == Execucao::<Seq<char>>::Preparando(c@),
            Execucao::Conectando(c) => v@ == Execucao::<Seq<char>>::Conectando(c@),
            Execucao::Desconectando(d) => v@ == Execucao::<Seq<char>>::Desconectando(d@),
            Execucao::SemDiretorio(e) => v@ == Execucao::<Seq<char>>::SemDiretorio(e@),
        },
{
}

/// Law: a failure is seen as it is.
pub proof fn lei_vista_do_erro(v: Erro)
    ensures
        match v {
            Erro::DiretorioTrabalho { dir, causa } => v@ == (Erro::<Seq<char>>::DiretorioTrabalho {
                dir: dir@,
                causa: causa@,
            }),
            Erro::ConfigNaoEncontrada { config } => v@ == (Erro::<Seq<char>>::ConfigNaoEncontrada {
                config: config@,
            }),
            Erro::ConfigNaoRegular { config } => v@ == (Erro::<Seq<char>>::ConfigNaoRegular {
                config: config@,
            }),
            Erro::SenhaAusente => v@ is SenhaAusente,
            Erro::UsuarioAusente => v@ is UsuarioAusente,
            Erro::LeituraConfig { config, causa } => v@ == (Erro::<Seq<char>>::LeituraConfig {
                config: config@,
                causa: causa@,
            }),
            Erro::EscritaConfig { destino, causa } => v@ == (Erro::<Seq<char>>::EscritaConfig {
                destino: destino@,
                causa: causa@,
            }),
            Erro::EscritaAuth { destino, causa } => v@ == (Erro::<Seq<char>>::EscritaAuth {
                destino: destino@,
                causa: causa@,
            }),
            Erro::Permissoes { caminho, causa } => v@ == (Erro::<Seq<char>>::Permissoes {
                caminho: caminho@,
                causa: causa@,
            }),
            Erro::OpenvpnNaoExecutou { causa } => v@ == (Erro::<Seq<char>>::OpenvpnNaoExecutou {
                causa: causa@,
            }),
            Erro::OpenvpnRetornou { status, stderr, stdout } => v@ == (Erro::OpenvpnRetornou {
                status: status@,
                stderr: stderr@,
                stdout: stdout@,
            }),
            Erro::IpLinkNaoExecutou { causa } => v@ == (Erro::<Seq<char>>::IpLinkNaoExecutou {
                causa: causa@,
            }),
            Erro::IpLinkRetornou { status, stderr } => v@ == (Erro::<Seq<char>>::IpLinkRetornou {
                status: status@,
                stderr: stderr@,
            }),
            Erro::ListaInterfaces { causa } => v@ == (Erro::<Seq<char>>::ListaInterfaces {
                causa: causa@,
            }),
            Erro::TimeoutInterface { segundos, nome } => v@ == (Erro::TimeoutInterface {
                segundos,
                nome: nome@,
            }),
            Erro::TimeoutPrefixo { segundos, prefixo } => v@ == (Erro::<Seq<char>>::TimeoutPrefixo {
                segundos,
                prefixo: prefixo@,
            }),
            Erro::IpAddrNaoExecutou { causa } => v@ == (Erro::<Seq<char>>::IpAddrNaoExecutou {
                causa: causa@,
            }),
            Erro::TimeoutIp { segundos, interface } => v@ == (Erro::<Seq<char>>::TimeoutIp {
                segundos,
                interface: interface@,
            }),
            Erro::Resolucao { endereco, causa } => v@ == (Erro::<Seq<char>>::Resolucao {
                endereco: endereco@,
                causa: causa@,
            }),
            Erro::NenhumEndereco { endereco } => v@ == (Erro::<Seq<char>>::NenhumEndereco {
                endereco: endereco@,
            }),
            Erro::ConexaoTcp { endereco, causa } => v@ == (Erro::<Seq<char>>::ConexaoTcp {
                endereco: endereco@,
                causa: causa@,
            }),
            Erro::Healthcheck { host, porta, tentativas, segundos, causa } => v@
                == (Erro::Healthcheck {
                host: host@,
                porta,
                tentativas,
                segundos,
                causa: causa@,
            }),
            Erro::AberturaOutput { causa } => v@ == (Erro::<Seq<char>>::AberturaOutput {
                causa: causa@,
            }),
            Erro::EscritaOutput { causa } => v@ == (Erro::<Seq<char>>::EscritaOutput {
                causa: causa@,
            }),
            Erro::LeituraPid { caminho, causa } => v@ == (Erro::<Seq<char>>::LeituraPid {
                caminho: caminho@,
                causa: causa@,
            }),
            Erro::PidInvalido { caminho, motivo } => v@ == (Erro::<Seq<char>>::PidInvalido {
                caminho: caminho@,
                motivo,
            }),
            Erro::KillNaoExecutou { causa } => v@ == (Erro::<Seq<char>>::KillNaoExecutou {
                causa: causa@,
            }),
            Erro::KillFalhou { pid, stderr } => v@ == (Erro::<Seq<char>>::KillFalhou {
                pid,
                stderr: stderr@,
            }),
            Erro::SondaNaoExecutou { causa } => v@ == (Erro::<Seq<char>>::SondaNaoExecutou {
                causa: causa@,
            }),
            Erro::NaoEncerrou { pid, segundos } => v@ == (Erro::<Seq<char>>::NaoEncerrou {
                pid,
                segundos,
            }),
            Erro::VariavelAusente { nome } => v@ == (Erro::<Seq<char>>::VariavelAusente {
                nome: nome@,
            }),
        },
{
}

/// Law: what an attempt of the health check means is seen as it is.
pub proof fn lei_vista_da_saude(v: Saude)
    ensures
        match v {
            Saude::Saudavel => v@ is Saudavel,
            Saude::Retenta { espera, causa } => v@ == (Saude::<Seq<char>>::Retenta {
                espera,
                causa: causa@,
            }),
            Saude::Falha(e) => v@ == Saude::<Seq<char>>::Falha(e@),
        },
{
}

/// Law: a stage of a TCP attempt is seen as it is.
pub proof fn lei_vista_da_etapa_tcp(v: EtapaTcp)
    ensures
        match v {
            EtapaTcp::Resolvendo => v@ is Resolvendo,
            EtapaTcp::Conectando { proximo, total } => v@ == (EtapaTcp::<Seq<char>>::Conectando {
                proximo,
                total,
            }),
            EtapaTcp::Encerrada(r) => v@ == EtapaTcp::<Seq<char>>::Encerrada(resultado(r)),
        },
{
}

/// Law: what a TCP attempt asks for is seen as it is.
pub proof fn lei_vista_da_acao_tcp(v: AcaoTcp)
    ensures
        match v {
            AcaoTcp::Resolve(t) => v@ == AcaoTcp::<Seq<char>>::Resolve(t@),
            AcaoTcp::Conecta { indice, timeout } => v@ == (AcaoTcp::<Seq<char>>::Conecta {
                indice,
                timeout,
            }),
            AcaoTcp::Encerra => v@ is Encerra,
        },
{
}

/// Law: what came of it is seen as it is.
pub proof fn lei_vista_do_evento_tcp(v: EventoTcp)
    ensures
        match v {
            EventoTcp::Resolvido(r) => v@ == EventoTcp::<Seq<char>>::Resolvido(resultado(r)),
            EventoTcp::Conectou(r) => v@ == EventoTcp::<Seq<char>>::Conectou(resultado(r)),
        },
{
}

/// Law: a line for the runner is seen as it is.
pub proof fn lei_vista_da_linha(v: Linha)
    ensures
        match v {
            Linha::Stdout(t) => v@ == Linha::<Seq<char>>::Stdout(t@) && v.deep_view() == v@,
            Linha::Stderr(t) => v@ == Linha::<Seq<char>>::Stderr(t@) && v.deep_view() == v@,
            Linha::Output(t) => v@ == Linha::<Seq<char>>::Output(t@) && v.deep_view() == v@,
        },
{
}

/// Law: an argument of a command is seen as it is.
pub proof fn lei_vista_do_argumento(v: Argumento)
    ensures
        match v {
            Argumento::Texto(t) => v.deep_view() == Argumento::<Seq<char>>::Texto(t@),
            Argumento::Arquivo(a) => v.deep_view() == Argumento::<Seq<char>>::Arquivo(a),
        },
{
}

} // verus!
