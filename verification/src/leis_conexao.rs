//! What holds of every run of `conectar`, whatever the outside world answers.
//!
//! A run is given by the history of the answers to its actions. The laws speak of the
//! action that is due after an arbitrary history.

use vstd::prelude::*;

use crate::acao::{Acao, Evento, EventoModelo, MODO_RESTRITO};
use crate::args::{conteudo_auth, precondicoes, ArgsConectar};
use crate::caminho::ArquivoTrabalho;
use crate::conexao::{
    arquivo_auth, conexao_inicial, texto_sem_healthcheck, Conexao, EtapaConexao,
    TETO_TENTATIVA_SECS,
};
use crate::duracao::{decorrido, segundos, Duracao};
use crate::erro::Erro;
use crate::espera::interface_do_tunel;

verus! {

/// An answer: the event, when it was told, and the wait that came after it if it was the
/// failure of an attempt of the health check.
pub type Resposta = (EventoModelo, Duracao, Duracao);

impl Conexao<Seq<char>> {
    /// The run after the answers `h`, in order.
    pub open spec fn apos(self, h: Seq<Resposta>) -> Conexao<Seq<char>>
        decreases h.len(),
    {
        if h.len() == 0 {
            self
        } else {
            self.apos(h.drop_last()).proxima(h.last().0, h.last().1, h.last().2)
        }
    }

    /// The answer number `i` of `h` was `evento`, and answered `acao`.
    pub open spec fn respondida(
        self,
        h: Seq<Resposta>,
        i: int,
        acao: Acao<Seq<char>>,
        evento: EventoModelo,
    ) -> bool {
        0 <= i < h.len() && self.apos(h.take(i)).acao_modelo() == acao && h[i].0 == evento
    }

    /// Some answer of `h` was `evento`, and answered `acao`.
    #[verifier::opaque]
    pub open spec fn houve(
        self,
        h: Seq<Resposta>,
        acao: Acao<Seq<char>>,
        evento: EventoModelo,
    ) -> bool {
        exists|i: int| self.respondida(h, i, acao, evento)
    }

    /// The checks before the command passed.
    pub open spec fn validada(self, h: Seq<Resposta>) -> bool {
        exists|existe: bool, regular: bool|
            #[trigger] self.houve(h, Acao::InspecionaConfig, Evento::Config { existe, regular })
                && precondicoes(self.args, existe, regular) is Ok
    }

    /// The password, if one was given, was handed over to be hidden from the logs.
    pub open spec fn senha_mascarada(self, h: Seq<Resposta>) -> bool {
        self.args.password matches Some(senha) ==> self.houve(
            h,
            Acao::Mascara(senha),
            Evento::Feito,
        )
    }

    /// The configuration was read and written, unchanged, into the work directory.
    pub open spec fn config_copiada(self, h: Seq<Resposta>) -> bool {
        exists|conteudo: Seq<char>|
            #[trigger] self.houve(h, Acao::LeConfig, Evento::Lido(Ok(conteudo))) && self.houve(
                h,
                Acao::EscreveArquivo { arquivo: ArquivoTrabalho::Config, conteudo },
                Evento::Gravado(Ok(())),
            )
    }

    /// The permissions of a work file were restricted to its owner.
    pub open spec fn restrito(self, h: Seq<Resposta>, arquivo: ArquivoTrabalho) -> bool {
        self.houve(
            h,
            Acao::RestringePermissoes { arquivo, modo: MODO_RESTRITO },
            Evento::Gravado(Ok(())),
        )
    }

    /// The authentication file was written with both credentials.
    pub open spec fn auth_gravado(self, h: Seq<Resposta>) -> bool {
        conteudo_auth(self.args) matches Some(conteudo) ==> self.houve(
            h,
            Acao::EscreveArquivo { arquivo: ArquivoTrabalho::Auth, conteudo },
            Evento::Gravado(Ok(())),
        )
    }

    /// All that the VPN client reads is in place, and closed to others.
    pub open spec fn arquivos_prontos(self, h: Seq<Resposta>) -> bool {
        &&& self.senha_mascarada(h)
        &&& self.config_copiada(h)
        &&& self.restrito(h, ArquivoTrabalho::Config)
        &&& self.auth_gravado(h)
        &&& conteudo_auth(self.args) is Some ==> self.restrito(h, ArquivoTrabalho::Auth)
    }

    /// The VPN client was started.
    pub open spec fn cliente_iniciado(self, h: Seq<Resposta>) -> bool {
        &&& !self.args.dry_run
        &&& self.arquivos_prontos(h)
        &&& self.houve(
            h,
            Acao::ExecutaOpenvpn {
                config: ArquivoTrabalho::Config,
                auth: arquivo_auth(self.args),
                pid_file: ArquivoTrabalho::Pid,
            },
            Evento::Executado(Ok(())),
        )
    }

    /// `interface` was listed and is that of the tunnel.
    pub open spec fn interface_vista(self, h: Seq<Resposta>, interface: Seq<char>) -> bool {
        exists|nomes: Seq<Seq<char>>|
            #[trigger] self.houve(h, Acao::ListaInterfaces, Evento::Interfaces(Ok(nomes)))
                && interface_do_tunel(self.args, nomes) == Some(interface)
    }

    /// The tunnel is up on `interface`, with the address `ip`.
    pub open spec fn tunel_ativo(
        self,
        h: Seq<Resposta>,
        interface: Seq<char>,
        ip: Seq<char>,
    ) -> bool {
        &&& self.cliente_iniciado(h)
        &&& self.interface_vista(h, interface)
        &&& self.houve(h, Acao::LeIpv4 { interface }, Evento::Ipv4(Ok(Some(ip))))
    }

    /// The output `key` was published with `value`.
    pub open spec fn publicado(self, h: Seq<Resposta>, key: Seq<char>, value: Seq<char>) -> bool {
        self.houve(h, Acao::PublicaOutput { key, value }, Evento::Executado(Ok(())))
    }

    /// The tunnel is up with the address `ip`, and the output with the name of its
    /// interface tells so.
    pub open spec fn interface_publicada(self, h: Seq<Resposta>, ip: Seq<char>) -> bool {
        exists|interface: Seq<char>|
            #[trigger] self.tunel_ativo(h, interface, ip) && self.publicado(
                h,
                "interface"@,
                interface,
            )
    }

    /// The tunnel is up, and both outputs tell so.
    pub open spec fn tunel_publicado(self, h: Seq<Resposta>) -> bool {
        exists|interface: Seq<char>, ip: Seq<char>|
            #[trigger] self.tunel_ativo(h, interface, ip) && self.publicado(
                h,
                "interface"@,
                interface,
            ) && self.publicado(h, "tunnel-ip"@, ip)
    }

    /// The host of the health check accepted a connection.
    pub open spec fn host_respondeu(self, h: Seq<Resposta>, host: Seq<char>) -> bool {
        self.houve(
            h,
            Acao::TentaConexaoTcp {
                host,
                porta: self.args.healthcheck_port,
                timeout: segundos(TETO_TENTATIVA_SECS),
            },
            Evento::Executado(Ok(())),
        )
    }

    /// The user was warned that the tunnel was not checked.
    pub open spec fn avisado(self, h: Seq<Resposta>) -> bool {
        self.houve(
            h,
            Acao::Anota { level: "warning"@, message: texto_sem_healthcheck() },
            Evento::Feito,
        )
    }

    /// All that a success without a rehearsal stands for.
    pub open spec fn conexao_validada(self, h: Seq<Resposta>) -> bool {
        &&& self.tunel_publicado(h)
        &&& match self.args.healthcheck_host {
            Some(host) => self.host_respondeu(h, host),
            None => self.avisado(h),
        }
    }

    /// What the stage `etapa`, reached after `h`, tells of `h`.
    spec fn revela(self, h: Seq<Resposta>, etapa: EtapaConexao<Seq<char>>) -> bool {
        match etapa {
            EtapaConexao::Validando => true,
            EtapaConexao::Mascarando { senha } => self.args.password == Some(senha),
            EtapaConexao::LendoConfig => self.senha_mascarada(h),
            EtapaConexao::GravandoConfig { conteudo } => {
                &&& self.senha_mascarada(h)
                &&& self.houve(h, Acao::LeConfig, Evento::Lido(Ok(conteudo)))
            },
            EtapaConexao::RestringindoConfig => self.senha_mascarada(h) && self.config_copiada(h),
            EtapaConexao::GravandoAuth { conteudo } => {
                &&& self.senha_mascarada(h)
                &&& self.config_copiada(h)
                &&& self.restrito(h, ArquivoTrabalho::Config)
                &&& conteudo_auth(self.args) == Some(conteudo)
            },
            EtapaConexao::RestringindoAuth => {
                &&& self.senha_mascarada(h)
                &&& self.config_copiada(h)
                &&& self.restrito(h, ArquivoTrabalho::Config)
                &&& self.auth_gravado(h)
            },
            EtapaConexao::RelatandoEnsaio => self.args.dry_run && self.arquivos_prontos(h),
            EtapaConexao::IniciandoCliente => !self.args.dry_run && self.arquivos_prontos(h),
            EtapaConexao::AnunciandoCliente
            | EtapaConexao::ListandoInterfaces { .. }
            | EtapaConexao::PausandoInterfaces { .. } => self.cliente_iniciado(h),
            EtapaConexao::LendoIp { interface, .. }
            | EtapaConexao::PausandoIp { interface, .. } => {
                &&& self.cliente_iniciado(h)
                &&& self.interface_vista(h, interface)
            },
            EtapaConexao::AnunciandoTunel { interface, ip, .. }
            | EtapaConexao::PublicandoInterface { interface, ip, .. } => self.tunel_ativo(
                h,
                interface,
                ip,
            ),
            EtapaConexao::PublicandoIp { ip, .. } => self.interface_publicada(h, ip),
            EtapaConexao::Verificando { host, .. } | EtapaConexao::Retentando { host, .. } => {
                &&& self.tunel_publicado(h)
                &&& self.args.healthcheck_host == Some(host)
            },
            EtapaConexao::AnunciandoSaude { host, .. } => {
                &&& self.tunel_publicado(h)
                &&& self.args.healthcheck_host == Some(host)
                &&& self.host_respondeu(h, host)
            },
            EtapaConexao::Avisando => self.tunel_publicado(h)
                && self.args.healthcheck_host is None,
            EtapaConexao::Encerrada(Ok(_)) => if self.args.dry_run {
                self.arquivos_prontos(h)
            } else {
                self.conexao_validada(h)
            },
            EtapaConexao::Encerrada(Err(_)) => true,
        }
    }

    /// The stage that is reached after `h` tells what happened in `h`.
    spec fn coerente(self, h: Seq<Resposta>) -> bool {
        let atual = self.apos(h);
        &&& atual.args == self.args
        &&& atual.workdir == self.workdir
        &&& (atual.etapa is Validando || (atual.etapa matches EtapaConexao::Encerrada(fim)
            && fim is Err) || self.validada(h))
        &&& self.revela(h, atual.etapa)
    }
}

/// An answer without a value is the same whatever its value is called.
proof fn lema_resposta_sem_valor(evento: EventoModelo)
    ensures
        evento matches Evento::Gravado(Ok(_)) ==> evento == EventoModelo::Gravado(Ok(())),
        evento matches Evento::Executado(Ok(_)) ==> evento == EventoModelo::Executado(Ok(())),
{
    if let Evento::Gravado(Ok(u)) = evento {
        assert(u == ());
    }
    if let Evento::Executado(Ok(u)) = evento {
        assert(u == ());
    }
}

/// What happened in the answers before the last one happened in the answers.
proof fn lema_houve_antes(
    c: Conexao<Seq<char>>,
    h: Seq<Resposta>,
    acao: Acao<Seq<char>>,
    evento: EventoModelo,
)
    requires
        h.len() > 0,
        c.houve(h.drop_last(), acao, evento),
    ensures
        c.houve(h, acao, evento),
{
    reveal(Conexao::houve);
    let i = choose|i: int| c.respondida(h.drop_last(), i, acao, evento);
    assert(h.drop_last().take(i) =~= h.take(i));
    assert(c.respondida(h, i, acao, evento));
}

/// The last answer happened in the answers.
proof fn lema_houve_agora(c: Conexao<Seq<char>>, h: Seq<Resposta>)
    requires
        h.len() > 0,
    ensures
        c.houve(h, c.apos(h.drop_last()).acao_modelo(), h.last().0),
{
    reveal(Conexao::houve);
    let i = h.len() - 1;
    assert(c.respondida(h, i, c.apos(h.drop_last()).acao_modelo(), h.last().0));
}

/// All that had happened before the last answer still has.
proof fn lema_nada_se_perde(c: Conexao<Seq<char>>, h: Seq<Resposta>)
    requires
        h.len() > 0,
    ensures
        forall|acao: Acao<Seq<char>>, evento: EventoModelo|
            c.houve(h.drop_last(), acao, evento) ==> #[trigger] c.houve(h, acao, evento),
        c.validada(h.drop_last()) ==> c.validada(h),
        c.senha_mascarada(h.drop_last()) ==> c.senha_mascarada(h),
        c.config_copiada(h.drop_last()) ==> c.config_copiada(h),
        c.arquivos_prontos(h.drop_last()) ==> c.arquivos_prontos(h),
        c.cliente_iniciado(h.drop_last()) ==> c.cliente_iniciado(h),
        forall|interface: Seq<char>|
            c.interface_vista(h.drop_last(), interface) ==> #[trigger] c.interface_vista(
                h,
                interface,
            ),
        forall|interface: Seq<char>, ip: Seq<char>|
            c.tunel_ativo(h.drop_last(), interface, ip) ==> #[trigger] c.tunel_ativo(
                h,
                interface,
                ip,
            ),
        c.tunel_publicado(h.drop_last()) ==> c.tunel_publicado(h),
        forall|arquivo: ArquivoTrabalho|
            c.restrito(h.drop_last(), arquivo) ==> #[trigger] c.restrito(h, arquivo),
        c.auth_gravado(h.drop_last()) ==> c.auth_gravado(h),
{
    let a = h.drop_last();
    assert forall|acao: Acao<Seq<char>>, evento: EventoModelo|
        c.houve(a, acao, evento) implies #[trigger] c.houve(h, acao, evento) by {
        lema_houve_antes(c, h, acao, evento);
    }
    if c.validada(a) {
        let (existe, regular) = choose|existe: bool, regular: bool|
            #[trigger] c.houve(a, Acao::InspecionaConfig, Evento::Config { existe, regular })
                && precondicoes(c.args, existe, regular) is Ok;
        assert(c.houve(h, Acao::InspecionaConfig, Evento::Config { existe, regular }));
    }
    if c.config_copiada(a) {
        let conteudo = choose|conteudo: Seq<char>|
            #[trigger] c.houve(a, Acao::LeConfig, Evento::Lido(Ok(conteudo))) && c.houve(
                a,
                Acao::EscreveArquivo { arquivo: ArquivoTrabalho::Config, conteudo },
                Evento::Gravado(Ok(())),
            );
        assert(c.houve(h, Acao::LeConfig, Evento::Lido(Ok(conteudo))));
    }
    assert forall|interface: Seq<char>|
        c.interface_vista(a, interface) implies #[trigger] c.interface_vista(h, interface) by {
        let nomes = choose|nomes: Seq<Seq<char>>|
            #[trigger] c.houve(a, Acao::ListaInterfaces, Evento::Interfaces(Ok(nomes)))
                && interface_do_tunel(c.args, nomes) == Some(interface);
        assert(c.houve(h, Acao::ListaInterfaces, Evento::Interfaces(Ok(nomes))));
    }
    if c.tunel_publicado(a) {
        let (interface, ip) = choose|interface: Seq<char>, ip: Seq<char>|
            #[trigger] c.tunel_ativo(a, interface, ip) && c.publicado(a, "interface"@, interface)
                && c.publicado(a, "tunnel-ip"@, ip);
        assert(c.tunel_ativo(h, interface, ip));
    }
}

/// The stage that a run has reached tells what has happened.
proof fn lema_coerente(args: ArgsConectar<Seq<char>>, workdir: Seq<char>, h: Seq<Resposta>)
    ensures
        conexao_inicial(args, workdir).coerente(h),
    decreases h.len(),
{
    let c = conexao_inicial(args, workdir);
    if h.len() > 0 {
        let a = h.drop_last();
        lema_coerente(args, workdir, a);
        lema_nada_se_perde(c, h);
        lema_houve_agora(c, h);
        lema_resposta_sem_valor(h.last().0);
        let antes = c.apos(a);
        let depois = c.apos(h);
        match antes.etapa {
            EtapaConexao::Validando => {
                if let Evento::Config { existe, regular } = h.last().0 {
                    assert(c.houve(h, Acao::InspecionaConfig, Evento::Config { existe, regular }));
                }
            },
            EtapaConexao::GravandoConfig { conteudo } => {
                assert(c.houve(h, Acao::LeConfig, Evento::Lido(Ok(conteudo))));
            },
            EtapaConexao::ListandoInterfaces { .. } => {
                if let Evento::Interfaces(Ok(nomes)) = h.last().0 {
                    assert(c.houve(h, Acao::ListaInterfaces, Evento::Interfaces(Ok(nomes))));
                }
            },
            EtapaConexao::PublicandoInterface { interface, ip, .. } => {
                if h.last().0 == EventoModelo::Executado(Ok(())) {
                    assert(c.tunel_ativo(h, interface, ip));
                }
            },
            EtapaConexao::PublicandoIp { ip, .. } => {
                let interface = choose|interface: Seq<char>|
                    #[trigger] c.tunel_ativo(a, interface, ip) && c.publicado(
                        a,
                        "interface"@,
                        interface,
                    );
                assert(c.tunel_ativo(h, interface, ip));
            },
            _ => {},
        }
    }
}

// ---------------- Laws ----------------

/// `acao` reaches beyond the files of the work directory and the terminal: it starts
/// something, asks the system or the network, waits for them, or tells later steps.
pub open spec fn toca_o_ambiente(acao: Acao<Seq<char>>) -> bool {
    ||| acao is ExecutaOpenvpn
    ||| acao is ListaInterfaces
    ||| acao is LeIpv4
    ||| acao is Dorme
    ||| acao is PublicaOutput
    ||| acao is TentaConexaoTcp
    ||| acao is Retenta
}

/// Law: nothing is done before the configuration was looked at and the checks passed.
pub proof fn lei_nada_antes_da_validacao(
    args: ArgsConectar<Seq<char>>,
    workdir: Seq<char>,
    h: Seq<Resposta>,
)
    ensures
        ({
            let c = conexao_inicial(args, workdir);
            let acao = c.apos(h).acao_modelo();
            acao is InspecionaConfig || acao is Encerra || c.validada(h)
        }),
{
    lema_coerente(args, workdir, h);
}

/// Law: the password is handed over to be hidden from the logs before anything else is
/// done with it, or printed.
pub proof fn lei_senha_mascarada_primeiro(
    args: ArgsConectar<Seq<char>>,
    workdir: Seq<char>,
    h: Seq<Resposta>,
)
    ensures
        ({
            let c = conexao_inicial(args, workdir);
            let acao = c.apos(h).acao_modelo();
            acao is InspecionaConfig || acao is Mascara || acao is Encerra || c.senha_mascarada(h)
        }),
{
    lema_coerente(args, workdir, h);
}

/// Law: when the VPN client is started, the configuration is in the work directory,
/// unchanged; so is the authentication file, if there are credentials; and both are
/// closed to others.
pub proof fn lei_arquivos_prontos_antes_do_cliente(
    args: ArgsConectar<Seq<char>>,
    workdir: Seq<char>,
    h: Seq<Resposta>,
)
    ensures
        ({
            let c = conexao_inicial(args, workdir);
            c.apos(h).acao_modelo() matches Acao::ExecutaOpenvpn { config, auth, pid_file } ==> {
                &&& c.arquivos_prontos(h)
                &&& config == ArquivoTrabalho::Config
                &&& auth == arquivo_auth(args)
                &&& pid_file == ArquivoTrabalho::Pid
            }
        }),
{
    lema_coerente(args, workdir, h);
}

/// Law: the authentication file is written only with both credentials; in particular it
/// is not written where one of them is empty.
pub proof fn lei_auth_so_com_credenciais(
    args: ArgsConectar<Seq<char>>,
    workdir: Seq<char>,
    h: Seq<Resposta>,
)
    ensures
        conexao_inicial(args, workdir).apos(h).acao_modelo() matches Acao::EscreveArquivo {
            arquivo,
            conteudo,
        } ==> (arquivo == ArquivoTrabalho::Auth ==> conteudo_auth(args) == Some(conteudo)),
{
    lema_coerente(args, workdir, h);
}

/// Law: a rehearsal never touches the environment, and is only a success once the files
/// are in place.
pub proof fn lei_ensaio_nao_toca_o_ambiente(
    args: ArgsConectar<Seq<char>>,
    workdir: Seq<char>,
    h: Seq<Resposta>,
)
    requires
        args.dry_run,
    ensures
        !toca_o_ambiente(conexao_inicial(args, workdir).apos(h).acao_modelo()),
        conexao_inicial(args, workdir).apos(h).etapa == EtapaConexao::Encerrada(
            Ok::<(), Erro<Seq<char>>>(()),
        ) ==> conexao_inicial(args, workdir).arquivos_prontos(h),
{
    lema_coerente(args, workdir, h);
}

/// Law: what is published is the tunnel that was found: its interface and its address,
/// after the VPN client was started.
pub proof fn lei_publica_o_tunel_encontrado(
    args: ArgsConectar<Seq<char>>,
    workdir: Seq<char>,
    h: Seq<Resposta>,
    key: Seq<char>,
    value: Seq<char>,
)
    requires
        conexao_inicial(args, workdir).apos(h).acao_modelo() == (Acao::PublicaOutput {
            key,
            value,
        }),
    ensures
        exists|interface: Seq<char>, ip: Seq<char>|
            #[trigger] conexao_inicial(args, workdir).tunel_ativo(h, interface, ip) && ((key
                == "interface"@ && value == interface) || (key == "tunnel-ip"@ && value == ip)),
{
    lema_coerente(args, workdir, h);
    let c = conexao_inicial(args, workdir);
    match c.apos(h).etapa {
        EtapaConexao::PublicandoInterface { interface, ip, .. } => {
            assert(c.tunel_ativo(h, interface, ip));
        },
        EtapaConexao::PublicandoIp { ip, .. } => {
            let interface = choose|interface: Seq<char>|
                #[trigger] c.tunel_ativo(h, interface, ip) && c.publicado(
                    h,
                    "interface"@,
                    interface,
                );
            assert(c.tunel_ativo(h, interface, ip));
        },
        _ => {},
    }
}

/// Law: a run in which no interface ever showed an address publishes nothing.
pub proof fn lei_sem_tunel_nada_e_publicado(
    args: ArgsConectar<Seq<char>>,
    workdir: Seq<char>,
    h: Seq<Resposta>,
)
    requires
        forall|interface: Seq<char>, ip: Seq<char>|
            !#[trigger] conexao_inicial(args, workdir).houve(
                h,
                Acao::LeIpv4 { interface },
                Evento::Ipv4(Ok(Some(ip))),
            ),
    ensures
        !(conexao_inicial(args, workdir).apos(h).acao_modelo() is PublicaOutput),
{
    let c = conexao_inicial(args, workdir);
    if let Acao::PublicaOutput { key, value } = c.apos(h).acao_modelo() {
        lei_publica_o_tunel_encontrado(args, workdir, h, key, value);
        let (interface, ip) = choose|interface: Seq<char>, ip: Seq<char>|
            #[trigger] c.tunel_ativo(h, interface, ip) && ((key == "interface"@ && value
                == interface) || (key == "tunnel-ip"@ && value == ip));
        assert(c.houve(h, Acao::LeIpv4 { interface }, Evento::Ipv4(Ok(Some(ip)))));
    }
}

/// Law: success without a rehearsal stands for a tunnel that is up and published, and
/// that was checked: the host of the health check accepted a connection, or else there is
/// no such host and the user was warned.
pub proof fn lei_sucesso_e_tunel_validado(
    args: ArgsConectar<Seq<char>>,
    workdir: Seq<char>,
    h: Seq<Resposta>,
)
    requires
        !args.dry_run,
        conexao_inicial(args, workdir).apos(h).etapa == EtapaConexao::Encerrada(
            Ok::<(), Erro<Seq<char>>>(()),
        ),
    ensures
        conexao_inicial(args, workdir).conexao_validada(h),
{
    lema_coerente(args, workdir, h);
}

/// Law: without a host for the health check no connection is tried.
pub proof fn lei_sem_host_nenhum_tcp(
    args: ArgsConectar<Seq<char>>,
    workdir: Seq<char>,
    h: Seq<Resposta>,
)
    requires
        args.healthcheck_host is None,
    ensures
        !(conexao_inicial(args, workdir).apos(h).acao_modelo() is TentaConexaoTcp),
{
    lema_coerente(args, workdir, h);
}

/// Law: a connection is tried only once the tunnel is up and published, against the host
/// and port that were asked for, and with the ceiling of an attempt for each address.
pub proof fn lei_tcp_so_com_tunel(
    args: ArgsConectar<Seq<char>>,
    workdir: Seq<char>,
    h: Seq<Resposta>,
)
    ensures
        conexao_inicial(args, workdir).apos(h).acao_modelo() matches Acao::TentaConexaoTcp {
            host,
            porta,
            timeout,
        } ==> {
            &&& conexao_inicial(args, workdir).tunel_publicado(h)
            &&& args.healthcheck_host == Some(host)
            &&& porta == args.healthcheck_port
            &&& timeout == segundos(TETO_TENTATIVA_SECS)
        },
{
    lema_coerente(args, workdir, h);
}

/// Law: a run that is over stays as it is.
pub proof fn lei_fim_e_definitivo(
    c: Conexao<Seq<char>>,
    h: Seq<Resposta>,
    depois: Seq<Resposta>,
)
    requires
        c.apos(h).acao_modelo() is Encerra,
    ensures
        c.apos(h + depois) == c.apos(h),
    decreases depois.len(),
{
    if depois.len() == 0 {
        assert(h + depois =~= h);
    } else {
        lei_fim_e_definitivo(c, h, depois.drop_last());
        assert((h + depois).drop_last() =~= h + depois.drop_last());
    }
}

/// Law: a failure of the VPN client, of the reading of the address or of the publication
/// of an output ends the run, with that failure and for good.
pub proof fn lei_falha_interrompe_o_fluxo(
    c: Conexao<Seq<char>>,
    h: Seq<Resposta>,
    falha: Resposta,
    e: Erro<Seq<char>>,
    depois: Seq<Resposta>,
)
    requires
        ({
            let acao = c.apos(h).acao_modelo();
            ||| (acao is ExecutaOpenvpn || acao is PublicaOutput) && falha.0
                == EventoModelo::Executado(Err(e))
            ||| acao is LeIpv4 && falha.0 == EventoModelo::Ipv4(Err(e))
        }),
    ensures
        c.apos(h.push(falha) + depois).etapa == EtapaConexao::Encerrada(
            Err::<(), Erro<Seq<char>>>(e),
        ),
{
    assert(h.push(falha).drop_last() =~= h);
    lei_fim_e_definitivo(c, h.push(falha), depois);
}

impl Conexao<Seq<char>> {
    /// Number of attempts of the health check in `h`.
    pub open spec fn tentativas(self, h: Seq<Resposta>) -> nat
        decreases h.len(),
    {
        if h.len() == 0 {
            0
        } else if self.apos(h.drop_last()).acao_modelo() is TentaConexaoTcp && h.last().0
            is Executado {
            self.tentativas(h.drop_last()) + 1
        } else {
            self.tentativas(h.drop_last())
        }
    }
}

/// Law: the attempts of the health check are counted without gaps: the number that is
/// told with a failed attempt is that of the attempts so far, and the next attempt is the
/// one after them.
pub proof fn lei_tentativas_contadas(
    args: ArgsConectar<Seq<char>>,
    workdir: Seq<char>,
    h: Seq<Resposta>,
)
    requires
        h.len() < u32::MAX,
    ensures
        ({
            let c = conexao_inicial(args, workdir);
            &&& c.tentativas(h) <= h.len()
            &&& match c.apos(h).etapa {
                EtapaConexao::Verificando { anteriores, .. } => anteriores == c.tentativas(h),
                EtapaConexao::Retentando { tentativa, .. } => tentativa == c.tentativas(h),
                EtapaConexao::AnunciandoSaude { tentativa, .. } => tentativa == c.tentativas(h),
                EtapaConexao::Encerrada(_) => true,
                _ => c.tentativas(h) == 0,
            }
        }),
    decreases h.len(),
{
    if h.len() > 0 {
        lei_tentativas_contadas(args, workdir, h.drop_last());
    }
}

// ---------------- The time of a connection ----------------

impl EtapaConexao<Seq<char>> {
    /// When the waits began, in the stages that need to know.
    pub open spec fn inicio(self) -> Option<Duracao> {
        match self {
            EtapaConexao::ListandoInterfaces { inicio }
            | EtapaConexao::PausandoInterfaces { inicio, .. }
            | EtapaConexao::LendoIp { inicio, .. }
            | EtapaConexao::PausandoIp { inicio, .. }
            | EtapaConexao::AnunciandoTunel { inicio, .. }
            | EtapaConexao::PublicandoInterface { inicio, .. }
            | EtapaConexao::PublicandoIp { inicio, .. }
            | EtapaConexao::Verificando { inicio, .. }
            | EtapaConexao::Retentando { inicio, .. } => Some(inicio),
            _ => None,
        }
    }

    /// The VPN client was announced before this stage.
    spec fn apos_anuncio(self) -> bool {
        self.inicio() is Some || self is AnunciandoSaude || self is Avisando || self is Encerrada
    }
}

impl Conexao<Seq<char>> {
    /// When the start of the VPN client was announced, if it was.
    pub open spec fn anuncio(self, h: Seq<Resposta>) -> Option<Duracao>
        decreases h.len(),
    {
        if h.len() == 0 {
            None
        } else if self.anuncio(h.drop_last()) is Some {
            self.anuncio(h.drop_last())
        } else if self.apos(h.drop_last()).etapa is AnunciandoCliente && h.last().0 is Feito {
            Some(h.last().1)
        } else {
            None
        }
    }

    /// `evento` answers the action that is due, but what the run waits for is not there: the
    /// interface is not listed, it has no address, or the host refused.
    pub open spec fn em_vao(self, evento: EventoModelo) -> bool {
        match self.acao_modelo() {
            Acao::ListaInterfaces => {
                &&& evento matches Evento::Interfaces(Ok(nomes))
                &&& interface_do_tunel(self.args, nomes) is None
            },
            Acao::LeIpv4 { .. } => evento matches Evento::Ipv4(Ok(ip)) && ip is None,
            Acao::TentaConexaoTcp { .. } => evento matches Evento::Executado(r) && r is Err,
            _ => false,
        }
    }

    /// At `agora`, less than the time for the connection has passed since `inicio`.
    pub open spec fn ha_tempo(self, inicio: Duracao, agora: Duracao) -> bool {
        decorrido(inicio, agora).nanos < segundos(self.args.timeout_secs).nanos
    }

    /// What the run waits for is not there, and there is time left.
    pub open spec fn adiada(self, evento: EventoModelo, agora: Duracao) -> bool {
        &&& self.em_vao(evento)
        &&& self.etapa.inicio() matches Some(inicio)
        &&& self.ha_tempo(inicio, agora)
    }
}

/// Law: one clock serves the whole connection. In every stage that knows when the waits
/// began, that is when the start of the VPN client was announced.
pub proof fn lei_um_so_inicio(
    args: ArgsConectar<Seq<char>>,
    workdir: Seq<char>,
    h: Seq<Resposta>,
)
    ensures
        conexao_inicial(args, workdir).apos(h).etapa.inicio() matches Some(inicio) ==> (
        conexao_inicial(args, workdir).anuncio(h) == Some(inicio)),
{
    lema_anuncio(args, workdir, h);
}

/// A run that has not come to the waits has not announced the VPN client, and one that is
/// waiting knows when it did.
proof fn lema_anuncio(args: ArgsConectar<Seq<char>>, workdir: Seq<char>, h: Seq<Resposta>)
    ensures
        ({
            let c = conexao_inicial(args, workdir);
            let etapa = c.apos(h).etapa;
            &&& !etapa.apos_anuncio() ==> c.anuncio(h) is None
            &&& etapa.inicio() is Some ==> c.anuncio(h) == etapa.inicio()
        }),
    decreases h.len(),
{
    if h.len() > 0 {
        lema_anuncio(args, workdir, h.drop_last());
    }
}

/// Law: the timeout is the total time for the connection. A look or an attempt in vain
/// ends the run, as a failure, if the timeout has passed since the VPN client was
/// announced, however the waits shared that time; and it does not end the run before.
pub proof fn lei_timeout_e_total(
    args: ArgsConectar<Seq<char>>,
    workdir: Seq<char>,
    h: Seq<Resposta>,
    r: Resposta,
)
    requires
        conexao_inicial(args, workdir).apos(h).em_vao(r.0),
    ensures
        ({
            let c = conexao_inicial(args, workdir);
            let depois = c.apos(h.push(r)).etapa;
            &&& c.anuncio(h) matches Some(inicio)
            &&& c.ha_tempo(inicio, r.1) <==> !(depois is Encerrada)
            &&& depois matches EtapaConexao::Encerrada(fim) ==> fim is Err
        }),
{
    lema_anuncio(args, workdir, h);
    lema_coerente(args, workdir, h);
    assert(h.push(r).drop_last() =~= h);
}

// ---------------- Success ----------------

impl Conexao<Seq<char>> {
    /// `evento` is the answer that one hopes for to the action that is due.
    pub open spec fn boa_resposta(self, evento: EventoModelo) -> bool {
        match self.acao_modelo() {
            Acao::InspecionaConfig => evento == (EventoModelo::Config {
                existe: true,
                regular: true,
            }),
            Acao::LeConfig => evento matches Evento::Lido(r) && r is Ok,
            Acao::EscreveArquivo { .. }
            | Acao::RestringePermissoes { .. } => evento matches Evento::Gravado(r) && r is Ok,
            Acao::ExecutaOpenvpn { .. }
            | Acao::PublicaOutput { .. }
            | Acao::TentaConexaoTcp { .. } => evento matches Evento::Executado(r) && r is Ok,
            Acao::ListaInterfaces => {
                &&& evento matches Evento::Interfaces(Ok(nomes))
                &&& interface_do_tunel(self.args, nomes) is Some
            },
            Acao::LeIpv4 { .. } => evento matches Evento::Ipv4(Ok(ip)) && ip is Some,
            Acao::Encerra => true,
            _ => evento is Feito,
        }
    }

    /// Number of looks and attempts of `h` that were in vain with time left.
    pub open spec fn adiamentos(self, h: Seq<Resposta>) -> nat
        decreases h.len(),
    {
        if h.len() == 0 {
            0
        } else if self.apos(h.drop_last()).adiada(h.last().0, h.last().1) {
            self.adiamentos(h.drop_last()) + 1
        } else {
            self.adiamentos(h.drop_last())
        }
    }

    /// Every answer of `h` is the one that one hopes for, or is in vain with time left.
    pub open spec fn tudo_bem(self, h: Seq<Resposta>) -> bool {
        forall|i: int|
            0 <= i < h.len() ==> {
                let atual = #[trigger] self.apos(h.take(i));
                atual.boa_resposta(h[i].0) || atual.adiada(h[i].0, h[i].1)
            }
    }

    /// Bound on the number of good answers that are still wanted.
    spec fn faltam(self) -> nat {
        match self.etapa {
            EtapaConexao::Validando => 16,
            EtapaConexao::Mascarando { .. } => 15,
            EtapaConexao::LendoConfig => 14,
            EtapaConexao::GravandoConfig { .. } => 13,
            EtapaConexao::RestringindoConfig => 12,
            EtapaConexao::GravandoAuth { .. } => 11,
            EtapaConexao::RestringindoAuth => 10,
            EtapaConexao::IniciandoCliente => 9,
            EtapaConexao::AnunciandoCliente => 8,
            EtapaConexao::PausandoInterfaces { .. } => 8,
            EtapaConexao::ListandoInterfaces { .. } => 7,
            EtapaConexao::PausandoIp { .. } => 7,
            EtapaConexao::LendoIp { .. } => 6,
            EtapaConexao::AnunciandoTunel { .. } => 5,
            EtapaConexao::PublicandoInterface { .. } => 4,
            EtapaConexao::PublicandoIp { .. } => 3,
            EtapaConexao::Retentando { .. } => 3,
            EtapaConexao::Verificando { .. } => 2,
            EtapaConexao::AnunciandoSaude { .. } => 1,
            EtapaConexao::Avisando => 1,
            EtapaConexao::RelatandoEnsaio => 1,
            EtapaConexao::Encerrada(_) => 0,
        }
    }
}

/// Good answers bring a run closer to its end; one in vain puts it off by two, itself and
/// the pause after it; neither leads to a failure.
proof fn lema_boas_respostas(
    args: ArgsConectar<Seq<char>>,
    workdir: Seq<char>,
    h: Seq<Resposta>,
)
    requires
        precondicoes(args, true, true) is Ok,
        conexao_inicial(args, workdir).tudo_bem(h),
    ensures
        ({
            let c = conexao_inicial(args, workdir);
            let atual = c.apos(h);
            &&& atual.args == args
            &&& atual.faltam() == 0 || atual.faltam() + h.len() <= 16 + 2 * c.adiamentos(h)
            &&& atual.etapa matches EtapaConexao::Encerrada(fim) ==> fim is Ok
        }),
    decreases h.len(),
{
    let c = conexao_inicial(args, workdir);
    if h.len() > 0 {
        let a = h.drop_last();
        assert forall|i: int| 0 <= i < a.len() implies {
            let atual = #[trigger] c.apos(a.take(i));
            atual.boa_resposta(a[i].0) || atual.adiada(a[i].0, a[i].1)
        } by {
            assert(a.take(i) =~= h.take(i));
        }
        lema_boas_respostas(args, workdir, a);
        assert(h.take(h.len() - 1) =~= a);
        assert(c.apos(a).boa_resposta(h.last().0) || c.apos(a).adiada(h.last().0, h.last().1));
    }
}

/// Law: success is owed. Where the credentials go together and every action is answered as
/// one hopes, but for looks and attempts in vain while there is time left, the run ends,
/// and as a success: it wants no more than sixteen good answers, and one more for the pause
/// after each answer in vain.
pub proof fn lei_boas_respostas_levam_ao_sucesso(
    args: ArgsConectar<Seq<char>>,
    workdir: Seq<char>,
    h: Seq<Resposta>,
)
    requires
        precondicoes(args, true, true) is Ok,
        conexao_inicial(args, workdir).tudo_bem(h),
        h.len() >= 16 + 2 * conexao_inicial(args, workdir).adiamentos(h),
    ensures
        conexao_inicial(args, workdir).apos(h).etapa == EtapaConexao::Encerrada(
            Ok::<(), Erro<Seq<char>>>(()),
        ),
{
    lema_boas_respostas(args, workdir, h);
    if let EtapaConexao::Encerrada(Ok(u)) = conexao_inicial(args, workdir).apos(h).etapa {
        assert(u == ());
    }
}

} // verus!
