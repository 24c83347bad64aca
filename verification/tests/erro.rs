//! The message of each failure.

use vpnctl::erro::Erro;
use vpnctl::numero::NumeroInvalido;

fn t(s: &str) -> String {
    s.to_string()
}

fn confere(erro: Erro, esperada: &str) {
    assert_eq!(erro.mensagem(), esperada);
}

#[test]
fn mensagens_da_preparacao() {
    confere(
        Erro::DiretorioTrabalho { dir: t("/tmp/vpnctl"), causa: t("cheio") },
        "falha ao criar diretório de trabalho /tmp/vpnctl: cheio",
    );
    confere(
        Erro::ConfigNaoEncontrada { config: t("/c/x.ovpn") },
        "arquivo de configuração não encontrado: /c/x.ovpn",
    );
    confere(
        Erro::ConfigNaoRegular { config: t("/c") },
        "caminho de configuração não é um arquivo regular: /c",
    );
    confere(Erro::SenhaAusente, "--username foi informado mas --password está ausente");
    confere(Erro::UsuarioAusente, "--password foi informado mas --username está ausente");
    confere(
        Erro::LeituraConfig { config: t("/c/x.ovpn"), causa: t("negado") },
        "falha ao ler config: /c/x.ovpn: negado",
    );
    confere(
        Erro::EscritaConfig { destino: t("/w/vpn.conf"), causa: t("cheio") },
        "falha ao escrever config segura em /w/vpn.conf: cheio",
    );
    confere(
        Erro::EscritaAuth { destino: t("/w/auth.txt"), causa: t("cheio") },
        "falha ao escrever auth file em /w/auth.txt: cheio",
    );
    confere(
        Erro::Permissoes { caminho: t("/w/auth.txt"), causa: t("negado") },
        "falha ao restringir permissões de /w/auth.txt: negado",
    );
}

#[test]
fn mensagens_dos_comandos() {
    confere(
        Erro::OpenvpnNaoExecutou { causa: t("x") },
        "falha ao executar openvpn — binário instalado e acessível?: x",
    );
    confere(
        Erro::OpenvpnRetornou { status: t("exit status: 1"), stderr: t("a"), stdout: t("b") },
        "openvpn retornou exit status: 1 — stderr: a | stdout: b",
    );
    confere(
        Erro::IpLinkNaoExecutou { causa: t("x") },
        "falha ao executar `ip link show` — iproute2 instalado?: x",
    );
    confere(
        Erro::IpLinkRetornou { status: t("exit status: 1"), stderr: t("a") },
        "`ip link show` retornou exit status: 1: a",
    );
    confere(
        Erro::IpAddrNaoExecutou { causa: t("x") },
        "falha ao executar `ip -4 -o addr show`: x",
    );
    confere(Erro::KillNaoExecutou { causa: t("x") }, "falha ao executar `kill -TERM`: x");
    confere(Erro::KillFalhou { pid: 42, stderr: t("negado") }, "kill -TERM 42 falhou: negado");
    confere(Erro::SondaNaoExecutou { causa: t("x") }, "falha ao executar `kill -0`: x");
}

#[test]
fn mensagens_das_esperas() {
    confere(
        Erro::ListaInterfaces { causa: t("x") },
        "falha ao listar interfaces de rede: x",
    );
    confere(
        Erro::TimeoutInterface { segundos: 60, nome: t("tun5") },
        "timeout de 60s aguardando interface 'tun5' aparecer",
    );
    confere(
        Erro::TimeoutPrefixo { segundos: 1, prefixo: t("tun") },
        "timeout de 1s aguardando interface com prefixo 'tun*' aparecer",
    );
    confere(
        Erro::TimeoutIp { segundos: 1, interface: t("tun0") },
        "timeout de 1s aguardando IPv4 na interface 'tun0'",
    );
    confere(
        Erro::NaoEncerrou { pid: 4242, segundos: 10 },
        "openvpn (pid 4242) não encerrou em 10s após SIGTERM",
    );
}

#[test]
fn mensagens_do_healthcheck() {
    confere(
        Erro::Resolucao { endereco: t("h:443"), causa: t("x") },
        "não foi possível resolver h:443: x",
    );
    confere(
        Erro::NenhumEndereco { endereco: t("h:443") },
        "nenhum endereço resolvido para h:443",
    );
    confere(
        Erro::ConexaoTcp { endereco: t("h:443"), causa: t("x") },
        "connect TCP para h:443 falhou em todos os endereços: x",
    );
    confere(
        Erro::Healthcheck { host: t("h"), porta: 443, tentativas: 3, segundos: 60, causa: t("x") },
        "healthcheck falhou em h:443 após 3 tentativa(s) em 60s: x",
    );
}

#[test]
fn mensagens_do_runner_e_do_pid() {
    confere(Erro::AberturaOutput { causa: t("x") }, "falha ao abrir $GITHUB_OUTPUT: x");
    confere(Erro::EscritaOutput { causa: t("x") }, "falha ao escrever em $GITHUB_OUTPUT: x");
    confere(
        Erro::LeituraPid { caminho: t("/w/openvpn.pid"), causa: t("x") },
        "falha ao ler /w/openvpn.pid: x",
    );
    confere(
        Erro::PidInvalido { caminho: t("/w/openvpn.pid"), motivo: NumeroInvalido::Vazio },
        "conteúdo inválido em /w/openvpn.pid: cannot parse integer from empty string",
    );
    confere(
        Erro::PidInvalido { caminho: t("/w/openvpn.pid"), motivo: NumeroInvalido::Digito },
        "conteúdo inválido em /w/openvpn.pid: invalid digit found in string",
    );
    confere(
        Erro::PidInvalido { caminho: t("/w/openvpn.pid"), motivo: NumeroInvalido::Grande },
        "conteúdo inválido em /w/openvpn.pid: number too large to fit in target type",
    );
    confere(
        Erro::VariavelAusente { nome: t("VPN_PASSWORD") },
        "variável de ambiente obrigatória não definida: VPN_PASSWORD",
    );
}
