//! Where the files of a session live.

use vstd::prelude::*;
use vstd::string::*;

use crate::texto::caracteres;

verus! {

/// The files that `conectar` leaves in the work directory and `desconectar` removes.
#[derive(Clone, Copy, Debug, PartialEq, Eq, Structural)]
pub enum ArquivoTrabalho {
    /// Process id of the VPN client.
    Pid,
    /// Private copy of the VPN configuration.
    Config,
    /// User name and password for the VPN client.
    Auth,
}

impl ArquivoTrabalho {
    /// Name of the file inside the work directory.
    pub open spec fn nome_modelo(self) -> Seq<char> {
        match self {
            ArquivoTrabalho::Pid => "openvpn.pid"@,
            ArquivoTrabalho::Config => "vpn.conf"@,
            ArquivoTrabalho::Auth => "auth.txt"@,
        }
    }

    /// Path of the file, as shown in messages, inside the directory shown as `workdir`.
    pub open spec fn em(self, workdir: Seq<char>) -> Seq<char> {
        juntado(workdir, '/', self.nome_modelo())
    }

    /// Name of the file inside the work directory.
    pub fn nome(self) -> (r: &'static str)
        ensures
            r@ == self.nome_modelo(),
    {
        match self {
            ArquivoTrabalho::Pid => "openvpn.pid",
            ArquivoTrabalho::Config => "vpn.conf",
            ArquivoTrabalho::Auth => "auth.txt",
        }
    }

    /// Path of the file, as shown in messages, inside the directory shown as `workdir`.
    pub fn caminho(self, workdir: &str) -> (r: String)
        ensures
            r@ == self.em(workdir@),
    {
        let nome = self.nome();
        let v = caracteres(workdir);
        if v.len() == 0 {
            nome.to_owned()
        } else if v[v.len() - 1] == '/' {
            workdir.to_owned().concat(nome)
        } else {
            let mut r = workdir.to_owned();
            r.push('/');
            r.concat(nome)
        }
    }
}

/// The path of `nome` (a relative name) inside `dir`: the two with one separator
/// between them, unless `dir` is empty or already ends in one.
pub open spec fn juntado<T>(dir: Seq<T>, separador: T, nome: Seq<T>) -> Seq<T> {
    if dir.len() == 0 {
        nome
    } else if dir.last() == separador {
        dir + nome
    } else {
        dir.push(separador) + nome
    }
}

/// The work directory as a function of `$RUNNER_TEMP`, both of them raw bytes.
pub open spec fn diretorio_modelo(runner_temp: Option<Seq<u8>>) -> Seq<u8> {
    let base = match runner_temp {
        Some(b) => b,
        None => "/tmp".spec_bytes(),
    };
    juntado(base, 47u8, "vpnctl".spec_bytes())
}

/// Path of the work directory that `conectar` and `desconectar` share: `vpnctl` inside
/// `$RUNNER_TEMP` where it is set, else `/tmp/vpnctl`. It is fixed, so that the one process
/// finds what the other left.
pub fn diretorio_trabalho(runner_temp: Option<Vec<u8>>) -> (r: Vec<u8>)
    ensures
        r@ == diretorio_modelo(
            match runner_temp {
                Some(b) => Some(b@),
                None => None,
            },
        ),
        runner_temp is None ==> r@ == "/tmp/vpnctl".spec_bytes(),
{
    proof {
        reveal_strlit("/tmp");
        reveal_strlit("vpnctl");
        reveal_strlit("/tmp/vpnctl");
        is_ascii_spec_bytes("/tmp");
        is_ascii_spec_bytes("vpnctl");
        is_ascii_spec_bytes("/tmp/vpnctl");
    }
    let mut dir = match runner_temp {
        Some(b) => b,
        None => "/tmp".as_bytes_vec(),
    };
    if dir.len() > 0 && dir[dir.len() - 1] != 47 {
        dir.push(47);
    }
    let mut nome = "vpnctl".as_bytes_vec();
    dir.append(&mut nome);
    dir
}

} // verus!
