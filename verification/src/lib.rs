//! Lifecycle of a VPN tunnel on a CI runner.

pub mod acao;
pub mod args;
pub mod caminho;
pub mod conexao;
pub mod desconexao;
pub mod duracao;
pub mod erro;
pub mod espera;
pub mod execucao;
pub mod leis_conexao;
pub mod leis_desconexao;
pub mod leis_execucao;
pub mod leis_passos;
pub mod leis_sistema;
pub mod leis_texto;
pub mod leis_valores;
pub mod leis_vistas;
pub mod numero;
pub mod sistema;
pub mod tcp;
pub mod texto;
pub mod toolcore;
