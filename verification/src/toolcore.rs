//! The conventions of a CI runner: step outputs, annotations, masked secrets and
//! environment variables. Each function degrades gracefully outside a runner.
//!
//! The functions decide which line is written and where; reading the environment and
//! writing the line are left to the caller.

use vstd::prelude::*;
use vstd::string::*;

use crate::erro::{resultado, Erro};

verus! {

/// A line of text (without its line feed) and where it goes.
#[derive(Debug, PartialEq, Eq)]
pub enum Linha<T = String> {
    /// Standard output.
    Stdout(T),
    /// Standard error.
    Stderr(T),
    /// The end of the file that `$GITHUB_OUTPUT` names.
    Output(T),
}

impl View for Linha<String> {
    type V = Linha<Seq<char>>;

    open spec fn view(&self) -> Linha<Seq<char>> {
        match *self {
            Linha::Stdout(t) => Linha::Stdout(t@),
            Linha::Stderr(t) => Linha::Stderr(t@),
            Linha::Output(t) => Linha::Output(t@),
        }
    }
}

impl DeepView for Linha<String> {
    type V = Linha<Seq<char>>;

    open spec fn deep_view(&self) -> Linha<Seq<char>> {
        self@
    }
}

/// Tells whether the program runs inside a runner: `$GITHUB_ACTIONS` is set, whatever it
/// holds.
pub fn rodando_runner_github(github_actions: &Option<Vec<u8>>) -> (r: bool)
    ensures
        r == (github_actions is Some),
{
    github_actions.is_some()
}

/// The line that publishes the output `key`.
pub open spec fn linha_output(
    key: Seq<char>,
    value: Seq<char>,
    tem_arquivo: bool,
) -> Linha<Seq<char>> {
    let texto = key + "="@ + value;
    if tem_arquivo {
        Linha::Output(texto)
    } else {
        Linha::Stdout(texto)
    }
}

/// Publishes a step output: `key=value`, appended to the file that `$GITHUB_OUTPUT`
/// names, or on standard output where it is not set.
pub fn escreve_output(key: &str, value: &str, github_output: &Option<Vec<u8>>) -> (r: Linha)
    ensures
        r@ == linha_output(key@, value@, github_output is Some),
{
    let texto = key.to_owned().concat("=").concat(value);
    if github_output.is_some() {
        Linha::Output(texto)
    } else {
        Linha::Stdout(texto)
    }
}

/// The outcome of appending to the outputs file: it failed to open, or it was opened
/// and the line was or was not written.
pub fn conclui_output(abertura: Result<Result<(), String>, String>) -> (r: Result<(), Erro>)
    ensures
        resultado(r) == (match abertura {
            Ok(Ok(())) => Ok(()),
            Ok(Err(causa)) => Err(Erro::EscritaOutput { causa: causa@ }),
            Err(causa) => Err(Erro::AberturaOutput { causa: causa@ }),
        }),
{
    match abertura {
        Ok(Ok(())) => Ok(()),
        Ok(Err(causa)) => Err(Erro::EscritaOutput { causa }),
        Err(causa) => Err(Erro::AberturaOutput { causa }),
    }
}

/// The line that shows an annotation.
pub open spec fn linha_anotacao(
    level: Seq<char>,
    message: Seq<char>,
    no_runner: bool,
) -> Linha<Seq<char>> {
    if no_runner {
        Linha::Stdout("::"@ + level + "::"@ + message)
    } else {
        Linha::Stderr("["@ + level + "] "@ + message)
    }
}

/// Shows an annotation of level `"error"`, `"warning"` or `"notice"`. The protocol of the
/// runner wants it on standard output; elsewhere it is a diagnostic, so that standard
/// output is left to the outputs.
pub fn emite_anotacao(level: &str, message: &str, no_runner: bool) -> (r: Linha)
    ensures
        r@ == linha_anotacao(level@, message@, no_runner),
{
    if no_runner {
        Linha::Stdout("::".to_owned().concat(level).concat("::").concat(message))
    } else {
        Linha::Stderr("[".to_owned().concat(level).concat("] ").concat(message))
    }
}

/// The line that asks the runner to hide `value`, where there is something to hide and a
/// runner to ask.
pub open spec fn linha_mascara(value: Seq<char>, no_runner: bool) -> Option<Linha<Seq<char>>> {
    if value.len() == 0 || !no_runner {
        None
    } else {
        Some(Linha::Stdout("::add-mask::"@ + value))
    }
}

/// Asks the runner to hide `value` in all later logs. Does nothing outside a runner, nor
/// for an empty value.
pub fn mascara_env_logs(value: &str, no_runner: bool) -> (r: Option<Linha>)
    ensures
        r.deep_view() == linha_mascara(value@, no_runner),
{
    if value.is_empty() || !no_runner {
        None
    } else {
        Some(Linha::Stdout("::add-mask::".to_owned().concat(value)))
    }
}

/// The value of a mandatory environment variable, given its value if it is set (to valid
/// text). The failure names the variable.
pub fn env_obrigatoria(key: &str, valor: Option<String>) -> (r: Result<String, Erro>)
    ensures
        resultado(r) == (match valor {
            Some(v) => Ok(v@),
            None => Err(Erro::VariavelAusente { nome: key@ }),
        }),
{
    match valor {
        Some(v) => Ok(v),
        None => Err(Erro::VariavelAusente { nome: key.to_owned() }),
    }
}

// ---------------- Laws ----------------

/// Law: outside a runner standard output carries nothing but step outputs: annotations
/// go to standard error and masks are not written at all.
pub proof fn lei_fora_do_runner_stdout_fica_limpo(
    level: Seq<char>,
    message: Seq<char>,
    value: Seq<char>,
)
    ensures
        linha_anotacao(level, message, false) is Stderr,
        linha_mascara(value, false) is None,
{
}

/// Law: an output is written as the same text inside a runner and outside it.
pub proof fn lei_output_tem_o_mesmo_texto(key: Seq<char>, value: Seq<char>)
    ensures
        linha_output(key, value, true) == Linha::Output(key + "="@ + value),
        linha_output(key, value, false) == Linha::Stdout(key + "="@ + value),
{
}

} // verus!
