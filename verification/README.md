# vpnctl

Manages the lifecycle of a VPN tunnel on a CI runner: `conectar` brings the tunnel up and
checks that it works, `desconectar` takes it down and cleans up. Only OpenVPN is supported.

The decisions live in a library that is verified with Verus; the program around it only
performs what the library asks for.

- `src/`: the library. Each command is a state machine: its state tells the next action
  (`acao`), and the event that came of it leads to the next state (`avanca`).
  - `args`, `caminho`, `duracao`, `erro`, `numero`, `texto`: the values.
  - `sistema`, `tcp`, `toolcore`: how the system and the runner are talked to, and what
    their answers mean.
  - `espera`: backoff and waits.
  - `acao`, `conexao`, `desconexao`, `execucao`: the commands and the program.
  - `leis_conexao`, `leis_desconexao`, `leis_execucao`: what holds of every run.
- `tests/`: tests, with whole runs against an environment that lives in memory.
- `app/`: the command line, the clock, files, processes and sockets.

Every contract speaks of the views of the values: a type over `String` is seen as the same
type over `Seq<char>`. Two things are trusted: `String::push` appends its argument, and
`fastrand::u64` draws a number of the range that it is given.
