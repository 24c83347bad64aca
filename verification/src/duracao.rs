//! Spans of time, in whole nanoseconds.

use vstd::prelude::*;

verus! {

/// A span of time. Readings of the monotonic clock are spans since a fixed instant.
#[derive(Clone, Copy, Debug, PartialEq, Eq, Structural)]
pub struct Duracao {
    pub nanos: u128,
}

/// The span of `s` seconds.
pub open spec fn segundos(s: u64) -> Duracao {
    Duracao { nanos: (s * 1_000_000_000) as u128 }
}

/// The span of `ms` milliseconds.
pub open spec fn milissegundos(ms: u64) -> Duracao {
    Duracao { nanos: (ms * 1_000_000) as u128 }
}

/// The span from `inicio` to `agora`, or zero if `agora` is not later.
pub open spec fn decorrido(inicio: Duracao, agora: Duracao) -> Duracao {
    Duracao {
        nanos: if agora.nanos >= inicio.nanos {
            (agora.nanos - inicio.nanos) as u128
        } else {
            0
        },
    }
}

impl Duracao {
    /// The span of `s` seconds.
    pub fn from_secs(s: u64) -> (r: Duracao)
        ensures
            r == segundos(s),
            r.nanos == s * 1_000_000_000,
    {
        Duracao { nanos: s as u128 * 1_000_000_000 }
    }

    /// The span of `ms` milliseconds.
    pub fn from_millis(ms: u64) -> (r: Duracao)
        ensures
            r == milissegundos(ms),
            r.nanos == ms * 1_000_000,
    {
        Duracao { nanos: ms as u128 * 1_000_000 }
    }

    /// The whole seconds in this span.
    pub fn as_secs(&self) -> (r: u128)
        ensures
            r == self.nanos / 1_000_000_000,
    {
        self.nanos / 1_000_000_000
    }

    /// The whole milliseconds in this span.
    pub fn as_millis(&self) -> (r: u128)
        ensures
            r == self.nanos / 1_000_000,
    {
        self.nanos / 1_000_000
    }

    /// The span from this reading of the clock to `agora`, or zero if `agora` is not later.
    pub fn ate(self, agora: Duracao) -> (r: Duracao)
        ensures
            r == decorrido(self, agora),
            agora.nanos >= self.nanos ==> r.nanos == agora.nanos - self.nanos,
            agora.nanos < self.nanos ==> r.nanos == 0,
    {
        if agora.nanos >= self.nanos {
            Duracao { nanos: agora.nanos - self.nanos }
        } else {
            Duracao { nanos: 0 }
        }
    }
}

} // verus!
