//! Decimal numerals: how a number is written, and how a `u32` is read.

use vstd::prelude::*;

use crate::texto::caracteres;

verus! {

/// Why a text is not the numeral of a `u32`.
#[derive(Clone, Copy, Debug, PartialEq, Eq, Structural)]
pub enum NumeroInvalido {
    /// There is no text.
    Vazio,
    /// A character is not a decimal digit, or there is only a sign.
    Digito,
    /// The value does not fit.
    Grande,
}

/// The digit of value `d`.
pub open spec fn digito(d: nat) -> char {
    (48 + d) as char
}

/// The decimal numeral of `n`, without leading zeros.
pub open spec fn decimal(n: nat) -> Seq<char>
    decreases n,
{
    if n < 10 {
        seq![digito(n)]
    } else {
        decimal(n / 10).push(digito(n % 10))
    }
}

/// `c` is an ASCII digit.
pub open spec fn eh_digito(c: char) -> bool {
    '0' <= c <= '9'
}

/// Number of digits at the start of `s`.
pub open spec fn digitos(s: Seq<char>) -> nat
    decreases s.len(),
{
    if s.len() == 0 || !eh_digito(s[0]) {
        0
    } else {
        1 + digitos(s.drop_first())
    }
}

/// The value of a sequence of digits, most significant first.
pub open spec fn valor(s: Seq<char>) -> nat
    decreases s.len(),
{
    if s.len() == 0 {
        0
    } else {
        valor(s.drop_last()) * 10 + (s.last() as nat - 48) as nat
    }
}

/// `s` without one plus sign at its start.
pub open spec fn sem_sinal(s: Seq<char>) -> Seq<char> {
    if s.len() > 0 && s[0] == '+' {
        s.drop_first()
    } else {
        s
    }
}

/// The `u32` that `s` writes: an optional plus sign, then digits and nothing else.
/// The value of the leading digits is judged before the character that follows them.
pub open spec fn numero(s: Seq<char>) -> Result<u32, NumeroInvalido> {
    let c = sem_sinal(s);
    let v = valor(c.take(digitos(c) as int));
    if s.len() == 0 {
        Err(NumeroInvalido::Vazio)
    } else if c.len() == 0 {
        Err(NumeroInvalido::Digito)
    } else if v > u32::MAX {
        Err(NumeroInvalido::Grande)
    } else if digitos(c) < c.len() {
        Err(NumeroInvalido::Digito)
    } else {
        Ok(v as u32)
    }
}

/// `digitos` counts the digits at the start of `s`.
pub proof fn lema_digitos(s: Seq<char>)
    ensures
        digitos(s) <= s.len(),
        digitos(s) < s.len() ==> !eh_digito(s[digitos(s) as int]),
        forall|i: int| 0 <= i < digitos(s) ==> eh_digito(#[trigger] s[i]),
    decreases s.len(),
{
    if s.len() > 0 && eh_digito(s[0]) {
        let r = s.drop_first();
        lema_digitos(r);
        assert forall|i: int| 0 <= i < digitos(s) implies eh_digito(#[trigger] s[i]) by {
            if i > 0 {
                assert(r[i - 1] == s[i]);
            }
        }
    }
}

/// A sequence made of digits alone has as many leading digits as characters.
proof fn lema_so_digitos(s: Seq<char>)
    requires
        forall|i: int| 0 <= i < s.len() ==> eh_digito(#[trigger] s[i]),
    ensures
        digitos(s) == s.len(),
{
    lema_digitos(s);
}

/// A longer run of digits has no smaller value.
pub proof fn lema_valor_cresce(s: Seq<char>, i: int)
    requires
        0 <= i <= s.len(),
    ensures
        valor(s.take(i)) <= valor(s),
    decreases s.len(),
{
    if i < s.len() {
        assert(s.drop_last().take(i) =~= s.take(i));
        lema_valor_cresce(s.drop_last(), i);
    } else {
        assert(s.take(i) =~= s);
    }
}

/// Writes `n` in decimal.
pub fn escreve_decimal(n: u128) -> (r: String)
    ensures
        r@ == decimal(n as nat),
    decreases n,
{
    let d: u8 = (n % 10) as u8;
    let c: char = (48u8 + d) as char;
    if n < 10 {
        let mut r = String::new();
        r.push(c);
        r
    } else {
        let mut r = escreve_decimal(n / 10);
        r.push(c);
        r
    }
}

/// Reads the `u32` that `s` writes.
pub fn interpreta_u32(s: &str) -> (r: Result<u32, NumeroInvalido>)
    ensures
        r == numero(s@),
{
    let v = caracteres(s);
    if v.len() == 0 {
        return Err(NumeroInvalido::Vazio);
    }
    let inicio: usize = if v[0] == '+' {
        1
    } else {
        0
    };
    let ghost c = sem_sinal(s@);
    if inicio == v.len() {
        return Err(NumeroInvalido::Digito);
    }
    let ghost k = digitos(c) as int;
    proof {
        lema_digitos(c);
    }
    let mut i: usize = inicio;
    let mut total: u32 = 0;
    while i < v.len() && '0' <= v[i] && v[i] <= '9'
        invariant
            inicio <= i <= v@.len(),
            inicio < v@.len(),
            c == v@.skip(inicio as int),
            c == sem_sinal(s@),
            v@ == s@,
            k == digitos(c),
            i - inicio <= k <= c.len(),
            k < c.len() ==> !eh_digito(c[k]),
            forall|j: int| 0 <= j < k ==> eh_digito(#[trigger] c[j]),
            total == valor(c.take(i - inicio)),
        decreases v@.len() - i,
    {
        let d: u32 = v[i] as u32 - 48;
        let ghost p = c.take(i - inicio + 1);
        assert(p.drop_last() =~= c.take(i - inicio));
        let soma: u64 = total as u64 * 10 + d as u64;
        if soma > 4294967295 {
            proof {
                assert(c.take(k).take(i - inicio + 1) =~= p);
                lema_valor_cresce(c.take(k), i - inicio + 1);
            }
            return Err(NumeroInvalido::Grande);
        }
        total = soma as u32;
        i += 1;
    }
    assert(i < v@.len() ==> c[i - inicio] == v@[i as int]);
    if i < v.len() {
        Err(NumeroInvalido::Digito)
    } else {
        Ok(total)
    }
}

/// A numeral is not empty, and all its characters are digits.
pub proof fn lema_decimal_digitos(n: nat)
    ensures
        decimal(n).len() > 0,
        forall|i: int| 0 <= i < decimal(n).len() ==> eh_digito(#[trigger] decimal(n)[i]),
    decreases n,
{
    if n >= 10 {
        lema_decimal_digitos(n / 10);
    }
}

/// The numeral of a number has that number as its value.
proof fn lema_decimal_valor(n: nat)
    ensures
        valor(decimal(n)) == n,
    decreases n,
{
    let s = decimal(n);
    if n >= 10 {
        lema_decimal_valor(n / 10);
        assert(s.drop_last() =~= decimal(n / 10));
    } else {
        assert(valor(s.drop_last()) == 0);
    }
}

/// Law: reading back what was written gives the number that was written.
pub proof fn lei_decimal_ida_e_volta(n: u32)
    ensures
        numero(decimal(n as nat)) == Ok::<u32, NumeroInvalido>(n),
{
    let s = decimal(n as nat);
    lema_decimal_digitos(n as nat);
    lema_decimal_valor(n as nat);
    lema_so_digitos(s);
    assert(s.take(s.len() as int) =~= s);
}

} // verus!
