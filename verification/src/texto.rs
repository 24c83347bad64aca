//! Text primitives: white space, trimming, lines, fields, searches.
//!
//! The algorithms run on vectors of characters; the specifications speak of
//! `Seq<char>`, which is the view of `str` and `String`.

use vstd::prelude::*;

verus! {

/// `String::push` appends the given character to the end of the string.
pub assume_specification[ String::push ](s: &mut String, ch: char)
    ensures
        final(s)@ == old(s)@.push(ch),
;

// ---------------- White space ----------------

/// Characters with the Unicode property `White_Space`.
pub open spec fn branco(c: char) -> bool {
    ||| '\u{9}' <= c <= '\u{d}'
    ||| c == '\u{20}'
    ||| c == '\u{85}'
    ||| c == '\u{a0}'
    ||| c == '\u{1680}'
    ||| '\u{2000}' <= c <= '\u{200a}'
    ||| c == '\u{2028}'
    ||| c == '\u{2029}'
    ||| c == '\u{202f}'
    ||| c == '\u{205f}'
    ||| c == '\u{3000}'
}

/// Tells whether `c` is white space.
pub fn eh_branco(c: char) -> (r: bool)
    ensures
        r == branco(c),
{
    ('\u{9}' <= c && c <= '\u{d}') || c == '\u{20}' || c == '\u{85}' || c == '\u{a0}' || c
        == '\u{1680}' || ('\u{2000}' <= c && c <= '\u{200a}') || c == '\u{2028}' || c == '\u{2029}'
        || c == '\u{202f}' || c == '\u{205f}' || c == '\u{3000}'
}

// ---------------- Conversions ----------------

/// The characters of `s`, in order.
pub fn caracteres(s: &str) -> (v: Vec<char>)
    ensures
        v@ == s@,
{
    let mut v: Vec<char> = Vec::new();
    for c in it: s.chars()
        invariant
            it.seq() == s@,
            v@ == s@.take(it.index()),
    {
        v.push(c);
    }
    v
}

/// The string made of the characters `v[inicio..fim]`.
pub fn trecho(v: &Vec<char>, inicio: usize, fim: usize) -> (s: String)
    requires
        inicio <= fim <= v@.len(),
    ensures
        s@ == v@.subrange(inicio as int, fim as int),
{
    let mut s = String::new();
    let mut i: usize = inicio;
    while i < fim
        invariant
            inicio <= i <= fim <= v@.len(),
            s@ == v@.subrange(inicio as int, i as int),
        decreases fim - i,
    {
        s.push(v[i]);
        i += 1;
    }
    s
}

// ---------------- Prefixes and suffixes ----------------

/// Number of characters of `s` before the first `c` (all of them if there is none).
pub open spec fn posicao(s: Seq<char>, c: char) -> nat
    decreases s.len(),
{
    if s.len() == 0 || s[0] == c {
        0
    } else {
        1 + posicao(s.drop_first(), c)
    }
}

/// The text of `s` before the first `c`, or all of `s` if there is none.
pub open spec fn ate(s: Seq<char>, c: char) -> Seq<char> {
    s.take(posicao(s, c) as int)
}

/// `s` without the run of `c` at its end.
pub open spec fn sem_sufixo(s: Seq<char>, c: char) -> Seq<char>
    decreases s.len(),
{
    if s.len() > 0 && s.last() == c {
        sem_sufixo(s.drop_last(), c)
    } else {
        s
    }
}

/// `posicao` is the index of the first `c`, or the length of `s`.
pub proof fn lema_posicao(s: Seq<char>, c: char)
    ensures
        posicao(s, c) <= s.len(),
        posicao(s, c) < s.len() ==> s[posicao(s, c) as int] == c,
        forall|i: int| 0 <= i < posicao(s, c) ==> s[i] != c,
    decreases s.len(),
{
    if s.len() > 0 && s[0] != c {
        let r = s.drop_first();
        lema_posicao(r, c);
        assert forall|i: int| 0 <= i < posicao(s, c) implies s[i] != c by {
            if i > 0 {
                assert(r[i - 1] == s[i]);
            }
        }
    }
}

/// Index of the first `c` in `v[inicio..]`, or the length of `v`.
pub fn busca(v: &Vec<char>, inicio: usize, c: char) -> (r: usize)
    requires
        inicio <= v@.len(),
    ensures
        r == inicio + posicao(v@.skip(inicio as int), c),
        inicio <= r <= v@.len(),
{
    let mut i: usize = inicio;
    while i < v.len() && v[i] != c
        invariant
            inicio <= i <= v@.len(),
            posicao(v@.skip(inicio as int), c) == (i - inicio) + posicao(v@.skip(i as int), c),
        decreases v@.len() - i,
    {
        assert(v@.skip(i as int).drop_first() =~= v@.skip(i + 1));
        i += 1;
    }
    i
}

/// Tells whether `s` starts with `prefixo`.
pub fn comeca_com(s: &str, prefixo: &str) -> (r: bool)
    ensures
        r == prefixo@.is_prefix_of(s@),
{
    let a = caracteres(s);
    let b = caracteres(prefixo);
    if b.len() > a.len() {
        return false;
    }
    let mut i: usize = 0;
    while i < b.len()
        invariant
            i <= b@.len() <= a@.len(),
            a@ == s@,
            b@ == prefixo@,
            forall|j: int| 0 <= j < i ==> a@[j] == b@[j],
        decreases b@.len() - i,
    {
        if a[i] != b[i] {
            return false;
        }
        i += 1;
    }
    true
}

/// `parte` occurs in `s`.
pub open spec fn contem(s: Seq<char>, parte: Seq<char>) -> bool {
    exists|i: int|
        0 <= i && i + parte.len() <= s.len() && #[trigger] s.subrange(i, i + parte.len()) == parte
}

/// Tells whether `parte` occurs at position `i` of `s`.
fn ocorre_em(s: &Vec<char>, parte: &Vec<char>, i: usize) -> (r: bool)
    requires
        i + parte@.len() <= s@.len(),
    ensures
        r == (s@.subrange(i as int, i + parte@.len()) == parte@),
{
    let n: usize = s.len();
    let mut j: usize = 0;
    while j < parte.len()
        invariant
            j <= parte@.len(),
            n == s@.len(),
            i + parte@.len() <= n,
            forall|k: int| 0 <= k < j ==> s@[i + k] == parte@[k],
        decreases parte@.len() - j,
    {
        if s[i + j] != parte[j] {
            return false;
        }
        j += 1;
    }
    assert(s@.subrange(i as int, i + parte@.len()) =~= parte@);
    true
}

/// Tells whether `parte` occurs in `s`.
pub fn contem_texto(s: &str, parte: &str) -> (r: bool)
    ensures
        r == contem(s@, parte@),
{
    let a = caracteres(s);
    let b = caracteres(parte);
    if b.len() > a.len() {
        return false;
    }
    let ultimo: usize = a.len() - b.len();
    let mut i: usize = 0;
    while i < ultimo
        invariant
            a@ == s@,
            b@ == parte@,
            ultimo == a@.len() - b@.len(),
            i <= ultimo,
            forall|k: int|
                0 <= k < i ==> #[trigger] s@.subrange(k, k + parte@.len()) != parte@,
        decreases ultimo - i,
    {
        if ocorre_em(&a, &b, i) {
            return true;
        }
        i += 1;
    }
    ocorre_em(&a, &b, i)
}

// ---------------- Trimming ----------------

/// `s` without the white space at both ends.
pub open spec fn aparado(s: Seq<char>) -> Seq<char>
    decreases s.len(),
{
    if s.len() == 0 {
        s
    } else if branco(s.first()) {
        aparado(s.drop_first())
    } else if branco(s.last()) {
        aparado(s.drop_last())
    } else {
        s
    }
}

/// Copies `s` without the white space at both ends.
pub fn apara(s: &str) -> (r: String)
    ensures
        r@ == aparado(s@),
{
    let v = caracteres(s);
    let mut i: usize = 0;
    let mut j: usize = v.len();
    assert(v@.subrange(0, j as int) =~= v@);
    while i < j && eh_branco(v[i])
        invariant
            i <= j == v@.len(),
            v@ == s@,
            aparado(s@) == aparado(v@.subrange(i as int, j as int)),
        decreases j - i,
    {
        assert(v@.subrange(i as int, j as int).drop_first() =~= v@.subrange(i + 1, j as int));
        i += 1;
    }
    while i < j && eh_branco(v[j - 1])
        invariant
            i <= j <= v@.len(),
            i < j ==> !branco(v@[i as int]),
            aparado(s@) == aparado(v@.subrange(i as int, j as int)),
        decreases j - i,
    {
        assert(v@.subrange(i as int, j as int).drop_last() =~= v@.subrange(i as int, j - 1));
        j -= 1;
    }
    trecho(&v, i, j)
}

// ---------------- Lines ----------------

/// `s` without one carriage return at its end.
pub open spec fn sem_retorno(s: Seq<char>) -> Seq<char> {
    if s.len() > 0 && s.last() == '\r' {
        s.drop_last()
    } else {
        s
    }
}

/// The lines of `s`. A line ends in `"\n"` or `"\r\n"`, which is not part of it;
/// what follows the last line feed is a line only if it is not empty.
pub open spec fn linhas(s: Seq<char>) -> Seq<Seq<char>>
    decreases s.len(),
{
    let k = posicao(s, '\n') as int;
    if s.len() == 0 {
        seq![]
    } else if k >= s.len() {
        seq![s]
    } else {
        seq![sem_retorno(s.take(k))] + linhas(s.skip(k + 1))
    }
}

/// Splits `s` into its lines.
pub fn separa_linhas(s: &str) -> (r: Vec<String>)
    ensures
        r.deep_view() == linhas(s@),
{
    let v = caracteres(s);
    let mut r: Vec<String> = Vec::new();
    let mut i: usize = 0;
    assert(v@.skip(0) =~= v@);
    while i < v.len()
        invariant
            i <= v@.len(),
            linhas(v@) =~= r.deep_view() + linhas(v@.skip(i as int)),
        decreases v@.len() - i,
    {
        let fim = busca(&v, i, '\n');
        let ghost resto = v@.skip(i as int);
        if fim == v.len() {
            let linha = trecho(&v, i, fim);
            r.push(linha);
            i = fim;
        } else {
            let corte: usize = if fim > i && v[fim - 1] == '\r' {
                fim - 1
            } else {
                fim
            };
            let linha = trecho(&v, i, corte);
            r.push(linha);
            proof {
                let k = posicao(resto, '\n') as int;
                assert(linha@ =~= sem_retorno(resto.take(k)));
                assert(resto.skip(k + 1) =~= v@.skip(fim + 1));
            }
            i = fim + 1;
        }
    }
    r
}

// ---------------- Fields ----------------

/// Number of characters of `s` before the first white space.
pub open spec fn largura(s: Seq<char>) -> nat
    decreases s.len(),
{
    if s.len() == 0 || branco(s[0]) {
        0
    } else {
        1 + largura(s.drop_first())
    }
}

/// The maximal runs of characters of `s` that are not white space, in order.
pub open spec fn campos(s: Seq<char>) -> Seq<Seq<char>>
    decreases s.len(),
{
    if s.len() == 0 {
        seq![]
    } else if branco(s[0]) {
        campos(s.drop_first())
    } else {
        proof {
            lema_largura(s);
        }
        seq![s.take(largura(s) as int)] + campos(s.skip(largura(s) as int))
    }
}

/// `largura` is the index of the first white space, or the length of `s`.
pub proof fn lema_largura(s: Seq<char>)
    ensures
        largura(s) <= s.len(),
        s.len() > 0 && !branco(s[0]) ==> largura(s) > 0,
        largura(s) < s.len() ==> branco(s[largura(s) as int]),
        forall|i: int| 0 <= i < largura(s) ==> !branco(s[i]),
    decreases s.len(),
{
    if s.len() > 0 && !branco(s[0]) {
        let r = s.drop_first();
        lema_largura(r);
        assert forall|i: int| 0 <= i < largura(s) implies !branco(s[i]) by {
            if i > 0 {
                assert(r[i - 1] == s[i]);
            }
        }
    }
}

/// Splits `s` into its fields.
pub fn separa_campos(s: &str) -> (r: Vec<String>)
    ensures
        r.deep_view() == campos(s@),
{
    let v = caracteres(s);
    let mut r: Vec<String> = Vec::new();
    let mut i: usize = 0;
    assert(v@.skip(0) =~= v@);
    while i < v.len()
        invariant
            i <= v@.len(),
            campos(v@) =~= r.deep_view() + campos(v@.skip(i as int)),
        decreases v@.len() - i,
    {
        let ghost resto = v@.skip(i as int);
        if eh_branco(v[i]) {
            assert(resto.drop_first() =~= v@.skip(i + 1));
            i += 1;
        } else {
            let mut j: usize = i;
            while j < v.len() && !eh_branco(v[j])
                invariant
                    i <= j <= v@.len(),
                    largura(v@.skip(i as int)) == (j - i) + largura(v@.skip(j as int)),
                decreases v@.len() - j,
            {
                assert(v@.skip(j as int).drop_first() =~= v@.skip(j + 1));
                j += 1;
            }
            let campo = trecho(&v, i, j);
            r.push(campo);
            proof {
                lema_largura(resto);
                assert(campo@ =~= resto.take(largura(resto) as int));
                assert(resto.skip(largura(resto) as int) =~= v@.skip(j as int));
            }
            i = j;
        }
    }
    r
}

/// Copies the text of `s` before the first `c`, or all of it if there is none.
pub fn corta_em(s: &str, c: char) -> (r: String)
    ensures
        r@ == ate(s@, c),
{
    let v = caracteres(s);
    let fim = busca(&v, 0, c);
    assert(v@.skip(0) =~= v@);
    trecho(&v, 0, fim)
}

/// Copies `s` without the run of `c` at its end.
pub fn remove_sufixo(s: &str, c: char) -> (r: String)
    ensures
        r@ == sem_sufixo(s@, c),
{
    let v = caracteres(s);
    let mut j: usize = v.len();
    assert(v@.take(j as int) =~= v@);
    while j > 0 && v[j - 1] == c
        invariant
            j <= v@.len(),
            sem_sufixo(v@, c) == sem_sufixo(v@.take(j as int), c),
        decreases j,
    {
        assert(v@.take(j as int).drop_last() =~= v@.take(j - 1));
        j -= 1;
    }
    trecho(&v, 0, j)
}

/// Tells whether the two texts are equal.
pub fn iguais(a: &str, b: &str) -> (r: bool)
    ensures
        r == (a@ == b@),
{
    a.to_owned() == b.to_owned()
}

} // verus!
