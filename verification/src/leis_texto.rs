//! What the text primitives give, said of texts that are put together from known parts.

use vstd::prelude::*;

use crate::numero::{
    decimal, digitos, eh_digito, lema_digitos, lema_valor_cresce, numero, sem_sinal, valor,
    NumeroInvalido,
};
use crate::texto::{
    aparado, ate, branco, campos, contem, largura, lema_largura, lema_posicao, linhas, posicao,
    sem_retorno, sem_sufixo,
};

verus! {

/// Every character of `s` is white space.
pub open spec fn so_brancos(s: Seq<char>) -> bool {
    forall|i: int| 0 <= i < s.len() ==> branco(#[trigger] s[i])
}

/// `s` is not empty and has no white space.
pub open spec fn eh_campo(s: Seq<char>) -> bool {
    s.len() > 0 && forall|i: int| 0 <= i < s.len() ==> !branco(#[trigger] s[i])
}

/// `c` does not occur in `s`.
pub open spec fn livre_de(s: Seq<char>, c: char) -> bool {
    forall|i: int| 0 <= i < s.len() ==> #[trigger] s[i] != c
}

/// `n` times the character `c`.
pub open spec fn repetido(c: char, n: nat) -> Seq<char> {
    Seq::new(n, |i: int| c)
}

// ---------------- Characters, prefixes and suffixes ----------------

/// Law: white space is the control characters from tab to carriage return, the space, the
/// next line and the no-break space, and the spaces and separators of the later blocks.
pub proof fn lei_branco(c: char)
    ensures
        branco(c) <==> {
            let n = c as u32;
            ||| 9 <= n <= 13
            ||| n == 32
            ||| n == 0x85
            ||| n == 0xa0
            ||| n == 0x1680
            ||| 0x2000 <= n <= 0x200a
            ||| 0x2028 <= n <= 0x2029
            ||| n == 0x202f
            ||| n == 0x205f
            ||| n == 0x3000
        },
{
}

/// Law: what stands before the first `c` of a text is what was put there, whatever
/// follows; a text without `c` is taken whole.
pub proof fn lei_ate_o_primeiro(a: Seq<char>, c: char, b: Seq<char>)
    requires
        livre_de(a, c),
    ensures
        ate(a, c) == a,
        ate(a.push(c) + b, c) == a,
{
    lema_posicao(a, c);
    let t = a.push(c) + b;
    lema_posicao(t, c);
    assert(t[a.len() as int] == c);
    assert forall|i: int| 0 <= i < a.len() implies t[i] != c by {
        assert(t[i] == a[i]);
    }
    if posicao(t, c) < a.len() {
        assert(t[posicao(t, c) as int] != c);
    }
    assert(posicao(t, c) == a.len());
    assert(t.take(a.len() as int) =~= a);
    if posicao(a, c) < a.len() {
        assert(a[posicao(a, c) as int] != c);
    }
    assert(a.take(a.len() as int) =~= a);
}

/// Law: a run of `c` at the end of a text is taken away, all of it and nothing else.
pub proof fn lei_sem_sufixo(s: Seq<char>, c: char, n: nat)
    requires
        s.len() > 0 ==> s.last() != c,
    ensures
        sem_sufixo(s + repetido(c, n), c) == s,
    decreases n,
{
    let t = s + repetido(c, n);
    if n == 0 {
        assert(t =~= s);
    } else {
        lei_sem_sufixo(s, c, (n - 1) as nat);
        assert(t.drop_last() =~= s + repetido(c, (n - 1) as nat));
        assert(t.last() == c);
    }
}

/// Law: a text occurs in another exactly if the other is the text with something, perhaps
/// nothing, put before and after it.
pub proof fn lei_contem(s: Seq<char>, parte: Seq<char>, a: Seq<char>, b: Seq<char>)
    ensures
        contem(a + parte + b, parte),
        contem(s, parte) ==> exists|x: Seq<char>, y: Seq<char>| s == #[trigger] (x + parte + y),
{
    let t = a + parte + b;
    assert(t.subrange(a.len() as int, (a.len() + parte.len()) as int) =~= parte);
    if contem(s, parte) {
        let i = choose|i: int|
            0 <= i && i + parte.len() <= s.len() && #[trigger] s.subrange(i, i + parte.len())
                == parte;
        assert(s =~= s.take(i) + parte + s.skip(i + parte.len()));
    }
}

/// Law: trimming takes the white space at both ends away, and nothing else.
pub proof fn lei_aparado(antes: Seq<char>, s: Seq<char>, depois: Seq<char>)
    requires
        so_brancos(antes),
        so_brancos(depois),
        s.len() > 0 ==> !branco(s.first()) && !branco(s.last()),
    ensures
        aparado(antes + s + depois) == s,
    decreases antes.len() + depois.len(),
{
    let t = antes + s + depois;
    if antes.len() > 0 {
        assert(t.first() == antes[0]);
        assert(t.drop_first() =~= antes.drop_first() + s + depois);
        lei_aparado(antes.drop_first(), s, depois);
    } else if depois.len() > 0 {
        if s.len() > 0 {
            assert(t.first() == s.first());
            assert(t.last() == depois.last());
            assert(t.drop_last() =~= antes + s + depois.drop_last());
            lei_aparado(antes, s, depois.drop_last());
        } else {
            assert(t.first() == depois[0]);
            assert(t.drop_first() =~= antes + s + depois.drop_first());
            lei_aparado(antes, s, depois.drop_first());
        }
    } else {
        assert(t =~= s);
    }
}

// ---------------- Lines ----------------

/// Law: a line is what stands before its line feed, or before its carriage return and line
/// feed; the other lines are those of the rest. Without a line feed a text is one line, if
/// there is any text.
pub proof fn lei_linhas(a: Seq<char>, resto: Seq<char>)
    requires
        livre_de(a, '\n'),
    ensures
        linhas(Seq::<char>::empty()) == Seq::<Seq<char>>::empty(),
        a.len() > 0 ==> linhas(a) == seq![a],
        !(a.len() > 0 && a.last() == '\r') ==> linhas(a.push('\n') + resto) == seq![a] + linhas(
            resto,
        ),
        linhas(a.push('\r').push('\n') + resto) == seq![a] + linhas(resto),
{
    lei_ate_o_primeiro(a, '\n', resto);
    lema_posicao(a, '\n');
    if posicao(a, '\n') < a.len() {
        assert(a[posicao(a, '\n') as int] != '\n');
    }
    let t = a.push('\n') + resto;
    lema_linha(a, resto);
    let r = a.push('\r');
    assert(livre_de(r, '\n'));
    lema_linha(r, resto);
    assert(r.drop_last() =~= a);
}

/// The first line of a text that has a line feed.
proof fn lema_linha(a: Seq<char>, resto: Seq<char>)
    requires
        livre_de(a, '\n'),
    ensures
        linhas(a.push('\n') + resto) == seq![sem_retorno(a)] + linhas(resto),
{
    let t = a.push('\n') + resto;
    lema_posicao(t, '\n');
    assert(t[a.len() as int] == '\n');
    assert forall|i: int| 0 <= i < a.len() implies t[i] != '\n' by {
        assert(t[i] == a[i]);
    }
    let k = posicao(t, '\n');
    if k < a.len() {
        assert(t[k as int] != '\n');
    }
    assert(k == a.len());
    assert(t.take(k as int) =~= a);
    assert(t.skip((k + 1) as int) =~= resto);
}

// ---------------- Fields ----------------

/// Law: white space before a field does not count, and a field ends where white space
/// begins; the other fields are those of the rest. White space alone has no field.
pub proof fn lei_campos(brancos: Seq<char>, campo: Seq<char>, resto: Seq<char>)
    requires
        so_brancos(brancos),
        eh_campo(campo),
        resto.len() > 0 ==> branco(resto[0]),
    ensures
        campos(brancos) == Seq::<Seq<char>>::empty(),
        campos(brancos + campo + resto) == seq![campo] + campos(resto),
    decreases brancos.len(),
{
    let t = brancos + campo + resto;
    if brancos.len() > 0 {
        assert(so_brancos(brancos.drop_first()));
        lei_campos(brancos.drop_first(), campo, resto);
        assert(t[0] == brancos[0]);
        assert(t.drop_first() =~= brancos.drop_first() + campo + resto);
    } else {
        assert(t[0] == campo[0]);
        lema_largura(t);
        let k = largura(t) as int;
        assert forall|i: int| 0 <= i < campo.len() implies !branco(t[i]) by {
            assert(t[i] == campo[i]);
        }
        if k > campo.len() {
            assert(t[campo.len() as int] == resto[0]);
        }
        assert(k == campo.len());
        assert(t.take(k) =~= campo);
        assert(t.skip(k) =~= resto);
    }
}

/// The text of a line whose fields are `fs`, with the white space `bs[i]` before the field
/// `fs[i]`.
pub open spec fn linha_de(fs: Seq<Seq<char>>, bs: Seq<Seq<char>>) -> Seq<char>
    decreases fs.len(),
{
    if fs.len() == 0 {
        Seq::empty()
    } else {
        bs[0] + fs[0] + linha_de(fs.drop_first(), bs.drop_first())
    }
}

/// `fs` can be the fields of a line, with the white space `bs` between them: there is some
/// before each field but the first.
pub open spec fn separados(fs: Seq<Seq<char>>, bs: Seq<Seq<char>>) -> bool {
    &&& fs.len() == bs.len()
    &&& forall|i: int| 0 <= i < fs.len() ==> eh_campo(#[trigger] fs[i])
    &&& forall|i: int| 0 <= i < bs.len() ==> so_brancos(#[trigger] bs[i])
    &&& forall|i: int| 0 < i < bs.len() ==> (#[trigger] bs[i]).len() > 0
}

/// Law: the fields of a line are those that it was written with, whatever white space
/// stands between them and at the end.
pub proof fn lei_campos_ida_e_volta(fs: Seq<Seq<char>>, bs: Seq<Seq<char>>, fim: Seq<char>)
    requires
        separados(fs, bs),
        so_brancos(fim),
    ensures
        campos(linha_de(fs, bs) + fim) == fs,
    decreases fs.len(),
{
    if fs.len() == 0 {
        assert(linha_de(fs, bs) + fim =~= fim);
        lei_campos(fim, seq!['x'], Seq::empty());
        assert(fs =~= Seq::<Seq<char>>::empty());
    } else {
        let gs = fs.drop_first();
        let cs = bs.drop_first();
        assert forall|i: int| 0 <= i < gs.len() implies eh_campo(#[trigger] gs[i]) by {
            assert(gs[i] == fs[i + 1]);
        }
        assert forall|i: int| 0 <= i < cs.len() implies so_brancos(#[trigger] cs[i]) by {
            assert(cs[i] == bs[i + 1]);
        }
        assert forall|i: int| 0 < i < cs.len() implies (#[trigger] cs[i]).len() > 0 by {
            assert(cs[i] == bs[i + 1]);
        }
        lei_campos_ida_e_volta(gs, cs, fim);
        let resto = linha_de(gs, cs) + fim;
        assert(so_brancos(bs[0]));
        assert(eh_campo(fs[0]));
        if gs.len() > 0 {
            assert(cs[0] == bs[1]);
            assert(bs[1].len() > 0);
            assert(so_brancos(bs[1]));
            assert(resto[0] == bs[1][0]);
            assert(branco(bs[1][0]));
        } else {
            assert(resto =~= fim);
        }
        lei_campos(bs[0], fs[0], resto);
        assert(linha_de(fs, bs) + fim =~= bs[0] + fs[0] + resto);
        assert(seq![fs[0]] + gs =~= fs);
    }
}

// ---------------- Decimal numerals ----------------

/// Law: a number below ten is written as its digit, and any other as what it is in tens
/// followed by the digit of the rest.
pub proof fn lei_decimal_por_digito(n: nat, d: nat)
    requires
        d < 10,
    ensures
        decimal(d) == seq![(48 + d) as char],
        n > 0 ==> decimal(10 * n + d) == decimal(n).push((48 + d) as char),
{
    let m = 10 * n + d;
    assert(m / 10 == n && m % 10 == d);
}

/// The digits of a numeral that was accepted.
proof fn lema_aceito(s: Seq<char>)
    requires
        numero(s) is Ok,
    ensures
        ({
            let c = sem_sinal(s);
            &&& c.len() > 0
            &&& digitos(c) == c.len()
            &&& numero(s) == Ok::<u32, NumeroInvalido>(valor(c) as u32)
            &&& valor(c) <= u32::MAX
            &&& forall|i: int| 0 <= i < c.len() ==> eh_digito(#[trigger] c[i])
        }),
{
    let c = sem_sinal(s);
    lema_digitos(c);
    assert(c.take(c.len() as int) =~= c);
}

/// The leading digits of `a + b`, where `a` is made of digits.
proof fn lema_digitos_de(a: Seq<char>, b: Seq<char>)
    requires
        forall|i: int| 0 <= i < a.len() ==> eh_digito(#[trigger] a[i]),
    ensures
        digitos(a + b) == a.len() + digitos(b),
    decreases a.len(),
{
    if a.len() == 0 {
        assert(a + b =~= b);
    } else {
        let r = a.drop_first();
        assert forall|i: int| 0 <= i < r.len() implies eh_digito(#[trigger] r[i]) by {
            assert(r[i] == a[i + 1]);
        }
        lema_digitos_de(r, b);
        assert((a + b).drop_first() =~= r + b);
        assert((a + b)[0] == a[0]);
    }
}

/// Law: the empty text and a sign alone write no number; a digit alone writes its value; a
/// text that begins with another character is no number.
pub proof fn lei_numero_comeca(c: char, resto: Seq<char>)
    ensures
        numero(Seq::<char>::empty()) == Err::<u32, NumeroInvalido>(NumeroInvalido::Vazio),
        numero(seq!['+']) == Err::<u32, NumeroInvalido>(NumeroInvalido::Digito),
        '0' <= c <= '9' ==> numero(seq![c]) == Ok::<u32, NumeroInvalido>((c as u32 - 48) as u32),
        !('0' <= c <= '9') && c != '+' ==> numero(seq![c] + resto) == Err::<u32, NumeroInvalido>(
            NumeroInvalido::Digito,
        ),
{
    let um = seq![c];
    assert(seq!['+'].drop_first() =~= Seq::<char>::empty());
    if '0' <= c <= '9' {
        assert(eh_digito(um[0]));
        assert(um.drop_first() =~= Seq::<char>::empty());
        assert(digitos(um.drop_first()) == 0);
        assert(um.take(1) =~= um);
        assert(um.drop_last() =~= Seq::<char>::empty());
        assert(valor(um.drop_last()) == 0);
        assert(valor(um) == c as nat - 48);
    } else if c != '+' {
        let t = um + resto;
        assert(t[0] == c);
        assert(t.take(0) =~= Seq::<char>::empty());
        assert(valor(t.take(0)) == 0);
    }
}

/// Law: a digit more multiplies the number by ten and adds its value, as long as the number
/// fits in 32 bits, and after that the number is too large whatever follows; another
/// character after digits makes the text no number.
pub proof fn lei_numero_por_digito(s: Seq<char>, v: u32, c: char, resto: Seq<char>)
    requires
        numero(s) == Ok::<u32, NumeroInvalido>(v),
    ensures
        '0' <= c <= '9' && 10 * v + (c as u32 - 48) <= 4294967295 ==> numero(s.push(c)) == Ok::<
            u32,
            NumeroInvalido,
        >((10 * v + (c as u32 - 48)) as u32),
        '0' <= c <= '9' && 10 * v + (c as u32 - 48) > 4294967295 ==> numero(s.push(c) + resto)
            == Err::<u32, NumeroInvalido>(NumeroInvalido::Grande),
        !('0' <= c <= '9') ==> numero(s.push(c) + resto) == Err::<u32, NumeroInvalido>(
            NumeroInvalido::Digito,
        ),
{
    lema_aceito(s);
    let a = sem_sinal(s);
    let mais = a.push(c);
    let vazio = Seq::<char>::empty();
    assert(s[0] == '+' ==> a =~= s.drop_first());
    assert(sem_sinal(s.push(c)) =~= mais);
    assert(mais.drop_last() =~= a);
    let t = s.push(c) + resto;
    let d = sem_sinal(t);
    assert(d =~= mais + resto);
    if eh_digito(c) {
        assert forall|i: int| 0 <= i < mais.len() implies eh_digito(#[trigger] mais[i]) by {
            if i < a.len() {
                assert(mais[i] == a[i]);
            }
        }
        lema_digitos_de(mais, vazio);
        assert(mais + vazio =~= mais);
        assert(mais.take(mais.len() as int) =~= mais);
        lema_digitos_de(mais, resto);
        let k = digitos(d) as int;
        lema_digitos(d);
        assert(d.take(k).take(mais.len() as int) =~= mais);
        lema_valor_cresce(d.take(k), mais.len() as int);
    } else {
        let cauda = seq![c] + resto;
        lema_digitos_de(a, cauda);
        assert(cauda[0] == c);
        assert(digitos(cauda) == 0);
        assert(d =~= a + cauda);
        assert(d.take(a.len() as int) =~= a);
    }
}

/// Law: one plus sign before a number changes nothing, and two write no number.
pub proof fn lei_numero_com_sinal(s: Seq<char>)
    requires
        s.len() > 0,
    ensures
        s[0] != '+' ==> numero(seq!['+'] + s) == numero(s),
        s[0] == '+' ==> numero(seq!['+'] + s) == Err::<u32, NumeroInvalido>(
            NumeroInvalido::Digito,
        ),
{
    let t = seq!['+'] + s;
    assert(t.drop_first() =~= s);
    assert(s.take(0) =~= Seq::<char>::empty());
    assert(valor(s.take(0)) == 0);
}

} // verus!
