//! Text primitives, held against those of the standard library.

use vpnctl::numero::{escreve_decimal, interpreta_u32, NumeroInvalido};
use vpnctl::texto::{
    apara, caracteres, comeca_com, contem_texto, corta_em, eh_branco, iguais, remove_sufixo,
    separa_campos, separa_linhas, trecho,
};

const AMOSTRAS: [&str; 17] = [
    "",
    " ",
    "a",
    "\n",
    "\n\n",
    "a\nb",
    "a\r\nb\r\n",
    "a\r\r\n\rb\r",
    "  a  b\tc\u{a0}d \n",
    "\u{3000}túnel\u{2003}ativo\u{85}",
    "2: eth0: <UP>",
    "x/y/z",
    "::::",
    "a:b:",
    "No such process",
    "\u{feff} z\u{200b}",
    "\r",
];

#[test]
fn branco_como_na_biblioteca_padrao() {
    for n in 0..=0x10ffffu32 {
        if let Some(c) = char::from_u32(n) {
            assert_eq!(eh_branco(c), c.is_whitespace(), "{n:x}");
        }
    }
}

#[test]
fn caracteres_e_trechos() {
    for s in AMOSTRAS {
        let v = caracteres(s);
        assert_eq!(v, s.chars().collect::<Vec<char>>());
        assert_eq!(trecho(&v, 0, v.len()), s);
    }
    assert_eq!(trecho(&caracteres("túnel"), 1, 3), "ún");
}

#[test]
fn apara_como_na_biblioteca_padrao() {
    for s in AMOSTRAS {
        assert_eq!(apara(s), s.trim(), "{s:?}");
    }
}

#[test]
fn linhas_como_na_biblioteca_padrao() {
    for s in AMOSTRAS {
        assert_eq!(separa_linhas(s), s.lines().collect::<Vec<&str>>(), "{s:?}");
    }
}

#[test]
fn campos_como_na_biblioteca_padrao() {
    for s in AMOSTRAS {
        assert_eq!(separa_campos(s), s.split_whitespace().collect::<Vec<&str>>(), "{s:?}");
    }
}

#[test]
fn buscas_como_na_biblioteca_padrao() {
    for s in AMOSTRAS {
        for t in AMOSTRAS {
            assert_eq!(comeca_com(s, t), s.starts_with(t), "{s:?} {t:?}");
            assert_eq!(contem_texto(s, t), s.contains(t), "{s:?} {t:?}");
            assert_eq!(iguais(s, t), s == t, "{s:?} {t:?}");
        }
        assert_eq!(corta_em(s, '/'), s.split('/').next().unwrap(), "{s:?}");
        assert_eq!(remove_sufixo(s, ':'), s.trim_end_matches(':'), "{s:?}");
    }
    assert!(contem_texto("kill: No such process\n", "No such process"));
}

#[test]
fn decimais_exatos() {
    assert_eq!(escreve_decimal(0), "0");
    assert_eq!(escreve_decimal(9), "9");
    assert_eq!(escreve_decimal(10), "10");
    assert_eq!(escreve_decimal(4242), "4242");
    assert_eq!(escreve_decimal(u128::MAX), u128::MAX.to_string());
}

#[test]
fn decimal_ida_e_volta() {
    for n in [0, 1, 9, 10, 4242, u32::MAX - 1, u32::MAX] {
        assert_eq!(interpreta_u32(&escreve_decimal(u128::from(n))), Ok(n));
    }
}

#[test]
fn interpreta_u32_como_na_biblioteca_padrao() {
    for s in [
        "", "0", "007", "+5", "+", "-", "-1", "+-1", "1 ", " 1", "1_0", "4294967295", "4294967296",
        "00004294967295", "99999999999999999999", "9999999999x", "x9999999999", "١", "42\n", "++1",
    ] {
        match (interpreta_u32(s), s.parse::<u32>()) {
            (Ok(a), Ok(b)) => assert_eq!(a, b, "{s:?}"),
            (Err(a), Err(b)) => {
                let esperado = match a {
                    NumeroInvalido::Vazio => "cannot parse integer from empty string",
                    NumeroInvalido::Digito => "invalid digit found in string",
                    NumeroInvalido::Grande => "number too large to fit in target type",
                };
                assert_eq!(b.to_string(), esperado, "{s:?}");
            }
            (a, b) => panic!("{s:?}: {a:?} {b:?}"),
        }
    }
}
