//! The text of a plate.
//!
//! A vehicle is known by the number of its plate. Where the plate is shown
//! it is written as three letters followed by four digits.
use vstd::prelude::*;
use vstd::string::StrSliceExecFns;
use vstd::string::StringExecFns;
use vstd::utf8::is_ascii_chars;

verus! {

/// What is wrong with a text that should be a plate.
#[derive(Clone, Copy, Debug, PartialEq, Eq)]
pub enum ErroPlaca {
    /// It holds a character that is not ASCII.
    NaoAscii,
    /// It is not seven characters long.
    TamanhoErrado,
    /// One of its first three characters is not a letter.
    SemLetras,
    /// One of its last four characters is not a digit.
    SemDigitos,
}

/// `c` is one of the letters `a` to `z` or `A` to `Z`.
pub open spec fn eh_letra(c: char) -> bool {
    ('a' <= c <= 'z') || ('A' <= c <= 'Z')
}

/// `c` is one of the digits `0` to `9`.
pub open spec fn eh_digito(c: char) -> bool {
    '0' <= c <= '9'
}

/// What is wrong with `s` as the text of a plate, if anything: a plate is
/// three letters followed by four digits. Of several faults the first in the
/// order of [`ErroPlaca`] is told.
pub open spec fn defeito_da_placa(s: Seq<char>) -> Option<ErroPlaca> {
    if !is_ascii_chars(s) {
        Some(ErroPlaca::NaoAscii)
    } else if s.len() != 7 {
        Some(ErroPlaca::TamanhoErrado)
    } else if exists|i: int| 0 <= i < 3 && !eh_letra(#[trigger] s[i]) {
        Some(ErroPlaca::SemLetras)
    } else if exists|i: int| 3 <= i < 7 && !eh_digito(#[trigger] s[i]) {
        Some(ErroPlaca::SemDigitos)
    } else {
        None
    }
}

/// Checks that `placa` is the text of a plate.
pub fn valida_placa(placa: &str) -> (r: Result<(), ErroPlaca>)
    ensures
        r == match defeito_da_placa(placa@) {
            Some(erro) => Err::<(), ErroPlaca>(erro),
            None => Ok(()),
        },
{
    if !placa.is_ascii() {
        return Err(ErroPlaca::NaoAscii);
    }
    if placa.unicode_len() != 7 {
        return Err(ErroPlaca::TamanhoErrado);
    }
    let mut i: usize = 0;
    while i < 3
        invariant
            i <= 3,
            is_ascii_chars(placa@),
            placa@.len() == 7,
            forall|j: int| 0 <= j < i ==> eh_letra(#[trigger] placa@[j]),
        decreases 3 - i,
    {
        let x = placa.get_char(i);
        if !(('a' <= x && x <= 'z') || ('A' <= x && x <= 'Z')) {
            return Err(ErroPlaca::SemLetras);
        }
        i = i + 1;
    }
    while i < 7
        invariant
            3 <= i <= 7,
            is_ascii_chars(placa@),
            placa@.len() == 7,
            forall|j: int| 0 <= j < 3 ==> eh_letra(#[trigger] placa@[j]),
            forall|j: int| 3 <= j < i ==> eh_digito(#[trigger] placa@[j]),
        decreases 7 - i,
    {
        let x = placa.get_char(i);
        if !('0' <= x && x <= '9') {
            return Err(ErroPlaca::SemDigitos);
        }
        i = i + 1;
    }
    Ok(())
}

/// The character of the decimal digit `d`.
pub open spec fn digito(d: int) -> char {
    if d == 0 {
        '0'
    } else if d == 1 {
        '1'
    } else if d == 2 {
        '2'
    } else if d == 3 {
        '3'
    } else if d == 4 {
        '4'
    } else if d == 5 {
        '5'
    } else if d == 6 {
        '6'
    } else if d == 7 {
        '7'
    } else if d == 8 {
        '8'
    } else {
        '9'
    }
}

/// The number `n` in decimal digits, with zeros before it where it has
/// fewer than `casas` digits.
pub open spec fn em_digitos(n: nat, casas: nat) -> Seq<char>
    decreases n, casas,
{
    if n < 10 && casas <= 1 {
        seq![digito(n as int)]
    } else {
        em_digitos(n / 10, if casas >= 1 {
            (casas - 1) as nat
        } else {
            0
        }).push(digito((n % 10) as int))
    }
}

/// The plate `placa` as a text: three times the letter `C` and then the
/// number, in four digits or as many as it takes.
pub open spec fn texto_de(placa: u64) -> Seq<char> {
    seq!['C', 'C', 'C'] + em_digitos(placa as nat, 4)
}

/// Up to 9999 the text of a plate is a text that [`valida_placa`] accepts.
pub proof fn lema_texto_valido(placa: u64)
    requires
        placa <= 9999,
    ensures
        defeito_da_placa(texto_de(placa)) is None,
{
    let n = placa as nat;
    let d3 = em_digitos(n / 1000, 1);
    let d2 = em_digitos(n / 100, 2);
    let d1 = em_digitos(n / 10, 3);
    let d0 = em_digitos(n, 4);
    assert(n / 1000 < 10);
    assert(d3 == seq![digito((n / 1000) as int)]);
    assert((n / 100) / 10 == n / 1000);
    assert((n / 10) / 10 == n / 100);
    assert(d2 == d3.push(digito(((n / 100) % 10) as int)));
    assert(d1 == d2.push(digito(((n / 10) % 10) as int)));
    assert(d0 == d1.push(digito((n % 10) as int)));
    let t = texto_de(placa);
    assert(t.len() == 7);
    assert(t[0] == 'C' && t[1] == 'C' && t[2] == 'C');
    assert(t[3] == d3[0] && t[4] == d2[1] && t[5] == d1[2] && t[6] == d0[3]);
    assert forall|i: int| 0 <= i < t.len() implies '\0' <= #[trigger] t[i] <= '\u{7f}' by {}
    assert forall|i: int| 0 <= i < 3 implies eh_letra(#[trigger] t[i]) by {}
    assert forall|i: int| 3 <= i < 7 implies eh_digito(#[trigger] t[i]) by {}
}

/// The digit `d` as a text.
fn nome_do_digito(d: u64) -> (r: &'static str)
    requires
        d < 10,
    ensures
        r@ == seq![digito(d as int)],
{
    proof {
        reveal_strlit("0");
        reveal_strlit("1");
        reveal_strlit("2");
        reveal_strlit("3");
        reveal_strlit("4");
        reveal_strlit("5");
        reveal_strlit("6");
        reveal_strlit("7");
        reveal_strlit("8");
        reveal_strlit("9");
    }
    let r = if d == 0 {
        "0"
    } else if d == 1 {
        "1"
    } else if d == 2 {
        "2"
    } else if d == 3 {
        "3"
    } else if d == 4 {
        "4"
    } else if d == 5 {
        "5"
    } else if d == 6 {
        "6"
    } else if d == 7 {
        "7"
    } else if d == 8 {
        "8"
    } else {
        "9"
    };
    r
}

/// Appends to `texto` the number `n` in at least `casas` digits.
fn escreve_numero(texto: &mut String, n: u64, casas: u32)
    ensures
        final(texto)@ == old(texto)@ + em_digitos(n as nat, casas as nat),
    decreases n, casas,
{
    if n < 10 && casas <= 1 {
        texto.append(nome_do_digito(n));
    } else {
        escreve_numero(texto, n / 10, if casas >= 1 {
            casas - 1
        } else {
            0
        });
        texto.append(nome_do_digito(n % 10));
    }
}

/// Writes the plate `placa` as a text.
pub fn texto_da_placa(placa: u64) -> (r: String)
    ensures
        r@ == texto_de(placa),
{
    proof {
        reveal_strlit("CCC");
    }
    let mut texto = String::from_str("CCC");
    escreve_numero(&mut texto, placa, 4);
    texto
}

} // verus!
