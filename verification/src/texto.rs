//! Text building blocks: decimal notation of integers and comparison of
//! string slices.

use vstd::prelude::*;
use vstd::utf8::encode_utf8_decode_utf8;

verus! {

/// The ASCII character of a decimal digit.
pub open spec fn cifra(d: nat) -> char {
    seq!['0', '1', '2', '3', '4', '5', '6', '7', '8', '9'][d as int]
}

/// Decimal notation of a natural number, without leading zeros.
pub open spec fn digitos(n: nat) -> Seq<char>
    decreases n,
{
    if n < 10 {
        seq![cifra(n)]
    } else {
        digitos(n / 10).push(cifra(n % 10))
    }
}

/// Decimal notation of an integer, with a leading '-' when it is negative.
pub open spec fn decimal(n: int) -> Seq<char> {
    if n < 0 {
        seq!['-'] + digitos((-n) as nat)
    } else {
        digitos(n as nat)
    }
}

/// The one-character string of a decimal digit.
pub fn texto_cifra(d: u64) -> (r: &'static str)
    requires
        d < 10,
    ensures
        r@ == seq![cifra(d as nat)],
{
    if d == 0 {
        proof { reveal_strlit("0"); }
        "0"
    } else if d == 1 {
        proof { reveal_strlit("1"); }
        "1"
    } else if d == 2 {
        proof { reveal_strlit("2"); }
        "2"
    } else if d == 3 {
        proof { reveal_strlit("3"); }
        "3"
    } else if d == 4 {
        proof { reveal_strlit("4"); }
        "4"
    } else if d == 5 {
        proof { reveal_strlit("5"); }
        "5"
    } else if d == 6 {
        proof { reveal_strlit("6"); }
        "6"
    } else if d == 7 {
        proof { reveal_strlit("7"); }
        "7"
    } else if d == 8 {
        proof { reveal_strlit("8"); }
        "8"
    } else {
        proof { reveal_strlit("9"); }
        "9"
    }
}

/// Decimal notation of an unsigned integer.
pub fn natural_a_texto(n: u64) -> (r: String)
    ensures
        r@ == digitos(n as nat),
    decreases n,
{
    if n < 10 {
        let mut s = String::new();
        s.append(texto_cifra(n));
        s
    } else {
        let mut s = natural_a_texto(n / 10);
        s.append(texto_cifra(n % 10));
        s
    }
}

/// Decimal notation of a signed 32-bit integer, as `{}` formats it.
pub fn entero_a_texto(n: i32) -> (r: String)
    ensures
        r@ == decimal(n as int),
{
    if n < 0 {
        let magnitud: i64 = -(n as i64);
        let mut s = String::new();
        proof { reveal_strlit("-"); }
        s.append("-");
        let cuerpo = natural_a_texto(magnitud as u64);
        s.append(cuerpo.as_str());
        s
    } else {
        natural_a_texto(n as u64)
    }
}

/// A day or month number written with at least two digits, as `{:02}` writes it.
pub open spec fn dos_cifras(n: nat) -> Seq<char> {
    if n < 10 {
        seq!['0', cifra(n)]
    } else {
        digitos(n)
    }
}

/// Writes a number with at least two digits, padding with a leading zero.
pub fn numero_dos_cifras(n: u32) -> (r: String)
    ensures
        r@ == dos_cifras(n as nat),
{
    if n < 10 {
        let mut s = String::new();
        proof { reveal_strlit("0"); }
        s.append("0");
        s.append(texto_cifra(n as u64));
        s
    } else {
        natural_a_texto(n as u64)
    }
}

/// Whether two string slices hold the same characters.
pub fn mismo_texto(a: &str, b: &str) -> (r: bool)
    ensures
        r == (a@ == b@),
{
    let x = a.as_bytes();
    let y = b.as_bytes();
    proof {
        encode_utf8_decode_utf8(a@);
        encode_utf8_decode_utf8(b@);
    }
    if x.len() != y.len() {
        return false;
    }
    let n = x.len();
    let mut i: usize = 0;
    while i < n
        invariant
            n == x@.len(),
            n == y@.len(),
            x@ == vstd::utf8::encode_utf8(a@),
            y@ == vstd::utf8::encode_utf8(b@),
            i <= n,
            forall|j: int| 0 <= j < i ==> x@[j] == y@[j],
        decreases n - i,
    {
        if x[i] != y[i] {
            assert(x@ != y@);
            return false;
        }
        i = i + 1;
    }
    assert(x@ =~= y@);
    true
}

/// The value of a decimal digit character (0 for anything else).
pub open spec fn valor_cifra(c: char) -> nat {
    if c == '1' {
        1
    } else if c == '2' {
        2
    } else if c == '3' {
        3
    } else if c == '4' {
        4
    } else if c == '5' {
        5
    } else if c == '6' {
        6
    } else if c == '7' {
        7
    } else if c == '8' {
        8
    } else if c == '9' {
        9
    } else {
        0
    }
}

/// The number that a string of decimal digits writes.
pub open spec fn valor_decimal(s: Seq<char>) -> nat
    decreases s.len(),
{
    if s.len() == 0 {
        0
    } else {
        valor_decimal(s.drop_last()) * 10 + valor_cifra(s.last())
    }
}

proof fn valor_de_cifra(d: nat)
    requires
        d < 10,
    ensures
        valor_cifra(cifra(d)) == d,
        cifra(d) != '-',
{
    if d == 0 {
    } else if d == 1 {
    } else if d == 2 {
    } else if d == 3 {
    } else if d == 4 {
    } else if d == 5 {
    } else if d == 6 {
    } else if d == 7 {
    } else if d == 8 {
    } else {
    }
}

/// Reading back the decimal notation of a number gives the number, and the
/// notation holds no '-'.
pub proof fn lectura_de_digitos(n: nat)
    ensures
        valor_decimal(digitos(n)) == n,
        digitos(n).len() >= 1,
        !digitos(n).contains('-'),
    decreases n,
{
    if n >= 10 {
        lectura_de_digitos(n / 10);
        valor_de_cifra(n % 10);
        assert(digitos(n).drop_last() =~= digitos(n / 10));
        assert(digitos(n).last() == cifra(n % 10));
        assert((n / 10) * 10 + n % 10 == n);
        assert(valor_decimal(digitos(n)) == valor_decimal(digitos(n).drop_last()) * 10
            + valor_cifra(digitos(n).last()));
        assert(!digitos(n).contains('-')) by {
            if digitos(n).contains('-') {
                let k = choose|k: int| 0 <= k < digitos(n).len() && digitos(n)[k] == '-';
                if k < digitos(n / 10).len() {
                    assert(digitos(n / 10)[k] == '-');
                    assert(digitos(n / 10).contains('-'));
                }
            }
        }
    } else {
        valor_de_cifra(n);
        assert(digitos(n).drop_last() =~= Seq::<char>::empty());
        assert(valor_decimal(digitos(n)) == valor_decimal(digitos(n).drop_last()) * 10
            + valor_cifra(digitos(n).last()));
        assert(!digitos(n).contains('-')) by {
            if digitos(n).contains('-') {
                let k = choose|k: int| 0 <= k < digitos(n).len() && digitos(n)[k] == '-';
                assert(k == 0);
            }
        }
    }
}

/// Different integers have different decimal notations.
pub proof fn decimal_inyectivo(a: int, b: int)
    requires
        decimal(a) == decimal(b),
    ensures
        a == b,
{
    if a < 0 && b < 0 {
        assert(digitos((-a) as nat) =~= decimal(a).drop_first());
        assert(digitos((-b) as nat) =~= decimal(b).drop_first());
        lectura_de_digitos((-a) as nat);
        lectura_de_digitos((-b) as nat);
    } else if a < 0 {
        lectura_de_digitos(b as nat);
        assert(decimal(a)[0] == '-');
        assert(digitos(b as nat).contains(decimal(b)[0]));
    } else if b < 0 {
        lectura_de_digitos(a as nat);
        assert(decimal(b)[0] == '-');
        assert(digitos(a as nat).contains(decimal(a)[0]));
    } else {
        lectura_de_digitos(a as nat);
        lectura_de_digitos(b as nat);
    }
}

/// A number below one hundred is written with exactly two characters.
pub proof fn dos_cifras_son_dos(n: nat)
    requires
        n < 100,
    ensures
        dos_cifras(n).len() == 2,
{
    if n >= 10 {
        assert(digitos(n) == digitos(n / 10).push(cifra(n % 10)));
    }
}

} // verus!
