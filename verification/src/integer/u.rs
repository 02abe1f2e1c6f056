//! The canonical name alphabet: a byte rendered as two lowercase
//! hexadecimal digits, giving the fixed ring of 256 slot names `00`..`ff`.

use vstd::prelude::*;

verus! {

use vstd::string::StringExecFns;
use vstd::string::StrSliceExecFns;

use crate::evt::Event;
use crate::item::Name;

/// The lowercase hexadecimal digit for a nibble below 16.
pub open spec fn hex_char_of(nib: u8) -> char {
    if nib == 0 {
        '0'
    } else if nib == 1 {
        '1'
    } else if nib == 2 {
        '2'
    } else if nib == 3 {
        '3'
    } else if nib == 4 {
        '4'
    } else if nib == 5 {
        '5'
    } else if nib == 6 {
        '6'
    } else if nib == 7 {
        '7'
    } else if nib == 8 {
        '8'
    } else if nib == 9 {
        '9'
    } else if nib == 10 {
        'a'
    } else if nib == 11 {
        'b'
    } else if nib == 12 {
        'c'
    } else if nib == 13 {
        'd'
    } else if nib == 14 {
        'e'
    } else {
        'f'
    }
}

/// The value of a lowercase hexadecimal digit; 16 for any other character.
pub open spec fn hex_val_of(c: char) -> u8 {
    if c == '0' {
        0
    } else if c == '1' {
        1
    } else if c == '2' {
        2
    } else if c == '3' {
        3
    } else if c == '4' {
        4
    } else if c == '5' {
        5
    } else if c == '6' {
        6
    } else if c == '7' {
        7
    } else if c == '8' {
        8
    } else if c == '9' {
        9
    } else if c == 'a' {
        10
    } else if c == 'b' {
        11
    } else if c == 'c' {
        12
    } else if c == 'd' {
        13
    } else if c == 'e' {
        14
    } else if c == 'f' {
        15
    } else {
        16
    }
}

pub open spec fn is_lower_hex_digit(c: char) -> bool {
    hex_val_of(c) < 16
}

/// A string in the canonical alphabet: exactly two lowercase hex digits.
pub open spec fn is_hex_name(s: Seq<char>) -> bool {
    s.len() == 2 && is_lower_hex_digit(s[0]) && is_lower_hex_digit(s[1])
}

/// The byte a name in the alphabet denotes.
pub open spec fn hex_byte_of(s: Seq<char>) -> u8
    recommends
        is_hex_name(s),
{
    (hex_val_of(s[0]) * 16 + hex_val_of(s[1])) as u8
}

/// The canonical rendering of a byte as a name.
pub open spec fn hex_name_of(b: u8) -> Seq<char> {
    seq![hex_char_of(b / 16), hex_char_of(b % 16)]
}

/// Cyclic successor in the alphabet: byte plus one, wrapping to zero.
pub open spec fn succ_byte(b: u8) -> u8 {
    if b == 255 {
        0
    } else {
        (b + 1) as u8
    }
}

/// Rendering a nibble always yields a digit, and reading the digit back
/// yields the nibble.
pub proof fn lemma_hex_char_val(nib: u8)
    requires
        nib < 16,
    ensures
        is_lower_hex_digit(hex_char_of(nib)),
        hex_val_of(hex_char_of(nib)) == nib,
{
}

/// Rendering a byte yields a name of the alphabet that denotes the byte
/// again: names and bytes are in bijection.
pub proof fn lemma_hex_name_roundtrip(b: u8)
    ensures
        is_hex_name(hex_name_of(b)),
        hex_byte_of(hex_name_of(b)) == b,
{
    lemma_hex_char_val(b / 16);
    lemma_hex_char_val(b % 16);
}

/// Reading a digit and rendering the value back yields the digit.
pub proof fn lemma_hex_val_char(c: char)
    requires
        is_lower_hex_digit(c),
    ensures
        hex_char_of(hex_val_of(c)) == c,
{
}

/// Every name of the alphabet is the rendering of the byte it denotes.
pub proof fn lemma_hex_name_complete(n: Seq<char>)
    requires
        is_hex_name(n),
    ensures
        hex_name_of(hex_byte_of(n)) == n,
{
    lemma_hex_val_char(n[0]);
    lemma_hex_val_char(n[1]);
    assert(hex_byte_of(n) / 16 == hex_val_of(n[0]) && hex_byte_of(n) % 16 == hex_val_of(n[1]))
        by (nonlinear_arith)
        requires
            hex_val_of(n[0]) < 16,
            hex_val_of(n[1]) < 16,
            hex_byte_of(n) == (hex_val_of(n[0]) * 16 + hex_val_of(n[1])) as u8,
    ;
    assert(hex_name_of(hex_byte_of(n)) =~= n);
}

/// Distinct bytes render as distinct names.
pub proof fn lemma_hex_name_injective(a: u8, b: u8)
    requires
        hex_name_of(a) == hex_name_of(b),
    ensures
        a == b,
{
    lemma_hex_name_roundtrip(a);
    lemma_hex_name_roundtrip(b);
}

fn hex_str(nib: u8) -> (r: &'static str)
    requires
        nib < 16,
    ensures
        r@ =~= seq![hex_char_of(nib)],
{
    proof {
        reveal_strlit("0");
        reveal_strlit("1");
        reveal_strlit("2");
        reveal_strlit("3");
        reveal_strlit("4");
        reveal_strlit("5");
        reveal_strlit("6");
        reveal_strlit("7");
        reveal_strlit("8");
        reveal_strlit("9");
        reveal_strlit("a");
        reveal_strlit("b");
        reveal_strlit("c");
        reveal_strlit("d");
        reveal_strlit("e");
        reveal_strlit("f");
    }
    if nib == 0 {
        "0"
    } else if nib == 1 {
        "1"
    } else if nib == 2 {
        "2"
    } else if nib == 3 {
        "3"
    } else if nib == 4 {
        "4"
    } else if nib == 5 {
        "5"
    } else if nib == 6 {
        "6"
    } else if nib == 7 {
        "7"
    } else if nib == 8 {
        "8"
    } else if nib == 9 {
        "9"
    } else if nib == 10 {
        "a"
    } else if nib == 11 {
        "b"
    } else if nib == 12 {
        "c"
    } else if nib == 13 {
        "d"
    } else if nib == 14 {
        "e"
    } else {
        "f"
    }
}

fn hex_val(c: char) -> (r: u8)
    ensures
        r == hex_val_of(c),
{
    if c == '0' {
        0
    } else if c == '1' {
        1
    } else if c == '2' {
        2
    } else if c == '3' {
        3
    } else if c == '4' {
        4
    } else if c == '5' {
        5
    } else if c == '6' {
        6
    } else if c == '7' {
        7
    } else if c == '8' {
        8
    } else if c == '9' {
        9
    } else if c == 'a' {
        10
    } else if c == 'b' {
        11
    } else if c == 'c' {
        12
    } else if c == 'd' {
        13
    } else if c == 'e' {
        14
    } else if c == 'f' {
        15
    } else {
        16
    }
}

/// Try converts `Name`(two lowercase hex digits expected) to `u8`.
///
/// * 00 => 0
/// * 01 => 1
/// * ...
/// * ff => 255
/// * zz => `Event::BadRequest`
pub fn n2u3_hex(n: &Name) -> (r: Result<u8, Event>)
    ensures
        is_hex_name(n@) ==> r == Ok::<u8, Event>(hex_byte_of(n@)),
        !is_hex_name(n@) ==> r == Err::<u8, Event>(Event::BadRequest),
{
    let s = n.as_str();
    if s.unicode_len() != 2 {
        return Err(Event::BadRequest);
    }
    let h = hex_val(s.get_char(0));
    let l = hex_val(s.get_char(1));
    if h < 16 && l < 16 {
        Ok(h * 16 + l)
    } else {
        Err(Event::BadRequest)
    }
}

/// Converts `u8` to `Name`(zero padded lowercase hex string).
///
/// * 0 -> 00
/// * 1 -> 01
/// * ...
/// * 255 -> ff
pub fn u2n3_hex(u: u8) -> (n: Name)
    ensures
        n@ == hex_name_of(u),
{
    let s = String::from_str(hex_str(u / 16)).concat(hex_str(u % 16));
    proof {
        assert(s@ =~= hex_name_of(u));
    }
    Name::from(s)
}

/// Accepts only names of the canonical alphabet.
pub struct NameCheckerU8 {}

impl NameCheckerU8 {
    /// Hands a name of the alphabet back unchanged; rejects any other.
    ///
    /// * 00 -> 00
    /// * ...
    /// * ff -> ff
    /// * zz -> `Event::BadRequest`
    pub fn check(&self, name: Name) -> (r: Result<Name, Event>)
        ensures
            is_hex_name(name@) ==> (r matches Ok(m) && m == name),
            !is_hex_name(name@) ==> r == Err::<Name, Event>(Event::BadRequest),
    {
        match n2u3_hex(&name) {
            Ok(_) => Ok(name),
            Err(e) => Err(e),
        }
    }
}

/// Creates new name checker which rejects names outside the alphabet.
pub fn name_checker_u8_new() -> (r: NameCheckerU8) {
    NameCheckerU8 {}
}

/// Yields the cyclically next name of the alphabet.
pub struct NextGenByPrevU8 {}

impl NextGenByPrevU8 {
    /// The name after `prev` in the alphabet, wrapping `ff` to `00`.
    ///
    /// *  0 => 01
    /// * 41 => 42
    /// * 49 => 4a
    /// * ff => 00
    pub fn next(&self, prev: Name) -> (r: Result<Name, Event>)
        ensures
            is_hex_name(prev@) ==> (r matches Ok(m) && m@ == hex_name_of(succ_byte(hex_byte_of(
                prev@,
            )))),
            !is_hex_name(prev@) ==> r == Err::<Name, Event>(Event::BadRequest),
    {
        match n2u3_hex(&prev) {
            Ok(pu) => {
                let nu = if pu == 255 {
                    0
                } else {
                    pu + 1
                };
                Ok(u2n3_hex(nu))
            },
            Err(e) => Err(e),
        }
    }
}

/// Creates new name generator which steps through the alphabet by the
/// cyclic successor of the previous name's byte.
pub fn next_gen_by_prev_u8_new() -> (r: NextGenByPrevU8) {
    NextGenByPrevU8 {}
}

/// Creates new name generator over the canonical hex alphabet.
pub fn next_gen_by_prev_u8_hex() -> (r: NextGenByPrevU8) {
    NextGenByPrevU8 {}
}

} // verus!
