//! Text building blocks: decimal and hexadecimal rendering of integers,
//! the hyphenated form of a 128-bit call identifier, and string comparison.
use vstd::prelude::*;

verus! {

/// The lowercase hexadecimal digit for a value below 16.
pub open spec fn hex_digit(n: int) -> char {
    seq!['0', '1', '2', '3', '4', '5', '6', '7', '8', '9', 'a', 'b', 'c', 'd', 'e', 'f'][n]
}

/// The decimal digit for a value below 10.
pub open spec fn dec_digit(n: int) -> char {
    seq!['0', '1', '2', '3', '4', '5', '6', '7', '8', '9'][n]
}

/// The decimal rendering of a natural number, without leading zeros ("0" for zero).
pub open spec fn decimal(n: nat) -> Seq<char>
    decreases n,
{
    if n < 10 {
        seq![dec_digit(n as int)]
    } else {
        decimal(n / 10).push(dec_digit((n % 10) as int))
    }
}

/// The `i`-th of the 32 hexadecimal digits of `id`, most significant first:
/// the four bits starting at bit `4 * (31 - i)`.
pub open spec fn nibble(id: u128, i: int) -> u128 {
    (id >> ((4 * (31 - i)) as u128)) & 0xf
}

/// The 32 lowercase hexadecimal digits of `id`, most significant first.
pub open spec fn hex32(id: u128) -> Seq<char> {
    Seq::new(32, |i: int| hex_digit(nibble(id, i) as int))
}

/// The hyphenated 8-4-4-4-12 form of a 128-bit identifier, as UUIDs are written.
pub open spec fn uuid_text(id: u128) -> Seq<char> {
    let h = hex32(id);
    h.subrange(0, 8) + seq!['-'] + h.subrange(8, 12) + seq!['-'] + h.subrange(12, 16) + seq!['-']
        + h.subrange(16, 20) + seq!['-'] + h.subrange(20, 32)
}

/// How many characters of `uuid_text` precede the `i`-th hexadecimal digit
/// once that digit's hyphen, if any, is written.
spec fn uuid_pos(i: int) -> int {
    i + (if i > 8 { 1int } else { 0 }) + (if i > 12 { 1int } else { 0 }) + (if i > 16 { 1int } else { 0 }) + (if i > 20 { 1int } else { 0 })
}

/// `String::push`: appends one character.
#[verifier::external_body]
pub(crate) fn push_char(s: &mut String, c: char)
    ensures
        final(s)@ == old(s)@.push(c),
{
    s.push(c);
}

fn hex_char(n: u8) -> (c: char)
    requires
        n < 16,
    ensures
        c == hex_digit(n as int),
{
    match n {
        0 => '0',
        1 => '1',
        2 => '2',
        3 => '3',
        4 => '4',
        5 => '5',
        6 => '6',
        7 => '7',
        8 => '8',
        9 => '9',
        10 => 'a',
        11 => 'b',
        12 => 'c',
        13 => 'd',
        14 => 'e',
        _ => 'f',
    }
}

fn dec_char(n: u8) -> (c: char)
    requires
        n < 10,
    ensures
        c == dec_digit(n as int),
{
    match n {
        0 => '0',
        1 => '1',
        2 => '2',
        3 => '3',
        4 => '4',
        5 => '5',
        6 => '6',
        7 => '7',
        8 => '8',
        _ => '9',
    }
}

/// Renders `n` in decimal.
pub fn decimal_string(n: u64) -> (s: String)
    ensures
        s@ == decimal(n as nat),
    decreases n,
{
    if n < 10 {
        let mut s = String::new();
        push_char(&mut s, dec_char(n as u8));
        s
    } else {
        let mut s = decimal_string(n / 10);
        push_char(&mut s, dec_char((n % 10) as u8));
        s
    }
}

/// Renders a 128-bit identifier in the hyphenated 8-4-4-4-12 lowercase form.
pub fn uuid_string(id: u128) -> (s: String)
    ensures
        s@ == uuid_text(id),
{
    let mut s = String::new();
    let mut i: usize = 0;
    while i < 32
        invariant
            i <= 32,
            s@ =~= uuid_text(id).subrange(0, uuid_pos(i as int)),
        decreases 32 - i,
    {
        if i == 8 || i == 12 || i == 16 || i == 20 {
            push_char(&mut s, '-');
        }
        let shift: u128 = (4 * (31 - i)) as u128;
        let digit: u128 = (id >> shift) & 0xf;
        assert(digit < 16) by (bit_vector)
            requires
                digit == (id >> shift) & 0xf,
        ;
        push_char(&mut s, hex_char(digit as u8));
        i = i + 1;
    }
    assert(uuid_text(id).subrange(0, 36) =~= uuid_text(id));
    s
}

/// Whether two strings hold the same characters.
pub fn str_equal(a: &str, b: &str) -> (res: bool)
    ensures
        res == (a@ == b@),
{
    let x = String::from_str(a);
    let y = String::from_str(b);
    x == y
}

} // verus!
