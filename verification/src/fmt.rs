//! Decimal and hexadecimal rendering of integers, as `format!` writes them.
use vstd::prelude::*;

verus! {

/// The ASCII digit for `d` (`0`–`9`), or the lower-case hex letter for `10`–`15`.
pub open spec fn hex_lower_char(d: nat) -> char {
    if d < 10 {
        (48 + d) as char
    } else {
        (87 + d) as char
    }
}

/// `n` in decimal without leading zeros (`format!("{}", n)` for unsigned `n`).
pub open spec fn decimal(n: nat) -> Seq<char>
    decreases n,
{
    if n < 10 {
        seq![hex_lower_char(n)]
    } else {
        decimal(n / 10).push(hex_lower_char(n % 10))
    }
}

/// `n` in decimal with a leading `-` when negative (`format!("{}", n)` for signed `n`).
pub open spec fn decimal_signed(n: int) -> Seq<char> {
    if n < 0 {
        seq!['-'] + decimal((-n) as nat)
    } else {
        decimal(n as nat)
    }
}

/// `b` as exactly two lower-case hex digits (`format!("{:02x}", b)`).
pub open spec fn hex2(b: u8) -> Seq<char> {
    seq![hex_lower_char((b / 16) as nat), hex_lower_char((b % 16) as nat)]
}

pub fn hex_digit(d: u8) -> (c: char)
    requires
        d < 16,
    ensures
        c == hex_lower_char(d as nat),
{
    if d < 10 {
        (d + 48) as char
    } else {
        (d + 87) as char
    }
}

pub fn u64_decimal(n: u64) -> (r: Vec<char>)
    ensures
        r@ == decimal(n as nat),
    decreases n,
{
    if n < 10 {
        let mut r: Vec<char> = Vec::new();
        r.push(hex_digit(n as u8));
        r
    } else {
        let mut r = u64_decimal(n / 10);
        r.push(hex_digit((n % 10) as u8));
        r
    }
}

pub fn i64_decimal(n: i64) -> (r: Vec<char>)
    ensures
        r@ == decimal_signed(n as int),
{
    if n < 0 {
        let m = (0i128 - (n as i128)) as u64;
        let d = u64_decimal(m);
        let mut r: Vec<char> = Vec::new();
        r.push('-');
        crate::text::extend(&mut r, d.as_slice());
        r
    } else {
        u64_decimal(n as u64)
    }
}

pub fn hex2_exec(b: u8) -> (r: Vec<char>)
    ensures
        r@ == hex2(b),
{
    let mut r: Vec<char> = Vec::new();
    r.push(hex_digit(b / 16));
    r.push(hex_digit(b % 16));
    assert(r@ =~= hex2(b));
    r
}

} // verus!
