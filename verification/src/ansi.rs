//! ANSI/VT100 control sequences: a character-level model of the decimal
//! rendering inside them, and the cursor-movement and color sequences the
//! renderer emits.

use vstd::prelude::*;

verus! {

/// The decimal digit character for a value below ten.
pub open spec fn dec_digit(d: nat) -> char {
    if d == 0 {
        '0'
    } else if d == 1 {
        '1'
    } else if d == 2 {
        '2'
    } else if d == 3 {
        '3'
    } else if d == 4 {
        '4'
    } else if d == 5 {
        '5'
    } else if d == 6 {
        '6'
    } else if d == 7 {
        '7'
    } else if d == 8 {
        '8'
    } else {
        '9'
    }
}

/// The decimal rendering of `n`, most significant digit first, with no
/// leading zeros (and the single digit `0` for zero).
pub open spec fn dec(n: nat) -> Seq<char>
    decreases n,
{
    if n < 10 {
        seq![dec_digit(n)]
    } else {
        dec(n / 10).push(dec_digit(n % 10))
    }
}

/// Relies on `termion::cursor::Up` and its `From<Up> for String`
/// implementation: the sequence is `ESC [`, the decimal row count, then
/// `A`.
#[verifier::external_body]
pub(crate) fn cursor_up(n: u16) -> (r: String)
    ensures
        r@ == "\x1b["@ + dec(n as nat) + "A"@,
{
    String::from(termion::cursor::Up(n))
}

/// Relies on `termion::cursor::Down` and its `From<Down> for String`
/// implementation: the sequence is `ESC [`, the decimal row count, then
/// `B`.
#[verifier::external_body]
pub(crate) fn cursor_down(n: u16) -> (r: String)
    ensures
        r@ == "\x1b["@ + dec(n as nat) + "B"@,
{
    String::from(termion::cursor::Down(n))
}

/// Relies on `termion::cursor::Right` and its `From<Right> for String`
/// implementation: the sequence is `ESC [`, the decimal column count, then
/// `C`.
#[verifier::external_body]
pub(crate) fn cursor_right(n: u16) -> (r: String)
    ensures
        r@ == "\x1b["@ + dec(n as nat) + "C"@,
{
    String::from(termion::cursor::Right(n))
}

/// Relies on `termion::color::AnsiValue::fg_string`: the sequence selects
/// a 256-palette foreground color by its decimal value.
#[verifier::external_body]
pub(crate) fn fg_ansi(value: u8) -> (r: String)
    ensures
        r@ == "\x1b[38;5;"@ + dec(value as nat) + "m"@,
{
    termion::color::AnsiValue(value).fg_string()
}

/// Relies on `termion::color::AnsiValue::bg_string`: the sequence selects
/// a 256-palette background color by its decimal value.
#[verifier::external_body]
pub(crate) fn bg_ansi(value: u8) -> (r: String)
    ensures
        r@ == "\x1b[48;5;"@ + dec(value as nat) + "m"@,
{
    termion::color::AnsiValue(value).bg_string()
}

/// Relies on `termion::color::Rgb::fg_string`: the sequence selects a
/// truecolor foreground by its decimal components.
#[verifier::external_body]
pub(crate) fn fg_rgb(r: u8, g: u8, b: u8) -> (s: String)
    ensures
        s@ == "\x1b[38;2;"@ + dec(r as nat) + ";"@ + dec(g as nat) + ";"@ + dec(b as nat) + "m"@,
{
    termion::color::Rgb(r, g, b).fg_string()
}

/// Relies on `termion::color::Rgb::bg_string`: the sequence selects a
/// truecolor background by its decimal components.
#[verifier::external_body]
pub(crate) fn bg_rgb(r: u8, g: u8, b: u8) -> (s: String)
    ensures
        s@ == "\x1b[48;2;"@ + dec(r as nat) + ";"@ + dec(g as nat) + ";"@ + dec(b as nat) + "m"@,
{
    termion::color::Rgb(r, g, b).bg_string()
}

} // verus!
