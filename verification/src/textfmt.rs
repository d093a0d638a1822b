//! Text the UI shows for an entry: the `rwxr-xr-x` permission string
//! and a human-readable size.

use vstd::prelude::*;

verus! {

/// Relies on `String::push`: appends exactly one character.
#[verifier::external_body]
pub(crate) fn push_char(s: &mut String, c: char)
    ensures
        final(s)@ == old(s)@.push(c),
{
    s.push(c);
}

/// The flag character when the permission bit is set, `-` otherwise.
pub open spec fn rwx_bit(mode: u32, bit: u32, on: char) -> char {
    if mode & bit != 0 {
        on
    } else {
        '-'
    }
}

/// The nine-character `rwxrwxrwx` rendering of a permission word.
pub open spec fn spec_mode_string(mode: u32) -> Seq<char> {
    seq![
        rwx_bit(mode, 0o400, 'r'),
        rwx_bit(mode, 0o200, 'w'),
        rwx_bit(mode, 0o100, 'x'),
        rwx_bit(mode, 0o040, 'r'),
        rwx_bit(mode, 0o020, 'w'),
        rwx_bit(mode, 0o010, 'x'),
        rwx_bit(mode, 0o004, 'r'),
        rwx_bit(mode, 0o002, 'w'),
        rwx_bit(mode, 0o001, 'x'),
    ]
}

/// Render a permission word as `rwxr-xr--` and the like: user, group,
/// others, one flag character per bit.
pub fn mode_to_string(mode: u32) -> (r: String)
    ensures
        r@ == spec_mode_string(mode),
{
    let mut r = String::new();
    push_char(&mut r, if mode & 0o400 != 0 { 'r' } else { '-' });
    push_char(&mut r, if mode & 0o200 != 0 { 'w' } else { '-' });
    push_char(&mut r, if mode & 0o100 != 0 { 'x' } else { '-' });
    push_char(&mut r, if mode & 0o040 != 0 { 'r' } else { '-' });
    push_char(&mut r, if mode & 0o020 != 0 { 'w' } else { '-' });
    push_char(&mut r, if mode & 0o010 != 0 { 'x' } else { '-' });
    push_char(&mut r, if mode & 0o004 != 0 { 'r' } else { '-' });
    push_char(&mut r, if mode & 0o002 != 0 { 'w' } else { '-' });
    push_char(&mut r, if mode & 0o001 != 0 { 'x' } else { '-' });
    proof {
        assert(r@ =~= spec_mode_string(mode));
    }
    r
}

/// The character for one decimal digit.
pub open spec fn spec_digit_char(d: int) -> char {
    if d == 0 {
        '0'
    } else if d == 1 {
        '1'
    } else if d == 2 {
        '2'
    } else if d == 3 {
        '3'
    } else if d == 4 {
        '4'
    } else if d == 5 {
        '5'
    } else if d == 6 {
        '6'
    } else if d == 7 {
        '7'
    } else if d == 8 {
        '8'
    } else {
        '9'
    }
}

/// The decimal rendering of a number, most significant digit first.
pub open spec fn spec_dec(n: int) -> Seq<char>
    recommends
        n >= 0,
    decreases n,
{
    if n < 10 {
        seq![spec_digit_char(n)]
    } else {
        spec_dec(n / 10).push(spec_digit_char(n % 10))
    }
}

fn digit_char(d: u64) -> (c: char)
    requires
        d < 10,
    ensures
        c == spec_digit_char(d as int),
{
    if d == 0 {
        '0'
    } else if d == 1 {
        '1'
    } else if d == 2 {
        '2'
    } else if d == 3 {
        '3'
    } else if d == 4 {
        '4'
    } else if d == 5 {
        '5'
    } else if d == 6 {
        '6'
    } else if d == 7 {
        '7'
    } else if d == 8 {
        '8'
    } else {
        '9'
    }
}

/// Render a number in decimal.
pub fn u64_to_dec(n: u64) -> (r: String)
    ensures
        r@ == spec_dec(n as int),
    decreases n,
{
    if n < 10 {
        let mut r = String::new();
        push_char(&mut r, digit_char(n));
        proof {
            assert(r@ =~= seq![spec_digit_char(n as int)]);
        }
        r
    } else {
        let mut r = u64_to_dec(n / 10);
        push_char(&mut r, digit_char(n % 10));
        r
    }
}

pub const KB: u64 = 1024;

pub const MB: u64 = 1024 * 1024;

pub const GB: u64 = 1024 * 1024 * 1024;

/// `n / d` rounded to the nearest integer, ties to even — how a binary
/// fraction prints when cut to a fixed number of decimals.
pub open spec fn spec_round_half_even(n: int, d: int) -> int
    recommends
        n >= 0,
        d > 0,
{
    let q = n / d;
    let r = n % d;
    if 2 * r < d {
        q
    } else if 2 * r > d {
        q + 1
    } else if q % 2 == 0 {
        q
    } else {
        q + 1
    }
}

/// A size scaled against a unit, in hundredths of the unit.
pub open spec fn spec_scaled_hundredths(size: u64, unit: u64) -> int {
    spec_round_half_even(size * 100, unit as int)
}

/// A count of hundredths rendered with two decimal places.
pub open spec fn spec_with_two_decimals(h: int) -> Seq<char> {
    spec_dec(h / 100) + seq!['.', spec_digit_char((h / 10) % 10), spec_digit_char(h % 10)]
}

/// A byte count rendered against the largest unit it reaches, with two
/// decimal places, or as plain bytes under one kilobyte.
pub open spec fn spec_format_size(size: u64) -> Seq<char> {
    if size >= GB {
        spec_with_two_decimals(spec_scaled_hundredths(size, GB)) + " GB"@
    } else if size >= MB {
        spec_with_two_decimals(spec_scaled_hundredths(size, MB)) + " MB"@
    } else if size >= KB {
        spec_with_two_decimals(spec_scaled_hundredths(size, KB)) + " KB"@
    } else {
        spec_dec(size as int) + " B"@
    }
}

fn scaled_hundredths(size: u64, unit: u64) -> (h: u64)
    requires
        1024 <= unit,
    ensures
        h as int == spec_scaled_hundredths(size, unit),
{
    let n: u128 = (size as u128) * 100;
    let d: u128 = unit as u128;
    let q: u128 = n / d;
    let r: u128 = n % d;
    proof {
        vstd::arithmetic::div_mod::lemma_div_is_ordered_by_denominator(n as int, 1024, d as int);
        assert((n as int) / 1024 < 0x4000000000000000);
        assert(q < 0x4000000000000000);
    }
    let rounded: u128 = if 2 * r < d {
        q
    } else if 2 * r > d {
        q + 1
    } else if q % 2 == 0 {
        q
    } else {
        q + 1
    };
    rounded as u64
}

fn format_hundredths(h: u64) -> (r: String)
    ensures
        r@ == spec_with_two_decimals(h as int),
{
    let mut r = u64_to_dec(h / 100);
    push_char(&mut r, '.');
    push_char(&mut r, digit_char((h / 10) % 10));
    push_char(&mut r, digit_char(h % 10));
    proof {
        assert(r@ =~= spec_with_two_decimals(h as int));
    }
    r
}

/// Render a byte count for the status line: `512 B`, `1.50 KB`,
/// `2.00 MB`, `3.25 GB`.
pub fn format_size(size: u64) -> (r: String)
    ensures
        r@ == spec_format_size(size),
{
    if size >= GB {
        let mut r = format_hundredths(scaled_hundredths(size, GB));
        r.append(" GB");
        r
    } else if size >= MB {
        let mut r = format_hundredths(scaled_hundredths(size, MB));
        r.append(" MB");
        r
    } else if size >= KB {
        let mut r = format_hundredths(scaled_hundredths(size, KB));
        r.append(" KB");
        r
    } else {
        let mut r = u64_to_dec(size);
        r.append(" B");
        r
    }
}

} // verus!
