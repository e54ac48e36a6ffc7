//! Human-readable memory sizes for the process and device tables.

use vstd::prelude::*;

verus! {

pub const BYTES_PER_MB: u64 = 1024 * 1024;

pub const BYTES_PER_GB: u64 = 1024 * 1024 * 1024;

/// The decimal digit `d` as a character.
pub open spec fn digit_char(d: nat) -> char {
    if d == 0 {
        '0'
    } else if d == 1 {
        '1'
    } else if d == 2 {
        '2'
    } else if d == 3 {
        '3'
    } else if d == 4 {
        '4'
    } else if d == 5 {
        '5'
    } else if d == 6 {
        '6'
    } else if d == 7 {
        '7'
    } else if d == 8 {
        '8'
    } else {
        '9'
    }
}

/// The decimal digits of `n`, most significant first, with no leading zeros
/// (just "0" for zero).
pub open spec fn dec_digits(n: nat) -> Seq<char>
    decreases n,
{
    if n < 10 {
        seq![digit_char(n)]
    } else {
        dec_digits(n / 10).push(digit_char(n % 10))
    }
}

/// Hundredths of a gigabyte, rounded half up.
pub open spec fn spec_gb_hundredths(bytes: u64) -> int {
    ((bytes as int) * 100 + (BYTES_PER_GB as int) / 2) / (BYTES_PER_GB as int)
}

/// What `format_memory_size` prints: at ten gigabytes and above, gigabytes
/// with two decimals (rounded half up); below that, whole megabytes
/// (truncated).
pub open spec fn spec_format_memory_size(bytes: u64) -> Seq<char> {
    if bytes >= 10 * BYTES_PER_GB {
        let h = spec_gb_hundredths(bytes);
        dec_digits((h / 100) as nat) + seq!['.'] + seq![
            digit_char(((h % 100) / 10) as nat),
            digit_char((h % 10) as nat),
        ] + seq!['G', 'B']
    } else {
        dec_digits((bytes / BYTES_PER_MB) as nat) + seq!['M', 'B']
    }
}

/// Relies on String::push: appends exactly the one character.
#[verifier::external_body]
fn string_push(s: &mut String, c: char)
    ensures
        final(s)@ == old(s)@.push(c),
{
    s.push(c)
}

fn digit_to_char(d: u64) -> (r: char)
    requires
        d < 10,
    ensures
        r == digit_char(d as nat),
{
    if d == 0 {
        '0'
    } else if d == 1 {
        '1'
    } else if d == 2 {
        '2'
    } else if d == 3 {
        '3'
    } else if d == 4 {
        '4'
    } else if d == 5 {
        '5'
    } else if d == 6 {
        '6'
    } else if d == 7 {
        '7'
    } else if d == 8 {
        '8'
    } else {
        '9'
    }
}

/// Append the decimal digits of `n` to `s`.
fn push_decimal(s: &mut String, n: u64)
    ensures
        final(s)@ == old(s)@ + dec_digits(n as nat),
    decreases n,
{
    if n >= 10 {
        push_decimal(s, n / 10);
    }
    string_push(s, digit_to_char(n % 10));
    proof {
        if n < 10 {
            assert(old(s)@.push(digit_char((n % 10) as nat)) =~= old(s)@ + dec_digits(n as nat));
        } else {
            assert((old(s)@ + dec_digits((n / 10) as nat)).push(digit_char((n % 10) as nat))
                =~= old(s)@ + dec_digits(n as nat));
        }
    }
}

/// Render a byte count the way the dashboard's tables show memory: whole
/// megabytes below ten gigabytes, gigabytes with two decimals above.
pub fn format_memory_size(bytes: u64) -> (r: String)
    ensures
        r@ == spec_format_memory_size(bytes),
{
    let mut s = String::new();
    if bytes >= 10 * BYTES_PER_GB {
        let h128: u128 = ((bytes as u128) * 100 + (BYTES_PER_GB as u128) / 2) / (
        BYTES_PER_GB as u128);
        proof {
            vstd::arithmetic::div_mod::lemma_div_is_ordered(
                (bytes as int) * 100 + (BYTES_PER_GB as int) / 2,
                (u64::MAX as int) * 100 + (BYTES_PER_GB as int) / 2,
                BYTES_PER_GB as int,
            );
        }
        let h: u64 = h128 as u64;
        push_decimal(&mut s, h / 100);
        string_push(&mut s, '.');
        string_push(&mut s, digit_to_char((h % 100) / 10));
        string_push(&mut s, digit_to_char(h % 10));
        string_push(&mut s, 'G');
        string_push(&mut s, 'B');
        proof {
            assert((h % 100) / 10 == (spec_gb_hundredths(bytes) % 100) / 10);
            assert(h % 10 == spec_gb_hundredths(bytes) % 10);
            assert(s@ =~= spec_format_memory_size(bytes));
        }
    } else {
        push_decimal(&mut s, bytes / BYTES_PER_MB);
        string_push(&mut s, 'M');
        string_push(&mut s, 'B');
        proof {
            assert(s@ =~= spec_format_memory_size(bytes));
        }
    }
    s
}

/// The fill of the power gauge: the draw as a share of the limit, in
/// percent, truncated and capped at 100; a zero limit shows a full gauge.
pub open spec fn spec_power_percentage(usage: u32, limit: u32) -> u16 {
    if limit == 0 {
        100u16
    } else if (usage as int) * 100 / (limit as int) > 100 {
        100u16
    } else {
        ((usage as int) * 100 / (limit as int)) as u16
    }
}

pub fn power_percentage(usage: u32, limit: u32) -> (r: u16)
    ensures
        r == spec_power_percentage(usage, limit),
        r <= 100,
{
    if limit == 0 {
        100
    } else {
        let share: u64 = (usage as u64) * 100 / (limit as u64);
        if share > 100 {
            100
        } else {
            share as u16
        }
    }
}

/// The fill of the utilization gauge: the reported percent, capped at 100.
pub fn utilization_percentage(utilization: u32) -> (r: u16)
    ensures
        r == if utilization > 100 {
            100u16
        } else {
            utilization as u16
        },
        r <= 100,
{
    if utilization > 100 {
        100
    } else {
        utilization as u16
    }
}

} // verus!
