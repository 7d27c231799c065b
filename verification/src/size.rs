//! Sizes in bytes, written for people.
//!
//! A size is shown in the largest unit in which it is at least one: with
//! one decimal digit while it is below ten units, else with none. The digit
//! shown last is rounded, halves upwards. Where rounding would show a full
//! thousand (or 1024 in binary units), the next unit is used instead.
use vstd::prelude::*;
use vstd::string::*;
use crate::catalog::{Catalog, Domain};
use crate::client::Client;
use crate::text::{decimal, decimal_string};

verus! {

/// Number of bytes in the unit of the given rank: rank 0 is the byte, rank 4
/// the largest unit. Units step by 1024 when `pow2` is set, else by 1000.
pub open spec fn unit_factor(pow2: bool, rank: int) -> nat {
    if pow2 {
        if rank <= 0 {
            1
        } else if rank == 1 {
            1024
        } else if rank == 2 {
            1048576
        } else if rank == 3 {
            1073741824
        } else {
            1099511627776
        }
    } else {
        if rank <= 0 {
            1
        } else if rank == 1 {
            1000
        } else if rank == 2 {
            1000000
        } else if rank == 3 {
            1000000000
        } else {
            1000000000000
        }
    }
}

/// Symbol of the unit of the given rank.
pub open spec fn unit_symbol(pow2: bool, rank: int) -> Seq<char> {
    if pow2 {
        if rank <= 0 {
            "B"@
        } else if rank == 1 {
            "KiB"@
        } else if rank == 2 {
            "MiB"@
        } else if rank == 3 {
            "GiB"@
        } else {
            "TiB"@
        }
    } else {
        if rank <= 0 {
            "B"@
        } else if rank == 1 {
            "kB"@
        } else if rank == 2 {
            "MB"@
        } else if rank == 3 {
            "GB"@
        } else {
            "TB"@
        }
    }
}

/// The context under which the unit symbols and the long form are translated.
pub open spec fn size_context(pow2: bool) -> Seq<char> {
    if pow2 {
        "byte-size-pow2"@
    } else {
        "byte-size-pow10"@
    }
}

/// `n / d` rounded to the nearest whole number, halves upwards.
pub open spec fn rounded(n: nat, d: nat) -> nat {
    (2 * n + d) / (2 * d)
}

/// Rank of the largest unit in which `size` is at least one.
pub open spec fn unit_rank(size: nat, pow2: bool) -> int {
    if size < unit_factor(pow2, 1) {
        0
    } else if size < unit_factor(pow2, 2) {
        1
    } else if size < unit_factor(pow2, 3) {
        2
    } else if size < unit_factor(pow2, 4) {
        3
    } else {
        4
    }
}

/// Rank of the unit in which `size` is shown: that of [`unit_rank`], or the
/// next one where rounding would fill a whole unit of it.
pub open spec fn shown_rank(size: nat, pow2: bool) -> int {
    let rank = unit_rank(size, pow2);
    if 1 <= rank < 4 && size >= 10 * unit_factor(pow2, rank) && rounded(
        size,
        unit_factor(pow2, rank),
    ) >= unit_factor(pow2, 1) {
        rank + 1
    } else {
        rank
    }
}

/// The digits that show `size` in units of `factor` bytes: with one decimal
/// digit while the size is below ten units, else without.
pub open spec fn scaled(size: nat, factor: nat) -> Seq<char> {
    if factor == 1 {
        decimal(size)
    } else if size < 10 * factor {
        let tenths = rounded(size * 10, factor);
        decimal(tenths / 10).push('.') + decimal(tenths % 10)
    } else {
        decimal(rounded(size, factor))
    }
}

/// A size in words: the scaled number, a space, and the symbol of the unit
/// as the catalog gives it.
pub open spec fn size_text(catalog: Catalog, size: nat, pow2: bool) -> Seq<char> {
    let rank = shown_rank(size, pow2);
    scaled(size, unit_factor(pow2, rank)).push(' ') + catalog.text(
        Domain::Default,
        Some(size_context(pow2)),
        unit_symbol(pow2, rank),
    )
}

/// The long form of a size: the short form, followed in brackets by the
/// exact number of bytes.
pub open spec fn long_size_text(catalog: Catalog, size: nat, pow2: bool) -> Seq<char> {
    catalog.filled(
        Some(size_context(pow2)),
        "%s (%s bytes)"@,
        seq![size_text(catalog, size, pow2), decimal(size)],
    )
}

/// Number of bytes in the unit of the given rank.
pub fn unit_bytes(pow2: bool, rank: u8) -> (r: u64)
    ensures
        r == unit_factor(pow2, rank as int),
{
    if pow2 {
        if rank == 0 {
            1
        } else if rank == 1 {
            1024
        } else if rank == 2 {
            1048576
        } else if rank == 3 {
            1073741824
        } else {
            1099511627776
        }
    } else {
        if rank == 0 {
            1
        } else if rank == 1 {
            1000
        } else if rank == 2 {
            1000000
        } else if rank == 3 {
            1000000000
        } else {
            1000000000000
        }
    }
}

/// Symbol of the unit of the given rank, as the source writes it.
pub fn unit_name(pow2: bool, rank: u8) -> (r: &'static str)
    ensures
        r@ == unit_symbol(pow2, rank as int),
{
    if pow2 {
        if rank == 0 {
            "B"
        } else if rank == 1 {
            "KiB"
        } else if rank == 2 {
            "MiB"
        } else if rank == 3 {
            "GiB"
        } else {
            "TiB"
        }
    } else {
        if rank == 0 {
            "B"
        } else if rank == 1 {
            "kB"
        } else if rank == 2 {
            "MB"
        } else if rank == 3 {
            "GB"
        } else {
            "TB"
        }
    }
}

/// The context under which sizes are translated.
pub fn size_context_name(pow2: bool) -> (r: &'static str)
    ensures
        r@ == size_context(pow2),
{
    if pow2 {
        "byte-size-pow2"
    } else {
        "byte-size-pow10"
    }
}

/// Divides `n` by `d`, rounding halves upwards.
fn round_div(n: u128, d: u64) -> (r: u128)
    requires
        d > 0,
        n <= 0xffff_ffff_ffff_ffff_ffff,
    ensures
        r == rounded(n as nat, d as nat),
        r <= n + 1,
{
    let r = (2 * n + d as u128) / (2 * d as u128);
    assert(r <= n + 1) by (nonlinear_arith)
        requires
            r == (2 * n + d) / (2 * d),
            d > 0,
    ;
    r
}

/// Picks the unit in which `size` is shown.
pub fn pick_rank(size: u64, pow2: bool) -> (r: u8)
    ensures
        r as int == shown_rank(size as nat, pow2),
        r <= 4,
{
    let rank: u8 = if size < unit_bytes(pow2, 1) {
        0
    } else if size < unit_bytes(pow2, 2) {
        1
    } else if size < unit_bytes(pow2, 3) {
        2
    } else if size < unit_bytes(pow2, 4) {
        3
    } else {
        4
    };
    if 1 <= rank && rank < 4 {
        let factor = unit_bytes(pow2, rank);
        if size as u128 >= 10 * factor as u128 && round_div(size as u128, factor) >= unit_bytes(
            pow2,
            1,
        ) as u128 {
            return rank + 1;
        }
    }
    rank
}

/// Writes the digits that show `size` in units of `factor` bytes.
fn scaled_string(size: u64, factor: u64) -> (r: String)
    requires
        factor > 0,
    ensures
        r@ == scaled(size as nat, factor as nat),
{
    if factor == 1 {
        decimal_string(size)
    } else if (size as u128) < 10 * factor as u128 {
        let tenths = round_div(size as u128 * 10, factor);
        assert(tenths <= 100) by (nonlinear_arith)
            requires
                tenths == (2 * (size * 10) + factor) / (2 * factor),
                size < 10 * factor,
                factor > 1,
        ;
        let tenths = tenths as u64;
        let mut r = decimal_string(tenths / 10);
        proof {
            reveal_strlit(".");
        }
        r.append(".");
        r.append(decimal_string(tenths % 10).as_str());
        r
    } else {
        let whole = round_div(size as u128, factor);
        assert(whole <= size) by (nonlinear_arith)
            requires
                whole == (2 * size + factor) / (2 * factor),
                size >= 10 * factor,
                factor > 1,
        ;
        decimal_string(whole as u64)
    }
}

impl Client {
    /// A size in words, in the units that `pow2` selects.
    fn size_in_words(&self, size: u64, pow2: bool) -> (r: String)
        ensures
            r@ == size_text(self@.catalog, size as nat, pow2),
    {
        let rank = pick_rank(size, pow2);
        let mut r = scaled_string(size, unit_bytes(pow2, rank));
        proof {
            reveal_strlit(" ");
        }
        r.append(" ");
        r.append(
            self.catalog().lookup(
                Domain::Default,
                Some(size_context_name(pow2)),
                unit_name(pow2, rank),
            ),
        );
        r
    }

    /// A size in words, in units that step by 1024.
    pub fn pow2_size(&self, size: u64) -> (r: String)
        ensures
            r@ == size_text(self@.catalog, size as nat, true),
    {
        self.size_in_words(size, true)
    }

    /// A size in words, in units that step by 1000.
    pub fn pow10_size(&self, size: u64) -> (r: String)
        ensures
            r@ == size_text(self@.catalog, size as nat, false),
    {
        self.size_in_words(size, false)
    }

    /// Utility function to get a human-readable string that represents the given size.
    ///
    /// When `use_pow2` is set to true power-of-two units are used instead of power-of-ten
    /// units.
    /// Set `long_str` to true, to produce a long string.
    pub fn size_for_display(&self, size: u64, use_pow2: bool, long_str: bool) -> (r: String)
        ensures
            r@ == if long_str {
                long_size_text(self@.catalog, size as nat, use_pow2)
            } else {
                size_text(self@.catalog, size as nat, use_pow2)
            },
    {
        let pow_size = if use_pow2 {
            self.pow2_size(size)
        } else {
            self.pow10_size(size)
        };
        if !long_str {
            return pow_size;
        }
        let bytes = decimal_string(size);
        self.catalog().format2(
            size_context_name(use_pow2),
            "%s (%s bytes)",
            pow_size.as_str(),
            bytes.as_str(),
        )
    }
}

} // verus!
