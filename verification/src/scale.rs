//! Magnitudes in human units: a byte count, or a rate in bytes per second,
//! becomes a mantissa of at most four characters and one unit letter.
//!
//! A magnitude is a non-negative rational `num / den`. Its unit is chosen by
//! its whole part; the mantissa is the decimal expansion of the magnitude
//! divided by the unit's size, cut after four characters.

use vstd::prelude::*;
use vstd::arithmetic::div_mod::lemma_multiply_divide_lt;
use crate::text::all_digits;
use crate::text::decimal;
use crate::text::digit;
use crate::text::digit_char;
use crate::text::is_digit;
use crate::text::lemma_decimal_is_digits;
use crate::text::lemma_decimal_len;
use crate::text::push_decimal;
use crate::text::string_of;

verus! {

/// Each unit is this many times the one below it.
pub const GROWTH: u64 = 1024;

/// A unit starts this many of the unit below it short of its own size, so
/// that a mantissa just under the size never needs more than four characters.
pub const BACKOFF: u64 = 24;

/// The most characters a mantissa may have.
pub const WIDTH: usize = 4;

/// The most fraction digits an expansion carries: with one digit before the
/// point and the point itself, no more can survive the cut to `WIDTH`.
pub const PLACES: u8 = 2;

/// The largest denominator whose remainders can still be multiplied by ten.
pub const DEN_LIMIT: u128 = 0x1999_9999_9999_9999_9999_9999_9999_9999;

/// The display units, smallest first.
#[derive(Clone, Copy, Debug, PartialEq, Eq, Structural)]
pub enum Unit {
    B,
    K,
    M,
    G,
    T,
    P,
}

impl Unit {
    /// The letter that stands for the unit.
    pub open spec fn letter_of(self) -> char {
        match self {
            Unit::B => 'B',
            Unit::K => 'K',
            Unit::M => 'M',
            Unit::G => 'G',
            Unit::T => 'T',
            Unit::P => 'P',
        }
    }

    /// The unit's size in bytes: a power of `GROWTH`.
    pub open spec fn size_of(self) -> nat {
        match self {
            Unit::B => 1,
            Unit::K => 1024,
            Unit::M => 1024 * 1024,
            Unit::G => 1024 * 1024 * 1024,
            Unit::T => 1024 * 1024 * 1024 * 1024,
            Unit::P => 1024 * 1024 * 1024 * 1024 * 1024,
        }
    }

    /// The next smaller unit; `B` has none and gives itself.
    pub open spec fn below(self) -> Unit {
        match self {
            Unit::B => Unit::B,
            Unit::K => Unit::B,
            Unit::M => Unit::K,
            Unit::G => Unit::M,
            Unit::T => Unit::G,
            Unit::P => Unit::T,
        }
    }

    /// The next larger unit; `P` has none and gives itself.
    pub open spec fn above(self) -> Unit {
        match self {
            Unit::B => Unit::K,
            Unit::K => Unit::M,
            Unit::M => Unit::G,
            Unit::G => Unit::T,
            Unit::T => Unit::P,
            Unit::P => Unit::P,
        }
    }

    /// The smallest whole magnitude shown in this unit: the unit's size less
    /// `BACKOFF` times the size of the unit below, and zero for `B`.
    pub open spec fn floor_of(self) -> nat {
        match self {
            Unit::B => 0,
            _ => (self.size_of() - BACKOFF * self.below().size_of()) as nat,
        }
    }

    /// The unit in which a magnitude with whole part `whole` is shown: the
    /// largest unit whose floor does not exceed it.
    pub open spec fn holding(whole: nat) -> Unit {
        if whole >= Unit::P.floor_of() {
            Unit::P
        } else if whole >= Unit::T.floor_of() {
            Unit::T
        } else if whole >= Unit::G.floor_of() {
            Unit::G
        } else if whole >= Unit::M.floor_of() {
            Unit::M
        } else if whole >= Unit::K.floor_of() {
            Unit::K
        } else {
            Unit::B
        }
    }

    /// The letter that stands for the unit.
    pub fn letter(self) -> (c: char)
        ensures
            c == self.letter_of(),
    {
        match self {
            Unit::B => 'B',
            Unit::K => 'K',
            Unit::M => 'M',
            Unit::G => 'G',
            Unit::T => 'T',
            Unit::P => 'P',
        }
    }

    /// The unit's size in bytes.
    pub fn size(self) -> (d: u64)
        ensures
            d == self.size_of(),
            0 < d <= 0x4_0000_0000_0000,
    {
        match self {
            Unit::B => 1,
            Unit::K => GROWTH,
            Unit::M => GROWTH * GROWTH,
            Unit::G => GROWTH * GROWTH * GROWTH,
            Unit::T => GROWTH * GROWTH * GROWTH * GROWTH,
            Unit::P => GROWTH * GROWTH * GROWTH * GROWTH * GROWTH,
        }
    }

    /// The smallest whole magnitude shown in this unit.
    pub fn floor(self) -> (f: u64)
        ensures
            f == self.floor_of(),
    {
        match self {
            Unit::B => 0,
            Unit::K => GROWTH - BACKOFF,
            Unit::M => Unit::M.size() - BACKOFF * Unit::K.size(),
            Unit::G => Unit::G.size() - BACKOFF * Unit::M.size(),
            Unit::T => Unit::T.size() - BACKOFF * Unit::G.size(),
            Unit::P => Unit::P.size() - BACKOFF * Unit::T.size(),
        }
    }

    /// Chooses the unit for a magnitude by its whole part.
    pub fn of(whole: u128) -> (u: Unit)
        ensures
            u == Unit::holding(whole as nat),
            u.floor_of() <= whole,
            u != Unit::P ==> whole < u.above().floor_of(),
    {
        if whole >= Unit::P.floor() as u128 {
            Unit::P
        } else if whole >= Unit::T.floor() as u128 {
            Unit::T
        } else if whole >= Unit::G.floor() as u128 {
            Unit::G
        } else if whole >= Unit::M.floor() as u128 {
            Unit::M
        } else if whole >= Unit::K.floor() as u128 {
            Unit::K
        } else {
            Unit::B
        }
    }
}

/// A magnitude is shown in unit `u` exactly when its whole part lies between
/// the floor of `u` and the floor of the unit above.
pub proof fn lemma_holding_range(whole: nat, u: Unit)
    ensures
        Unit::holding(whole) == u <==> (u.floor_of() <= whole && (u == Unit::P || whole
            < u.above().floor_of())),
{
}

/// At each boundary the value equal to the floor of a unit is shown in that
/// unit, and the value one below it in the unit below.
pub proof fn lemma_boundary(u: Unit)
    requires
        u != Unit::B,
    ensures
        u.floor_of() == u.size_of() - BACKOFF * u.below().size_of(),
        Unit::holding(u.floor_of()) == u,
        Unit::holding((u.floor_of() - 1) as nat) == u.below(),
{
}

/// Up to `places` digits of the decimal fraction `r / d`, for `r < d`: the
/// expansion stops early where it ends.
pub open spec fn fraction(r: nat, d: nat, places: nat) -> Seq<char>
    decreases places,
{
    if places == 0 || r == 0 {
        Seq::<char>::empty()
    } else {
        seq![digit_char((r * 10) / d)] + fraction((r * 10) % d, d, (places - 1) as nat)
    }
}

/// The decimal expansion of `num / den`, to at most `PLACES` fraction
/// digits: the numeral of the whole part and, unless the division is exact,
/// a point and the fraction digits.
pub open spec fn expansion(num: nat, den: nat) -> Seq<char> {
    if num % den == 0 {
        decimal(num / den)
    } else {
        decimal(num / den) + seq!['.'] + fraction(num % den, den, PLACES as nat)
    }
}

/// A text cut to `WIDTH` characters, without the point if the cut leaves one
/// at the end.
pub open spec fn clip(t: Seq<char>) -> Seq<char> {
    let cut = if t.len() > WIDTH {
        t.take(WIDTH as int)
    } else {
        t
    };
    if cut.len() > 0 && cut.last() == '.' {
        cut.drop_last()
    } else {
        cut
    }
}

/// The mantissa of `num / den`: its expansion, clipped.
pub open spec fn mantissa(num: nat, den: nat) -> Seq<char> {
    clip(expansion(num, den))
}

/// The magnitude `num / den` in human units: its mantissa in the unit that
/// holds it, and the unit's letter.
pub open spec fn scaled(num: nat, den: nat) -> Seq<char> {
    let unit = Unit::holding(num / den);
    mantissa(num, den * unit.size_of()).push(unit.letter_of())
}

/// Whether `c` is one of the six unit letters.
pub open spec fn is_unit_letter(c: char) -> bool {
    c == 'B' || c == 'K' || c == 'M' || c == 'G' || c == 'T' || c == 'P'
}

/// The shape of every scaled text: a mantissa of one to `WIDTH` characters,
/// which starts with a digit, holds digits and at most a point, and does not
/// end in a point; then one unit letter.
pub open spec fn well_shaped(t: Seq<char>) -> bool {
    &&& 2 <= t.len() <= WIDTH + 1
    &&& is_unit_letter(t.last())
    &&& is_digit(t[0])
    &&& t[t.len() - 2] != '.'
    &&& forall|i: int| 0 <= i < t.len() - 1 ==> is_digit(#[trigger] t[i]) || t[i] == '.'
}

/// Fraction digits are digits, at most `places` of them, and at least one
/// where there is a remainder to show.
pub proof fn lemma_fraction_is_digits(r: nat, d: nat, places: nat)
    requires
        r < d,
    ensures
        all_digits(fraction(r, d, places)),
        fraction(r, d, places).len() <= places,
        r > 0 && places > 0 ==> fraction(r, d, places).len() >= 1,
    decreases places,
{
    if places > 0 && r > 0 {
        lemma_multiply_divide_lt((r * 10) as int, d as int, 10);
        lemma_fraction_is_digits((r * 10) % d, d, (places - 1) as nat);
    }
}

/// A mantissa has one to `WIDTH` characters, starts with a digit, holds
/// digits and at most a point, and does not end in a point.
pub proof fn lemma_mantissa_shape(num: nat, den: nat)
    requires
        den > 0,
    ensures
        1 <= mantissa(num, den).len() <= WIDTH,
        is_digit(mantissa(num, den)[0]),
        mantissa(num, den).last() != '.',
        forall|i: int|
            0 <= i < mantissa(num, den).len() ==> is_digit(#[trigger] mantissa(num, den)[i])
                || mantissa(num, den)[i] == '.',
{
    let whole = decimal(num / den);
    let full = expansion(num, den);
    lemma_decimal_is_digits(num / den);
    if num % den != 0 {
        lemma_fraction_is_digits(num % den, den, PLACES as nat);
    }
    assert(forall|i: int| 0 <= i < whole.len() ==> full[i] == whole[i]);
    assert(forall|i: int| 0 <= i < full.len() && i != whole.len() ==> is_digit(#[trigger] full[i]));
    assert(full.len() > whole.len() ==> full.last() != '.');
}

/// Every scaled text is well shaped.
pub proof fn lemma_scaled_is_well_shaped(num: nat, den: nat)
    requires
        den > 0,
    ensures
        well_shaped(scaled(num, den)),
        scaled(num, den).last() == Unit::holding(num / den).letter_of(),
{
    let unit = Unit::holding(num / den);
    assert(den * unit.size_of() > 0) by (nonlinear_arith)
        requires
            den > 0,
            unit.size_of() > 0,
    ;
    lemma_mantissa_shape(num, den * unit.size_of());
    let m = mantissa(num, den * unit.size_of());
    let t = scaled(num, den);
    assert(forall|i: int| 0 <= i < m.len() ==> t[i] == m[i]);
}

/// A whole magnitude below the floor of `K` is shown unscaled: its numeral
/// and the letter `B`.
pub proof fn lemma_bytes_are_unscaled(v: nat)
    requires
        v < Unit::K.floor_of(),
    ensures
        scaled(v, 1) == decimal(v).push('B'),
{
    lemma_decimal_len(v);
    lemma_decimal_is_digits(v);
    assert(v / 1 == v && v % 1 == 0);
    assert(1 * Unit::B.size_of() == 1);
    assert(decimal(v).last() != '.');
}

/// Appends up to `places` digits of the fraction `r / den`.
fn push_fraction(out: &mut Vec<char>, r: u128, den: u128, places: u8)
    requires
        r < den <= DEN_LIMIT,
    ensures
        final(out)@ == old(out)@ + fraction(r as nat, den as nat, places as nat),
    decreases places,
{
    if places > 0 && r != 0 {
        let scaled_up: u128 = r * 10;
        proof {
            lemma_multiply_divide_lt(scaled_up as int, den as int, 10);
        }
        let d: u8 = (scaled_up / den) as u8;
        out.push(digit(d));
        push_fraction(out, scaled_up % den, den, places - 1);
    }
}

/// Writes the expansion of `num / den`.
fn expansion_chars(num: u128, den: u128) -> (out: Vec<char>)
    requires
        0 < den <= DEN_LIMIT,
    ensures
        out@ == expansion(num as nat, den as nat),
{
    let whole: u128 = num / den;
    let rest: u128 = num % den;
    let mut out: Vec<char> = Vec::new();
    push_decimal(&mut out, whole);
    if rest != 0 {
        out.push('.');
        push_fraction(&mut out, rest, den, PLACES);
    }
    out
}

/// Cuts a text to `WIDTH` characters and drops a point left at its end.
pub fn clip_chars(text: &mut Vec<char>)
    ensures
        final(text)@ == clip(old(text)@),
{
    text.truncate(WIDTH);
    let n: usize = text.len();
    if n > 0 && text[n - 1] == '.' {
        text.pop();
    }
}

/// Writes the magnitude `num / den` in human units.
pub fn scaled_chars(num: u128, den: u64) -> (out: Vec<char>)
    requires
        den > 0,
    ensures
        out@ == scaled(num as nat, den as nat),
        well_shaped(out@),
        out@.last() == Unit::holding(num as nat / den as nat).letter_of(),
{
    let unit = Unit::of(num / (den as u128));
    let size: u64 = unit.size();
    assert(0 < den * size <= DEN_LIMIT) by (nonlinear_arith)
        requires
            0 < den <= u64::MAX,
            0 < size <= 0x4_0000_0000_0000,
    ;
    let den_in_unit: u128 = (den as u128) * (size as u128);
    let mut out = expansion_chars(num, den_in_unit);
    clip_chars(&mut out);
    out.push(unit.letter());
    proof {
        lemma_scaled_is_well_shaped(num as nat, den as nat);
    }
    out
}

/// The magnitude `num / den` in human units: a mantissa of at most four
/// characters, then one of the letters `B K M G T P`.
pub fn greek_ratio(num: u128, den: u64) -> (s: String)
    requires
        den > 0,
    ensures
        s@ == scaled(num as nat, den as nat),
        well_shaped(s@),
        s@.last() == Unit::holding(num as nat / den as nat).letter_of(),
{
    let out = scaled_chars(num, den);
    string_of(&out)
}

/// The whole magnitude `v` in human units: a mantissa of at most four
/// characters, then one of the letters `B K M G T P`.
pub fn greek(v: u64) -> (s: String)
    ensures
        s@ == scaled(v as nat, 1),
        well_shaped(s@),
        s@.last() == Unit::holding(v as nat).letter_of(),
{
    greek_ratio(v as u128, 1)
}

} // verus!
