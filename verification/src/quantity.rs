//! Human-readable resource quantities such as `128Mi` or `1.5G`.

use vstd::arithmetic::div_mod::lemma_fundamental_div_mod_converse;
use vstd::arithmetic::power::pow;
use vstd::prelude::*;
use vstd::string::{StrSliceExecFns, StringExecFns};

verus! {

/// A unit suffix of a quantity: a power of 1024 or a power of 1000.
#[derive(Debug, Clone, Copy, PartialEq, Eq)]
pub enum DataUnit {
    /// 1024 ^ n
    Kibibyte,
    Mebibyte,
    Gibibyte,
    Tebibyte,
    Pebibyte,
    Exbibyte,
    Zebibyte,
    Yobibyte,
    Robibyte,
    Quebibyte,
    /// 1000 ^ n
    Kilobyte,
    Megabyte,
    Gigabyte,
    Terabyte,
    Petabyte,
    Exabyte,
    Zettabyte,
    Yottabyte,
    Ronnabyte,
    Quettabyte,
}

impl DataUnit {
    /// Whether the unit counts in powers of 1024 rather than powers of 1000.
    pub open spec fn is_binary(self) -> bool {
        match self {
            DataUnit::Kibibyte
            | DataUnit::Mebibyte
            | DataUnit::Gibibyte
            | DataUnit::Tebibyte
            | DataUnit::Pebibyte
            | DataUnit::Exbibyte
            | DataUnit::Zebibyte
            | DataUnit::Yobibyte
            | DataUnit::Robibyte
            | DataUnit::Quebibyte => true,
            _ => false,
        }
    }

    /// The power to which the unit raises its base: 1 for kilo and kibi, up
    /// to 10 for quetta and quebi.
    pub open spec fn exponent(self) -> nat {
        match self {
            DataUnit::Kibibyte | DataUnit::Kilobyte => 1,
            DataUnit::Mebibyte | DataUnit::Megabyte => 2,
            DataUnit::Gibibyte | DataUnit::Gigabyte => 3,
            DataUnit::Tebibyte | DataUnit::Terabyte => 4,
            DataUnit::Pebibyte | DataUnit::Petabyte => 5,
            DataUnit::Exbibyte | DataUnit::Exabyte => 6,
            DataUnit::Zebibyte | DataUnit::Zettabyte => 7,
            DataUnit::Yobibyte | DataUnit::Yottabyte => 8,
            DataUnit::Robibyte | DataUnit::Ronnabyte => 9,
            DataUnit::Quebibyte | DataUnit::Quettabyte => 10,
        }
    }

    /// The base of the unit: 1024 or 1000.
    pub open spec fn base(self) -> nat {
        if self.is_binary() {
            1024
        } else {
            1000
        }
    }

    /// The number of bytes in one unit, as a mathematical integer.
    pub open spec fn multiplier(self) -> nat {
        pow(self.base() as int, self.exponent()) as nat
    }

    /// Whether one unit is a number of bytes that a `u64` can hold. That is
    /// so up to exa and exbi.
    pub open spec fn fits_u64(self) -> bool {
        self.exponent() <= 6
    }

    /// The number of bytes in one unit, for every unit.
    pub fn to_bytes_wide(&self) -> (bytes: u128)
        ensures
            bytes == self.multiplier(),
    {
        proof {
            lemma_powers_of_1000();
            lemma_powers_of_1024();
        }
        match self {
            DataUnit::Kilobyte => 1_000,
            DataUnit::Megabyte => 1_000_000,
            DataUnit::Gigabyte => 1_000_000_000,
            DataUnit::Terabyte => 1_000_000_000_000,
            DataUnit::Petabyte => 1_000_000_000_000_000,
            DataUnit::Exabyte => 1_000_000_000_000_000_000,
            DataUnit::Zettabyte => 1_000_000_000_000_000_000_000,
            DataUnit::Yottabyte => 1_000_000_000_000_000_000_000_000,
            DataUnit::Ronnabyte => 1_000_000_000_000_000_000_000_000_000,
            DataUnit::Quettabyte => 1_000_000_000_000_000_000_000_000_000_000,
            DataUnit::Kibibyte => 0x400,
            DataUnit::Mebibyte => 0x10_0000,
            DataUnit::Gibibyte => 0x4000_0000,
            DataUnit::Tebibyte => 0x100_0000_0000,
            DataUnit::Pebibyte => 0x4_0000_0000_0000,
            DataUnit::Exbibyte => 0x1000_0000_0000_0000,
            DataUnit::Zebibyte => 0x40_0000_0000_0000_0000,
            DataUnit::Yobibyte => 0x1_0000_0000_0000_0000_0000,
            DataUnit::Robibyte => 0x400_0000_0000_0000_0000_0000,
            DataUnit::Quebibyte => 0x10_0000_0000_0000_0000_0000_0000,
        }
    }

    /// The number of bytes in one unit, for a unit small enough for `u64`.
    pub fn to_bytes(&self) -> (bytes: u64)
        requires
            self.fits_u64(),
        ensures
            bytes == self.multiplier(),
    {
        proof {
            lemma_powers_of_1000();
            lemma_powers_of_1024();
        }
        match self {
            DataUnit::Kilobyte => 1_000,
            DataUnit::Megabyte => 1_000_000,
            DataUnit::Gigabyte => 1_000_000_000,
            DataUnit::Terabyte => 1_000_000_000_000,
            DataUnit::Petabyte => 1_000_000_000_000_000,
            DataUnit::Exabyte => 1_000_000_000_000_000_000,
            DataUnit::Kibibyte => 0x400,
            DataUnit::Mebibyte => 0x10_0000,
            DataUnit::Gibibyte => 0x4000_0000,
            DataUnit::Tebibyte => 0x100_0000_0000,
            DataUnit::Pebibyte => 0x4_0000_0000_0000,
            DataUnit::Exbibyte => 0x1000_0000_0000_0000,
            _ => 0,
        }
    }
}

/// Why a text was not accepted as a quantity.
#[derive(Debug, Clone, Copy, PartialEq, Eq, Structural)]
pub enum QuantityParseError {
    /// The text does not start with a number.
    InvalidFormat,
    /// What follows the number is not a known unit.
    InvalidUnit,
}

impl QuantityParseError {
    /// The text that describes the error to a user.
    pub open spec fn message_text(self) -> Seq<char> {
        match self {
            QuantityParseError::InvalidFormat => "Invalid quantity format."@,
            QuantityParseError::InvalidUnit => "Invalid quantity unit."@,
        }
    }

    /// The text that describes the error to a user.
    pub fn message(&self) -> (text: &'static str)
        ensures
            text@ == self.message_text(),
    {
        match self {
            QuantityParseError::InvalidFormat => "Invalid quantity format.",
            QuantityParseError::InvalidUnit => "Invalid quantity unit.",
        }
    }
}

/// A resolved resource budget: a kind and an exact magnitude.
///
/// Quantities are ordered by kind first, memory before CPU, and within a kind
/// by magnitude.
#[derive(Debug, Clone, Copy, PartialEq, Eq, Structural, Ord)]
pub enum ResourceQuantity {
    Memory { bytes: u64 },
    Cpu { vcpu: u64 },
}

impl ResourceQuantity {
    /// The magnitude, whatever the kind.
    pub open spec fn magnitude(self) -> u64 {
        match self {
            ResourceQuantity::Memory { bytes } => bytes,
            ResourceQuantity::Cpu { vcpu } => vcpu,
        }
    }

    /// The number of bytes of a memory quantity.
    pub fn as_memory(&self) -> (bytes: Option<u64>)
        ensures
            bytes == match *self {
                ResourceQuantity::Memory { bytes } => Some(bytes),
                ResourceQuantity::Cpu { .. } => None::<u64>,
            },
    {
        match self {
            ResourceQuantity::Memory { bytes } => Some(*bytes),
            _ => None,
        }
    }

    /// Reads a parsed quantity as a number of virtual CPUs. The parser yields
    /// memory quantities only, so this reads the magnitude of one; a quantity
    /// that is a CPU quantity already gives `None`.
    pub fn as_cpu(&self) -> (vcpu: Option<u64>)
        ensures
            vcpu == match *self {
                ResourceQuantity::Memory { bytes } => Some(bytes),
                ResourceQuantity::Cpu { .. } => None::<u64>,
            },
    {
        match self {
            ResourceQuantity::Memory { bytes } => Some(*bytes),
            _ => None,
        }
    }
}

/// The three parts of a quantity text: the digits before the point, the
/// digits behind it, and what follows the number.
pub struct QuantityText {
    pub whole: Seq<char>,
    pub fraction: Seq<char>,
    pub suffix: Seq<char>,
}

/// Whether `c` is one of the ten ASCII digits.
pub open spec fn is_digit(c: char) -> bool {
    '0' <= c && c <= '9'
}

/// The value of an ASCII digit.
pub open spec fn digit_of(c: char) -> nat {
    (c as u32 - '0' as u32) as nat
}

/// Ten to the power `n`.
pub open spec fn pow10(n: nat) -> nat
    decreases n,
{
    if n == 0 {
        1
    } else {
        10 * pow10((n - 1) as nat)
    }
}

/// The number that a sequence of digits writes in base ten.
pub open spec fn decimal_value(digits: Seq<char>) -> nat
    decreases digits.len(),
{
    if digits.len() == 0 {
        0
    } else {
        10 * decimal_value(digits.drop_last()) + digit_of(digits.last())
    }
}

/// How many digits stand in `text` from position `from` on, without a gap.
pub open spec fn digit_run(text: Seq<char>, from: int) -> nat
    decreases text.len() - from,
{
    if 0 <= from < text.len() && is_digit(text[from]) {
        1 + digit_run(text, from + 1)
    } else {
        0
    }
}

/// Splits a text into its leading number and the rest. The number is the
/// longest run of digits, then, if a point follows, the point and the longest
/// run of digits behind it. A second point already belongs to the suffix.
pub open spec fn split_quantity(text: Seq<char>) -> QuantityText {
    let w = digit_run(text, 0) as int;
    if w < text.len() && text[w] == '.' {
        let f = digit_run(text, w + 1) as int;
        QuantityText {
            whole: text.subrange(0, w),
            fraction: text.subrange(w + 1, w + 1 + f),
            suffix: text.subrange(w + 1 + f, text.len() as int),
        }
    } else {
        QuantityText {
            whole: text.subrange(0, w),
            fraction: Seq::empty(),
            suffix: text.subrange(w, text.len() as int),
        }
    }
}

/// The decimal unit that a single letter names.
pub open spec fn decimal_unit(c: char) -> Option<DataUnit> {
    if c == 'k' {
        Some(DataUnit::Kilobyte)
    } else if c == 'M' {
        Some(DataUnit::Megabyte)
    } else if c == 'G' {
        Some(DataUnit::Gigabyte)
    } else if c == 'T' {
        Some(DataUnit::Terabyte)
    } else if c == 'P' {
        Some(DataUnit::Petabyte)
    } else if c == 'E' {
        Some(DataUnit::Exabyte)
    } else if c == 'Z' {
        Some(DataUnit::Zettabyte)
    } else if c == 'Y' {
        Some(DataUnit::Yottabyte)
    } else if c == 'R' {
        Some(DataUnit::Ronnabyte)
    } else if c == 'Q' {
        Some(DataUnit::Quettabyte)
    } else {
        None
    }
}

/// The binary unit that a letter names when an `i` follows it.
pub open spec fn binary_unit(c: char) -> Option<DataUnit> {
    if c == 'K' {
        Some(DataUnit::Kibibyte)
    } else if c == 'M' {
        Some(DataUnit::Mebibyte)
    } else if c == 'G' {
        Some(DataUnit::Gibibyte)
    } else if c == 'T' {
        Some(DataUnit::Tebibyte)
    } else if c == 'P' {
        Some(DataUnit::Pebibyte)
    } else if c == 'E' {
        Some(DataUnit::Exbibyte)
    } else if c == 'Z' {
        Some(DataUnit::Zebibyte)
    } else if c == 'Y' {
        Some(DataUnit::Yobibyte)
    } else if c == 'R' {
        Some(DataUnit::Robibyte)
    } else if c == 'Q' {
        Some(DataUnit::Quebibyte)
    } else {
        None
    }
}

/// The unit table: `k M G T P E Z Y R Q` for the powers of 1000 and
/// `Ki Mi Gi Ti Pi Ei Zi Yi Ri Qi` for the powers of 1024. Any other text,
/// the empty one too, names no unit.
pub open spec fn unit_of(suffix: Seq<char>) -> Option<DataUnit> {
    if suffix.len() == 1 {
        decimal_unit(suffix[0])
    } else if suffix.len() == 2 && suffix[1] == 'i' {
        binary_unit(suffix[0])
    } else {
        None
    }
}

/// `digits * multiplier / 10^scale`, rounded to the nearest integer, a half
/// upward.
pub open spec fn scaled_round(digits: nat, scale: nat, multiplier: nat) -> nat {
    ((2 * digits * multiplier + pow10(scale)) / (2 * pow10(scale))) as nat
}

/// The `u64` nearest to `v` from below: `v` itself where it fits.
pub open spec fn saturate_u64(v: nat) -> u64 {
    if v > u64::MAX {
        u64::MAX
    } else {
        v as u64
    }
}

/// What a quantity text means. A text without a digit in its leading number
/// has no valid format; otherwise its suffix must name a unit, and the result
/// is the number times the unit, rounded, as a memory quantity in bytes. A
/// product beyond `u64` is held at `u64::MAX`.
pub open spec fn parse_quantity(text: Seq<char>) -> Result<ResourceQuantity, QuantityParseError> {
    let parts = split_quantity(text);
    if parts.whole.len() + parts.fraction.len() == 0 {
        Err(QuantityParseError::InvalidFormat)
    } else {
        match unit_of(parts.suffix) {
            None => Err(QuantityParseError::InvalidUnit),
            Some(unit) => Ok(
                ResourceQuantity::Memory {
                    bytes: saturate_u64(
                        scaled_round(
                            decimal_value(parts.whole + parts.fraction),
                            parts.fraction.len(),
                            unit.multiplier(),
                        ),
                    ),
                },
            ),
        }
    }
}

/// The largest multiplier of the unit table, 1024 ^ 10.
pub const MAX_MULTIPLIER: u128 = 0x10_0000_0000_0000_0000_0000_0000;

fn is_digit_char(c: char) -> (b: bool)
    ensures
        b == is_digit(c),
{
    c >= '0' && c <= '9'
}

fn digit_char_value(c: char) -> (d: u8)
    requires
        is_digit(c),
    ensures
        d == digit_of(c),
        d <= 9,
{
    (c as u32 - '0' as u32) as u8
}

fn decimal_unit_of(c: char) -> (unit: Option<DataUnit>)
    ensures
        unit == decimal_unit(c),
{
    if c == 'k' {
        Some(DataUnit::Kilobyte)
    } else if c == 'M' {
        Some(DataUnit::Megabyte)
    } else if c == 'G' {
        Some(DataUnit::Gigabyte)
    } else if c == 'T' {
        Some(DataUnit::Terabyte)
    } else if c == 'P' {
        Some(DataUnit::Petabyte)
    } else if c == 'E' {
        Some(DataUnit::Exabyte)
    } else if c == 'Z' {
        Some(DataUnit::Zettabyte)
    } else if c == 'Y' {
        Some(DataUnit::Yottabyte)
    } else if c == 'R' {
        Some(DataUnit::Ronnabyte)
    } else if c == 'Q' {
        Some(DataUnit::Quettabyte)
    } else {
        None
    }
}

fn binary_unit_of(c: char) -> (unit: Option<DataUnit>)
    ensures
        unit == binary_unit(c),
{
    if c == 'K' {
        Some(DataUnit::Kibibyte)
    } else if c == 'M' {
        Some(DataUnit::Mebibyte)
    } else if c == 'G' {
        Some(DataUnit::Gibibyte)
    } else if c == 'T' {
        Some(DataUnit::Tebibyte)
    } else if c == 'P' {
        Some(DataUnit::Pebibyte)
    } else if c == 'E' {
        Some(DataUnit::Exbibyte)
    } else if c == 'Z' {
        Some(DataUnit::Zebibyte)
    } else if c == 'Y' {
        Some(DataUnit::Yobibyte)
    } else if c == 'R' {
        Some(DataUnit::Robibyte)
    } else if c == 'Q' {
        Some(DataUnit::Quebibyte)
    } else {
        None
    }
}

/// Looks a suffix up in the unit table.
fn unit_from_suffix(suffix: &str) -> (unit: Option<DataUnit>)
    ensures
        unit == unit_of(suffix@),
{
    let len = suffix.unicode_len();
    if len == 1 {
        decimal_unit_of(suffix.get_char(0))
    } else if len == 2 && suffix.get_char(1) == 'i' {
        binary_unit_of(suffix.get_char(0))
    } else {
        None
    }
}

/// What the unit table says of a suffix, as a `Result`.
pub open spec fn unit_lookup(suffix: Seq<char>) -> Result<DataUnit, &'static str> {
    match unit_of(suffix) {
        Some(unit) => Ok(unit),
        None => Err("Invalid unit."),
    }
}

impl TryFrom<&str> for DataUnit {
    type Error = &'static str;

    /// Looks a suffix up in the unit table.
    fn try_from(value: &str) -> (r: Result<Self, Self::Error>)
        ensures
            r == unit_lookup(value@),
    {
        match unit_from_suffix(value) {
            Some(unit) => Ok(unit),
            None => Err("Invalid unit."),
        }
    }
}

impl vstd::std_specs::convert::TryFromSpecImpl<&str> for DataUnit {
    open spec fn obeys_try_from_spec() -> bool {
        true
    }

    open spec fn try_from_spec(v: &str) -> Result<Self, Self::Error> {
        unit_lookup(v@)
    }
}

/// Finds the end of the run of digits that starts at `from`.
fn scan_digits(text: &str, len: usize, from: usize) -> (end: usize)
    requires
        len == text@.len(),
        from <= len,
    ensures
        from <= end <= len,
        end - from == digit_run(text@, from as int),
        forall|k: int| from <= k < end ==> is_digit(#[trigger] text@[k]),
{
    let mut i: usize = from;
    while i < len && is_digit_char(text.get_char(i))
        invariant
            from <= i <= len,
            len == text@.len(),
            digit_run(text@, from as int) == (i - from) + digit_run(text@, i as int),
            forall|k: int| from <= k < i ==> is_digit(#[trigger] text@[k]),
        decreases len - i,
    {
        i += 1;
    }
    i
}

/// Reads the digits in `from..to` as a number. A result beyond `u64::MAX`
/// says only that the number is beyond it.
fn read_whole(text: &str, from: usize, to: usize) -> (v: u128)
    requires
        from <= to <= text@.len(),
        forall|k: int| from <= k < to ==> is_digit(#[trigger] text@[k]),
    ensures
        v <= u64::MAX ==> v == decimal_value(text@.subrange(from as int, to as int)),
        v > u64::MAX ==> decimal_value(text@.subrange(from as int, to as int)) > u64::MAX,
{
    let mut i: usize = from;
    let mut v: u128 = 0;
    while i < to
        invariant
            from <= i <= to <= text@.len(),
            forall|k: int| from <= k < to ==> is_digit(#[trigger] text@[k]),
            v <= 10 * u64::MAX + 9,
            v <= u64::MAX ==> v == decimal_value(text@.subrange(from as int, i as int)),
            v > u64::MAX ==> decimal_value(text@.subrange(from as int, i as int)) > u64::MAX,
        decreases to - i,
    {
        let d = digit_char_value(text.get_char(i));
        proof {
            let longer = text@.subrange(from as int, i + 1);
            assert(longer.drop_last() =~= text@.subrange(from as int, i as int));
            assert(longer.last() == text@[i as int]);
        }
        if v <= u64::MAX as u128 {
            v = v * 10 + d as u128;
        }
        i += 1;
    }
    v
}

/// Multiplies the fraction whose digits stand in `from..to` by `mult` and
/// rounds the product. The digits are taken from the last to the first, as in
/// a multiplication on paper: what is carried out of the first digit is the
/// whole part of the product, and the digit left there decides the rounding.
fn scale_fraction(text: &str, from: usize, to: usize, mult: u128) -> (r: u128)
    requires
        from <= to <= text@.len(),
        forall|k: int| from <= k < to ==> is_digit(#[trigger] text@[k]),
        mult <= MAX_MULTIPLIER,
    ensures
        r == scaled_round(
            decimal_value(text@.subrange(from as int, to as int)),
            (to - from) as nat,
            mult as nat,
        ),
        r <= mult + 1,
{
    let mut k: usize = to;
    let mut carry: u128 = 0;
    let mut lead: u8 = 0;
    let ghost mut rem: nat = 0;
    let ghost mut low: nat = 0;
    proof {
        let none = text@.subrange(to as int, to as int);
        assert(none.len() == 0);
        assert(decimal_value(none) == 0);
        assert(decimal_value(none) * mult == 0) by (nonlinear_arith)
            requires
                decimal_value(none) == 0,
        ;
        assert(carry * pow10(0) == 0) by (nonlinear_arith)
            requires
                carry == 0,
        ;
    }
    while k > from
        invariant
            from <= k <= to <= text@.len(),
            forall|j: int| from <= j < to ==> is_digit(#[trigger] text@[j]),
            mult <= MAX_MULTIPLIER,
            carry <= mult,
            lead <= 9,
            decimal_value(text@.subrange(k as int, to as int)) * mult == carry * pow10(
                (to - k) as nat,
            ) + rem,
            rem < pow10((to - k) as nat),
            k < to ==> rem == lead * pow10((to - k - 1) as nat) + low && low < pow10(
                (to - k - 1) as nat,
            ),
            k == to ==> lead == 0 && rem == 0,
        decreases k - from,
    {
        let ghost done = text@.subrange(k as int, to as int);
        k -= 1;
        let c = text.get_char(k);
        let d = digit_char_value(c);
        assert(d as u128 * mult <= 9 * mult) by (nonlinear_arith)
            requires
                d <= 9,
        ;
        let t: u128 = d as u128 * mult + carry;
        proof {
            let longer = text@.subrange(k as int, to as int);
            assert(longer =~= seq![c] + done);
            lemma_decimal_value_concat(seq![c], done);
            assert(seq![c].drop_last() =~= Seq::<char>::empty());
            assert(decimal_value(Seq::<char>::empty()) == 0);
            assert(seq![c].last() == c);
            assert(decimal_value(seq![c]) == d);
            lemma_carry_step(
                d as int,
                mult as int,
                carry as int,
                decimal_value(done) as int,
                pow10(done.len()) as int,
                rem as int,
            );
            assert(pow10((done.len() + 1) as nat) == 10 * pow10(done.len()));
            low = rem;
            rem = (t % 10) as nat * pow10(done.len()) + rem;
        }
        carry = t / 10;
        lead = (t % 10) as u8;
    }
    proof {
        lemma_round_by_lead(
            decimal_value(text@.subrange(from as int, to as int)),
            (to - from) as nat,
            mult as nat,
            carry as nat,
            rem,
            lead as nat,
            low,
        );
    }
    if lead >= 5 {
        carry + 1
    } else {
        carry
    }
}

/// Adds the two parts of a product and holds the sum at `u64::MAX`.
fn saturating_total(whole: u128, mult: u128, frac: u128) -> (bytes: u64)
    requires
        whole <= u64::MAX,
        mult <= MAX_MULTIPLIER,
        frac <= mult + 1,
    ensures
        bytes == saturate_u64((whole * mult + frac) as nat),
{
    match whole.checked_mul(mult) {
        None => u64::MAX,
        Some(product) => {
            match product.checked_add(frac) {
                None => u64::MAX,
                Some(total) => {
                    if total > u64::MAX as u128 {
                        u64::MAX
                    } else {
                        total as u64
                    }
                },
            }
        },
    }
}

impl vstd::std_specs::convert::TryFromSpecImpl<&str> for ResourceQuantity {
    open spec fn obeys_try_from_spec() -> bool {
        true
    }

    open spec fn try_from_spec(v: &str) -> Result<Self, Self::Error> {
        parse_quantity(v@)
    }
}

impl TryFrom<&str> for ResourceQuantity {
    type Error = QuantityParseError;

    /// Parses a quantity text such as `128Mi`, `1.5G` or `.5k`.
    fn try_from(text: &str) -> (r: Result<Self, Self::Error>)
        ensures
            r == parse_quantity(text@),
    {
        let len = text.unicode_len();
        let whole_end = scan_digits(text, len, 0);
        let mut frac_start = whole_end;
        let mut frac_end = whole_end;
        if whole_end < len && text.get_char(whole_end) == '.' {
            frac_start = whole_end + 1;
            frac_end = scan_digits(text, len, frac_start);
        }
        let ghost parts = split_quantity(text@);
        assert(parts.whole =~= text@.subrange(0, whole_end as int));
        assert(parts.fraction =~= text@.subrange(frac_start as int, frac_end as int));
        assert(parts.suffix =~= text@.subrange(frac_end as int, len as int));
        if whole_end == 0 && frac_end == frac_start {
            return Err(QuantityParseError::InvalidFormat);
        }
        let suffix = text.substring_char(frac_end, len);
        let unit = match unit_from_suffix(suffix) {
            Some(unit) => unit,
            None => {
                return Err(QuantityParseError::InvalidUnit);
            },
        };
        let mult = unit.to_bytes_wide();
        proof {
            lemma_powers_of_1000();
            lemma_powers_of_1024();
        }
        let whole = read_whole(text, 0, whole_end);
        let frac = scale_fraction(text, frac_start, frac_end, mult);
        proof {
            lemma_decimal_value_concat(parts.whole, parts.fraction);
            lemma_round_whole_and_fraction(
                decimal_value(parts.whole),
                decimal_value(parts.fraction),
                parts.fraction.len(),
                mult as nat,
            );
        }
        let bytes = if whole > u64::MAX as u128 {
            assert(decimal_value(parts.whole) * mult >= decimal_value(parts.whole))
                by (nonlinear_arith)
                requires
                    mult >= 1,
            ;
            u64::MAX
        } else {
            saturating_total(whole, mult, frac)
        };
        Ok(ResourceQuantity::Memory { bytes })
    }
}

/// Every power of ten is positive.
pub proof fn lemma_pow10_positive(n: nat)
    ensures
        pow10(n) > 0,
    decreases n,
{
    if n > 0 {
        lemma_pow10_positive((n - 1) as nat);
    }
}

/// The digits `a` followed by the digits `b` write the number of `a`, moved
/// left by the length of `b`, plus the number of `b`.
pub proof fn lemma_decimal_value_concat(a: Seq<char>, b: Seq<char>)
    ensures
        decimal_value(a + b) == decimal_value(a) * pow10(b.len()) + decimal_value(b),
    decreases b.len(),
{
    let x = decimal_value(a) as int;
    if b.len() == 0 {
        assert(a + b =~= a);
        assert(x * 1 == x);
    } else {
        let shorter = b.drop_last();
        lemma_decimal_value_concat(a, shorter);
        assert((a + b).drop_last() =~= a + shorter);
        assert((a + b).last() == b.last());
        let p = pow10(shorter.len()) as int;
        assert(pow10(b.len()) == 10 * p);
        assert(decimal_value(a + shorter) == x * p + decimal_value(shorter));
        assert(decimal_value(a + b) == 10 * (x * p + decimal_value(shorter)) + digit_of(b.last()));
        assert(10 * (x * p) == x * (10 * p)) by (nonlinear_arith);
    }
}

/// One step of the multiplication on paper: a new digit `d` in front of the
/// digits already done.
proof fn lemma_carry_step(d: int, m: int, carry: int, done: int, p: int, rem: int)
    requires
        done * m == carry * p + rem,
        0 <= d,
        0 <= m,
        0 <= carry <= m,
        d <= 9,
        0 <= rem < p,
    ensures
        (d * p + done) * m == ((d * m + carry) / 10) * (10 * p) + (((d * m + carry) % 10) * p
            + rem),
        (d * m + carry) / 10 <= m,
        0 <= (d * m + carry) % 10 <= 9,
        ((d * m + carry) % 10) * p + rem < 10 * p,
{
    let t = d * m + carry;
    assert(t == 10 * (t / 10) + t % 10);
    assert((d * p + done) * m == t * p + rem) by (nonlinear_arith)
        requires
            done * m == carry * p + rem,
            t == d * m + carry,
    ;
    assert(t * p == (t / 10) * (10 * p) + (t % 10) * p) by (nonlinear_arith)
        requires
            t == 10 * (t / 10) + t % 10,
    ;
    assert(d * m <= 9 * m) by (nonlinear_arith)
        requires
            d <= 9,
            0 <= m,
    ;
    assert((t % 10) * p <= 9 * p) by (nonlinear_arith)
        requires
            t % 10 <= 9,
            0 < p,
    ;
}

/// Where `digits * m` is `carry` whole units of `10^scale` and a rest whose
/// first digit is `lead`, the rounded quotient is `carry`, and one more if
/// `lead` is five or above.
proof fn lemma_round_by_lead(
    digits: nat,
    scale: nat,
    m: nat,
    carry: nat,
    rem: nat,
    lead: nat,
    low: nat,
)
    requires
        digits * m == carry * pow10(scale) + rem,
        rem < pow10(scale),
        scale > 0 ==> rem == lead * pow10((scale - 1) as nat) + low && low < pow10(
            (scale - 1) as nat,
        ),
        scale == 0 ==> lead == 0,
    ensures
        scaled_round(digits, scale, m) == carry + if lead >= 5 {
            1nat
        } else {
            0nat
        },
{
    let p = pow10(scale) as int;
    lemma_pow10_positive(scale);
    let x = 2 * digits * m + p;
    assert(2 * digits * m == 2 * (digits * m)) by (nonlinear_arith);
    assert(2 * (carry * p) == carry * (2 * p)) by (nonlinear_arith);
    if scale == 0 {
        assert(p == 1);
        assert(x == carry * (2 * p) + 1);
        lemma_fundamental_div_mod_converse(x, 2 * p, carry as int, 1);
    } else {
        let q = pow10((scale - 1) as nat) as int;
        lemma_pow10_positive((scale - 1) as nat);
        assert(p == 10 * q);
        if lead >= 5 {
            assert(lead * q >= 5 * q) by (nonlinear_arith)
                requires
                    lead >= 5,
                    q > 0,
            ;
            assert(x == (carry + 1) * (2 * p) + (2 * rem - p)) by (nonlinear_arith)
                requires
                    x == 2 * (carry * p + rem) + p,
            ;
            lemma_fundamental_div_mod_converse(x, 2 * p, carry as int + 1, 2 * rem - p);
        } else {
            assert(lead * q <= 4 * q) by (nonlinear_arith)
                requires
                    lead <= 4,
                    q > 0,
            ;
            assert(x == carry * (2 * p) + (2 * rem + p));
            lemma_fundamental_div_mod_converse(x, 2 * p, carry as int, 2 * rem + p);
        }
    }
}

/// Rounding a number with a whole part and a fraction rounds the fraction
/// only: the whole part times the multiplier is a whole number already.
pub proof fn lemma_round_whole_and_fraction(whole: nat, fraction: nat, scale: nat, m: nat)
    ensures
        scaled_round(whole * pow10(scale) + fraction, scale, m) == whole * m + scaled_round(
            fraction,
            scale,
            m,
        ),
{
    let p = pow10(scale) as int;
    lemma_pow10_positive(scale);
    let x = 2 * fraction * m + p;
    let q = x / (2 * p);
    let r = x % (2 * p);
    assert(0 <= x) by (nonlinear_arith)
        requires
            x == 2 * fraction * m + p,
            p > 0,
            fraction >= 0,
            m >= 0,
    ;
    assert(x == q * (2 * p) + r && 0 <= r < 2 * p && q >= 0) by {
        vstd::arithmetic::div_mod::lemma_fundamental_div_mod(x, 2 * p);
        vstd::arithmetic::div_mod::lemma_mod_bound(x, 2 * p);
        vstd::arithmetic::div_mod::lemma_div_pos_is_pos(x, 2 * p);
        assert((2 * p) * q == q * (2 * p)) by (nonlinear_arith);
    }
    let y = 2 * (whole * p + fraction) * m + p;
    assert(y == (whole * m + q) * (2 * p) + r) by (nonlinear_arith)
        requires
            y == 2 * (whole * p + fraction) * m + p,
            x == 2 * fraction * m + p,
            x == q * (2 * p) + r,
    ;
    lemma_fundamental_div_mod_converse(y, 2 * p, (whole * m) as int + q, r);
}

/// The digit that writes a value below ten.
pub open spec fn digit_char(d: nat) -> char {
    ('0' as u32 + d) as char
}

/// The digits that write a number in base ten, without leading zeros.
pub open spec fn decimal_text(n: nat) -> Seq<char>
    decreases n,
{
    if n < 10 {
        seq![digit_char(n)]
    } else {
        decimal_text(n / 10).push(digit_char(n % 10))
    }
}

fn digit_text(d: usize) -> (text: &'static str)
    requires
        d < 10,
    ensures
        text@ == seq![digit_char(d as nat)],
{
    proof {
        reveal_strlit("0");
        reveal_strlit("1");
        reveal_strlit("2");
        reveal_strlit("3");
        reveal_strlit("4");
        reveal_strlit("5");
        reveal_strlit("6");
        reveal_strlit("7");
        reveal_strlit("8");
        reveal_strlit("9");
    }
    let text = if d == 0 {
        "0"
    } else if d == 1 {
        "1"
    } else if d == 2 {
        "2"
    } else if d == 3 {
        "3"
    } else if d == 4 {
        "4"
    } else if d == 5 {
        "5"
    } else if d == 6 {
        "6"
    } else if d == 7 {
        "7"
    } else if d == 8 {
        "8"
    } else {
        "9"
    };
    assert(text@ =~= seq![digit_char(d as nat)]);
    text
}

/// Writes a number in base ten.
pub fn decimal_string(n: usize) -> (text: String)
    ensures
        text@ == decimal_text(n as nat),
    decreases n,
{
    if n < 10 {
        String::from_str(digit_text(n))
    } else {
        let mut text = decimal_string(n / 10);
        let last = digit_text(n % 10);
        text.append(last);
        assert(text@ =~= decimal_text((n / 10) as nat).push(digit_char((n % 10) as nat)));
        text
    }
}

/// What is written is what is read: the digits that write a number are
/// digits, and they write that number.
pub proof fn lemma_decimal_text_reads_back(n: nat)
    ensures
        decimal_value(decimal_text(n)) == n,
        forall|i: int| 0 <= i < decimal_text(n).len() ==> is_digit(#[trigger] decimal_text(n)[i]),
        decimal_text(n).len() >= 1,
    decreases n,
{
    if n < 10 {
        let text = decimal_text(n);
        assert(text.drop_last() =~= Seq::<char>::empty());
        assert(decimal_value(text.drop_last()) == 0);
        assert(text.last() == digit_char(n));
    } else {
        lemma_decimal_text_reads_back(n / 10);
        let text = decimal_text(n);
        assert(text.drop_last() =~= decimal_text(n / 10));
        assert(text.last() == digit_char(n % 10));
    }
}

/// The suffix that names a unit in the unit table.
pub open spec fn unit_suffix(unit: DataUnit) -> Seq<char> {
    match unit {
        DataUnit::Kilobyte => seq!['k'],
        DataUnit::Megabyte => seq!['M'],
        DataUnit::Gigabyte => seq!['G'],
        DataUnit::Terabyte => seq!['T'],
        DataUnit::Petabyte => seq!['P'],
        DataUnit::Exabyte => seq!['E'],
        DataUnit::Zettabyte => seq!['Z'],
        DataUnit::Yottabyte => seq!['Y'],
        DataUnit::Ronnabyte => seq!['R'],
        DataUnit::Quettabyte => seq!['Q'],
        DataUnit::Kibibyte => seq!['K', 'i'],
        DataUnit::Mebibyte => seq!['M', 'i'],
        DataUnit::Gibibyte => seq!['G', 'i'],
        DataUnit::Tebibyte => seq!['T', 'i'],
        DataUnit::Pebibyte => seq!['P', 'i'],
        DataUnit::Exbibyte => seq!['E', 'i'],
        DataUnit::Zebibyte => seq!['Z', 'i'],
        DataUnit::Yobibyte => seq!['Y', 'i'],
        DataUnit::Robibyte => seq!['R', 'i'],
        DataUnit::Quebibyte => seq!['Q', 'i'],
    }
}

/// The unit table is one to one: every unit has a suffix, that suffix names
/// the unit, and no other text does.
pub proof fn lemma_unit_table_is_one_to_one(suffix: Seq<char>, unit: DataUnit)
    ensures
        unit_of(suffix) == Some(unit) <==> suffix == unit_suffix(unit),
{
    let named = unit_suffix(unit);
    assert(unit_of(named) == Some(unit));
    if unit_of(suffix) == Some(unit) {
        assert(suffix =~= named);
    }
}

/// A run of digits ends where the digits end.
pub proof fn lemma_digit_run_ends(text: Seq<char>, from: int, to: int)
    requires
        0 <= from <= to <= text.len(),
        forall|k: int| from <= k < to ==> is_digit(#[trigger] text[k]),
        to == text.len() || !is_digit(text[to]),
    ensures
        digit_run(text, from) == to - from,
    decreases to - from,
{
    if from < to {
        lemma_digit_run_ends(text, from + 1, to);
    }
}

/// A whole number followed by a unit of the table is a quantity: the number
/// times the unit, held at `u64::MAX` where it is beyond that.
pub proof fn lemma_whole_number_parses(n: nat, unit: DataUnit)
    ensures
        parse_quantity(decimal_text(n) + unit_suffix(unit)) == Ok::<
            ResourceQuantity,
            QuantityParseError,
        >(ResourceQuantity::Memory { bytes: saturate_u64(n * unit.multiplier()) }),
{
    let digits = decimal_text(n);
    let suffix = unit_suffix(unit);
    let text = digits + suffix;
    let w = digits.len() as int;
    lemma_decimal_text_reads_back(n);
    lemma_unit_table_is_one_to_one(suffix, unit);
    assert(suffix.len() >= 1 && !is_digit(suffix[0]) && suffix[0] != '.');
    assert(text[w] == suffix[0]);
    assert forall|k: int| 0 <= k < w implies is_digit(#[trigger] text[k]) by {
        assert(text[k] == digits[k]);
    }
    lemma_digit_run_ends(text, 0, w);
    let parts = split_quantity(text);
    assert(parts.whole =~= digits);
    assert(parts.fraction =~= Seq::<char>::empty());
    assert(parts.suffix =~= suffix);
    assert(parts.whole + parts.fraction =~= digits);
    let m = unit.multiplier();
    let x = n * m;
    assert(2 * n * m == 2 * x) by (nonlinear_arith)
        requires
            x == n * m,
    ;
    assert(pow10(0) == 1);
    assert((2 * x + 1) / 2 == x);
    assert(2 * n * m + pow10(0) == 2 * x + 1);
    assert(2 * pow10(0) == 2);
    assert(scaled_round(n, 0, m) == x);
}

/// The first ten powers of 1000, written out.
pub proof fn lemma_powers_of_1000()
    ensures
        pow(1000, 1) == 1_000,
        pow(1000, 2) == 1_000_000,
        pow(1000, 3) == 1_000_000_000,
        pow(1000, 4) == 1_000_000_000_000int,
        pow(1000, 5) == 1_000_000_000_000_000int,
        pow(1000, 6) == 1_000_000_000_000_000_000int,
        pow(1000, 7) == 1_000_000_000_000_000_000_000int,
        pow(1000, 8) == 1_000_000_000_000_000_000_000_000int,
        pow(1000, 9) == 1_000_000_000_000_000_000_000_000_000int,
        pow(1000, 10) == 1_000_000_000_000_000_000_000_000_000_000int,
{
    reveal_with_fuel(pow, 11);
}

/// The first ten powers of 1024, written out.
pub proof fn lemma_powers_of_1024()
    ensures
        pow(1024, 1) == 0x400,
        pow(1024, 2) == 0x10_0000,
        pow(1024, 3) == 0x4000_0000,
        pow(1024, 4) == 0x100_0000_0000int,
        pow(1024, 5) == 0x4_0000_0000_0000int,
        pow(1024, 6) == 0x1000_0000_0000_0000int,
        pow(1024, 7) == 0x40_0000_0000_0000_0000int,
        pow(1024, 8) == 0x1_0000_0000_0000_0000_0000int,
        pow(1024, 9) == 0x400_0000_0000_0000_0000_0000int,
        pow(1024, 10) == 0x10_0000_0000_0000_0000_0000_0000int,
{
    reveal_with_fuel(pow, 11);
}

} // verus!
