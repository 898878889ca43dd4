//! The text of the report: one header line, then one line per record.
//!
//! Lines are built in a fixed-capacity string, so that no allocator is
//! needed where the report is made. The longest possible line is shorter
//! than the capacity, so a line is never cut off.

use vstd::prelude::*;
use vstd::string::StrSliceExecFns;
use vstd::string::StringSliceAdditionalSpecFns;
use vstd::utf8::{encode_utf8, is_ascii_chars, is_ascii_chars_concat, is_ascii_chars_encode_utf8};
use arrayvec::{ArrayString, CapacityError};
use crate::bench::BenchRecord;
use crate::element::ElemType;

verus! {

/// One line of the report, held in an `arrayvec::ArrayString` of 128 bytes.
/// What it holds is known only through [`line_text`].
#[verifier::external_body]
pub struct Line {
    text: ArrayString<[u8; 128]>,
}

/// The error `arrayvec` returns when something does not fit. It carries the
/// rejected element, which nothing here looks at.
#[verifier::external_type_specification]
#[verifier::external_body]
#[verifier::reject_recursive_types(T)]
pub struct ExCapacityError<T>(CapacityError<T>);

/// The characters a line holds, in order.
pub uninterp spec fn line_text(line: Line) -> Seq<char>;

impl Line {
    /// `ArrayString::new`: a string that holds nothing yet.
    #[verifier::external_body]
    fn empty() -> (line: Line)
        ensures
            line_text(line) == Seq::<char>::empty(),
    {
        Line { text: ArrayString::new() }
    }

    /// `ArrayString::try_push_str`: appends `s` if its bytes fit into what is
    /// left of the 128 bytes of capacity, and changes nothing if they do not.
    /// The bytes in use are the UTF-8 encoding of the text held.
    #[verifier::external_body]
    fn try_push_str<'a>(&mut self, s: &'a str) -> (r: Result<(), CapacityError<&'a str>>)
        ensures
            r is Ok <==> encode_utf8(line_text(*old(self))).len() + s.spec_bytes().len() <= 128,
            r is Ok ==> line_text(*final(self)) == line_text(*old(self)) + s@,
            r is Err ==> line_text(*final(self)) == line_text(*old(self)),
    {
        self.text.try_push_str(s)
    }

    /// `ArrayString::as_str`: the text held, as a string slice.
    #[verifier::external_body]
    fn held(&self) -> (s: &str)
        ensures
            s@ == line_text(*self),
    {
        self.text.as_str()
    }

    /// The text of the line.
    pub fn as_str(&self) -> (s: &str)
        ensures
            s@ == line_text(*self),
    {
        self.held()
    }
}

/// The header line of the report.
pub open spec fn spec_header() -> Seq<char> {
    "count,src_ty,dst_ty,dma_cycles,dma_cycles_per_8bytes,cpu_cycles,cpu_cycle_per_8bytes"@
}

/// The one-character text of the digit `d`.
pub open spec fn digit_text(d: int) -> Seq<char> {
    "0123456789"@.subrange(d, d + 1)
}

/// The decimal notation of `n`, without leading zeros.
pub open spec fn decimal(n: nat) -> Seq<char>
    decreases n,
{
    if n < 10 {
        digit_text(n as int)
    } else {
        decimal(n / 10) + digit_text((n % 10) as int)
    }
}

/// The report line of a record: its seven fields in order, separated by
/// commas, numbers in decimal notation.
pub open spec fn spec_line(record: BenchRecord) -> Seq<char> {
    decimal(record.count as nat) + ","@ + record.src_ty.spec_name() + ","@
        + record.dst_ty.spec_name() + ","@ + decimal(record.dma_cycles as nat) + ","@ + decimal(
        record.dma_cycles_per_8_bytes as nat,
    ) + ","@ + decimal(record.cpu_cycles as nat) + ","@ + decimal(
        record.cpu_cycles_per_8_bytes as nat,
    )
}

/// The header line of the report.
pub fn header() -> (h: &'static str)
    ensures
        h@ == spec_header(),
{
    "count,src_ty,dst_ty,dma_cycles,dma_cycles_per_8bytes,cpu_cycles,cpu_cycle_per_8bytes"
}

/// Ten to the power of `k`.
spec fn pow10(k: nat) -> nat
    decreases k,
{
    if k == 0 {
        1
    } else {
        10 * pow10((k - 1) as nat)
    }
}

/// A digit is one ASCII character.
proof fn lemma_digit_text(d: int)
    requires
        0 <= d < 10,
    ensures
        digit_text(d).len() == 1,
        is_ascii_chars(digit_text(d)),
{
    reveal_strlit("0123456789");
}

/// A number below ten to the `k` has at most `k` digits, all of them ASCII.
proof fn lemma_decimal_len(n: nat, k: nat)
    requires
        k >= 1,
        n < pow10(k),
    ensures
        1 <= decimal(n).len() <= k,
        is_ascii_chars(decimal(n)),
    decreases k,
{
    reveal_with_fuel(pow10, 2);
    if n < 10 {
        lemma_digit_text(n as int);
    } else {
        lemma_decimal_len(n / 10, (k - 1) as nat);
        lemma_digit_text((n % 10) as int);
        is_ascii_chars_concat(decimal(n), decimal(n / 10), digit_text((n % 10) as int));
    }
}

/// Every 64-bit number has at most twenty digits.
proof fn lemma_decimal_u64(n: u64)
    ensures
        1 <= decimal(n as nat).len() <= 20,
        is_ascii_chars(decimal(n as nat)),
{
    assert(pow10(20) == 100_000_000_000_000_000_000) by {
        reveal_with_fuel(pow10, 21);
    }
    lemma_decimal_len(n as nat, 20);
}

/// A type name has at most three characters, all of them ASCII.
proof fn lemma_name_text(ty: ElemType)
    ensures
        ty.spec_name().len() <= 3,
        is_ascii_chars(ty.spec_name()),
{
    reveal_strlit("u8");
    reveal_strlit("u16");
    reveal_strlit("u32");
}

/// Appends ASCII text that fits.
fn push_ascii(line: &mut Line, s: &str)
    requires
        is_ascii_chars(line_text(*old(line))),
        is_ascii_chars(s@),
        line_text(*old(line)).len() + s@.len() <= 128,
    ensures
        line_text(*final(line)) == line_text(*old(line)) + s@,
        is_ascii_chars(line_text(*final(line))),
{
    proof {
        is_ascii_chars_encode_utf8(line_text(*line));
        is_ascii_chars_encode_utf8(s@);
        is_ascii_chars_concat(line_text(*line) + s@, line_text(*line), s@);
    }
    let _ = line.try_push_str(s);
}

/// Appends one decimal digit.
fn push_digit(line: &mut Line, d: u8)
    requires
        d < 10,
        is_ascii_chars(line_text(*old(line))),
        line_text(*old(line)).len() + 1 <= 128,
    ensures
        line_text(*final(line)) == line_text(*old(line)) + digit_text(d as int),
        is_ascii_chars(line_text(*final(line))),
{
    let digits: &'static str = "0123456789";
    proof {
        reveal_strlit("0123456789");
        lemma_digit_text(d as int);
    }
    let at: usize = d as usize;
    let digit: &str = digits.substring_ascii(at, at + 1);
    push_ascii(line, digit);
}

/// Appends a number in decimal notation.
fn push_decimal(line: &mut Line, n: u64)
    requires
        is_ascii_chars(line_text(*old(line))),
        line_text(*old(line)).len() + decimal(n as nat).len() <= 128,
    ensures
        line_text(*final(line)) == line_text(*old(line)) + decimal(n as nat),
        is_ascii_chars(line_text(*final(line))),
    decreases n,
{
    proof {
        lemma_digit_text((n % 10) as int);
    }
    if n >= 10 {
        push_decimal(line, n / 10);
    }
    push_digit(line, (n % 10) as u8);
    assert(line_text(*line) =~= line_text(*old(line)) + decimal(n as nat));
}

/// Appends a comma.
fn push_comma(line: &mut Line)
    requires
        is_ascii_chars(line_text(*old(line))),
        line_text(*old(line)).len() + 1 <= 128,
    ensures
        line_text(*final(line)) == line_text(*old(line)) + ","@,
        is_ascii_chars(line_text(*final(line))),
{
    proof {
        reveal_strlit(",");
    }
    push_ascii(line, ",");
}

/// Writes the report line of a record: its seven fields in order, separated
/// by commas, numbers in decimal notation. Even with every number at its
/// largest the line is shorter than the capacity, so nothing is ever cut off.
pub fn format_record(record: &BenchRecord) -> (line: Line)
    ensures
        line_text(line) == spec_line(*record),
{
    let mut line: Line = Line::empty();
    proof {
        reveal_strlit(",");
        lemma_decimal_u64(record.count as u64);
        lemma_decimal_u64(record.dma_cycles as u64);
        lemma_decimal_u64(record.dma_cycles_per_8_bytes);
        lemma_decimal_u64(record.cpu_cycles as u64);
        lemma_decimal_u64(record.cpu_cycles_per_8_bytes);
        lemma_name_text(record.src_ty);
        lemma_name_text(record.dst_ty);
    }
    push_decimal(&mut line, record.count as u64);
    push_comma(&mut line);
    push_ascii(&mut line, record.src_ty.name());
    push_comma(&mut line);
    push_ascii(&mut line, record.dst_ty.name());
    push_comma(&mut line);
    push_decimal(&mut line, record.dma_cycles as u64);
    push_comma(&mut line);
    push_decimal(&mut line, record.dma_cycles_per_8_bytes);
    push_comma(&mut line);
    push_decimal(&mut line, record.cpu_cycles as u64);
    push_comma(&mut line);
    push_decimal(&mut line, record.cpu_cycles_per_8_bytes);
    assert(line_text(line) =~= spec_line(*record));
    line
}

} // verus!
