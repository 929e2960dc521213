//! The instant at which a publication was received, and its two renderings.
//!
//! The plain rendering is `[YYYY-MM-DD HH:MM:SS.mmm] ` and goes to the log
//! file. The colourised rendering holds the same characters with the clock
//! text in green and goes to the console. Both are made at once from one
//! captured instant, so a record's two sinks never disagree about the time.

use chrono::{Datelike, Local, Timelike};
use vstd::prelude::*;

use crate::decimal::{
    all_digits, lemma_decimal_shape, lemma_zero_padded_shape, push_signed_zero_padded,
    push_zero_padded, signed_zero_padded, value_of, zero_padded,
};

verus! {

pub const ESCAPE: u8 = 27;

pub const OPEN_BRACKET: u8 = 91;

pub const CLOSE_BRACKET: u8 = 93;

pub const SPACE: u8 = 32;

pub const DASH: u8 = 45;

pub const COLON: u8 = 58;

pub const DOT: u8 = 46;

pub const NEWLINE: u8 = 10;

pub const LETTER_M: u8 = 109;

pub const DIGIT_0: u8 = 48;

pub const DIGIT_2: u8 = 50;

pub const DIGIT_3: u8 = 51;

pub const DIGIT_4: u8 = 52;

/// The escape sequence that switches all colours off: `ESC [ 0 m`.
pub open spec fn reset_code() -> Seq<u8> {
    seq![ESCAPE, OPEN_BRACKET, DIGIT_0, LETTER_M]
}

/// The escape sequence for a green foreground: `ESC [ 3 2 m`.
pub open spec fn green_code() -> Seq<u8> {
    seq![ESCAPE, OPEN_BRACKET, DIGIT_3, DIGIT_2, LETTER_M]
}

/// The escape sequence for a blue foreground: `ESC [ 3 4 m`.
pub open spec fn blue_code() -> Seq<u8> {
    seq![ESCAPE, OPEN_BRACKET, DIGIT_3, DIGIT_4, LETTER_M]
}

/// A wall-clock instant with millisecond precision.
#[derive(Clone, Copy, Debug, PartialEq, Eq, Structural)]
pub struct Timestamp {
    pub year: i32,
    pub month: u32,
    pub day: u32,
    pub hour: u32,
    pub minute: u32,
    pub second: u32,
    pub millisecond: u32,
}

impl Timestamp {
    /// The fields are those of a calendar date and a time of day. During a
    /// leap second the millisecond count runs from 1000 to 1999.
    pub open spec fn is_calendar(self) -> bool {
        &&& 1 <= self.month <= 12
        &&& 1 <= self.day <= 31
        &&& self.hour <= 23
        &&& self.minute <= 59
        &&& self.second <= 59
        &&& self.millisecond <= 1999
    }

    /// Every field fits the number of digits that the rendering gives it, so
    /// the rendering has its fixed width.
    pub open spec fn fits_fixed_width(self) -> bool {
        &&& 0 <= self.year <= 9999
        &&& self.month <= 99
        &&& self.day <= 99
        &&& self.hour <= 99
        &&& self.minute <= 99
        &&& self.second <= 99
        &&& self.millisecond <= 999
    }
}

/// The date and the time of day as text: `YYYY-MM-DD HH:MM:SS.mmm`.
///
/// Each field is padded with zeros to its width. A field too large for its
/// width is written in full, and a negative year starts with `-` and has
/// three digits at least.
pub open spec fn clock_text(t: Timestamp) -> Seq<u8> {
    signed_zero_padded(t.year as int, 4) + seq![DASH] + zero_padded(t.month as nat, 2)
        + seq![DASH] + zero_padded(t.day as nat, 2) + seq![SPACE] + zero_padded(t.hour as nat, 2)
        + seq![COLON] + zero_padded(t.minute as nat, 2) + seq![COLON] + zero_padded(
        t.second as nat,
        2,
    ) + seq![DOT] + zero_padded(t.millisecond as nat, 3)
}

/// The rendering for the log file: the clock text in square brackets, then
/// one space.
pub open spec fn plain_text(t: Timestamp) -> Seq<u8> {
    seq![OPEN_BRACKET] + clock_text(t) + seq![CLOSE_BRACKET, SPACE]
}

/// The rendering for the console: as the plain one, with the clock text in
/// green and the brackets in the terminal's own colour.
pub open spec fn colorized_text(t: Timestamp) -> Seq<u8> {
    reset_code() + seq![OPEN_BRACKET] + green_code() + clock_text(t) + reset_code()
        + seq![CLOSE_BRACKET, SPACE]
}

/// `s` has the shape `[dddd-dd-dd dd:dd:dd.ddd] `, each `d` a digit.
pub open spec fn is_fixed_width_stamp(s: Seq<u8>) -> bool {
    &&& s.len() == 26
    &&& s[0] == OPEN_BRACKET
    &&& all_digits(s.subrange(1, 5))
    &&& s[5] == DASH
    &&& all_digits(s.subrange(6, 8))
    &&& s[8] == DASH
    &&& all_digits(s.subrange(9, 11))
    &&& s[11] == SPACE
    &&& all_digits(s.subrange(12, 14))
    &&& s[14] == COLON
    &&& all_digits(s.subrange(15, 17))
    &&& s[17] == COLON
    &&& all_digits(s.subrange(18, 20))
    &&& s[20] == DOT
    &&& all_digits(s.subrange(21, 24))
    &&& s[24] == CLOSE_BRACKET
    &&& s[25] == SPACE
}

/// The instant that a fixed-width plain rendering denotes.
pub open spec fn instant_of(s: Seq<u8>) -> Timestamp {
    Timestamp {
        year: value_of(s.subrange(1, 5)) as i32,
        month: value_of(s.subrange(6, 8)) as u32,
        day: value_of(s.subrange(9, 11)) as u32,
        hour: value_of(s.subrange(12, 14)) as u32,
        minute: value_of(s.subrange(15, 17)) as u32,
        second: value_of(s.subrange(18, 20)) as u32,
        millisecond: value_of(s.subrange(21, 24)) as u32,
    }
}

/// The pieces of the clock text of an instant whose fields fit their widths:
/// seven runs of digits of fixed length, each denoting its field.
proof fn lemma_clock_fields(t: Timestamp)
    requires
        t.fits_fixed_width(),
    ensures
        clock_text(t).len() == 23,
        clock_text(t).subrange(0, 4) == zero_padded(t.year as nat, 4),
        clock_text(t)[4] == DASH,
        clock_text(t).subrange(5, 7) == zero_padded(t.month as nat, 2),
        clock_text(t)[7] == DASH,
        clock_text(t).subrange(8, 10) == zero_padded(t.day as nat, 2),
        clock_text(t)[10] == SPACE,
        clock_text(t).subrange(11, 13) == zero_padded(t.hour as nat, 2),
        clock_text(t)[13] == COLON,
        clock_text(t).subrange(14, 16) == zero_padded(t.minute as nat, 2),
        clock_text(t)[16] == COLON,
        clock_text(t).subrange(17, 19) == zero_padded(t.second as nat, 2),
        clock_text(t)[19] == DOT,
        clock_text(t).subrange(20, 23) == zero_padded(t.millisecond as nat, 3),
{
    lemma_zero_padded_shape(t.year as nat, 4);
    lemma_zero_padded_shape(t.month as nat, 2);
    lemma_zero_padded_shape(t.day as nat, 2);
    lemma_zero_padded_shape(t.hour as nat, 2);
    lemma_zero_padded_shape(t.minute as nat, 2);
    lemma_zero_padded_shape(t.second as nat, 2);
    lemma_zero_padded_shape(t.millisecond as nat, 3);
    lemma_decimal_shape(t.year as nat);
    lemma_decimal_shape(t.month as nat);
    lemma_decimal_shape(t.day as nat);
    lemma_decimal_shape(t.hour as nat);
    lemma_decimal_shape(t.minute as nat);
    lemma_decimal_shape(t.second as nat);
    lemma_decimal_shape(t.millisecond as nat);
}

/// The plain rendering of an instant whose fields fit their widths has the
/// fixed shape `[dddd-dd-dd dd:dd:dd.ddd] `, and reading its digits back gives
/// the instant: two such instants with one rendering are one instant.
pub proof fn lemma_plain_text_fixed_width(t: Timestamp)
    requires
        t.fits_fixed_width(),
    ensures
        is_fixed_width_stamp(plain_text(t)),
        instant_of(plain_text(t)) == t,
{
    lemma_clock_fields(t);
    lemma_zero_padded_shape(t.year as nat, 4);
    lemma_zero_padded_shape(t.month as nat, 2);
    lemma_zero_padded_shape(t.day as nat, 2);
    lemma_zero_padded_shape(t.hour as nat, 2);
    lemma_zero_padded_shape(t.minute as nat, 2);
    lemma_zero_padded_shape(t.second as nat, 2);
    lemma_zero_padded_shape(t.millisecond as nat, 3);
    let c = clock_text(t);
    let p = plain_text(t);
    assert(p.subrange(1, 5) =~= c.subrange(0, 4));
    assert(p.subrange(6, 8) =~= c.subrange(5, 7));
    assert(p.subrange(9, 11) =~= c.subrange(8, 10));
    assert(p.subrange(12, 14) =~= c.subrange(11, 13));
    assert(p.subrange(15, 17) =~= c.subrange(14, 16));
    assert(p.subrange(18, 20) =~= c.subrange(17, 19));
    assert(p.subrange(21, 24) =~= c.subrange(20, 23));
}

/// True when `s` holds no escape byte.
pub open spec fn escape_free(s: Seq<u8>) -> bool {
    forall|i: int| 0 <= i < s.len() ==> #[trigger] s[i] != ESCAPE
}

/// What is left of `s` after the first `m`, or nothing when `s` has none:
/// the rest of a text whose start lies inside an escape sequence.
pub open spec fn after_escape_end(s: Seq<u8>) -> Seq<u8>
    decreases s.len(),
{
    if s.len() == 0 {
        s
    } else if s[0] == LETTER_M {
        s.drop_first()
    } else {
        after_escape_end(s.drop_first())
    }
}

/// `s` without its colour escape sequences: each run from an escape byte to
/// the next `m` is taken out, and every other byte stays.
pub open spec fn without_escapes(s: Seq<u8>) -> Seq<u8>
    decreases s.len(),
{
    if s.len() == 0 {
        s
    } else if s[0] == ESCAPE {
        let rest = after_escape_end(s.drop_first());
        if rest.len() < s.len() {
            without_escapes(rest)
        } else {
            Seq::empty()
        }
    } else {
        seq![s[0]] + without_escapes(s.drop_first())
    }
}

/// Text without escape bytes passes through unchanged.
pub proof fn lemma_without_escapes_keeps(head: Seq<u8>, rest: Seq<u8>)
    requires
        escape_free(head),
    ensures
        without_escapes(head + rest) == head + without_escapes(rest),
    decreases head.len(),
{
    if head.len() > 0 {
        let tail = head.drop_first();
        lemma_without_escapes_keeps(tail, rest);
        assert((head + rest).drop_first() =~= tail + rest);
        assert(seq![head[0]] + (tail + without_escapes(rest)) =~= head + without_escapes(rest));
    }
}

/// A colour escape sequence in front of a text is taken out whole.
pub proof fn lemma_without_escapes_drops(code: Seq<u8>, rest: Seq<u8>)
    requires
        code == reset_code() || code == green_code() || code == blue_code(),
    ensures
        without_escapes(code + rest) == without_escapes(rest),
{
    reveal_with_fuel(after_escape_end, 5);
    assert(after_escape_end((code + rest).drop_first()) == rest);
}

/// The clock text of any instant holds no escape byte.
pub proof fn lemma_clock_text_escape_free(t: Timestamp)
    ensures
        escape_free(clock_text(t)),
{
    if t.year < 0 {
        lemma_zero_padded_shape((-(t.year as int)) as nat, 3);
    } else {
        lemma_zero_padded_shape(t.year as nat, 4);
    }
    lemma_zero_padded_shape(t.month as nat, 2);
    lemma_zero_padded_shape(t.day as nat, 2);
    lemma_zero_padded_shape(t.hour as nat, 2);
    lemma_zero_padded_shape(t.minute as nat, 2);
    lemma_zero_padded_shape(t.second as nat, 2);
    lemma_zero_padded_shape(t.millisecond as nat, 3);
}

/// The two renderings of one instant differ only in decoration: the
/// colourised one without its escape sequences is the plain one.
pub proof fn lemma_renderings_agree(t: Timestamp)
    ensures
        without_escapes(colorized_text(t)) == plain_text(t),
{
    let clock = clock_text(t);
    let close = seq![CLOSE_BRACKET, SPACE];
    let open = seq![OPEN_BRACKET];
    let r5 = Seq::<u8>::empty();
    let r4 = reset_code() + close;
    let r3 = clock + r4;
    let r2 = green_code() + r3;
    let r1 = open + r2;
    let r0 = reset_code() + r1;
    assert(r0 =~= colorized_text(t));
    lemma_clock_text_escape_free(t);
    lemma_without_escapes_drops(reset_code(), r1);
    lemma_without_escapes_keeps(open, r2);
    lemma_without_escapes_drops(green_code(), r3);
    lemma_without_escapes_keeps(clock, r4);
    lemma_without_escapes_drops(reset_code(), close);
    lemma_without_escapes_keeps(close, r5);
}

/// An instant together with its two renderings.
pub struct Rendering {
    instant: Timestamp,
    plain: Vec<u8>,
    colorized: Vec<u8>,
}

impl Rendering {
    #[verifier::type_invariant]
    spec fn consistent(self) -> bool {
        &&& self.plain@ == plain_text(self.instant)
        &&& self.colorized@ == colorized_text(self.instant)
    }

    /// The instant that both renderings show.
    pub closed spec fn instant(self) -> Timestamp {
        self.instant
    }

    /// The instant that both renderings show.
    pub fn timestamp(&self) -> (t: Timestamp)
        ensures
            t == self.instant(),
    {
        self.instant
    }

    /// The rendering for the log file.
    pub fn plain(&self) -> (bytes: &Vec<u8>)
        ensures
            bytes@ == plain_text(self.instant()),
    {
        proof {
            use_type_invariant(self);
        }
        &self.plain
    }

    /// The rendering for the console.
    pub fn colorized(&self) -> (bytes: &Vec<u8>)
        ensures
            bytes@ == colorized_text(self.instant()),
    {
        proof {
            use_type_invariant(self);
        }
        &self.colorized
    }
}

/// Appends the escape sequence that switches colours off.
pub fn push_reset(out: &mut Vec<u8>)
    ensures
        final(out)@ == old(out)@ + reset_code(),
{
    out.push(ESCAPE);
    out.push(OPEN_BRACKET);
    out.push(DIGIT_0);
    out.push(LETTER_M);
}

/// Appends the escape sequence for a foreground colour, given by the second
/// digit of its code: `ESC [ 3 d m`.
fn push_foreground(out: &mut Vec<u8>, second_digit: u8)
    ensures
        final(out)@ == old(out)@ + seq![ESCAPE, OPEN_BRACKET, DIGIT_3, second_digit, LETTER_M],
{
    out.push(ESCAPE);
    out.push(OPEN_BRACKET);
    out.push(DIGIT_3);
    out.push(second_digit);
    out.push(LETTER_M);
}

/// Appends the escape sequence for a green foreground.
pub fn push_green(out: &mut Vec<u8>)
    ensures
        final(out)@ == old(out)@ + green_code(),
{
    push_foreground(out, DIGIT_2);
}

/// Appends the escape sequence for a blue foreground.
pub fn push_blue(out: &mut Vec<u8>)
    ensures
        final(out)@ == old(out)@ + blue_code(),
{
    push_foreground(out, DIGIT_4);
}

/// Appends the clock text of `t`.
fn push_clock_text(out: &mut Vec<u8>, t: &Timestamp)
    ensures
        final(out)@ == old(out)@ + clock_text(*t),
{
    push_signed_zero_padded(out, t.year, 4);
    out.push(DASH);
    push_zero_padded(out, t.month, 2);
    out.push(DASH);
    push_zero_padded(out, t.day, 2);
    out.push(SPACE);
    push_zero_padded(out, t.hour, 2);
    out.push(COLON);
    push_zero_padded(out, t.minute, 2);
    out.push(COLON);
    push_zero_padded(out, t.second, 2);
    out.push(DOT);
    push_zero_padded(out, t.millisecond, 3);
}

impl Timestamp {
    /// Renders the instant in both forms.
    pub fn render(&self) -> (r: Rendering)
        ensures
            r.instant() == *self,
    {
        let mut plain: Vec<u8> = Vec::new();
        plain.push(OPEN_BRACKET);
        push_clock_text(&mut plain, self);
        plain.push(CLOSE_BRACKET);
        plain.push(SPACE);
        assert(plain@ =~= plain_text(*self));

        let mut colorized: Vec<u8> = Vec::new();
        push_reset(&mut colorized);
        colorized.push(OPEN_BRACKET);
        push_green(&mut colorized);
        push_clock_text(&mut colorized, self);
        push_reset(&mut colorized);
        colorized.push(CLOSE_BRACKET);
        colorized.push(SPACE);
        assert(colorized@ =~= colorized_text(*self));

        Rendering { instant: *self, plain, colorized }
    }
}

/// Reads the local wall clock with `chrono::Local::now` and takes the
/// calendar fields of the result.
///
/// Nothing is claimed about which instant comes back, only the ranges that
/// chrono documents for the fields of any date and time: the month from 1 to
/// 12, the day from 1 to 31, the hour up to 23, minute and second up to 59,
/// and a millisecond count that stays below 2000 (it passes 999 only while
/// chrono represents a leap second).
#[verifier::external_body]
fn local_now() -> (t: Timestamp)
    ensures
        t.is_calendar(),
{
    let now = Local::now();
    Timestamp {
        year: now.year(),
        month: now.month(),
        day: now.day(),
        hour: now.hour(),
        minute: now.minute(),
        second: now.second(),
        millisecond: now.timestamp_subsec_millis(),
    }
}

/// Captures the present instant in local time and renders it.
///
/// Which instant is captured depends on the clock; whatever it is, its fields
/// are those of a calendar date and time, and both renderings show it.
pub fn generate_timestamp() -> (r: Rendering)
    ensures
        r.instant().is_calendar(),
{
    let now = local_now();
    now.render()
}

} // verus!
