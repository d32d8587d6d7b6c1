//! Building the lines of a report: numbers as text, and lines put together
//! from pieces.

use vstd::prelude::*;

verus! {

/// The character for a digit below sixteen, in lower case.
pub open spec fn digit(value: nat) -> char {
    if value == 0 {
        '0'
    } else if value == 1 {
        '1'
    } else if value == 2 {
        '2'
    } else if value == 3 {
        '3'
    } else if value == 4 {
        '4'
    } else if value == 5 {
        '5'
    } else if value == 6 {
        '6'
    } else if value == 7 {
        '7'
    } else if value == 8 {
        '8'
    } else if value == 9 {
        '9'
    } else if value == 10 {
        'a'
    } else if value == 11 {
        'b'
    } else if value == 12 {
        'c'
    } else if value == 13 {
        'd'
    } else if value == 14 {
        'e'
    } else {
        'f'
    }
}

/// A number written in the given base, most significant digit first, without
/// leading zeros; zero is written as one digit.
pub open spec fn numeral(value: nat, base: nat) -> Seq<char>
    recommends
        2 <= base <= 16,
    decreases value,
    via numeral_shrinks
{
    if base < 2 || value < base {
        seq![digit(value)]
    } else {
        numeral(value / base, base).push(digit(value % base))
    }
}

#[via_fn]
proof fn numeral_shrinks(value: nat, base: nat) {
    if base >= 2 && value >= base {
        assert(value / base < value) by (nonlinear_arith)
            requires
                base >= 2,
                value >= base,
        ;
    }
}

/// A whole number in decimal, with a minus sign in front where it is negative.
pub open spec fn signed_numeral(value: int) -> Seq<char> {
    if value < 0 {
        seq!['-'] + numeral((-value) as nat, 10)
    } else {
        numeral(value as nat, 10)
    }
}

/// Formats a number with `{}`. Trusted: the text is the number in decimal.
#[verifier::external_body]
pub(crate) fn decimal(value: u64) -> (text: String)
    ensures
        text@ == numeral(value as nat, 10),
{
    format!("{}", value)
}

/// Formats a signed number with `{}`. Trusted: the text is the number in
/// decimal, after a minus sign where it is negative.
#[verifier::external_body]
pub(crate) fn signed_decimal(value: i32) -> (text: String)
    ensures
        text@ == signed_numeral(value as int),
{
    format!("{}", value)
}

/// Formats a number with `{:x}`. Trusted: the text is the number in base
/// sixteen, in lower case.
#[verifier::external_body]
pub(crate) fn lower_hex(value: u32) -> (text: String)
    ensures
        text@ == numeral(value as nat, 16),
{
    format!("{:x}", value)
}

/// Formats a byte with `{:02x}`. Trusted: the text is its two digits in base
/// sixteen, in lower case.
#[verifier::external_body]
pub(crate) fn two_hex(value: u8) -> (text: String)
    ensures
        text@ == seq![digit(value as nat / 16), digit(value as nat % 16)],
{
    format!("{:02x}", value)
}

/// Formats a number with `{:b}`. Trusted: the text is the number in base two.
#[verifier::external_body]
pub(crate) fn binary(value: u32) -> (text: String)
    ensures
        text@ == numeral(value as nat, 2),
{
    format!("{:b}", value)
}

/// `true` or `false`, spelled out.
pub open spec fn truth(flag: bool) -> Seq<char> {
    if flag {
        "true"@
    } else {
        "false"@
    }
}

/// Spells a flag out as `true` or `false`.
pub fn spell(flag: bool) -> (text: &'static str)
    ensures
        text@ == truth(flag),
{
    if flag {
        "true"
    } else {
        "false"
    }
}

/// A piece of text that is there or not.
pub open spec fn optional(present: bool, piece: Seq<char>) -> Seq<char> {
    if present {
        piece
    } else {
        ""@
    }
}

/// Gives a piece of text where it is to be there, and nothing otherwise.
pub fn optional_text(present: bool, piece: &'static str) -> (text: &'static str)
    ensures
        text@ == optional(present, piece@),
{
    if present {
        piece
    } else {
        ""
    }
}

/// One of two pieces of text.
pub open spec fn either(first: bool, this: Seq<char>, that: Seq<char>) -> Seq<char> {
    if first {
        this
    } else {
        that
    }
}

/// Gives the first piece of text or the second.
pub fn either_text(first: bool, this: &'static str, that: &'static str) -> (text: &'static str)
    ensures
        text@ == either(first, this@, that@),
{
    if first {
        this
    } else {
        that
    }
}

/// Joins a label and a value into one line.
pub fn labelled(label: &str, value: &str) -> (line: String)
    ensures
        line@ == label@ + value@,
{
    let mut line = String::from_str(label);
    line.append(value);
    line
}

/// Joins a label, a value and what follows the value into one line.
pub fn measured(label: &str, value: &str, unit: &str) -> (line: String)
    ensures
        line@ == label@ + value@ + unit@,
{
    let mut line = String::from_str(label);
    line.append(value);
    line.append(unit);
    line
}

/// The text of each line of a list.
pub open spec fn texts(lines: Seq<String>) -> Seq<Seq<char>> {
    Seq::new(lines.len(), |i: int| lines[i]@)
}

/// Adding two lists one after the other is adding them joined.
pub proof fn lemma_concat_twice(
    start: Seq<Seq<char>>,
    middle: Seq<Seq<char>>,
    end: Seq<Seq<char>>,
)
    ensures
        (start + middle) + end == start + (middle + end),
{
    assert((start + middle) + end =~= start + (middle + end));
}

/// Adding a list to an empty one gives the list.
pub proof fn lemma_concat_empty(lines: Seq<Seq<char>>)
    ensures
        Seq::<Seq<char>>::empty() + lines == lines,
{
    assert(Seq::<Seq<char>>::empty() + lines =~= lines);
}

/// Starts a list of lines.
pub fn no_lines() -> (lines: Vec<String>)
    ensures
        texts(lines@) == Seq::<Seq<char>>::empty(),
{
    let lines: Vec<String> = Vec::new();
    assert(texts(lines@) =~= Seq::<Seq<char>>::empty());
    lines
}

/// Adds a line at the end of a list.
pub fn put(lines: &mut Vec<String>, line: String)
    ensures
        texts(final(lines)@) == texts(old(lines)@).push(line@),
{
    lines.push(line);
    assert(texts(lines@) =~= texts(old(lines)@).push(line@));
}

/// Adds a fixed line at the end of a list.
pub fn put_plain(lines: &mut Vec<String>, line: &str)
    ensures
        texts(final(lines)@) == texts(old(lines)@).push(line@),
{
    put(lines, String::from_str(line));
}

/// Adds a line made of a label and a value.
pub fn put_labelled(lines: &mut Vec<String>, label: &str, value: &str)
    ensures
        texts(final(lines)@) == texts(old(lines)@).push(label@ + value@),
{
    put(lines, labelled(label, value));
}

/// Adds a line made of a label and a number in decimal.
pub fn put_number(lines: &mut Vec<String>, label: &str, value: u64)
    ensures
        texts(final(lines)@) == texts(old(lines)@).push(label@ + numeral(value as nat, 10)),
{
    put(lines, labelled(label, decimal(value).as_str()));
}

/// Adds a line made of a label, a number in decimal and its unit.
pub fn put_measure(lines: &mut Vec<String>, label: &str, value: u64, unit: &str)
    ensures
        texts(final(lines)@) == texts(old(lines)@).push(
            label@ + numeral(value as nat, 10) + unit@,
        ),
{
    put(lines, measured(label, decimal(value).as_str(), unit));
}

/// Adds a line made of a label and a number in base two.
pub fn put_bits(lines: &mut Vec<String>, label: &str, value: u32)
    ensures
        texts(final(lines)@) == texts(old(lines)@).push(label@ + numeral(value as nat, 2)),
{
    put(lines, labelled(label, binary(value).as_str()));
}

/// Adds a line made of a label and a flag, spelled out.
pub fn put_flag(lines: &mut Vec<String>, label: &str, flag: bool)
    ensures
        texts(final(lines)@) == texts(old(lines)@).push(label@ + truth(flag)),
{
    put(lines, labelled(label, spell(flag)));
}

} // verus!
