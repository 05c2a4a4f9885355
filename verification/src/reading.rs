//! What the parser made of the texts of a list of attributes.
//!
//! The library hands the text of `visibility = ".."` and of `rename = ".."`
//! to `syn`, and `syn`'s answer is no function of the text. So every rule is
//! stated for given answers: the readings of a list of attributes are a
//! table with one row for each attribute and, in the row, one reading for
//! each entry of the attribute's list. Where the table holds nothing for an
//! entry, the entry's text counts as refused without a complaint.

use vstd::prelude::*;
use vstd::string::*;

verus! {

/// The most opening brackets that a text may hold to be handed to the
/// parser. The parser descends once for each bracket that is open, so a text
/// of many brackets could exhaust the stack; no identifier holds a bracket
/// and no visibility more than one.
pub const MAX_BRACKETS: usize = 32;

/// Whether `byte` is `(`, `[` or `{`.
pub open spec fn is_bracket(byte: u8) -> bool {
    byte == 0x28 || byte == 0x5b || byte == 0x7b
}

/// The number of opening brackets among `bytes`.
pub open spec fn brackets(bytes: Seq<u8>) -> nat
    decreases bytes.len(),
{
    if bytes.len() == 0 {
        0
    } else {
        brackets(bytes.drop_last()) + if is_bracket(bytes.last()) {
            1nat
        } else {
            0nat
        }
    }
}

/// No more brackets than bytes.
pub proof fn lemma_brackets_bounded(bytes: Seq<u8>)
    ensures
        brackets(bytes) <= bytes.len(),
    decreases bytes.len(),
{
    if bytes.len() > 0 {
        lemma_brackets_bounded(bytes.drop_last());
    }
}

/// The text holds few enough opening brackets to be handed to the parser.
pub open spec fn readable(text: &str) -> bool {
    brackets(text.spec_bytes()) <= MAX_BRACKETS
}

/// Whether `text` holds at most [`MAX_BRACKETS`] opening brackets.
pub fn is_readable(text: &str) -> (r: bool)
    ensures
        r == readable(text),
{
    let bytes = text.as_bytes();
    let mut count: usize = 0;
    let mut i: usize = 0;
    while i < bytes.len()
        invariant
            i <= bytes.len(),
            bytes@ == text.spec_bytes(),
            count == brackets(bytes@.take(i as int)),
            count <= i,
        decreases bytes.len() - i,
    {
        let byte = bytes[i];
        assert(bytes@.take(i + 1).drop_last() =~= bytes@.take(i as int));
        if byte == 0x28 || byte == 0x5b || byte == 0x7b {
            count = count + 1;
        }
        i = i + 1;
    }
    assert(bytes@.take(bytes@.len() as int) =~= bytes@);
    count <= MAX_BRACKETS
}

/// One answer of the parser as a mathematical value: what it read, or its
/// complaint.
pub open spec fn outcome_of<T: View>(r: Result<T, String>) -> Result<T::V, Seq<char>> {
    match r {
        Ok(read) => Ok(read@),
        Err(message) => Err(message@),
    }
}

/// A table of answers as a mathematical value.
pub open spec fn readings_of<T: View>(table: Seq<Vec<Result<T, String>>>) -> Seq<
    Seq<Result<T::V, Seq<char>>>,
> {
    Seq::new(table.len(), |a: int| Seq::new(table[a]@.len(), |e: int| outcome_of(table[a]@[e])))
}

/// The reading for entry `entry` of attribute `attr`; where `readings` holds
/// none, a refusal without a complaint.
pub open spec fn reading_at<V>(readings: Seq<Seq<Result<V, Seq<char>>>>, attr: int, entry: int)
    -> Result<V, Seq<char>> {
    if 0 <= attr < readings.len() && 0 <= entry < readings[attr].len() {
        readings[attr][entry]
    } else {
        Err(Seq::empty())
    }
}

/// The readings of field `field`; where `readings` holds none for it, none.
pub open spec fn readings_for<V>(readings: Seq<Seq<Seq<Result<V, Seq<char>>>>>, field: int) -> Seq<
    Seq<Result<V, Seq<char>>>,
> {
    if 0 <= field < readings.len() {
        readings[field]
    } else {
        Seq::empty()
    }
}

} // verus!
