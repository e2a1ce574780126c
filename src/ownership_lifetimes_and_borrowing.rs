//! Three demonstrations: a move, a value handed out of a scope, and the
//! two kinds of borrow. Each returns the lines it shows.

use vstd::prelude::*;
use crate::decimal::{decimal, decimal_string, lemma_decimal_injective};

verus! {

/// The value the borrowed record starts with.
pub const INITIAL_ANSWER: i32 = 42;

/// The value the exclusive borrow writes.
pub const NEW_ANSWER: i32 = 40;

/// The texts of a sequence of lines.
pub open spec fn texts(lines: Seq<String>) -> Seq<Seq<char>> {
    lines.map_values(|s: String| s@)
}

/// The line that shows a record without fields.
pub open spec fn bar_text() -> Seq<char> {
    "Bar"@
}

/// The line that shows the field of the borrowed record when it holds `n`.
pub open spec fn answer_text(n: int) -> Seq<char> {
    decimal(n)
}

proof fn lemma_texts_push(lines: Seq<String>, s: String)
    ensures
        texts(lines.push(s)) == texts(lines).push(s@),
{
    assert(texts(lines.push(s)) =~= texts(lines).push(s@));
}

/// Appends `s` to `out`.
pub(crate) fn emit(out: &mut Vec<String>, s: String)
    ensures
        texts(final(out)@) == texts(old(out)@).push(s@),
{
    proof {
        lemma_texts_push(out@, s);
    }
    out.push(s);
}

/// A record that carries no data: moving it still moves ownership.
struct Bar {}

impl Bar {
    /// The line that shows this record.
    fn show(&self) -> (r: String)
        ensures
            r@ == bar_text(),
    {
        String::from_str("Bar")
    }
}

/// A record with one integer field, lent out shared and then exclusively.
struct Bar2 {
    answer: i32,
}

/// Moves a record to a second binding; the record is shown once, before the move.
pub fn ownership_in_a_nutshell() -> (r: Vec<String>)
    ensures
        texts(r@) == seq![bar_text()],
{
    let mut out: Vec<String> = Vec::new();
    let bar = Bar {};
    emit(&mut out, bar.show());
    let _bar2 = bar;
    assert(texts(out@) =~= seq![bar_text()]);
    out
}

/// Makes a record, shows it, and hands it to the caller.
fn make_bar(out: &mut Vec<String>) -> (r: Bar)
    ensures
        texts(final(out)@) == texts(old(out)@).push(bar_text()),
{
    let bar = Bar {};
    emit(out, bar.show());
    bar
}

/// Takes a record out of the scope that made it and shows it again.
pub fn passing_object_from_scope_to_scope() -> (r: Vec<String>)
    ensures
        texts(r@) == seq![bar_text(), bar_text()],
{
    let mut out: Vec<String> = Vec::new();
    let bar = make_bar(&mut out);
    emit(&mut out, bar.show());
    assert(texts(out@) =~= seq![bar_text(), bar_text()]);
    out
}

/// Reads the field through a shared borrow and shows it.
fn immutable_borrow(bar: &Bar2, out: &mut Vec<String>)
    ensures
        texts(final(out)@) == texts(old(out)@).push(answer_text(bar.answer as int)),
{
    emit(out, decimal_string(bar.answer));
}

/// Writes the field through an exclusive borrow and shows the new value.
fn mutable_borrow(bar: &mut Bar2, out: &mut Vec<String>)
    ensures
        final(bar).answer == NEW_ANSWER,
        texts(final(out)@) == texts(old(out)@).push(answer_text(NEW_ANSWER as int)),
{
    bar.answer = NEW_ANSWER;
    emit(out, decimal_string(bar.answer));
}

/// Lends a record out shared, then exclusively, and shows its field each time:
/// first the value it was made with, then the value the exclusive borrow wrote.
pub fn borrowing() -> (r: Vec<String>)
    ensures
        texts(r@) == seq![answer_text(INITIAL_ANSWER as int), answer_text(NEW_ANSWER as int)],
{
    let mut out: Vec<String> = Vec::new();
    let mut bar = Bar2 { answer: INITIAL_ANSWER };
    immutable_borrow(&bar, &mut out);
    mutable_borrow(&mut bar, &mut out);
    assert(texts(out@) =~= seq![
        answer_text(INITIAL_ANSWER as int),
        answer_text(NEW_ANSWER as int),
    ]);
    out
}

} // verus!

verus! {

/// The line of the shared borrow equals the line of the exclusive borrow only
/// when the field already held the value that the exclusive borrow writes.
pub proof fn lemma_borrow_lines_differ(answer: i32)
    ensures
        answer_text(answer as int) == answer_text(NEW_ANSWER as int) <==> answer == NEW_ANSWER,
{
    if answer_text(answer as int) == answer_text(NEW_ANSWER as int) {
        lemma_decimal_injective(answer as int, NEW_ANSWER as int);
    }
}

} // verus!
