//! The three demonstrations in a row, each under a header line.

use vstd::prelude::*;
use crate::ownership_lifetimes_and_borrowing::{
    answer_text,
    bar_text,
    borrowing,
    emit,
    ownership_in_a_nutshell,
    passing_object_from_scope_to_scope,
    texts,
    INITIAL_ANSWER,
    NEW_ANSWER,
};

verus! {

/// The header over the move.
pub open spec fn ownership_header() -> Seq<char> {
    "= ownership in a nutshell ="@
}

/// The header over the value handed out of a scope.
pub open spec fn scope_header() -> Seq<char> {
    "= passing object from scope to scope ="@
}

/// The header over the borrows.
pub open spec fn borrowing_header() -> Seq<char> {
    "= borrowing ="@
}

/// Everything the driver shows, in order.
pub open spec fn driver_text() -> Seq<Seq<char>> {
    seq![
        ownership_header(),
        bar_text(),
        scope_header(),
        bar_text(),
        bar_text(),
        borrowing_header(),
        answer_text(INITIAL_ANSWER as int),
        answer_text(NEW_ANSWER as int),
    ]
}

/// Runs the three demonstrations in order, each after its header, and returns
/// every line shown. The result is the same fixed sequence of eight lines on
/// every call: nothing carries over from one run to the next.
pub fn run() -> (r: Vec<String>)
    ensures
        texts(r@) == driver_text(),
        r@.len() == 8,
{
    let mut out: Vec<String> = Vec::new();
    emit(&mut out, String::from_str("= ownership in a nutshell ="));
    let mut part = ownership_in_a_nutshell();
    let ghost before = out@;
    out.append(&mut part);
    proof {
        assert(texts(before) =~= seq![ownership_header()]);
        assert(texts(out@) =~= texts(before) + seq![bar_text()]);
    }
    emit(&mut out, String::from_str("= passing object from scope to scope ="));
    let mut part = passing_object_from_scope_to_scope();
    let ghost before = out@;
    out.append(&mut part);
    proof {
        assert(texts(out@) =~= texts(before) + seq![bar_text(), bar_text()]);
    }
    emit(&mut out, String::from_str("= borrowing ="));
    let mut part = borrowing();
    let ghost before = out@;
    out.append(&mut part);
    proof {
        assert(texts(out@) =~= texts(before) + seq![
            answer_text(INITIAL_ANSWER as int),
            answer_text(NEW_ANSWER as int),
        ]);
        assert(texts(out@) =~= driver_text());
    }
    out
}

} // verus!
