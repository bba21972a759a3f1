//! The pieces of a written text, and how runs of them are joined.

use crate::arith::computes;
use crate::arith::total;
use crate::arith::Op;
use vstd::prelude::*;

verus! {

/// One piece of a written text.
#[derive(Clone, Copy, Debug, PartialEq, Eq)]
pub enum Piece {
    /// These characters.
    Text(&'static str),
    /// The text of this double.
    Number(u64),
    /// The text of the double that this operation gives.
    Computed(Op),
}

/// What each run of pieces holds.
pub open spec fn runs_view(runs: Seq<Vec<Piece>>) -> Seq<Seq<Piece>> {
    runs.map_values(|run: Vec<Piece>| run@)
}

/// The runs one after the other, with `separator` between each two.
pub open spec fn join(runs: Seq<Seq<Piece>>, separator: Seq<Piece>) -> Seq<Piece>
    decreases runs.len(),
{
    if runs.len() == 0 {
        Seq::empty()
    } else if runs.len() == 1 {
        runs[0]
    } else {
        join(runs.drop_last(), separator) + separator + runs.last()
    }
}

/// A run made of one word.
pub open spec fn word(text: &'static str) -> Seq<Piece> {
    seq![Piece::Text(text)]
}

/// Nothing written at all.
pub open spec fn nothing() -> Seq<Piece> {
    Seq::empty()
}

/// Joining one more run puts the separator before it, unless it is the first.
pub proof fn lemma_join_push(runs: Seq<Seq<Piece>>, run: Seq<Piece>, separator: Seq<Piece>)
    ensures
        join(runs.push(run), separator) == if runs.len() == 0 {
            run
        } else {
            join(runs, separator) + separator + run
        },
{
    assert(runs.push(run).drop_last() =~= runs);
}

/// Adds `more` at the end of `out`.
pub(crate) fn append(out: &mut Vec<Piece>, more: &Vec<Piece>)
    ensures
        final(out)@ == old(out)@ + more@,
{
    let mut i: usize = 0;
    while i < more.len()
        invariant
            i <= more.len(),
            out@ == old(out)@ + more@.take(i as int),
        decreases more.len() - i,
    {
        out.push(more[i]);
        proof {
            assert(out@ =~= old(out)@ + more@.take(i + 1));
        }
        i += 1;
    }
    proof {
        assert(more@.take(more.len() as int) =~= more@);
    }
}

/// The runs one after the other, with `separator` between each two.
pub fn join_runs(runs: &Vec<Vec<Piece>>, separator: &Vec<Piece>) -> (out: Vec<Piece>)
    ensures
        out@ == join(runs_view(runs@), separator@),
{
    let ghost all = runs_view(runs@);
    let mut out: Vec<Piece> = Vec::new();
    let mut i: usize = 0;
    proof {
        assert(all.take(0) =~= Seq::empty());
    }
    while i < runs.len()
        invariant
            i <= runs.len(),
            all == runs_view(runs@),
            out@ == join(all.take(i as int), separator@),
        decreases runs.len() - i,
    {
        proof {
            assert(all.take(i + 1) =~= all.take(i as int).push(runs@[i as int]@));
            lemma_join_push(all.take(i as int), runs@[i as int]@, separator@);
        }
        if i > 0 {
            append(&mut out, separator);
        }
        append(&mut out, &runs[i]);
        proof {
            if i == 0 {
                assert(out@ =~= runs@[0]@);
            }
        }
        i += 1;
    }
    proof {
        assert(all.take(runs.len() as int) =~= all);
    }
    out
}

/// `show` may be called on every double, and writes doubles as `shown` does.
pub open spec fn shows<T: Fn(u64) -> String>(show: T, shown: spec_fn(u64) -> Seq<char>) -> bool {
    forall|bits: u64, text: String| #[trigger] show.ensures((bits,), text) ==> text@ == shown(bits)
}

/// The characters of one piece.
pub open spec fn piece_text(
    shown: spec_fn(u64) -> Seq<char>,
    k: spec_fn(Op) -> u64,
    piece: Piece,
) -> Seq<char> {
    match piece {
        Piece::Text(text) => text@,
        Piece::Number(bits) => shown(bits),
        Piece::Computed(op) => shown(k(op)),
    }
}

/// The characters of a run of pieces.
pub open spec fn text_of(
    shown: spec_fn(u64) -> Seq<char>,
    k: spec_fn(Op) -> u64,
    pieces: Seq<Piece>,
) -> Seq<char>
    decreases pieces.len(),
{
    if pieces.len() == 0 {
        Seq::empty()
    } else {
        text_of(shown, k, pieces.drop_last()) + piece_text(shown, k, pieces.last())
    }
}

/// The text of two runs is the text of the first and then that of the second.
pub proof fn lemma_text_of_both(
    shown: spec_fn(u64) -> Seq<char>,
    k: spec_fn(Op) -> u64,
    first: Seq<Piece>,
    second: Seq<Piece>,
)
    ensures
        text_of(shown, k, first + second) == text_of(shown, k, first) + text_of(shown, k, second),
    decreases second.len(),
{
    if second.len() == 0 {
        assert(first + second =~= first);
        assert(text_of(shown, k, first) + Seq::<char>::empty() =~= text_of(shown, k, first));
    } else {
        assert((first + second).drop_last() =~= first + second.drop_last());
        lemma_text_of_both(shown, k, first, second.drop_last());
        assert(text_of(shown, k, first + second) =~= text_of(shown, k, first) + text_of(
            shown,
            k,
            second,
        ));
    }
}

/// Writes out a run of pieces: each word as it stands, and each number as
/// `show` writes it, after `arith` has computed it where that is asked. Of no
/// piece, nothing is written.
pub fn render<T: Fn(u64) -> String, A: Fn(Op) -> u64>(pieces: &Vec<Piece>, show: &T, arith: &A) -> (text:
    String)
    requires
        forall|bits: u64| #[trigger] show.requires((bits,)),
        total(*arith),
    ensures
        pieces@.len() == 0 ==> text@.len() == 0,
        forall|shown: spec_fn(u64) -> Seq<char>, k: spec_fn(Op) -> u64|
            #![trigger shows(*show, shown), computes(*arith, k)]
            shows(*show, shown) && computes(*arith, k) ==> text@ == text_of(shown, k, pieces@),
{
    let mut text = String::new();
    let mut i: usize = 0;
    proof {
        assert(pieces@.take(0) =~= Seq::empty());
    }
    while i < pieces.len()
        invariant
            i <= pieces.len(),
            pieces@.len() == 0 ==> text@.len() == 0,
            forall|bits: u64| #[trigger] show.requires((bits,)),
            total(*arith),
            forall|shown: spec_fn(u64) -> Seq<char>, k: spec_fn(Op) -> u64|
                #![trigger shows(*show, shown), computes(*arith, k)]
                shows(*show, shown) && computes(*arith, k) ==> text@ == text_of(
                    shown,
                    k,
                    pieces@.take(i as int),
                ),
        decreases pieces.len() - i,
    {
        proof {
            assert(pieces@.take(i + 1).drop_last() =~= pieces@.take(i as int));
        }
        match pieces[i] {
            Piece::Text(word) => {
                text.append(word);
            },
            Piece::Number(bits) => {
                let number = show(bits);
                text.append(number.as_str());
            },
            Piece::Computed(op) => {
                let number = show(arith(op));
                text.append(number.as_str());
            },
        }
        i += 1;
    }
    proof {
        assert(pieces@.take(pieces.len() as int) =~= pieces@);
    }
    text
}

} // verus!
