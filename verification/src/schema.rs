//! The schema script: statements separated by a double dash.
//!
//! The backing store takes one statement at a time. The script that sets up
//! its tables holds them all, with `--` between one and the next.

use vstd::prelude::*;

verus! {

/// The byte `-`.
pub const DASH: u8 = 0x2d;

/// Whether a separator, two dashes, begins at an index of the script.
pub open spec fn separator_at(script: Seq<u8>, at: int) -> bool {
    0 <= at && at + 1 < script.len() && script[at] == DASH && script[at + 1] == DASH
}

/// The number of bytes from an index up to the next separator, or up to the
/// end of the script where none follows.
pub open spec fn run_length(script: Seq<u8>, from: int) -> nat
    decreases script.len() - from,
{
    if from < 0 || from >= script.len() || separator_at(script, from) {
        0
    } else {
        1 + run_length(script, from + 1)
    }
}

/// The statements of the script from an index on: the pieces between
/// separators, in order, without the empty ones. Separators are found from
/// left to right and do not overlap.
pub open spec fn statements_from(script: Seq<u8>, from: int) -> Seq<Seq<u8>>
    decreases script.len() - from,
{
    if from < 0 || from > script.len() {
        Seq::empty()
    } else {
        let end = from + run_length(script, from);
        let piece = script.subrange(from, end);
        let rest = if separator_at(script, end) {
            statements_from(script, end + 2)
        } else {
            Seq::empty()
        };
        if piece.len() > 0 {
            seq![piece] + rest
        } else {
            rest
        }
    }
}

/// The statements of a script.
pub open spec fn statements_of(script: Seq<u8>) -> Seq<Seq<u8>> {
    statements_from(script, 0)
}

/// The statements of a vector, each as a sequence of bytes.
pub open spec fn statements_view(statements: Vec<Vec<u8>>) -> Seq<Seq<u8>> {
    Seq::new(statements@.len(), |i: int| statements@[i]@)
}

/// Splits a script into its statements: the pieces between `--`, in order,
/// without the empty ones.
pub fn split_statements(script: &[u8]) -> (statements: Vec<Vec<u8>>)
    ensures
        statements_view(statements) == statements_of(script@),
{
    let n = script.len();
    let mut statements: Vec<Vec<u8>> = Vec::new();
    let mut piece: Vec<u8> = Vec::new();
    let mut i: usize = 0;
    let ghost mut start: int = 0;
    while i < n
        invariant
            n == script@.len(),
            0 <= start <= i <= n,
            piece@ == script@.subrange(start, i as int),
            run_length(script@, start) == (i - start) + run_length(script@, i as int),
            statements_of(script@) == statements_view(statements) + statements_from(
                script@,
                start,
            ),
        decreases n - i,
    {
        if script[i] == DASH && i + 1 < n && script[i + 1] == DASH {
            let ghost before = statements_view(statements);
            let ghost held = piece@;
            let ghost tail = statements_from(script@, i + 2);
            proof {
                assert(separator_at(script@, i as int));
                assert(run_length(script@, i as int) == 0);
                assert(statements_from(script@, start) == if held.len() > 0 {
                    seq![held] + tail
                } else {
                    tail
                });
            }
            if piece.len() > 0 {
                statements.push(piece);
                assert(statements_view(statements) =~= before + seq![held]);
                assert((before + seq![held]) + tail =~= before + (seq![held] + tail));
            }
            piece = Vec::new();
            i = i + 2;
            proof {
                start = i as int;
                assert(piece@ =~= script@.subrange(start, i as int));
            }
        } else {
            proof {
                assert(!separator_at(script@, i as int));
                assert(script@.subrange(start, i as int).push(script@[i as int])
                    =~= script@.subrange(start, i + 1));
            }
            piece.push(script[i]);
            i = i + 1;
        }
    }
    proof {
        assert(run_length(script@, n as int) == 0);
        assert(!separator_at(script@, n as int));
        assert(statements_from(script@, start) == if piece@.len() > 0 {
            seq![piece@]
        } else {
            Seq::<Seq<u8>>::empty()
        });
    }
    if piece.len() > 0 {
        let ghost before = statements_view(statements);
        let ghost held = piece@;
        statements.push(piece);
        assert(statements_view(statements) =~= before + seq![held]);
    }
    statements
}

} // verus!
