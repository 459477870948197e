//! What holds of a whole drawing session: whatever is asked of it, in
//! whatever order, the native calls that it hands out are properly
//! nested, and the modes that are open are the ones whose closing call
//! is still to come.

use vstd::prelude::*;
use crate::graphics::{closed, closings, exclusive, held, opened, unwound, Mode};
use crate::native::NativeCall;

verus! {

/// What can be asked of a session.
pub enum Step {
    /// To open a mode.
    Begin(Mode),
    /// To end the innermost mode.
    End,
}

/// A native call, as far as nesting goes: the call that opens a mode, or
/// the one that closes it.
pub enum Bracket {
    Open(Mode),
    Close(Mode),
}

/// The open modes after one step, and the native call that the step
/// hands out, if any. A mode whose lock is held does not open; where no
/// mode is open there is nothing to end. Neither hands out a call.
pub open spec fn step(stack: Seq<Mode>, s: Step) -> (Seq<Mode>, Seq<Bracket>) {
    match s {
        Step::Begin(mode) => match opened(stack, mode) {
            Some(next) => (next, seq![Bracket::Open(mode)]),
            None => (stack, Seq::empty()),
        },
        Step::End => if stack.len() > 0 {
            (closed(stack), seq![Bracket::Close(stack.last())])
        } else {
            (stack, Seq::empty())
        },
    }
}

/// The open modes after all `steps`, taken in their order from `stack`,
/// and the native calls handed out on the way.
pub open spec fn run(stack: Seq<Mode>, steps: Seq<Step>) -> (Seq<Mode>, Seq<Bracket>)
    decreases steps.len(),
{
    if steps.len() == 0 {
        (stack, Seq::empty())
    } else {
        let before = run(stack, steps.drop_last());
        let last = step(before.0, steps.last());
        (last.0, before.1 + last.1)
    }
}

/// Reads the calls as brackets, starting with the modes of `stack` open:
/// the modes that are open at the end, or `None` where a call closes a
/// mode that is not the innermost open one.
pub open spec fn pending(stack: Seq<Mode>, calls: Seq<Bracket>) -> Option<Seq<Mode>>
    decreases calls.len(),
{
    if calls.len() == 0 {
        Some(stack)
    } else {
        match pending(stack, calls.drop_last()) {
            None => None,
            Some(open) => match calls.last() {
                Bracket::Open(mode) => Some(open.push(mode)),
                Bracket::Close(mode) => if open.len() > 0 && open.last() == mode {
                    Some(open.drop_last())
                } else {
                    None
                },
            },
        }
    }
}

/// How many of the calls open the mode, and how many close it.
pub open spec fn count_open(calls: Seq<Bracket>, mode: Mode) -> nat
    decreases calls.len(),
{
    if calls.len() == 0 {
        0
    } else {
        count_open(calls.drop_last(), mode) + if calls.last() == Bracket::Open(mode) {
            1nat
        } else {
            0nat
        }
    }
}

pub open spec fn count_close(calls: Seq<Bracket>, mode: Mode) -> nat
    decreases calls.len(),
{
    if calls.len() == 0 {
        0
    } else {
        count_close(calls.drop_last(), mode) + if calls.last() == Bracket::Close(mode) {
            1nat
        } else {
            0nat
        }
    }
}

/// How often the mode occurs among the open modes.
pub open spec fn count_in(stack: Seq<Mode>, mode: Mode) -> nat
    decreases stack.len(),
{
    if stack.len() == 0 {
        0
    } else {
        count_in(stack.drop_last(), mode) + if stack.last() == mode {
            1nat
        } else {
            0nat
        }
    }
}

/// The calls of a run are properly nested: read as brackets they never
/// close a mode that is not the innermost open one, and what they leave
/// open is what the session holds open.
pub proof fn lemma_run_is_nested(stack: Seq<Mode>, steps: Seq<Step>)
    ensures
        pending(stack, run(stack, steps).1) == Some(run(stack, steps).0),
    decreases steps.len(),
{
    if steps.len() > 0 {
        let before = run(stack, steps.drop_last());
        lemma_run_is_nested(stack, steps.drop_last());
        let last = step(before.0, steps.last());
        let calls = before.1 + last.1;
        if last.1.len() == 0 {
            assert(calls =~= before.1);
        } else {
            assert(last.1.len() == 1);
            assert(calls.drop_last() =~= before.1);
            assert(calls.last() == last.1[0]);
        }
    }
}

/// In a run that starts with the open modes on different locks, they
/// stay on different locks.
pub proof fn lemma_run_is_exclusive(stack: Seq<Mode>, steps: Seq<Step>)
    requires
        exclusive(stack),
    ensures
        exclusive(run(stack, steps).0),
    decreases steps.len(),
{
    if steps.len() > 0 {
        let before = run(stack, steps.drop_last());
        lemma_run_is_exclusive(stack, steps.drop_last());
        match steps.last() {
            Step::Begin(mode) => {
                crate::graphics::lemma_opened_exclusive(before.0, mode);
            },
            Step::End => {
                if before.0.len() > 0 {
                    crate::graphics::lemma_closed_exclusive(before.0);
                }
            },
        }
    }
}

/// Each opening call of a run has been answered by one closing call, or
/// its mode is still open: for every mode, the openings are the closings
/// and the open ones together.
pub proof fn lemma_run_pairs_calls(steps: Seq<Step>, mode: Mode)
    ensures
        count_open(run(Seq::empty(), steps).1, mode) == count_close(run(Seq::empty(), steps).1, mode)
            + count_in(run(Seq::empty(), steps).0, mode),
    decreases steps.len(),
{
    let none = Seq::<Mode>::empty();
    if steps.len() > 0 {
        let before = run(none, steps.drop_last());
        lemma_run_pairs_calls(steps.drop_last(), mode);
        let last = step(before.0, steps.last());
        let calls = before.1 + last.1;
        if last.1.len() == 0 {
            assert(calls =~= before.1);
            assert(last.0 == before.0);
        } else {
            assert(calls.drop_last() =~= before.1);
            assert(calls.last() == last.1[0]);
            match steps.last() {
                Step::Begin(m) => {
                    assert(last.0 == before.0.push(m));
                    assert(last.0.drop_last() =~= before.0);
                    assert(last.0.last() == m);
                },
                Step::End => {
                    assert(last.0 == before.0.drop_last());
                },
            }
        }
    }
}

/// A frame can end only when no mode is open. In a run that ends so,
/// every mode has been closed exactly as often as it has been opened.
pub proof fn lemma_finished_run_is_balanced(steps: Seq<Step>, mode: Mode)
    requires
        run(Seq::empty(), steps).0.len() == 0,
    ensures
        count_open(run(Seq::empty(), steps).1, mode) == count_close(run(Seq::empty(), steps).1, mode),
        pending(Seq::empty(), run(Seq::empty(), steps).1) == Some(Seq::<Mode>::empty()),
{
    lemma_run_pairs_calls(steps, mode);
    lemma_run_is_nested(Seq::empty(), steps);
    assert(run(Seq::<Mode>::empty(), steps).0 =~= Seq::<Mode>::empty());
}

/// `n` times the step that ends the innermost mode.
pub open spec fn ends(n: nat) -> Seq<Step> {
    Seq::new(n, |k: int| Step::End)
}

/// The native call that closes the mode of a closing bracket.
pub open spec fn closing_call(bracket: Bracket) -> NativeCall
    recommends
        bracket is Close,
{
    match bracket {
        Bracket::Close(mode) => mode.spec_end_call(),
        Bracket::Open(mode) => mode.spec_end_call(),
    }
}

/// Unwinding a session is a run of its own: ending the modes above the
/// lowest `depth` is ending the innermost mode, once for each of them. Its
/// calls close those modes and no other, innermost first, and are
/// therefore properly nested inside what was open.
pub proof fn lemma_unwinding_is_a_run(stack: Seq<Mode>, depth: int)
    requires
        0 <= depth <= stack.len(),
    ensures
        run(stack, ends((stack.len() - depth) as nat)).0 == unwound(stack, depth),
        run(stack, ends((stack.len() - depth) as nat)).1.len() == stack.len() - depth,
        forall|k: int|
            0 <= k < stack.len() - depth ==> (#[trigger] run(
                stack,
                ends((stack.len() - depth) as nat),
            ).1[k]) == Bracket::Close(stack[stack.len() - 1 - k]),
        run(stack, ends((stack.len() - depth) as nat)).1.map_values(|b: Bracket| closing_call(b))
            == closings(stack, depth),
        pending(stack, run(stack, ends((stack.len() - depth) as nat)).1) == Some(
            unwound(stack, depth),
        ),
    decreases stack.len() - depth,
{
    let n = (stack.len() - depth) as nat;
    let steps = ends(n);
    if n == 0 {
        assert(unwound(stack, depth) =~= stack);
        assert(run(stack, steps).1.map_values(|b: Bracket| closing_call(b)) =~= closings(
            stack,
            depth,
        ));
    } else {
        lemma_unwinding_is_a_run(stack, depth + 1);
        assert(steps.drop_last() =~= ends((n - 1) as nat));
        assert(steps.last() == Step::End);
        let before = run(stack, steps.drop_last());
        assert(before.0 == unwound(stack, depth + 1));
        assert(before.0 =~= stack.take(depth + 1));
        assert(before.0.len() == depth + 1);
        assert(before.0.last() == stack[depth]);
        let last = step(before.0, Step::End);
        assert(last.0 =~= stack.take(depth));
        assert(last.0 =~= unwound(stack, depth));
        let calls = run(stack, steps).1;
        assert(calls == before.1 + last.1);
        assert(calls.len() == n);
        assert forall|k: int| 0 <= k < n implies (#[trigger] calls[k]) == Bracket::Close(
            stack[stack.len() - 1 - k],
        ) by {
            if k < n - 1 {
                assert(calls[k] == before.1[k]);
            } else {
                assert(calls[k] == last.1[0]);
            }
        }
        assert(calls.map_values(|b: Bracket| closing_call(b)) =~= closings(stack, depth));
    }
    lemma_run_is_nested(stack, steps);
}

/// A run of one list of steps after another is the run of both in a
/// row: its calls are the calls of the first followed by the calls of
/// the second.
pub proof fn lemma_run_in_two_parts(stack: Seq<Mode>, first: Seq<Step>, second: Seq<Step>)
    ensures
        run(stack, first + second).0 == run(run(stack, first).0, second).0,
        run(stack, first + second).1 == run(stack, first).1 + run(run(stack, first).0, second).1,
    decreases second.len(),
{
    let middle = run(stack, first);
    if second.len() == 0 {
        assert(first + second =~= first);
        assert(middle.1 + Seq::<Bracket>::empty() =~= middle.1);
    } else {
        lemma_run_in_two_parts(stack, first, second.drop_last());
        assert((first + second).drop_last() =~= first + second.drop_last());
        assert((first + second).last() == second.last());
        let before = run(middle.0, second.drop_last());
        let last = step(before.0, second.last());
        assert((middle.1 + before.1) + last.1 =~= middle.1 + (before.1 + last.1));
    }
}

/// Whatever has been asked of a session, closing the frame with its
/// open modes unwound leaves nothing open: the calls of the whole frame
/// are properly nested, and close every mode exactly as often as they
/// open it. The call that ends the frame comes after all of them.
pub proof fn lemma_unwound_frame_is_balanced(steps: Seq<Step>, mode: Mode)
    ensures
        ({
            let open = run(Seq::empty(), steps).0;
            let whole = steps + ends(open.len());
            &&& run(Seq::empty(), whole).0.len() == 0
            &&& run(Seq::empty(), whole).1 == run(Seq::empty(), steps).1 + run(open, ends(open.len())).1
            &&& run(open, ends(open.len())).1.map_values(|b: Bracket| closing_call(b)) == closings(
                open,
                0,
            )
            &&& pending(Seq::empty(), run(Seq::empty(), whole).1) == Some(Seq::<Mode>::empty())
            &&& count_open(run(Seq::empty(), whole).1, mode) == count_close(
                run(Seq::empty(), whole).1,
                mode,
            )
        }),
{
    let none = Seq::<Mode>::empty();
    let open = run(none, steps).0;
    let whole = steps + ends(open.len());
    lemma_run_in_two_parts(none, steps, ends(open.len()));
    lemma_unwinding_is_a_run(open, 0);
    assert(unwound(open, 0).len() == 0) by {
        if open.len() > 0 {
            assert(open.take(0).len() == 0);
        }
    }
    lemma_finished_run_is_balanced(whole, mode);
}

/// While a mode is open, a run hands out no opening call for a mode on
/// the same lock.
pub proof fn lemma_held_lock_opens_nothing(stack: Seq<Mode>, mode: Mode)
    requires
        held(stack, mode.spec_lock()),
    ensures
        step(stack, Step::Begin(mode)) == (stack, Seq::<Bracket>::empty()),
{
}

} // verus!
