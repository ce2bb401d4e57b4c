use vstd::prelude::*;

use crate::state::{is_unsaved_write, never_saved, Access, State};

verus! {

/// A new box is unmodified, whatever the value it is made around.
pub proof fn lemma_fresh_is_unmodified<T>(value: T)
    ensures
        State::fresh(value).value == value,
        !State::fresh(value).modified,
{
}

/// A write access marks the box, whatever its state was and whatever value
/// the writer leaves in it, the value that was there included.
pub proof fn lemma_write_access_marks<T>(state: State<T>, value: T)
    ensures
        state.written(value).modified,
        state.written(value).value == value,
        state.written(state.value) == (State { value: state.value, modified: true }),
{
}

/// Marking a box as saved clears the flag, whatever it was, and keeps the
/// value.
pub proof fn lemma_saved_clears<T>(state: State<T>)
    ensures
        !state.saved().modified,
        state.saved().value == state.value,
{
}

/// Marking a box as saved twice in a row is the same as marking it once, and
/// the box is unmodified after each of the two.
pub proof fn lemma_saved_twice<T>(state: State<T>)
    ensures
        !state.saved().modified,
        !state.saved().saved().modified,
        state.saved().saved() == state.saved(),
{
}

/// Reading changes nothing: after any number of reads the box holds the value
/// it held and its flag is where it was.
pub proof fn lemma_reads_change_nothing<T>(state: State<T>, accesses: Seq<Access<T>>)
    requires
        forall|at: int| 0 <= at < accesses.len() ==> #[trigger] accesses[at] is Read,
    ensures
        state.after_all(accesses) == state,
    decreases accesses.len(),
{
    if accesses.len() > 0 {
        lemma_reads_change_nothing(state, accesses.drop_last());
    }
}

/// The flag means what it is meant to mean: after any run of accesses the box
/// counts as modified exactly if there was a write access with no save after
/// it, or if the box counted as modified to begin with and was never saved.
pub proof fn lemma_modified_means_unsaved_write<T>(state: State<T>, accesses: Seq<Access<T>>)
    ensures
        state.after_all(accesses).modified <==> {
            ||| exists|at: int| is_unsaved_write(accesses, at)
            ||| state.modified && never_saved(accesses)
        },
    decreases accesses.len(),
{
    if accesses.len() > 0 {
        let earlier = accesses.drop_last();
        let last: int = accesses.len() - 1;
        lemma_modified_means_unsaved_write(state, earlier);
        match accesses.last() {
            Access::Read => {
                assert(forall|at: int| 0 <= at < last ==> earlier[at] == #[trigger] accesses[at]);
                assert(forall|at: int| is_unsaved_write(earlier, at) <==> is_unsaved_write(accesses, at));
                assert(never_saved(earlier) <==> never_saved(accesses));
            },
            Access::Write(_) => {
                assert(is_unsaved_write(accesses, last));
            },
            Access::Save => {
                assert(accesses[last] is Save);
            },
        }
    }
}

/// A box made from the value of another box holds that value and is
/// unmodified, whether or not the other box counted as modified.
pub proof fn lemma_remade_is_unmodified<T>(state: State<T>)
    ensures
        State::fresh(state.value).value == state.value,
        !State::fresh(state.value).modified,
{
}

} // verus!
