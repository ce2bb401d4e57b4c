use vstd::prelude::*;

verus! {

/// What a proof sees of a box: the value it holds, and whether that value has
/// been handed out for writing since the box was made or last saved.
pub struct State<T> {
    pub value: T,
    pub modified: bool,
}

/// One use of a box.
pub enum Access<T> {
    /// The value is looked at, through a shared dereference of the box.
    Read,
    /// The value is taken for writing, through a mutable dereference of the
    /// box, and the given value is in the box when the writer is done.
    Write(T),
    /// The box is marked as saved.
    Save,
}

impl<T> State<T> {
    /// The state of a box that has just been made around `value`.
    pub open spec fn fresh(value: T) -> Self {
        State { value, modified: false }
    }

    /// The state after a write access that leaves `value` in the box.
    ///
    /// The flag is raised by the access itself: `value` may well be the value
    /// that was there before.
    pub open spec fn written(self, value: T) -> Self {
        State { value, modified: true }
    }

    /// The state after the box has been marked as saved.
    pub open spec fn saved(self) -> Self {
        State { value: self.value, modified: false }
    }

    /// The state after one access.
    pub open spec fn after(self, access: Access<T>) -> Self {
        match access {
            Access::Read => self,
            Access::Write(value) => self.written(value),
            Access::Save => self.saved(),
        }
    }

    /// The state after a run of accesses, the first of them first.
    pub open spec fn after_all(self, accesses: Seq<Access<T>>) -> Self
        decreases accesses.len(),
    {
        if accesses.len() == 0 {
            self
        } else {
            self.after_all(accesses.drop_last()).after(accesses.last())
        }
    }
}

/// Whether the access at `at` is a write access with no save after it.
pub open spec fn is_unsaved_write<T>(accesses: Seq<Access<T>>, at: int) -> bool {
    &&& 0 <= at < accesses.len()
    &&& accesses[at] is Write
    &&& forall|later: int| at < later < accesses.len() ==> !(#[trigger] accesses[later] is Save)
}

/// Whether none of the accesses is a save.
pub open spec fn never_saved<T>(accesses: Seq<Access<T>>) -> bool {
    forall|at: int| 0 <= at < accesses.len() ==> !(#[trigger] accesses[at] is Save)
}

} // verus!
