use std::fmt::Display;
use std::ops::{Deref, DerefMut};
use vstd::prelude::*;
use vstd::std_specs::cmp::PartialEqSpec;
use vstd::std_specs::convert::FromSpec;
use vstd::string::to_string_from_display_ensures;

use crate::modifiable::Modifiable;
use crate::state::State;

verus! {

/// A value together with a flag that tells whether the value has been handed
/// out for writing since the box was made or last saved.
///
/// The box dereferences to the value. A shared dereference leaves the flag
/// alone; a mutable one raises it.
#[derive(Debug)]
pub struct Modify<T> {
    /// The value in the box.
    value: T,
    /// `true` once the value has been handed out for writing.
    modified: bool,
}

impl<T> View for Modify<T> {
    type V = State<T>;

    /// The box as a proof sees it: its value and its flag.
    closed spec fn view(&self) -> State<T> {
        State { value: self.value, modified: self.modified }
    }
}

impl<T> Modify<T> {
    /// Makes a box around `value`. The new box counts as unmodified.
    pub fn new(value: T) -> (made: Self)
        ensures
            made@ == State::fresh(value),
    {
        Self { value, modified: false }
    }

    /// Clears the flag and leaves the value as it is.
    pub fn saved(&mut self)
        ensures
            final(self)@ == old(self)@.saved(),
    {
        self.modified = false;
    }

    /// Takes the box apart and hands out the value. The flag is dropped.
    pub fn into_inner(self) -> (value: T)
        ensures
            value == self@.value,
    {
        self.value
    }
}

impl<T: Display> Modify<T> {
    /// The text of the value in the box, as the value's own `to_string`
    /// gives it. The flag plays no part in the text.
    pub fn to_string(&self) -> (text: String)
        ensures
            to_string_from_display_ensures::<T>(&self@.value, text),
    {
        self.value.to_string()
    }
}

impl<T> Modifiable for Modify<T> {
    /// Tells whether the value has been handed out for writing since the box
    /// was made or last saved.
    fn is_modified(&self) -> (flag: bool)
        ensures
            flag == self@.modified,
    {
        self.modified
    }
}

impl<T> Deref for Modify<T> {
    type Target = T;

    /// Read access to the value. The borrow is shared, so the box, flag
    /// included, is the same after the call as before.
    fn deref(&self) -> (inner: &T)
        ensures
            *inner == self@.value,
    {
        &self.value
    }
}

impl<T> DerefMut for Modify<T> {
    /// Write access to the value. Taking it raises the flag, whatever is
    /// done with the reference afterwards.
    fn deref_mut(&mut self) -> (inner: &mut T)
        ensures
            *inner == old(self)@.value,
            final(self)@ == old(self)@.written(*final(inner)),
    {
        self.modified = true;
        &mut self.value
    }
}

impl<T> From<T> for Modify<T> {
    /// Makes a box around `value`, as [`Modify::new`] does.
    fn from(value: T) -> (made: Self)
        ensures
            made@ == State::fresh(value),
    {
        Self::new(value)
    }
}

impl<T> vstd::std_specs::convert::FromSpecImpl<T> for Modify<T> {
    open spec fn obeys_from_spec() -> bool {
        true
    }

    /// The box that `from` makes of `value`; [`lemma_from_is_fresh`] says
    /// what a proof sees of it.
    closed spec fn from_spec(value: T) -> Self {
        Modify { value, modified: false }
    }
}

/// In a proof, as in running code, the box that `from` makes of a value is a
/// fresh box around that value: conversion and [`Modify::new`] give the same.
pub proof fn lemma_from_is_fresh<T>(value: T)
    ensures
        Modify::<T>::from_spec(value)@ == State::fresh(value),
{
}

impl<T: Default> Default for Modify<T> {
    /// Makes an unmodified box around the default value of `T`.
    fn default() -> (made: Self)
        ensures
            call_ensures(T::default, (), made@.value),
            !made@.modified,
    {
        Self::new(T::default())
    }
}

impl<T: PartialEq> PartialEq for Modify<T> {
    /// Two boxes are equal when their values are equal and their flags agree.
    fn eq(&self, other: &Self) -> (same: bool) {
        self.value == other.value && self.modified == other.modified
    }
}

impl<T: PartialEq> vstd::std_specs::cmp::PartialEqSpecImpl for Modify<T> {
    /// `==` on boxes can be relied on in proofs where `==` on values can.
    open spec fn obeys_eq_spec() -> bool {
        T::obeys_eq_spec()
    }

    /// What `==` on boxes means: `==` on the values, and the same flag.
    open spec fn eq_spec(&self, other: &Self) -> bool {
        self@.value.eq_spec(&other@.value) && self@.modified == other@.modified
    }
}

} // verus!
