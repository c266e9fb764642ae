//! An ordered collection with one focused position.

use std::collections::VecDeque;
use vstd::prelude::*;

verus! {

/// Mathematical model of a [`Ring`]: its elements in order and the focused index.
///
/// The focused index is meaningful while it is less than the number of
/// elements; operations that shorten the ring keep it there.
pub struct RingView<T> {
    pub elements: Seq<T>,
    pub focused: usize,
}

impl<T> RingView<T> {
    /// The ring without elements, focused at index 0.
    pub open spec fn empty() -> RingView<T> {
        RingView { elements: Seq::empty(), focused: 0 }
    }

    pub open spec fn len(self) -> nat {
        self.elements.len()
    }

    pub open spec fn get(self, idx: usize) -> Option<T> {
        if idx < self.elements.len() {
            Some(self.elements[idx as int])
        } else {
            None
        }
    }

    /// The element at the focused index, if that index is in bounds.
    pub open spec fn focused_element(self) -> Option<T> {
        self.get(self.focused)
    }

    pub open spec fn focus(self, idx: usize) -> RingView<T> {
        RingView { focused: idx, ..self }
    }

    pub open spec fn push_back(self, value: T) -> RingView<T> {
        RingView { elements: self.elements.push(value), ..self }
    }

    /// Replaces the element at `idx`; out of bounds, the ring is unchanged.
    pub open spec fn set(self, idx: usize, value: T) -> RingView<T> {
        if idx < self.elements.len() {
            RingView { elements: self.elements.update(idx as int, value), ..self }
        } else {
            self
        }
    }

    /// The largest index that is in bounds for `len` elements and not above
    /// `focused`; 0 for no elements.
    pub open spec fn clamp(focused: usize, len: nat) -> usize {
        if focused < len {
            focused
        } else if len == 0 {
            0
        } else {
            (len - 1) as usize
        }
    }

    /// Drops the element at `idx` and pulls the focused index back into bounds.
    /// Out of bounds, the ring is unchanged.
    pub open spec fn remove(self, idx: usize) -> RingView<T> {
        if idx < self.elements.len() {
            let rest = self.elements.remove(idx as int);
            RingView { elements: rest, focused: Self::clamp(self.focused, rest.len()) }
        } else {
            self
        }
    }

    /// The same ring with every element replaced by its image under `f`.
    pub open spec fn map<U>(self, f: spec_fn(T) -> U) -> RingView<U> {
        RingView { elements: self.elements.map_values(f), focused: self.focused }
    }

    /// Whether the focused index addresses an element, or is 0 in a ring
    /// without elements.
    pub open spec fn focus_in_bounds(self) -> bool {
        self.focused == Self::clamp(self.focused, self.elements.len())
    }

    /// Appending and removing keep the focused index in bounds.
    pub proof fn lemma_focus_stays_in_bounds(self, idx: usize, value: T)
        requires
            self.focus_in_bounds(),
        ensures
            self.remove(idx).focus_in_bounds(),
            self.push_back(value).focus_in_bounds(),
            self.set(idx, value).focus_in_bounds(),
    {
    }

    /// Replacing an element and then mapping is mapping and then replacing
    /// the image.
    pub proof fn lemma_map_set<U>(self, f: spec_fn(T) -> U, idx: usize, value: T)
        ensures
            self.set(idx, value).map(f) == self.map(f).set(idx, f(value)),
    {
        assert(self.set(idx, value).map(f).elements =~= self.map(f).set(idx, f(value)).elements);
    }
}

/// `VecDeque::get_mut`: a mutable reference to the element at `index`, or
/// `None` when `index` is out of bounds. Writing through the reference changes
/// that element and no other.
#[verifier::external_body]
fn deque_get_mut<T>(deque: &mut VecDeque<T>, index: usize) -> (slot: Option<&mut T>)
    ensures
        match slot {
            Some(element) => {
                &&& index < old(deque)@.len()
                &&& *element == old(deque)@[index as int]
                &&& final(deque)@ == old(deque)@.update(index as int, *final(element))
            },
            None => index >= old(deque)@.len() && final(deque)@ == old(deque)@,
        },
{
    deque.get_mut(index)
}

/// Elements in insertion order, one of which is focused.
#[derive(Debug)]
pub struct Ring<T> {
    elements: VecDeque<T>,
    focused: usize,
}

impl<T> View for Ring<T> {
    type V = RingView<T>;

    closed spec fn view(&self) -> RingView<T> {
        RingView { elements: self.elements@, focused: self.focused }
    }
}

impl<T> Ring<T> {
    pub fn new() -> (ring: Ring<T>)
        ensures
            ring@ == RingView::<T>::empty(),
    {
        Ring { elements: VecDeque::new(), focused: 0 }
    }

    pub fn elements(&self) -> (elements: &VecDeque<T>)
        ensures
            elements@ == self@.elements,
    {
        &self.elements
    }

    /// Direct access to the underlying sequence. The focused index stays as it
    /// is, whatever the caller does to the elements.
    pub fn elements_mut(&mut self) -> (elements: &mut VecDeque<T>)
        ensures
            elements@ == old(self)@.elements,
            final(self)@ == (RingView { elements: final(elements)@, focused: old(self)@.focused }),
    {
        &mut self.elements
    }

    pub fn len(&self) -> (len: usize)
        ensures
            len == self@.len(),
    {
        self.elements.len()
    }

    pub fn is_empty(&self) -> (empty: bool)
        ensures
            empty == (self@.len() == 0),
    {
        self.elements.len() == 0
    }

    pub fn focused_idx(&self) -> (idx: usize)
        ensures
            idx == self@.focused,
    {
        self.focused
    }

    /// Sets the focused index, in bounds or not.
    pub fn focus(&mut self, idx: usize)
        ensures
            final(self)@ == old(self)@.focus(idx),
    {
        self.focused = idx;
    }

    pub fn get(&self, idx: usize) -> (element: Option<&T>)
        ensures
            element == match self@.get(idx) {
                Some(value) => Some(&value),
                None => None,
            },
    {
        if idx < self.elements.len() {
            Some(&self.elements[idx])
        } else {
            None
        }
    }

    /// A mutable reference to the element at `idx`; what is written through it
    /// replaces that element.
    pub fn get_mut(&mut self, idx: usize) -> (element: Option<&mut T>)
        ensures
            match element {
                Some(slot) => {
                    &&& old(self)@.get(idx) == Some(*slot)
                    &&& final(self)@ == old(self)@.set(idx, *final(slot))
                },
                None => old(self)@.get(idx) is None && final(self)@ == old(self)@,
            },
    {
        deque_get_mut(&mut self.elements, idx)
    }

    pub fn focused(&self) -> (element: Option<&T>)
        ensures
            element == match self@.focused_element() {
                Some(value) => Some(&value),
                None => None,
            },
    {
        self.get(self.focused)
    }

    pub fn focused_mut(&mut self) -> (element: Option<&mut T>)
        ensures
            match element {
                Some(slot) => {
                    &&& old(self)@.focused_element() == Some(*slot)
                    &&& final(self)@ == old(self)@.set(old(self)@.focused, *final(slot))
                },
                None => old(self)@.focused_element() is None && final(self)@ == old(self)@,
            },
    {
        let idx = self.focused;
        deque_get_mut(&mut self.elements, idx)
    }

    pub fn push_back(&mut self, value: T)
        ensures
            final(self)@ == old(self)@.push_back(value),
    {
        self.elements.push_back(value);
    }

    /// Removes and returns the element at `idx`, if there is one. The focused
    /// index moves only as far as it must to stay in bounds.
    pub fn remove(&mut self, idx: usize) -> (removed: Option<T>)
        ensures
            removed == old(self)@.get(idx),
            final(self)@ == old(self)@.remove(idx),
    {
        let removed = self.elements.remove(idx);
        if removed.is_some() {
            let len = self.elements.len();
            if self.focused >= len {
                self.focused = if len == 0 {
                    0
                } else {
                    len - 1
                };
            }
        }
        removed
    }

    /// Grows the ring to `new_len` elements by appending clones of `value`.
    /// A ring that already has `new_len` elements or more is left as it is.
    pub fn resize(&mut self, new_len: usize, value: T) where T: Clone
        ensures
            final(self)@.focused == old(self)@.focused,
            new_len <= old(self)@.len() ==> final(self)@ == old(self)@,
            new_len > old(self)@.len() ==> {
                &&& final(self)@.len() == new_len
                &&& final(self)@.elements.subrange(0, old(self)@.len() as int) == old(
                    self,
                )@.elements
                &&& forall|i: int|
                    old(self)@.len() <= i < new_len ==> cloned::<T>(
                        value,
                        #[trigger] final(self)@.elements[i],
                    )
            },
    {
        if self.elements.len() < new_len {
            self.elements.resize(new_len, value);
        }
    }
}

impl<T: Clone> Clone for Ring<T> {
    /// Clones element by element; the focused index carries over.
    fn clone(&self) -> (copy: Ring<T>)
        ensures
            copy@.focused == self@.focused,
            copy@.len() == self@.len(),
            forall|i: int|
                0 <= i < self@.len() ==> cloned::<T>(
                    #[trigger] self@.elements[i],
                    copy@.elements[i],
                ),
    {
        Ring { elements: self.elements.clone(), focused: self.focused }
    }
}

impl<T> Default for Ring<T> {
    fn default() -> (ring: Ring<T>)
        ensures
            ring@ == RingView::<T>::empty(),
    {
        Ring::new()
    }
}

} // verus!
