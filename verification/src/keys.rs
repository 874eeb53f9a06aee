//! Keyboard events and the keys that are currently held.

use vstd::prelude::*;

verus! {

/// A key of the keyboard. Four keys steer the paddles; every other key is
/// told apart by its number alone.
#[derive(Clone, Copy, Debug, PartialEq, Eq, Structural)]
pub enum Key {
    /// Moves the right paddle up.
    Up,
    /// Moves the right paddle down.
    Down,
    /// Moves the left paddle up.
    W,
    /// Moves the left paddle down.
    S,
    /// Any other key.
    Other(u32),
}

/// Whether a key went down or came up.
#[derive(Clone, Copy, Debug, PartialEq, Eq, Structural)]
pub enum ElementState {
    Pressed,
    Released,
}

/// One keyboard event. The key is `None` where the platform could not name it.
#[derive(Clone, Copy, Debug, PartialEq, Eq, Structural)]
pub struct KeyboardInput {
    pub virtual_keycode: Option<Key>,
    pub state: ElementState,
}

/// The held keys after `key` went down: it joins at the end unless it is
/// already held.
pub open spec fn pressed(held: Seq<Key>, key: Key) -> Seq<Key> {
    if held.contains(key) {
        held
    } else {
        held.push(key)
    }
}

/// The held keys after `key` came up: its first occurrence leaves, and the
/// others keep their order.
pub open spec fn released(held: Seq<Key>, key: Key) -> Seq<Key> {
    held.remove_value(key)
}

/// The held keys after `input`.
pub open spec fn after_input(held: Seq<Key>, input: KeyboardInput) -> Seq<Key> {
    match input.virtual_keycode {
        None => held,
        Some(key) => match input.state {
            ElementState::Pressed => pressed(held, key),
            ElementState::Released => released(held, key),
        },
    }
}

/// Taking one item out of a sequence without repetition leaves one without
/// repetition.
pub proof fn lemma_remove_keeps_distinct(held: Seq<Key>, i: int)
    requires
        0 <= i < held.len(),
    ensures
        held.no_duplicates() ==> held.remove(i).no_duplicates(),
{
    if held.no_duplicates() {
        let rest = held.remove(i);
        assert forall|a: int, b: int| 0 <= a < rest.len() && 0 <= b < rest.len() && a != b implies rest[a]
            != rest[b] by {
            let a0 = if a < i { a } else { a + 1 };
            let b0 = if b < i { b } else { b + 1 };
            assert(rest[a] == held[a0]);
            assert(rest[b] == held[b0]);
        }
    }
}

/// Releasing a key that is not held changes nothing.
pub proof fn lemma_release_of_absent_key(held: Seq<Key>, key: Key)
    requires
        !held.contains(key),
    ensures
        released(held, key) == held,
{
    held.index_of_first_ensures(key);
}

/// Releasing a key twice is releasing it once, where no key is listed
/// twice.
pub proof fn lemma_release_twice(held: Seq<Key>, key: Key)
    requires
        held.no_duplicates(),
    ensures
        !released(held, key).contains(key),
        released(released(held, key), key) == released(held, key),
{
    held.index_of_first_ensures(key);
    let rest = released(held, key);
    if held.contains(key) {
        let i = held.index_of_first(key).unwrap();
        assert forall|j: int| 0 <= j < rest.len() implies rest[j] != key by {
            let j0 = if j < i { j } else { j + 1 };
            assert(rest[j] == held[j0]);
        }
    }
    lemma_release_of_absent_key(rest, key);
}

/// Pressing a key that is already held changes nothing: after two presses
/// in a row the key is listed exactly once, as after one.
pub proof fn lemma_press_twice(held: Seq<Key>, key: Key)
    requires
        held.no_duplicates(),
    ensures
        pressed(pressed(held, key), key) == pressed(held, key),
        pressed(held, key).no_duplicates(),
        pressed(held, key).to_multiset().count(key) == 1,
{
    let once = pressed(held, key);
    if !held.contains(key) {
        assert(once[held.len() as int] == key);
    }
    assert(once.contains(key));
    once.lemma_multiset_has_no_duplicates();
    vstd::seq_lib::to_multiset_contains(once, key);
}

/// A key is held after it was pressed, and no longer once it is released.
pub proof fn lemma_press_then_release(held: Seq<Key>, key: Key)
    requires
        held.no_duplicates(),
    ensures
        pressed(held, key).contains(key),
        !released(pressed(held, key), key).contains(key),
        !held.contains(key) ==> released(pressed(held, key), key) == held,
{
    let once = pressed(held, key);
    if !held.contains(key) {
        assert(once[held.len() as int] == key);
        once.index_of_first_ensures(key);
        let i = once.index_of_first(key).unwrap();
        assert(i == held.len()) by {
            if i < held.len() {
                assert(held[i] == key);
            }
        }
        assert(once.remove(i) =~= held);
    }
    lemma_release_twice(once, key);
}

/// The keys that are held, in the order in which they went down.
#[derive(Debug)]
pub struct PressedKeys {
    pub keys: Vec<Key>,
}

impl View for PressedKeys {
    type V = Seq<Key>;

    open spec fn view(&self) -> Seq<Key> {
        self.keys@
    }
}

impl PressedKeys {
    /// No key is listed twice.
    pub open spec fn wf(&self) -> bool {
        self@.no_duplicates()
    }

    /// No key is held.
    pub fn new() -> (r: PressedKeys)
        ensures
            r@ == Seq::<Key>::empty(),
            r.wf(),
    {
        PressedKeys { keys: Vec::new() }
    }

    /// Number of held keys.
    pub fn len(&self) -> (r: usize)
        ensures
            r == self@.len(),
    {
        self.keys.len()
    }

    /// Place of the first occurrence of `key`, if it is held.
    pub fn position(&self, key: Key) -> (r: Option<usize>)
        ensures
            match r {
                Some(i) => i < self@.len() && self@[i as int] == key && self@.index_of_first(key)
                    == Some(i as int),
                None => self@.index_of_first(key) == None::<int>,
            },
            r.is_some() == self@.contains(key),
    {
        let mut i: usize = 0;
        while i < self.keys.len()
            invariant
                i <= self.keys.len(),
                forall|j: int| 0 <= j < i ==> self.keys@[j] != key,
            decreases self.keys.len() - i,
        {
            if self.keys[i] == key {
                proof {
                    self@.index_of_first_ensures(key);
                }
                return Some(i);
            }
            i += 1;
        }
        proof {
            self@.index_of_first_ensures(key);
        }
        None
    }

    /// Whether no key is listed twice.
    pub fn is_distinct(&self) -> (r: bool)
        ensures
            r == self.wf(),
    {
        let mut i: usize = 0;
        while i < self.keys.len()
            invariant
                i <= self.keys.len(),
                forall|a: int, b: int| 0 <= a < b < i ==> self.keys@[a] != self.keys@[b],
            decreases self.keys.len() - i,
        {
            let mut j: usize = 0;
            while j < i
                invariant
                    j <= i < self.keys.len(),
                    forall|a: int| 0 <= a < j ==> self.keys@[a] != self.keys@[i as int],
                decreases i - j,
            {
                if self.keys[j] == self.keys[i] {
                    return false;
                }
                j += 1;
            }
            i += 1;
        }
        true
    }

    /// Whether `key` is held.
    pub fn contains(&self, key: Key) -> (r: bool)
        ensures
            r == self@.contains(key),
    {
        self.position(key).is_some()
    }

    /// Records that `key` went down.
    pub fn press(&mut self, key: Key)
        ensures
            final(self)@ == pressed(old(self)@, key),
            old(self).wf() ==> final(self).wf(),
    {
        if !self.contains(key) {
            self.keys.push(key);
        }
    }

    /// Records that `key` came up.
    pub fn release(&mut self, key: Key)
        ensures
            final(self)@ == released(old(self)@, key),
            old(self).wf() ==> final(self).wf(),
    {
        match self.position(key) {
            Some(i) => {
                self.keys.remove(i);
                proof {
                    lemma_remove_keeps_distinct(old(self)@, i as int);
                }
            },
            None => {},
        }
    }

    /// Applies one keyboard event.
    pub fn apply(&mut self, input: KeyboardInput)
        ensures
            final(self)@ == after_input(old(self)@, input),
            old(self).wf() ==> final(self).wf(),
    {
        match input.virtual_keycode {
            Some(key) => match input.state {
                ElementState::Pressed => self.press(key),
                ElementState::Released => self.release(key),
            },
            None => {},
        }
    }
}

} // verus!
