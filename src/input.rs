//! Frame-synchronised keyboard state.
//!
//! Raw press/release edges arrive at any time during a frame and are staged
//! in two queues; `update`, called once per frame, decays the one-frame edge
//! states and then drains the queues (released first, pressed last). A
//! release withdraws a press of the same key staged in the same frame, so
//! every release is observed as `Released`.
use std::collections::HashMap;
use vstd::prelude::*;
use vstd::std_specs::hash::*;
use vstd::std_specs::iter::IteratorSpec;

verus! {

broadcast use {group_hash_axioms, vstd::seq_lib::group_seq_properties};

/// A platform-independent key identifier.
pub type Key = u32;

/// The four observable phases of a key, advanced once per frame.
#[derive(Debug, Clone, Copy, PartialEq, Eq, Structural)]
pub enum ButtonState {
    Up,
    Pressed,
    Held,
    Released,
}

/// The direction of a raw key edge delivered by the windowing layer.
#[derive(Debug, Clone, Copy, PartialEq, Eq, Structural)]
pub enum ElementState {
    Pressed,
    Released,
}

/// The state a key decays to at the start of a frame.
pub open spec fn decayed(s: ButtonState) -> ButtonState {
    match s {
        ButtonState::Pressed => ButtonState::Held,
        ButtonState::Released => ButtonState::Up,
        other => other,
    }
}

/// The stored state of `k`, `Up` when the key was never seen.
pub open spec fn state_in(states: Map<Key, ButtonState>, k: Key) -> ButtonState {
    if states.contains_key(k) {
        states[k]
    } else {
        ButtonState::Up
    }
}

/// `s` with every occurrence of `k` removed, the rest in order.
pub open spec fn without(s: Seq<Key>, k: Key) -> Seq<Key>
    decreases s.len(),
{
    if s.len() == 0 {
        s
    } else if s.last() == k {
        without(s.drop_last(), k)
    } else {
        without(s.drop_last(), k).push(s.last())
    }
}

/// A key is left in `without(s, k)` exactly when it was in `s` and is not `k`.
pub proof fn lemma_without_contains(s: Seq<Key>, k: Key, x: Key)
    ensures
        without(s, k).contains(x) <==> (s.contains(x) && x != k),
    decreases s.len(),
{
    if s.len() > 0 {
        let d = s.drop_last();
        lemma_without_contains(d, k, x);
        assert(s =~= d.push(s.last()));
        if s.contains(x) && x != s.last() {
            let i = choose|i: int| 0 <= i < s.len() && s[i] == x;
            assert(d[i] == x);
        }
        if s.last() != k {
            let w = without(d, k);
            if w.push(s.last()).contains(x) && x != s.last() {
                let i = choose|i: int| 0 <= i < w.push(s.last()).len() && w.push(s.last())[i] == x;
                assert(w[i] == x);
            }
            if x == s.last() {
                assert(w.push(s.last())[w.len() as int] == x);
            }
        }
        if d.contains(x) {
            let i = choose|i: int| 0 <= i < d.len() && d[i] == x;
            assert(s[i] == x);
        }
    }
}

/// Mathematical model of an [`InputManager`].
pub struct InputModel {
    pub states: Map<Key, ButtonState>,
    pub just_pressed: Seq<Key>,
    pub just_released: Seq<Key>,
}

impl InputModel {
    /// A manager that has seen no event.
    pub open spec fn fresh() -> InputModel {
        InputModel { states: Map::empty(), just_pressed: Seq::empty(), just_released: Seq::empty() }
    }

    pub open spec fn state(self, k: Key) -> ButtonState {
        state_in(self.states, k)
    }

    /// The key map after the decay pass and the two queue drains.
    pub open spec fn updated_states(self) -> Map<Key, ButtonState> {
        Map::new(
            |k: Key|
                self.states.contains_key(k) || self.just_released.contains(k)
                    || self.just_pressed.contains(k),
            |k: Key|
                if self.just_pressed.contains(k) {
                    ButtonState::Pressed
                } else if self.just_released.contains(k) {
                    ButtonState::Released
                } else {
                    decayed(self.states[k])
                },
        )
    }

    /// The model after one call of `update`.
    pub open spec fn after_update(self) -> InputModel {
        InputModel {
            states: self.updated_states(),
            just_pressed: Seq::empty(),
            just_released: Seq::empty(),
        }
    }

    /// The model after one raw edge of key `k`.
    pub open spec fn after_edge(self, k: Key, edge: ElementState) -> InputModel {
        match edge {
            ElementState::Pressed => {
                if self.state(k) == ButtonState::Held || self.state(k) == ButtonState::Pressed {
                    self
                } else {
                    InputModel { just_pressed: self.just_pressed.push(k), ..self }
                }
            },
            ElementState::Released => InputModel {
                just_pressed: without(self.just_pressed, k),
                just_released: self.just_released.push(k),
                ..self
            },
        }
    }
}

/// On a fresh manager, a press followed by two frame updates moves the key
/// through `Up`, `Pressed` and `Held`, and it stays `Held` afterwards.
pub proof fn lemma_press_then_updates(k: Key)
    ensures
        InputModel::fresh().state(k) == ButtonState::Up,
        InputModel::fresh().after_edge(k, ElementState::Pressed).state(k) == ButtonState::Up,
        InputModel::fresh().after_edge(k, ElementState::Pressed).after_update().state(k)
            == ButtonState::Pressed,
        InputModel::fresh().after_edge(k, ElementState::Pressed).after_update().after_update().state(
            k,
        ) == ButtonState::Held,
        InputModel::fresh().after_edge(
            k,
            ElementState::Pressed,
        ).after_update().after_update().after_update().state(k) == ButtonState::Held,
{
    let m1 = InputModel::fresh().after_edge(k, ElementState::Pressed);
    assert(m1.just_pressed.contains(k)) by {
        assert(m1.just_pressed[0] == k);
    }
}

/// A release withdraws any press of the same key queued in the same frame,
/// so after `update` the key is `Released`, whatever came before it.
pub proof fn lemma_release_observed(m: InputModel, k: Key)
    ensures
        m.after_edge(k, ElementState::Released).after_update().state(k) == ButtonState::Released,
{
    let m1 = m.after_edge(k, ElementState::Released);
    assert(m1.just_released[m1.just_released.len() - 1] == k);
    lemma_without_contains(m.just_pressed, k, k);
}

/// A press followed by a release of the same key within one frame leaves
/// the key `Released` after `update`.
pub proof fn lemma_press_release_same_frame(m: InputModel, k: Key)
    ensures
        m.after_edge(k, ElementState::Pressed).after_edge(k, ElementState::Released).after_update().state(
            k,
        ) == ButtonState::Released,
{
    lemma_release_observed(m.after_edge(k, ElementState::Pressed), k);
}

/// A press of a key that is already `Held` changes nothing, so no repeat of
/// the press can queue a second `Pressed` observation.
pub proof fn lemma_press_while_held_ignored(m: InputModel, k: Key, n: nat)
    requires
        m.state(k) == ButtonState::Held,
    ensures
        m.after_edge(k, ElementState::Pressed) == m,
        repeated_presses(m, k, n) == m,
    decreases n,
{
    if n > 0 {
        lemma_press_while_held_ignored(m, k, (n - 1) as nat);
    }
}

/// `Pressed` and `Released` are visible for one frame only: after an update
/// that drains empty queues, every key is `Up` or `Held`, and both queues
/// are empty after any update.
pub proof fn lemma_edge_states_last_one_frame(m: InputModel, k: Key)
    ensures
        m.after_update().just_pressed.len() == 0,
        m.after_update().just_released.len() == 0,
        m.after_update().after_update().state(k) == ButtonState::Up
            || m.after_update().after_update().state(k) == ButtonState::Held,
{
}

/// The model after `n` press edges of `k`.
pub open spec fn repeated_presses(m: InputModel, k: Key, n: nat) -> InputModel
    decreases n,
{
    if n == 0 {
        m
    } else {
        repeated_presses(m, k, (n - 1) as nat).after_edge(k, ElementState::Pressed)
    }
}

/// Per-key button states plus the edges staged since the last `update`.
pub struct InputManager {
    key_states: HashMap<Key, ButtonState>,
    just_released: Vec<Key>,
    just_pressed: Vec<Key>,
}

impl View for InputManager {
    type V = InputModel;

    closed spec fn view(&self) -> InputModel {
        InputModel {
            states: self.key_states@,
            just_pressed: self.just_pressed@,
            just_released: self.just_released@,
        }
    }
}

impl Default for InputManager {
    fn default() -> (r: InputManager)
        ensures
            r@ == InputModel::fresh(),
    {
        InputManager::new()
    }
}

impl InputManager {
    /// A manager in which every key is `Up` and nothing is queued.
    pub fn new() -> (r: InputManager)
        ensures
            r@ == InputModel::fresh(),
    {
        let r = InputManager {
            key_states: HashMap::new(),
            just_released: Vec::new(),
            just_pressed: Vec::new(),
        };
        assert(r@.just_pressed =~= Seq::<Key>::empty());
        assert(r@.just_released =~= Seq::<Key>::empty());
        r
    }

    /// Advances every key by one frame: `Pressed` decays to `Held` and
    /// `Released` to `Up`, then each queued release and, after them, each
    /// queued press is applied; both queues end empty.
    pub fn update(&mut self)
        ensures
            final(self)@ == old(self)@.after_update(),
    {
        let ghost m0 = self@;
        let mut keys: Vec<Key> = Vec::new();
        let ghost all = spec_keys_iter(&self.key_states).remaining().unref();
        for k in it: self.key_states.keys()
            invariant
                self@ == m0,
                all == spec_keys_iter(&self.key_states).remaining().unref(),
                it.seq().unref() == all,
                keys@ == all.subrange(0, it.index()),
        {
            keys.push(*k);
            assert(all.subrange(0, it.index() + 1) =~= all.subrange(0, it.index()).push(*k));
        }
        assert(keys@ =~= all);
        assert(keys@.to_set() == m0.states.dom());
        let mut i: usize = 0;
        while i < keys.len()
            invariant
                0 <= i <= keys@.len(),
                keys@.to_set() == m0.states.dom(),
                self@.just_pressed == m0.just_pressed,
                self@.just_released == m0.just_released,
                self@.states.dom() == m0.states.dom(),
                forall|k: Key|
                    #[trigger] self@.states.contains_key(k) ==> self@.states[k] == if keys@.subrange(
                        0,
                        i as int,
                    ).contains(k) {
                        decayed(m0.states[k])
                    } else {
                        m0.states[k]
                    },
            decreases keys@.len() - i,
        {
            let k = keys[i];
            let s = match self.key_states.get(&k) {
                Some(s) => *s,
                None => ButtonState::Up,
            };
            let next = match s {
                ButtonState::Pressed => ButtonState::Held,
                ButtonState::Released => ButtonState::Up,
                other => other,
            };
            self.key_states.insert(k, next);
            i = i + 1;
        }
        assert(keys@.subrange(0, keys@.len() as int) == keys@);
        let mut j: usize = 0;
        while j < self.just_released.len()
            invariant
                0 <= j <= self@.just_released.len(),
                self@.just_pressed == m0.just_pressed,
                self@.just_released == m0.just_released,
                forall|k: Key|
                    #[trigger] self@.states.contains_key(k) <==> m0.states.contains_key(k)
                        || m0.just_released.subrange(0, j as int).contains(k),
                forall|k: Key|
                    #[trigger] self@.states.contains_key(k) ==> self@.states[k] == if m0.just_released.subrange(
                        0,
                        j as int,
                    ).contains(k) {
                        ButtonState::Released
                    } else {
                        decayed(m0.states[k])
                    },
            decreases m0.just_released.len() - j,
        {
            let k = self.just_released[j];
            let ghost before = self@.states;
            self.key_states.insert(k, ButtonState::Released);
            assert(self@.states == before.insert(k, ButtonState::Released));
            assert(m0.just_released.subrange(0, j + 1) =~= m0.just_released.subrange(
                0,
                j as int,
            ).push(k));
            j = j + 1;
        }
        assert(m0.just_released.subrange(0, m0.just_released.len() as int) =~= m0.just_released);
        let ghost drained = self@.states;
        self.just_released.clear();
        assert(self@.states == drained);
        let mut j: usize = 0;
        while j < self.just_pressed.len()
            invariant
                0 <= j <= self@.just_pressed.len(),
                self@.just_pressed == m0.just_pressed,
                self@.just_released == Seq::<Key>::empty(),
                forall|k: Key|
                    #[trigger] self@.states.contains_key(k) <==> m0.states.contains_key(k)
                        || m0.just_released.contains(k) || m0.just_pressed.subrange(
                        0,
                        j as int,
                    ).contains(k),
                forall|k: Key|
                    #[trigger] self@.states.contains_key(k) ==> self@.states[k] == if m0.just_pressed.subrange(
                        0,
                        j as int,
                    ).contains(k) {
                        ButtonState::Pressed
                    } else if m0.just_released.contains(k) {
                        ButtonState::Released
                    } else {
                        decayed(m0.states[k])
                    },
            decreases m0.just_pressed.len() - j,
        {
            let k = self.just_pressed[j];
            let ghost before = self@.states;
            self.key_states.insert(k, ButtonState::Pressed);
            assert(self@.states == before.insert(k, ButtonState::Pressed));
            assert(m0.just_pressed.subrange(0, j + 1) =~= m0.just_pressed.subrange(
                0,
                j as int,
            ).push(k));
            j = j + 1;
        }
        assert(m0.just_pressed.subrange(0, m0.just_pressed.len() as int) =~= m0.just_pressed);
        let ghost drained = self@.states;
        self.just_pressed.clear();
        assert(self@.states == drained);
        assert(self@.states =~= m0.updated_states());
        assert(self@.just_pressed =~= Seq::<Key>::empty());
    }

    /// Records a raw edge. A press of a key that is already `Held` or
    /// `Pressed` is ignored; every release is queued and withdraws any press
    /// of the same key queued since the last `update`.
    pub fn handle_key(&mut self, key: Key, state: ElementState)
        ensures
            final(self)@ == old(self)@.after_edge(key, state),
    {
        match state {
            ElementState::Pressed => {
                let s = self.get_state(key);
                match s {
                    ButtonState::Held | ButtonState::Pressed => {},
                    _ => self.just_pressed.push(key),
                }
            },
            ElementState::Released => {
                let mut kept: Vec<Key> = Vec::new();
                let mut i: usize = 0;
                while i < self.just_pressed.len()
                    invariant
                        0 <= i <= self.just_pressed@.len(),
                        self@ == old(self)@,
                        kept@ == without(self.just_pressed@.subrange(0, i as int), key),
                    decreases self.just_pressed@.len() - i,
                {
                    let k = self.just_pressed[i];
                    assert(self.just_pressed@.subrange(0, i + 1).drop_last()
                        =~= self.just_pressed@.subrange(0, i as int));
                    if k != key {
                        kept.push(k);
                    }
                    i = i + 1;
                }
                assert(self.just_pressed@.subrange(0, i as int) =~= self.just_pressed@);
                self.just_pressed = kept;
                self.just_released.push(key);
            },
        }
    }

    /// The stored state of `key`, `Up` for a key never seen.
    pub fn get_state(&self, key: Key) -> (r: ButtonState)
        ensures
            r == self@.state(key),
    {
        match self.key_states.get(&key) {
            Some(s) => *s,
            None => ButtonState::Up,
        }
    }

    pub fn is_pressed(&self, key: Key) -> (r: bool)
        ensures
            r == (self@.state(key) == ButtonState::Pressed),
    {
        self.get_state(key) == ButtonState::Pressed
    }

    pub fn is_held(&self, key: Key) -> (r: bool)
        ensures
            r == (self@.state(key) == ButtonState::Held),
    {
        self.get_state(key) == ButtonState::Held
    }

    pub fn is_released(&self, key: Key) -> (r: bool)
        ensures
            r == (self@.state(key) == ButtonState::Released),
    {
        self.get_state(key) == ButtonState::Released
    }

    pub fn is_up(&self, key: Key) -> (r: bool)
        ensures
            r == (self@.state(key) == ButtonState::Up),
    {
        self.get_state(key) == ButtonState::Up
    }
}

} // verus!
