use vstd::prelude::*;
use crate::msg::{Key, Movement, KEY_UP, KEY_DOWN, KEY_LEFT, KEY_RIGHT};

verus! {

/// The table that maps raw keys to movements, one key per movement at most and
/// one movement per key at most. Each slot holds the key bound to one movement.
#[derive(Clone, Copy, Debug)]
pub struct KeyBindings {
    pub up: Option<Key>,
    pub down: Option<Key>,
    pub left: Option<Key>,
    pub right: Option<Key>,
}

/// Two slots do not hold the same key.
pub open spec fn apart(a: Option<Key>, b: Option<Key>) -> bool {
    a is None || a != b
}

/// The arrow keys, each bound to its own direction.
pub open spec fn default_bindings() -> KeyBindings {
    KeyBindings {
        up: Some(Key(KEY_UP)),
        down: Some(Key(KEY_DOWN)),
        left: Some(Key(KEY_LEFT)),
        right: Some(Key(KEY_RIGHT)),
    }
}

/// The table after binding `k` to `m`: the slot of `m` holds `k`, and any other
/// slot that held `k` is emptied.
pub open spec fn remapped(b: KeyBindings, m: Movement, k: Key) -> KeyBindings {
    let clear = |o: Option<Key>| if o == Some(k) { None } else { o };
    KeyBindings {
        up: if m == Movement::Up { Some(k) } else { clear(b.up) },
        down: if m == Movement::Down { Some(k) } else { clear(b.down) },
        left: if m == Movement::Left { Some(k) } else { clear(b.left) },
        right: if m == Movement::Right { Some(k) } else { clear(b.right) },
    }
}

/// One for a slot that holds a key.
pub open spec fn filled(o: Option<Key>) -> int {
    if o is Some {
        1
    } else {
        0
    }
}

/// How many keys the table binds.
pub open spec fn bound_count(b: KeyBindings) -> int {
    filled(b.up) + filled(b.down) + filled(b.left) + filled(b.right)
}

/// One for a binding of movement `mv` that binding `k` to `m` takes away: the
/// one of `m` itself, or one that held `k`.
pub open spec fn lost(b: KeyBindings, mv: Movement, m: Movement, k: Key) -> int {
    if b.key_of(mv) is Some && (mv == m || b.key_of(mv) == Some(k)) {
        1
    } else {
        0
    }
}

/// How many bindings binding `k` to `m` takes away.
pub open spec fn lost_count(b: KeyBindings, m: Movement, k: Key) -> int {
    lost(b, Movement::Up, m, k) + lost(b, Movement::Down, m, k) + lost(b, Movement::Left, m, k) + lost(
        b,
        Movement::Right,
        m,
        k,
    )
}

/// After binding `k` to `m`, the table maps `k` to `m` and no other key to `m`;
/// every other key keeps its movement unless that movement was `m`, and no key
/// that the table did not hold appears but `k`.
pub proof fn remap_binds_one_to_one(b: KeyBindings, m: Movement, k: Key)
    requires
        b.wf(),
    ensures
        remapped(b, m, k).wf(),
        bound_count(remapped(b, m, k)) == bound_count(b) + 1 - lost_count(b, m, k),
        remapped(b, m, k).view().contains_key(k),
        remapped(b, m, k).view()[k] == m,
        forall|k2: Key| #[trigger] remapped(b, m, k).view().contains_key(k2) && remapped(b, m, k).view()[k2] == m ==> k2 == k,
        forall|k2: Key|
            k2 != k && b.view().contains_key(k2) && b.view()[k2] != m ==> #[trigger] remapped(b, m, k).view().contains_key(k2)
                && remapped(b, m, k).view()[k2] == b.view()[k2],
        forall|k2: Key|
            k2 != k && #[trigger] remapped(b, m, k).view().contains_key(k2) ==> b.view().contains_key(k2)
                && b.view()[k2] == remapped(b, m, k).view()[k2] && b.view()[k2] != m,
{
}

impl KeyBindings {
    /// The key bound to movement `m`, if any.
    pub open spec fn key_of(&self, m: Movement) -> Option<Key> {
        match m {
            Movement::Up => self.up,
            Movement::Down => self.down,
            Movement::Left => self.left,
            Movement::Right => self.right,
        }
    }

    /// The movement bound to key `k`, if any.
    pub open spec fn movement_of(&self, k: Key) -> Option<Movement> {
        if self.up == Some(k) {
            Some(Movement::Up)
        } else if self.down == Some(k) {
            Some(Movement::Down)
        } else if self.left == Some(k) {
            Some(Movement::Left)
        } else if self.right == Some(k) {
            Some(Movement::Right)
        } else {
            None
        }
    }

    /// The table as a map from key to movement.
    pub open spec fn view(&self) -> Map<Key, Movement> {
        Map::new(|k: Key| self.movement_of(k) is Some, |k: Key| self.movement_of(k)->Some_0)
    }

    /// No key is bound to two movements.
    pub open spec fn wf(&self) -> bool {
        &&& apart(self.up, self.down)
        &&& apart(self.up, self.left)
        &&& apart(self.up, self.right)
        &&& apart(self.down, self.left)
        &&& apart(self.down, self.right)
        &&& apart(self.left, self.right)
    }

    /// The arrow keys, each bound to its own direction.
    pub fn new() -> (r: KeyBindings)
        ensures
            r.wf(),
            r == default_bindings(),
            r.key_of(Movement::Up) == Some(Key(KEY_UP)),
            r.key_of(Movement::Down) == Some(Key(KEY_DOWN)),
            r.key_of(Movement::Left) == Some(Key(KEY_LEFT)),
            r.key_of(Movement::Right) == Some(Key(KEY_RIGHT)),
    {
        KeyBindings {
            up: Some(Key(KEY_UP)),
            down: Some(Key(KEY_DOWN)),
            left: Some(Key(KEY_LEFT)),
            right: Some(Key(KEY_RIGHT)),
        }
    }

    /// The movement bound to key `k`.
    pub fn get(&self, k: Key) -> (r: Option<Movement>)
        ensures
            r == self.movement_of(k),
    {
        if self.up == Some(k) {
            Some(Movement::Up)
        } else if self.down == Some(k) {
            Some(Movement::Down)
        } else if self.left == Some(k) {
            Some(Movement::Left)
        } else if self.right == Some(k) {
            Some(Movement::Right)
        } else {
            None
        }
    }

    /// The key bound to movement `m`.
    pub fn key_for(&self, m: Movement) -> (r: Option<Key>)
        ensures
            r == self.key_of(m),
    {
        match m {
            Movement::Up => self.up,
            Movement::Down => self.down,
            Movement::Left => self.left,
            Movement::Right => self.right,
        }
    }

    /// Binds `k` to `m`: the key that `m` had and the movement that `k` had lose
    /// their binding; every other binding stays.
    pub fn remap(&mut self, m: Movement, k: Key)
        requires
            old(self).wf(),
        ensures
            final(self).wf(),
            *final(self) == remapped(*old(self), m, k),
            final(self).key_of(m) == Some(k),
            forall|m2: Movement|
                m2 != m ==> #[trigger] final(self).key_of(m2) == if old(self).key_of(m2) == Some(k) {
                    None
                } else {
                    old(self).key_of(m2)
                },
    {
        if self.up == Some(k) {
            self.up = None;
        }
        if self.down == Some(k) {
            self.down = None;
        }
        if self.left == Some(k) {
            self.left = None;
        }
        if self.right == Some(k) {
            self.right = None;
        }
        match m {
            Movement::Up => self.up = Some(k),
            Movement::Down => self.down = Some(k),
            Movement::Left => self.left = Some(k),
            Movement::Right => self.right = Some(k),
        }
    }
}

} // verus!
