//! The configuration: where each key clicks, and how much room the window
//! decorations take.

use vstd::prelude::*;

verus! {

/// A fraction `num / den` between 0 and 1: one coordinate of a normalized
/// click position.
#[derive(Clone, Copy, Debug, PartialEq, Eq, Structural)]
pub struct Frac {
    pub num: u64,
    pub den: u64,
}

impl Frac {
    /// A well-formed fraction has a positive denominator and lies in `0..=1`.
    pub open spec fn wf(self) -> bool {
        0 < self.den && self.num <= self.den
    }
}

/// A click position in normalized coordinates: `(0, 0)` is the top left corner
/// of the content area and `(1, 1)` its bottom right corner.
#[derive(Clone, Copy, Debug, PartialEq, Eq, Structural)]
pub struct NormPoint {
    pub x: Frac,
    pub y: Frac,
}

impl NormPoint {
    pub open spec fn wf(self) -> bool {
        self.x.wf() && self.y.wf()
    }
}

/// One entry of the keybind table: a key identity and where it clicks.
#[derive(Clone, Copy, Debug, PartialEq, Eq, Structural)]
pub struct Keybind {
    pub key: u8,
    pub at: NormPoint,
}

/// Pixels taken by window decorations on each side, present only while the
/// window does not cover the whole screen.
#[derive(Clone, Copy, Debug, PartialEq, Eq, Structural)]
pub struct ChromeSize {
    pub top: u32,
    pub bottom: u32,
    pub left: u32,
    pub right: u32,
}

/// What the event loop needs to know: the keybind table and the decoration
/// insets.
#[derive(Debug)]
pub struct Config {
    pub keybinds: Vec<Keybind>,
    pub chrome_size: ChromeSize,
}

impl Config {
    /// Every position is well formed and no key is bound twice.
    pub open spec fn wf(&self) -> bool {
        &&& forall|i: int| 0 <= i < self.keybinds@.len() ==> (#[trigger] self.keybinds@[i]).at.wf()
        &&& forall|i: int, j: int|
            0 <= i < self.keybinds@.len() && 0 <= j < self.keybinds@.len()
                && #[trigger] self.keybinds@[i].key == #[trigger] self.keybinds@[j].key ==> i == j
    }

    /// Whether `key` has an entry in the keybind table.
    pub open spec fn is_bound(&self, key: u8) -> bool {
        exists|i: int| 0 <= i < self.keybinds@.len() && #[trigger] self.keybinds@[i].key == key
    }

    /// The keybind table as a map from key identity to position.
    pub open spec fn bindings(&self) -> Map<u8, NormPoint> {
        Map::new(
            |k: u8| self.is_bound(k),
            |k: u8|
                self.keybinds@[choose|i: int|
                    0 <= i < self.keybinds@.len() && #[trigger] self.keybinds@[i].key == k].at,
        )
    }

    /// Looks up where `key` clicks.
    pub fn binding(&self, key: u8) -> (r: Option<NormPoint>)
        requires
            self.wf(),
        ensures
            r is None <==> !self.bindings().contains_key(key),
            r matches Some(p) ==> p == self.bindings()[key] && p.wf(),
    {
        let mut i: usize = 0;
        while i < self.keybinds.len()
            invariant
                0 <= i <= self.keybinds@.len(),
                self.wf(),
                forall|j: int| 0 <= j < i ==> #[trigger] self.keybinds@[j].key != key,
            decreases self.keybinds@.len() - i,
        {
            if self.keybinds[i].key == key {
                assert(self.keybinds@[i as int].key == key);
                let ghost j = choose|j: int|
                    0 <= j < self.keybinds@.len() && #[trigger] self.keybinds@[j].key == key;
                assert(j == i);
                return Some(self.keybinds[i].at);
            }
            i = i + 1;
        }
        None
    }
}

} // verus!
