//! Finding the target window by a part of its title.

use vstd::prelude::*;

verus! {

/// One window of the hierarchy: its handle, its title where it has one, and
/// its direct children as indices into the tree, in the order the windowing
/// system reports them.
#[derive(Debug)]
pub struct WindowEntry {
    pub id: u64,
    pub title: Option<String>,
    pub children: Vec<usize>,
}

/// The window hierarchy of every screen. `screens[s]` is the index of the root
/// window of screen `s`.
#[derive(Debug)]
pub struct WindowTree {
    pub windows: Vec<WindowEntry>,
    pub screens: Vec<usize>,
}

/// Whether `pat` occurs in `s` as a contiguous part.
pub open spec fn is_substring(pat: Seq<char>, s: Seq<char>) -> bool {
    exists|i: int| 0 <= i && i + pat.len() <= s.len() && #[trigger] s.subrange(i, i + pat.len()) == pat
}

/// Relies on `str::contains` with a string pattern: true exactly where the
/// pattern occurs in the string.
#[verifier::external_body]
fn str_contains(s: &str, pat: &str) -> (r: bool)
    ensures
        r == is_substring(pat@, s@),
{
    s.contains(pat)
}

impl WindowTree {
    /// Every child comes after its parent, and every index is in range; so the
    /// hierarchy has no cycles.
    pub open spec fn wf(&self) -> bool {
        &&& forall|s: int| 0 <= s < self.screens@.len() ==> #[trigger] self.screens@[s] < self.windows@.len()
        &&& forall|i: int, k: int|
            0 <= i < self.windows@.len() && 0 <= k < self.windows@[i].children@.len() ==>
                i < #[trigger] self.windows@[i].children@[k] < self.windows@.len()
    }

    pub open spec fn n_children(&self, i: int) -> int {
        if 0 <= i < self.windows@.len() { self.windows@[i].children@.len() as int } else { 0 }
    }

    /// Whether window `i` has a title that contains `name`.
    pub open spec fn title_matches(&self, name: Seq<char>, i: int) -> bool {
        self.windows@[i].title matches Some(t) && is_substring(name, t@)
    }

    /// The first match among the descendants of window `i`: each child is
    /// tested before its own descendants, and those before its next sibling.
    pub open spec fn search_under(&self, name: Seq<char>, i: int) -> Option<usize>
        decreases self.windows@.len() - i, self.n_children(i) + 1,
    {
        if 0 <= i < self.windows@.len() {
            self.search_children(name, i, 0)
        } else {
            None
        }
    }

    /// The first match among the children of window `i` from the `k`-th on,
    /// and their descendants.
    pub open spec fn search_children(&self, name: Seq<char>, i: int, k: int) -> Option<usize>
        decreases self.windows@.len() - i, self.n_children(i) - k,
    {
        if 0 <= i < self.windows@.len() && 0 <= k < self.n_children(i) {
            let c = self.windows@[i].children@[k];
            if self.title_matches(name, c as int) {
                Some(c)
            } else if i < c < self.windows@.len() && self.search_under(name, c as int) is Some {
                self.search_under(name, c as int)
            } else {
                self.search_children(name, i, k + 1)
            }
        } else {
            None
        }
    }

    /// The first match on the screens from the `s`-th on, screen by screen.
    pub open spec fn search_screens(&self, name: Seq<char>, s: int) -> Option<usize>
        decreases self.screens@.len() - s,
    {
        if 0 <= s < self.screens@.len() {
            match self.search_under(name, self.screens@[s] as int) {
                Some(w) => Some(w),
                None => self.search_screens(name, s + 1),
            }
        } else {
            None
        }
    }

    /// Whether window `i` has a title and it contains `name`.
    pub fn check_window_name(&self, name: &str, i: usize) -> (r: bool)
        requires
            i < self.windows@.len(),
        ensures
            r == self.title_matches(name@, i as int),
    {
        match &self.windows[i].title {
            Some(t) => str_contains(t.as_str(), name),
            None => false,
        }
    }

    /// Searches the descendants of window `i` for one whose title contains
    /// `name`, and returns its index.
    pub fn find_window_by_name(&self, name: &str, i: usize) -> (r: Option<usize>)
        requires
            self.wf(),
            i < self.windows@.len(),
        ensures
            r == self.search_under(name@, i as int),
            r matches Some(w) ==> w < self.windows@.len(),
        decreases self.windows@.len() - i,
    {
        let n = self.windows[i].children.len();
        let mut k: usize = 0;
        while k < n
            invariant
                self.wf(),
                i < self.windows@.len(),
                n == self.n_children(i as int),
                0 <= k <= n,
                self.search_under(name@, i as int) == self.search_children(name@, i as int, k as int),
            decreases n - k,
        {
            let c = self.windows[i].children[k];
            assert(i < c < self.windows@.len());
            if self.check_window_name(name, c) {
                return Some(c);
            }
            match self.find_window_by_name(name, c) {
                Some(w) => {
                    return Some(w);
                },
                None => {},
            }
            k = k + 1;
        }
        None
    }

    /// Looks for a window whose title contains `name`, screen by screen in
    /// order, and returns its handle; `None` where no window on any screen
    /// matches.
    pub fn locate_window(&self, name: &str) -> (r: Option<u64>)
        requires
            self.wf(),
        ensures
            r == (match self.search_screens(name@, 0) {
                Some(w) => Some(self.windows@[w as int].id),
                None => None,
            }),
    {
        let mut s: usize = 0;
        while s < self.screens.len()
            invariant
                self.wf(),
                0 <= s <= self.screens@.len(),
                self.search_screens(name@, 0) == self.search_screens(name@, s as int),
            decreases self.screens@.len() - s,
        {
            match self.find_window_by_name(name, self.screens[s]) {
                Some(w) => {
                    return Some(self.windows[w].id);
                },
                None => {},
            }
            s = s + 1;
        }
        None
    }
}

} // verus!
