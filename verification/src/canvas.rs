//! The canvas's stack of open pages: z-order is list order (the last page
//! is on top and has the focus), with the recently closed pages kept for
//! reopening. Every change marks the canvas dirty, so that whoever saves
//! it only has to look at one flag. A page is whatever the caller draws
//! (`P`); a closed page is remembered by its place on the canvas (`R`)
//! and its URL.

use vstd::prelude::*;
use crate::workspaces::{theme_index, theme_index_of};

verus! {

/// How many closed pages can be reopened, newest first.
pub const MAX_CLOSED: usize = 20;

pub struct PageStack<P, R> {
    pub pages: Vec<P>,
    /// Closed pages, the most recent last.
    pub closed: Vec<(R, String)>,
    pub dirty: bool,
}

/// The closed list after `entry` is added: at the end, the oldest dropped
/// when there are more than `MAX_CLOSED`.
pub open spec fn closed_after<R>(closed: Seq<(R, String)>, entry: (R, String)) -> Seq<(R, String)> {
    let c = closed.push(entry);
    if c.len() > MAX_CLOSED {
        c.drop_first()
    } else {
        c
    }
}

/// `pages` with the first page moved to the top.
pub open spec fn rotated_forward<P>(pages: Seq<P>) -> Seq<P> {
    if pages.len() == 0 {
        pages
    } else {
        pages.drop_first().push(pages[0])
    }
}

/// `pages` with the top page moved to the bottom.
pub open spec fn rotated_backward<P>(pages: Seq<P>) -> Seq<P> {
    if pages.len() == 0 {
        pages
    } else {
        seq![pages.last()] + pages.drop_last()
    }
}

/// `pages` with the page at `index` moved to the top.
pub open spec fn brought_to_front<P>(pages: Seq<P>, index: int) -> Seq<P> {
    pages.remove(index).push(pages[index])
}

impl<P, R> PageStack<P, R> {
    /// A clean canvas holding `pages`.
    pub fn new(pages: Vec<P>) -> (r: Self)
        ensures
            r.pages@ == pages@,
            r.closed@.len() == 0,
            !r.dirty,
    {
        PageStack { pages, closed: Vec::new(), dirty: false }
    }

    /// Whether anything changed since the last `clear_dirty`.
    pub fn is_dirty(&self) -> (r: bool)
        ensures
            r == self.dirty,
    {
        self.dirty
    }

    /// Marks the canvas saved.
    pub fn clear_dirty(&mut self)
        ensures
            final(self).pages@ == old(self).pages@,
            final(self).closed@ == old(self).closed@,
            !final(self).dirty,
    {
        self.dirty = false;
    }

    /// Marks a change the stack itself cannot see (a page moved or
    /// resized, the viewport or the theme changed).
    pub fn mark_dirty(&mut self)
        ensures
            final(self).pages@ == old(self).pages@,
            final(self).closed@ == old(self).closed@,
            final(self).dirty,
    {
        self.dirty = true;
    }

    /// Puts a new page on top.
    pub fn add_page(&mut self, page: P)
        ensures
            final(self).pages@ == old(self).pages@.push(page),
            final(self).closed@ == old(self).closed@,
            final(self).dirty,
    {
        self.pages.push(page);
        self.dirty = true;
    }

    /// Takes the top page off, if there is one; the caller closes it and
    /// remembers it with `remember_closed`.
    pub fn pop_topmost(&mut self) -> (r: Option<P>)
        ensures
            old(self).pages@.len() == 0 ==> r is None && final(self).pages@ == old(self).pages@
                && final(self).dirty == old(self).dirty,
            old(self).pages@.len() > 0 ==> r == Some(old(self).pages@.last())
                && final(self).pages@ == old(self).pages@.drop_last() && final(self).dirty,
            final(self).closed@ == old(self).closed@,
    {
        let r = self.pages.pop();
        if r.is_some() {
            self.dirty = true;
        }
        r
    }

    /// Remembers a closed page for reopening.
    pub fn remember_closed(&mut self, place: R, url: String)
        ensures
            final(self).closed@ == closed_after(old(self).closed@, (place, url)),
            final(self).pages@ == old(self).pages@,
            final(self).dirty == old(self).dirty,
    {
        self.closed.push((place, url));
        if self.closed.len() > MAX_CLOSED {
            self.closed.remove(0);
        }
    }

    /// The most recently closed page, taken off the list.
    pub fn pop_closed(&mut self) -> (r: Option<(R, String)>)
        ensures
            old(self).closed@.len() == 0 ==> r is None && final(self).closed@ == old(self).closed@,
            old(self).closed@.len() > 0 ==> r == Some(old(self).closed@.last())
                && final(self).closed@ == old(self).closed@.drop_last(),
            final(self).pages@ == old(self).pages@,
            final(self).dirty == old(self).dirty,
    {
        self.closed.pop()
    }

    /// Takes the page at `index` off (to be replaced by a fresh one at the
    /// same place); this is no user close and is not remembered.
    pub fn remove_at(&mut self, index: usize) -> (r: Option<P>)
        ensures
            index >= old(self).pages@.len() ==> r is None && final(self).pages@ == old(self).pages@
                && final(self).dirty == old(self).dirty,
            index < old(self).pages@.len() ==> r == Some(old(self).pages@[index as int])
                && final(self).pages@ == old(self).pages@.remove(index as int) && final(self).dirty,
            final(self).closed@ == old(self).closed@,
    {
        if index >= self.pages.len() {
            return None;
        }
        let page = self.pages.remove(index);
        self.dirty = true;
        Some(page)
    }

    /// Moves the page at `index` to the top; returns its new index.
    pub fn bring_to_front(&mut self, index: usize) -> (r: usize)
        requires
            index < old(self).pages@.len(),
        ensures
            final(self).pages@ == brought_to_front(old(self).pages@, index as int),
            r == old(self).pages@.len() - 1,
            final(self).closed@ == old(self).closed@,
            final(self).dirty,
    {
        let page = self.pages.remove(index);
        self.pages.push(page);
        self.dirty = true;
        self.pages.len() - 1
    }

    /// Gives the focus to the next page (the bottom one comes to the top)
    /// or, `backward`, to the previous one (the top one goes to the
    /// bottom).
    pub fn rotate_focus(&mut self, backward: bool)
        ensures
            final(self).pages@ == if backward {
                rotated_backward(old(self).pages@)
            } else {
                rotated_forward(old(self).pages@)
            },
            final(self).dirty == (old(self).dirty || old(self).pages@.len() > 0),
            final(self).closed@ == old(self).closed@,
    {
        if self.pages.len() == 0 {
            return;
        }
        if backward {
            let top = self.pages.pop();
            match top {
                Some(p) => self.pages.insert(0, p),
                None => {},
            }
        } else {
            let bottom = self.pages.remove(0);
            self.pages.push(bottom);
        }
        self.dirty = true;
    }
}

proof fn lemma_first_from(names: Seq<Seq<char>>, name: Seq<char>, w: int)
    requires
        0 <= w < names.len(),
        names[w] == name,
    ensures
        exists|i: int|
            0 <= i < names.len() && #[trigger] names[i] == name && forall|j: int|
                0 <= j < i ==> names[j] != name,
    decreases w,
{
    if exists|j: int| 0 <= j < w && names[j] == name {
        let j = choose|j: int| 0 <= j < w && names[j] == name;
        lemma_first_from(names, name, j);
    } else {
        assert(forall|j: int| 0 <= j < w ==> names[j] != name);
    }
}

proof fn lemma_theme_index_in_range(names: Seq<Seq<char>>, name: Seq<char>)
    requires
        names.len() > 0,
    ensures
        0 <= theme_index_of(names, name) < names.len(),
{
    if exists|i: int| 0 <= i < names.len() && #[trigger] names[i] == name {
        let w = choose|i: int| 0 <= i < names.len() && #[trigger] names[i] == name;
        lemma_first_from(names, name, w);
    }
}

/// The theme after the one named `current` in the cycle of themes named
/// `names` (after the first, when `current` is none of them).
pub fn next_theme_index(names: &[&str], current: &str) -> (r: usize)
    requires
        names@.len() > 0,
    ensures
        r == (theme_index_of(names@.map_values(|n: &str| n@), current@) + 1) % (names@.len() as int),
        r < names@.len(),
{
    let i = theme_index(names, current);
    proof {
        lemma_theme_index_in_range(names@.map_values(|n: &str| n@), current@);
        assert(names@.map_values(|n: &str| n@).len() == names@.len());
    }
    assert(i < names.len());
    (i + 1) % names.len()
}

/// `cols` is the smallest number of columns whose square holds `n`
/// pages: the square root of `n`, rounded up.
pub open spec fn is_ceil_sqrt(n: int, cols: int) -> bool {
    cols >= 1 && cols * cols >= n && (cols - 1) * (cols - 1) < n
}

/// The grid that auto-layout arranges `n` pages in: as many columns as
/// the square root of `n` rounded up, and as many rows as those columns
/// need. Page `i` goes to column `i % cols` of row `i / cols`.
pub fn grid_shape(n: usize) -> (r: (usize, usize))
    requires
        n > 0,
    ensures
        is_ceil_sqrt(n as int, r.0 as int),
        r.1 == (n as int + r.0 as int - 1) / (r.0 as int),
{
    let big_n: u128 = n as u128;
    let mut c: u128 = 1;
    loop
        invariant
            1 <= c <= big_n,
            big_n == n,
            big_n < 0x1_0000_0000_0000_0000,
            (c - 1) * (c - 1) < big_n,
        ensures
            1 <= c <= big_n,
            (c - 1) * (c - 1) < big_n,
            c * c >= big_n,
        decreases big_n - c,
    {
        assert(c * c < 0x1_0000_0000_0000_0000_0000_0000_0000_0000) by (nonlinear_arith)
            requires
                1 <= c < 0x1_0000_0000_0000_0000,
        ;
        let sq = c * c;
        if sq >= big_n {
            break;
        }
        assert(c < big_n) by (nonlinear_arith)
            requires
                c >= 1,
                c * c < big_n,
        ;
        c = c + 1;
    }
    let cols = c as usize;
    let sum: u128 = big_n + c - 1;
    let rows_wide: u128 = sum / c;
    proof {
        let m: int = n as int;
        let k: int = c as int;
        assert((m + k - 1) / k <= m) by (nonlinear_arith)
            requires
                1 <= k <= m,
        ;
    }
    let rows = rows_wide as usize;
    (cols, rows)
}

/// Rotating forward and then backward gives the order back.
pub proof fn law_rotate_round_trip<P>(pages: Seq<P>)
    ensures
        rotated_backward(rotated_forward(pages)) == pages,
        rotated_forward(rotated_backward(pages)) == pages,
{
    if pages.len() > 0 {
        assert(rotated_backward(rotated_forward(pages)) =~= pages);
        assert(rotated_forward(rotated_backward(pages)) =~= pages);
    }
}

/// Bringing a page to the front keeps every page: the same pages, the
/// chosen one now on top and the others in their order.
pub proof fn law_bring_to_front_keeps_pages<P>(pages: Seq<P>, index: int)
    requires
        0 <= index < pages.len(),
    ensures
        brought_to_front(pages, index).len() == pages.len(),
        brought_to_front(pages, index).last() == pages[index],
        brought_to_front(pages, index).to_multiset() == pages.to_multiset(),
{
    pages.to_multiset_ensures();
    pages.remove(index).to_multiset_ensures();
    assert(pages.remove(index).push(pages[index]).to_multiset() =~= pages.to_multiset().remove(
        pages[index],
    ).insert(pages[index]));
    assert(pages.to_multiset().count(pages[index]) > 0);
    assert(pages.to_multiset().remove(pages[index]).insert(pages[index]) =~= pages.to_multiset());
}

/// The closed list never holds more than `MAX_CLOSED` pages, and the page
/// just closed is the first to come back.
pub proof fn law_closed_bounded<R>(closed: Seq<(R, String)>, entry: (R, String))
    requires
        closed.len() <= MAX_CLOSED,
    ensures
        closed_after(closed, entry).len() <= MAX_CLOSED,
        closed_after(closed, entry).last() == entry,
{
}

} // verus!
