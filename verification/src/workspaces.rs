//! Workspace slots: always one active, numbered 1..N, added and removed
//! at runtime. What a slot shows (viewport and page rectangles) is carried
//! as an opaque layout `L`; reading, writing and rendering slots is left
//! to the caller.

use vstd::prelude::*;
use crate::name_sort::{stably_sorted_u32, stable_sort_by_u32_keys};
use crate::text::chars_eq_str;

verus! {

/// Slots a fresh store starts with.
pub const DEFAULT_SLOT_COUNT: u32 = 3;

/// The first canvas theme's name, which new slots start with.
pub const DEFAULT_THEME_NAME: &'static str = "Tokyo Night";

/// The canvas theme a new slot starts with.
pub fn default_theme_name() -> (r: String)
    ensures
        r@ == DEFAULT_THEME_NAME@,
{
    DEFAULT_THEME_NAME.to_string()
}

/// The file-format version written today.
pub fn default_version() -> (r: u32)
    ensures
        r == 2,
{
    2
}

/// One workspace slot.
pub struct WorkspaceSlot<L> {
    pub id: u32,
    /// False until first activated: no pages are spawned before that.
    pub visited: bool,
    /// Canvas theme name.
    pub theme: String,
    /// Viewport and saved pages.
    pub layout: L,
}

/// The slots, the active one, and the file version.
pub struct WorkspaceStore<L> {
    pub version: u32,
    pub active: u32,
    pub slots: Vec<WorkspaceSlot<L>>,
}

/// The ids of `slots`, in order.
pub open spec fn slot_ids<L>(slots: Seq<WorkspaceSlot<L>>) -> Seq<u32> {
    slots.map_values(|s: WorkspaceSlot<L>| s.id)
}

/// Every slot numbered by its position (1..N).
pub open spec fn numbered<L>(slots: Seq<WorkspaceSlot<L>>) -> bool {
    forall|i: int| 0 <= i < slots.len() ==> #[trigger] slots[i].id == i + 1
}

/// The invariant the store keeps: version 2, at least one slot, slots
/// numbered 1..N, and the active id among them.
pub open spec fn well_formed<L>(s: WorkspaceStore<L>) -> bool {
    &&& s.version == 2
    &&& s.slots@.len() >= 1
    &&& s.slots@.len() <= u32::MAX
    &&& numbered(s.slots@)
    &&& 1 <= s.active <= s.slots@.len()
}

/// `slots` renumbered 1..N in their order, nothing else changed.
pub open spec fn renumbered<L>(slots: Seq<WorkspaceSlot<L>>) -> Seq<WorkspaceSlot<L>> {
    Seq::new(
        slots.len(),
        |i: int| WorkspaceSlot { id: (i + 1) as u32, ..slots[i] },
    )
}

fn renumber<L>(slots: &mut Vec<WorkspaceSlot<L>>)
    requires
        old(slots)@.len() <= u32::MAX,
    ensures
        final(slots)@ == renumbered(old(slots)@),
{
    let ghost orig = slots@;
    let n = slots.len();
    let mut i: usize = 0;
    while i < n
        invariant
            i <= n,
            n == slots@.len(),
            n == orig.len(),
            n <= u32::MAX,
            forall|k: int| 0 <= k < i ==> #[trigger] slots@[k] == renumbered(orig)[k],
            forall|k: int| i <= k < n ==> #[trigger] slots@[k] == orig[k],
        decreases n - i,
    {
        let mut s = slots.remove(i);
        s.id = (i + 1) as u32;
        slots.insert(i, s);
        i = i + 1;
    }
    assert(slots@ =~= renumbered(orig));
}

impl<L> WorkspaceStore<L> {
    /// A store of unvisited slots 1..N, one per layout in `blanks`, all
    /// with `theme`; slot 1 active.
    pub fn fresh(theme: &str, blanks: Vec<L>) -> (r: Self)
        requires
            1 <= blanks@.len() <= u32::MAX,
        ensures
            well_formed(r),
            r.active == 1,
            r.slots@.len() == blanks@.len(),
            forall|i: int|
                0 <= i < r.slots@.len() ==> (#[trigger] r.slots@[i]).id == i + 1 && !r.slots@[i].visited
                    && r.slots@[i].theme@ == theme@ && r.slots@[i].layout == blanks@[i],
    {
        let ghost bl = blanks@;
        let mut blanks = blanks;
        let mut slots: Vec<WorkspaceSlot<L>> = Vec::new();
        let n = blanks.len();
        let mut i: usize = 0;
        while blanks.len() > 0
            invariant
                n == bl.len(),
                1 <= n <= u32::MAX,
                i + blanks@.len() == n,
                blanks@ == bl.skip(i as int),
                slots@.len() == i,
                forall|k: int|
                    0 <= k < i ==> (#[trigger] slots@[k]).id == k + 1 && !slots@[k].visited
                        && slots@[k].theme@ == theme@ && slots@[k].layout == bl[k],
            decreases blanks@.len(),
        {
            let layout = blanks.remove(0);
            assert(bl.skip(i as int)[0] == bl[i as int]);
            assert(blanks@ =~= bl.skip(i + 1));
            slots.push(WorkspaceSlot { id: (i + 1) as u32, visited: false, theme: theme.to_string(), layout });
            i = i + 1;
        }
        WorkspaceStore { version: 2, active: 1, slots }
    }

    /// Slots from the older file format: each saved snapshot (theme and
    /// layout) becomes a visited slot 1..N; when there are fewer than
    /// `DEFAULT_SLOT_COUNT`, unvisited slots with `theme` and the layouts of
    /// `blanks` (in order) fill up to that many. Slot 1 is active.
    pub fn from_legacy(entries: Vec<(String, L)>, theme: &str, blanks: Vec<L>) -> (r: Self)
        requires
            entries@.len() <= u32::MAX,
            entries@.len() + blanks@.len() >= DEFAULT_SLOT_COUNT,
        ensures
            r.version == 2,
            r.active == 1,
            r.slots@.len() == if entries@.len() < DEFAULT_SLOT_COUNT {
                DEFAULT_SLOT_COUNT as int
            } else {
                entries@.len() as int
            },
            numbered(r.slots@),
            forall|i: int|
                0 <= i < entries@.len() ==> (#[trigger] r.slots@[i]).visited && r.slots@[i].theme
                    == entries@[i].0 && r.slots@[i].layout == entries@[i].1,
            forall|i: int|
                entries@.len() <= i < r.slots@.len() ==> !(#[trigger] r.slots@[i]).visited
                    && r.slots@[i].theme@ == theme@ && r.slots@[i].layout == blanks@[i
                    - entries@.len()],
    {
        let ghost es = entries@;
        let ghost bl = blanks@;
        let mut entries = entries;
        let mut blanks = blanks;
        let mut slots: Vec<WorkspaceSlot<L>> = Vec::new();
        let n = entries.len();
        let mut i: usize = 0;
        while entries.len() > 0
            invariant
                n == es.len(),
                n <= u32::MAX,
                i + entries@.len() == n,
                entries@ == es.skip(i as int),
                slots@.len() == i,
                numbered(slots@),
                forall|k: int|
                    0 <= k < i ==> (#[trigger] slots@[k]).visited && slots@[k].theme == es[k].0
                        && slots@[k].layout == es[k].1,
            decreases entries@.len(),
        {
            let (t, layout) = entries.remove(0);
            assert(es.skip(i as int)[0] == es[i as int]);
            assert(entries@ =~= es.skip(i + 1));
            slots.push(WorkspaceSlot { id: (i + 1) as u32, visited: true, theme: t, layout });
            i = i + 1;
        }
        let mut k: usize = 0;
        while slots.len() < 3
            invariant
                n == es.len(),
                n + bl.len() >= 3,
                slots@.len() == n + k,
                k <= bl.len(),
                blanks@ == bl.skip(k as int),
                numbered(slots@),
                k > 0 ==> n + k <= 3,
                forall|j: int|
                    0 <= j < n ==> (#[trigger] slots@[j]).visited && slots@[j].theme == es[j].0
                        && slots@[j].layout == es[j].1,
                forall|j: int|
                    n <= j < n + k ==> !(#[trigger] slots@[j]).visited && slots@[j].theme@ == theme@
                        && slots@[j].layout == bl[j - n],
            decreases 3 - slots@.len(),
        {
            let layout = blanks.remove(0);
            assert(bl.skip(k as int)[0] == bl[k as int]);
            assert(blanks@ =~= bl.skip(k + 1));
            let id = (slots.len() + 1) as u32;
            slots.push(WorkspaceSlot { id, visited: false, theme: theme.to_string(), layout });
            k = k + 1;
        }
        WorkspaceStore { version: 2, active: 1, slots }
    }

    /// Number of slots.
    pub fn slot_count(&self) -> (r: u32)
        requires
            self.slots@.len() <= u32::MAX,
        ensures
            r == self.slots@.len(),
    {
        self.slots.len() as u32
    }

    /// Index of the first slot with this id.
    pub open spec fn index_of(&self, id: u32) -> Option<int> {
        if exists|i: int| 0 <= i < self.slots@.len() && #[trigger] self.slots@[i].id == id {
            Some(
                choose|i: int|
                    0 <= i < self.slots@.len() && #[trigger] self.slots@[i].id == id && forall|
                        j: int,
                    |
                        0 <= j < i ==> self.slots@[j].id != id,
            )
        } else {
            None
        }
    }

    pub proof fn lemma_index_of(&self, id: u32)
        ensures
            match self.index_of(id) {
                Some(i) => 0 <= i < self.slots@.len() && self.slots@[i].id == id && forall|j: int|
                    0 <= j < i ==> #[trigger] self.slots@[j].id != id,
                None => forall|j: int| 0 <= j < self.slots@.len() ==> #[trigger] self.slots@[j].id != id,
            },
    {
        if exists|i: int| 0 <= i < self.slots@.len() && #[trigger] self.slots@[i].id == id {
            let w = choose|i: int| 0 <= i < self.slots@.len() && #[trigger] self.slots@[i].id == id;
            self.lemma_first_from(id, w);
        }
    }

    proof fn lemma_first_from(&self, id: u32, w: int)
        requires
            0 <= w < self.slots@.len(),
            self.slots@[w].id == id,
        ensures
            exists|i: int|
                0 <= i < self.slots@.len() && #[trigger] self.slots@[i].id == id && forall|j: int|
                    0 <= j < i ==> self.slots@[j].id != id,
        decreases w,
    {
        if exists|j: int| 0 <= j < w && self.slots@[j].id == id {
            let j = choose|j: int| 0 <= j < w && self.slots@[j].id == id;
            self.lemma_first_from(id, j);
        } else {
            assert(forall|j: int| 0 <= j < w ==> self.slots@[j].id != id);
        }
    }

    fn position(&self, id: u32) -> (r: Option<usize>)
        ensures
            match r {
                Some(i) => self.index_of(id) == Some(i as int) && i < self.slots@.len(),
                None => self.index_of(id) is None,
            },
    {
        let mut i: usize = 0;
        while i < self.slots.len()
            invariant
                i <= self.slots@.len(),
                forall|j: int| 0 <= j < i ==> #[trigger] self.slots@[j].id != id,
            decreases self.slots@.len() - i,
        {
            if self.slots[i].id == id {
                proof {
                    let k = choose|k: int|
                        0 <= k < self.slots@.len() && #[trigger] self.slots@[k].id == id && forall|
                            j: int,
                        |
                            0 <= j < k ==> self.slots@[j].id != id;
                    assert(k == i) by {
                        if k < i {
                            assert(self.slots@[k].id != id);
                        }
                        if k > i {
                            assert(self.slots@[i as int].id != id);
                        }
                    }
                }
                return Some(i);
            }
            i = i + 1;
        }
        None
    }

    /// The first slot with this id.
    pub fn slot(&self, id: u32) -> (r: Option<&WorkspaceSlot<L>>)
        ensures
            match self.index_of(id) {
                Some(i) => r == Some(&self.slots@[i]),
                None => r is None,
            },
    {
        match self.position(id) {
            Some(i) => Some(&self.slots[i]),
            None => None,
        }
    }

    /// The active slot (the store keeps one).
    pub fn active_slot(&self) -> (r: &WorkspaceSlot<L>)
        requires
            self.index_of(self.active) is Some,
        ensures
            *r == self.slots@[self.index_of(self.active)->0],
    {
        proof {
            self.lemma_index_of(self.active);
        }
        let i = self.position(self.active).unwrap();
        &self.slots[i]
    }

    /// The largest id, or 0 without slots.
    pub open spec fn max_id(slots: Seq<WorkspaceSlot<L>>) -> u32
        decreases slots.len(),
    {
        if slots.len() == 0 {
            0
        } else {
            let m = Self::max_id(slots.drop_last());
            if slots.last().id > m {
                slots.last().id
            } else {
                m
            }
        }
    }

    /// Adds an unvisited slot numbered one past the largest id, with
    /// `theme` and `blank`; returns its id (the active slot stays).
    pub fn add_fresh_slot(&mut self, theme: &str, blank: L) -> (r: u32)
        requires
            Self::max_id(old(self).slots@) < u32::MAX,
        ensures
            r == Self::max_id(old(self).slots@) + 1,
            final(self).slots@.len() == old(self).slots@.len() + 1,
            final(self).slots@.drop_last() == old(self).slots@,
            final(self).slots@.last().id == r,
            !final(self).slots@.last().visited,
            final(self).slots@.last().theme@ == theme@,
            final(self).slots@.last().layout == blank,
            final(self).active == old(self).active,
            final(self).version == old(self).version,
    {
        let mut m: u32 = 0;
        let mut i: usize = 0;
        assert(self.slots@.take(0) =~= Seq::<WorkspaceSlot<L>>::empty());
        while i < self.slots.len()
            invariant
                i <= self.slots@.len(),
                m == Self::max_id(self.slots@.take(i as int)),
            decreases self.slots@.len() - i,
        {
            assert(self.slots@.take(i + 1).drop_last() == self.slots@.take(i as int));
            if self.slots[i].id > m {
                m = self.slots[i].id;
            }
            i = i + 1;
        }
        assert(self.slots@.take(self.slots@.len() as int) == self.slots@);
        let id = m + 1;
        self.slots.push(WorkspaceSlot { id, visited: false, theme: theme.to_string(), layout: blank });
        assert(self.slots@.drop_last() =~= old(self).slots@);
        id
    }

    /// The active id after removing the slot at `pos` (renumbered store
    /// of `n` slots left): the slot now at `min(pos, n - 1)` when the removed
    /// one was active, one less when the active id was above the removed
    /// id, else unchanged.
    pub open spec fn active_after_remove(active: u32, id: u32, pos: int, n: int) -> u32 {
        if active == id {
            (if pos < n - 1 {
                pos
            } else {
                n - 1
            } + 1) as u32
        } else if active > id {
            (active - 1) as u32
        } else {
            active
        }
    }

    /// Removes the first slot with `id`, keeping at least one, and
    /// renumbers the rest 1..N. Returns the new active id when the removed
    /// slot was the active one.
    pub fn remove_slot(&mut self, id: u32) -> (r: Option<u32>)
        requires
            old(self).slots@.len() <= u32::MAX,
        ensures
            old(self).slots@.len() <= 1 || old(self).index_of(id) is None ==> r is None
                && *final(self) == *old(self),
            old(self).slots@.len() > 1 && old(self).index_of(id) is Some ==> ({
                let pos = old(self).index_of(id)->0;
                let n = old(self).slots@.len() - 1;
                &&& final(self).slots@ == renumbered(old(self).slots@.remove(pos))
                &&& final(self).active == Self::active_after_remove(old(self).active, id, pos, n)
                &&& r == if old(self).active == id {
                    Some(final(self).active)
                } else {
                    None
                }
                &&& final(self).version == old(self).version
            }),
    {
        if self.slots.len() <= 1 {
            return None;
        }
        let pos = match self.position(id) {
            Some(p) => p,
            None => {
                return None;
            },
        };
        let was_active = self.active == id;
        let _ = self.slots.remove(pos);
        renumber(&mut self.slots);
        if was_active {
            let idx = if pos < self.slots.len() - 1 {
                pos
            } else {
                self.slots.len() - 1
            };
            self.active = self.slots[idx].id;
            Some(self.active)
        } else {
            if self.active > id {
                self.active = self.active - 1;
            }
            None
        }
    }

    /// Restores the invariant after loading: version 2; no slots becomes a
    /// fresh store from `blanks`; otherwise slots are ordered by id (stably)
    /// and renumbered 1..N, and an active id that names no slot becomes 1.
    pub fn ensure_invariants(self, theme: &str, blanks: Vec<L>) -> (r: Self)
        requires
            self.slots@.len() <= u32::MAX,
            1 <= blanks@.len() <= u32::MAX,
        ensures
            well_formed(r),
            self.slots@.len() == 0 ==> r.active == 1 && r.slots@.len() == blanks@.len() && forall|
                i: int,
            |
                0 <= i < r.slots@.len() ==> !(#[trigger] r.slots@[i]).visited && r.slots@[i].theme@
                    == theme@ && r.slots@[i].layout == blanks@[i],
            self.slots@.len() > 0 ==> (exists|sorted: Seq<WorkspaceSlot<L>>|
                #[trigger] stably_sorted_u32(
                    sorted,
                    slot_ids(sorted),
                    self.slots@,
                    slot_ids(self.slots@),
                ) && r.slots@ == renumbered(sorted)) && r.active == if 1 <= self.active
                <= self.slots@.len() {
                self.active
            } else {
                1
            },
    {
        if self.slots.len() == 0 {
            return Self::fresh(theme, blanks);
        }
        let mut s = self;
        let ghost old_slots = s.slots@;
        let mut keys: Vec<u32> = Vec::new();
        let mut i: usize = 0;
        while i < s.slots.len()
            invariant
                i <= s.slots@.len(),
                s.slots@ == old_slots,
                keys@ == slot_ids(old_slots.take(i as int)),
            decreases s.slots@.len() - i,
        {
            keys.push(s.slots[i].id);
            assert(old_slots.take(i + 1) == old_slots.take(i as int).push(old_slots[i as int]));
            assert(keys@ =~= slot_ids(old_slots.take(i + 1)));
            i = i + 1;
        }
        assert(old_slots.take(old_slots.len() as int) == old_slots);
        let mut slots = s.slots;
        stable_sort_by_u32_keys(&mut slots, &mut keys);
        let ghost sorted = slots@;
        proof {
            let ok = slot_ids(old_slots);
            let perm = choose|perm: Seq<int>|
                #[trigger] crate::name_sort::stable_perm_u32(perm, slots@, keys@, old_slots, ok);
            assert forall|k: int| 0 <= k < keys@.len() implies keys@[k] == slot_ids(slots@)[k] by {
                assert(0 <= perm[k] < perm.len());
            }
            assert(keys@ =~= slot_ids(slots@));
        }
        renumber(&mut slots);
        let n = slots.len();
        let active = if 1 <= s.active && (s.active as usize) <= n {
            s.active
        } else {
            1
        };
        WorkspaceStore { version: 2, active, slots }
    }
}

/// A store of unvisited slots 1..N, one per layout of `blanks`, all with
/// `theme`; slot 1 active.
pub open spec fn is_fresh<L>(r: WorkspaceStore<L>, theme: Seq<char>, blanks: Seq<L>) -> bool {
    &&& well_formed(r)
    &&& r.active == 1
    &&& r.slots@.len() == blanks.len()
    &&& forall|i: int|
        0 <= i < r.slots@.len() ==> (#[trigger] r.slots@[i]).id == i + 1 && !r.slots@[i].visited
            && r.slots@[i].theme@ == theme && r.slots@[i].layout == blanks[i]
}

/// The store the older file format's snapshots `es` become: one visited
/// slot per snapshot, filled up with unvisited slots from `blanks` to
/// `DEFAULT_SLOT_COUNT`; slot 1 active.
pub open spec fn is_from_legacy<L>(
    r: WorkspaceStore<L>,
    es: Seq<(String, L)>,
    theme: Seq<char>,
    blanks: Seq<L>,
) -> bool {
    &&& r.version == 2
    &&& r.active == 1
    &&& r.slots@.len() == if es.len() < DEFAULT_SLOT_COUNT {
        DEFAULT_SLOT_COUNT as int
    } else {
        es.len() as int
    }
    &&& numbered(r.slots@)
    &&& forall|i: int|
        0 <= i < es.len() ==> (#[trigger] r.slots@[i]).visited && r.slots@[i].theme == es[i].0
            && r.slots@[i].layout == es[i].1
    &&& forall|i: int|
        es.len() <= i < r.slots@.len() ==> !(#[trigger] r.slots@[i]).visited && r.slots@[i].theme@
            == theme && r.slots@[i].layout == blanks[i - es.len()]
}

/// `before`'s non-empty slots ordered by id (stably) and renumbered 1..N,
/// with its active id kept when it names a slot, else 1.
pub open spec fn is_repaired<L>(r: WorkspaceStore<L>, before: WorkspaceStore<L>) -> bool {
    &&& well_formed(r)
    &&& exists|sorted: Seq<WorkspaceSlot<L>>|
        #[trigger] stably_sorted_u32(sorted, slot_ids(sorted), before.slots@, slot_ids(before.slots@))
            && r.slots@ == renumbered(sorted)
    &&& r.active == if 1 <= before.active <= before.slots@.len() {
        before.active
    } else {
        1
    }
}

/// A store read in today's file shape is taken when its version is at
/// least 2 and it has slots (no more than ids can number).
pub open spec fn current_usable<L>(current: Option<WorkspaceStore<L>>) -> bool {
    current matches Some(f) && f.version >= 2 && 1 <= f.slots@.len() <= u32::MAX
}

/// Snapshots read in the older file shape are taken when ids can number
/// them.
pub open spec fn legacy_usable<L>(legacy: Option<Vec<(String, L)>>) -> bool {
    legacy matches Some(es) && es@.len() <= u32::MAX
}

impl<L> WorkspaceStore<L> {
    /// The store to start with, from what the workspace file held: the store
    /// in today's shape (`current`) repaired, when it is usable; else the
    /// older shape's snapshots (`legacy`) as slots; else (no file, or one
    /// that parses as neither) a fresh store of `blanks`. Always
    /// well-formed, so the active slot can always be found.
    pub fn load_from(
        current: Option<WorkspaceStore<L>>,
        legacy: Option<Vec<(String, L)>>,
        theme: &str,
        blanks: Vec<L>,
    ) -> (r: Self)
        requires
            blanks@.len() == DEFAULT_SLOT_COUNT,
        ensures
            well_formed(r),
            current_usable(current) ==> is_repaired(r, current->0),
            !current_usable(current) && legacy_usable(legacy) ==> is_from_legacy(
                r,
                legacy->0@,
                theme@,
                blanks@,
            ),
            !current_usable(current) && !legacy_usable(legacy) ==> is_fresh(r, theme@, blanks@),
    {
        if let Some(f) = current {
            if f.version >= 2 && f.slots.len() >= 1 && f.slots.len() <= 0xffff_ffff {
                let ghost before = f;
                let r = f.ensure_invariants(theme, blanks);
                assert(is_repaired(r, before));
                return r;
            }
        }
        if let Some(es) = legacy {
            if es.len() <= 0xffff_ffff {
                let ghost esv = es@;
                let r = Self::from_legacy(es, theme, blanks);
                assert(is_from_legacy(r, esv, theme@, blanks@));
                return r;
            }
        }
        let r = Self::fresh(theme, blanks);
        assert(is_fresh(r, theme@, blanks@));
        r
    }
}

/// A well-formed store stays well-formed when a slot is removed.
pub proof fn law_remove_keeps_invariant<L>(
    before: WorkspaceStore<L>,
    after: WorkspaceStore<L>,
    id: u32,
)
    requires
        well_formed(before),
        before.slots@.len() > 1,
        before.index_of(id) is Some,
        after.slots@ == renumbered(before.slots@.remove(before.index_of(id)->0)),
        after.active == WorkspaceStore::<L>::active_after_remove(
            before.active,
            id,
            before.index_of(id)->0,
            before.slots@.len() - 1,
        ),
        after.version == before.version,
    ensures
        well_formed(after),
        after.slots@.len() == before.slots@.len() - 1,
{
    let pos = before.index_of(id)->0;
    assert(before.slots@[pos].id == id);
    assert(id == pos + 1);
}

/// Adding a slot to a well-formed store gives it the next number, which
/// no earlier slot has, and keeps the store well-formed.
pub proof fn law_add_keeps_invariant<L>(before: WorkspaceStore<L>, after: WorkspaceStore<L>, id: u32)
    requires
        well_formed(before),
        before.slots@.len() < u32::MAX,
        id == WorkspaceStore::<L>::max_id(before.slots@) + 1,
        after.slots@.drop_last() == before.slots@,
        after.slots@.len() == before.slots@.len() + 1,
        after.slots@.last().id == id,
        after.active == before.active,
        after.version == before.version,
    ensures
        id == before.slots@.len() + 1,
        forall|i: int| 0 <= i < before.slots@.len() ==> #[trigger] before.slots@[i].id != id,
        well_formed(after),
{
    lemma_max_id_numbered(before.slots@);
    assert forall|i: int| 0 <= i < after.slots@.len() implies #[trigger] after.slots@[i].id == i
        + 1 by {
        if i < before.slots@.len() {
            assert(after.slots@[i] == after.slots@.drop_last()[i]);
        }
    }
}

proof fn lemma_max_id_numbered<L>(slots: Seq<WorkspaceSlot<L>>)
    requires
        numbered(slots),
        slots.len() <= u32::MAX,
    ensures
        WorkspaceStore::<L>::max_id(slots) == slots.len(),
    decreases slots.len(),
{
    if slots.len() > 0 {
        assert(numbered(slots.drop_last())) by {
            assert forall|i: int| 0 <= i < slots.drop_last().len() implies #[trigger] slots.drop_last()[i].id == i + 1 by {
                assert(slots.drop_last()[i] == slots[i]);
            }
        }
        lemma_max_id_numbered(slots.drop_last());
        assert(slots.last().id == slots.len());
    }
}

/// Index of the first of `names` equal to `name`, or 0 (the first
/// theme) when none is.
pub open spec fn theme_index_of(names: Seq<Seq<char>>, name: Seq<char>) -> int {
    if exists|i: int| 0 <= i < names.len() && #[trigger] names[i] == name {
        choose|i: int|
            0 <= i < names.len() && #[trigger] names[i] == name && forall|j: int|
                0 <= j < i ==> names[j] != name
    } else {
        0
    }
}

/// Which of the themes named `names` a saved theme name selects.
pub fn theme_index(names: &[&str], name: &str) -> (r: usize)
    ensures
        r == theme_index_of(names@.map_values(|n: &str| n@), name@),
{
    let ghost nv = names@.map_values(|n: &str| n@);
    let mut i: usize = 0;
    while i < names.len()
        invariant
            i <= names@.len(),
            nv == names@.map_values(|n: &str| n@),
            forall|j: int| 0 <= j < i ==> #[trigger] nv[j] != name@,
        decreases names@.len() - i,
    {
        let c = crate::text::chars_of(names[i]);
        if crate::text::chars_eq_str(c.as_slice(), name) {
            proof {
                assert(nv[i as int] == name@);
                let k = choose|k: int|
                    0 <= k < nv.len() && #[trigger] nv[k] == name@ && forall|j: int|
                        0 <= j < k ==> nv[j] != name@;
                assert(k == i) by {
                    if k < i {
                        assert(nv[k] != name@);
                    }
                    if k > i {
                        assert(nv[i as int] != name@);
                    }
                }
            }
            return i;
        }
        i = i + 1;
    }
    0
}

} // verus!
