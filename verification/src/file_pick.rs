//! Bookkeeping for native file picks that run off the event loop: which
//! page asked for which kind of pick, and what a finished, pending or
//! abandoned pick means. Running the dialog and the channel it answers
//! on are left to the caller.

use vstd::prelude::*;

verus! {

/// What a file pick is for.
#[derive(Clone, Copy, Debug, PartialEq, Eq, Structural)]
pub enum PickKind {
    Bookmarks,
    PasswordsCsv,
}

/// How the native dialog is set up.
pub struct PickOptions {
    pub title: String,
    pub start_dir: Option<String>,
    pub file_name: Option<String>,
    /// `(label, extensions)`, e.g. `("CSV", ["csv"])`; empty means no filter.
    pub filters: Vec<(String, Vec<String>)>,
}

/// Name of the thread a pick of this kind runs on.
pub fn thread_name(kind: PickKind) -> (r: &'static str)
    ensures
        r == (match kind {
            PickKind::Bookmarks => "bookmark-file-dialog",
            PickKind::PasswordsCsv => "csv-file-dialog",
        }),
{
    match kind {
        PickKind::Bookmarks => "bookmark-file-dialog",
        PickKind::PasswordsCsv => "csv-file-dialog",
    }
}

/// What the dialog's channel said when asked.
pub enum PickReceive {
    /// The dialog closed: the chosen path, or none when cancelled.
    Done(Option<String>),
    /// Still open.
    Empty,
    /// The dialog thread is gone without answering.
    Disconnected,
}

/// The picks in flight: at most one per kind, with the browser id of the
/// page that asked.
pub struct PendingPicks {
    pub entries: Vec<(PickKind, i32)>,
}

/// The browser id waiting on a pick of `kind`.
pub open spec fn waiting(entries: Seq<(PickKind, i32)>, kind: PickKind) -> Option<i32>
    decreases entries.len(),
{
    if entries.len() == 0 {
        None
    } else if entries.last().0 == kind {
        Some(entries.last().1)
    } else {
        waiting(entries.drop_last(), kind)
    }
}

/// `entries` without any entry for `kind`.
pub open spec fn without_kind(entries: Seq<(PickKind, i32)>, kind: PickKind) -> Seq<(PickKind, i32)> {
    entries.filter(other_kind(kind))
}

/// The test "is for another kind".
pub open spec fn other_kind(kind: PickKind) -> spec_fn((PickKind, i32)) -> bool {
    |e: (PickKind, i32)| e.0 != kind
}

proof fn lemma_waiting_without(entries: Seq<(PickKind, i32)>, kind: PickKind, other: PickKind)
    ensures
        waiting(without_kind(entries, kind), kind) is None,
        other != kind ==> waiting(without_kind(entries, kind), other) == waiting(entries, other),
    decreases entries.len(),
{
    if entries.len() > 0 {
        lemma_waiting_without(entries.drop_last(), kind, other);
        entries.drop_last().lemma_filter_push(entries.last(), other_kind(kind));
        assert(entries.drop_last().push(entries.last()) == entries);
        let w = without_kind(entries.drop_last(), kind);
        if entries.last().0 != kind {
            assert(without_kind(entries, kind) == w.push(entries.last()));
            assert(w.push(entries.last()).drop_last() == w);
        } else {
            assert(without_kind(entries, kind) == w);
        }
    } else {
        assert(without_kind(entries, kind) =~= Seq::<(PickKind, i32)>::empty());
    }
}

/// The picks in flight after a pick of `kind` starts for `browser_id`.
pub open spec fn start_after(entries: Seq<(PickKind, i32)>, kind: PickKind, browser_id: i32) -> Seq<
    (PickKind, i32),
> {
    without_kind(entries, kind).push((kind, browser_id))
}

/// The picks in flight after polling `kind` when the channel said
/// `received`, and what the poll reports.
pub open spec fn poll_outcome(entries: Seq<(PickKind, i32)>, kind: PickKind, received: PickReceive) -> (
    Seq<(PickKind, i32)>,
    Option<(i32, Option<String>)>,
) {
    match waiting(entries, kind) {
        None => (entries, None),
        Some(id) => match received {
            PickReceive::Done(path) => (without_kind(entries, kind), Some((id, path))),
            PickReceive::Empty => (entries, None),
            PickReceive::Disconnected => (without_kind(entries, kind), None),
        },
    }
}

/// One call on the pending picks.
pub enum PickStep {
    Start(PickKind, i32),
    Poll(PickKind, PickReceive),
}

/// What the polls of `kind` report over a run of calls, in order.
pub open spec fn reports(entries: Seq<(PickKind, i32)>, steps: Seq<PickStep>, kind: PickKind) -> Seq<
    (i32, Option<String>),
>
    decreases steps.len(),
{
    if steps.len() == 0 {
        Seq::empty()
    } else {
        match steps[0] {
            PickStep::Start(k, id) => reports(start_after(entries, k, id), steps.drop_first(), kind),
            PickStep::Poll(k, received) => {
                let (next, r) = poll_outcome(entries, k, received);
                let rest = reports(next, steps.drop_first(), kind);
                if k == kind && r is Some {
                    seq![r->0] + rest
                } else {
                    rest
                }
            },
        }
    }
}

/// No call in `steps` starts a pick of `kind`.
pub open spec fn starts_none(steps: Seq<PickStep>, kind: PickKind) -> bool {
    forall|i: int| 0 <= i < steps.len() ==> !(#[trigger] steps[i] matches PickStep::Start(k, _) && k == kind)
}

/// What the channel said at the first poll of `kind` that found the
/// dialog closed (finished or gone), if any.
pub open spec fn first_close(steps: Seq<PickStep>, kind: PickKind) -> Option<PickReceive>
    decreases steps.len(),
{
    if steps.len() == 0 {
        None
    } else {
        match steps[0] {
            PickStep::Poll(k, received) => if k == kind && !(received is Empty) {
                Some(received)
            } else {
                first_close(steps.drop_first(), kind)
            },
            PickStep::Start(_, _) => first_close(steps.drop_first(), kind),
        }
    }
}

proof fn lemma_waiting_start(entries: Seq<(PickKind, i32)>, k: PickKind, id: i32, kind: PickKind)
    ensures
        waiting(start_after(entries, k, id), kind) == if k == kind {
            Some(id)
        } else {
            waiting(entries, kind)
        },
{
    let w = without_kind(entries, k);
    assert(start_after(entries, k, id).drop_last() == w);
    lemma_waiting_without(entries, k, kind);
}

/// Over any run of calls that starts no new pick of `kind`, the polls of
/// `kind` report at most once: when a pick of `kind` is waiting for
/// browser `id` and the first poll that finds its dialog closed finds it
/// finished with `path`, they report `(id, path)` exactly once; otherwise
/// (no pick waiting, the dialog still open, or its thread gone) they
/// report nothing.
pub proof fn law_pick_reported_once(entries: Seq<(PickKind, i32)>, steps: Seq<PickStep>, kind: PickKind)
    requires
        starts_none(steps, kind),
    ensures
        reports(entries, steps, kind) == match (waiting(entries, kind), first_close(steps, kind)) {
            (Some(id), Some(PickReceive::Done(path))) => seq![(id, path)],
            _ => Seq::<(i32, Option<String>)>::empty(),
        },
    decreases steps.len(),
{
    if steps.len() > 0 {
        let rest = steps.drop_first();
        assert forall|i: int| 0 <= i < rest.len() implies !(#[trigger] rest[i] matches PickStep::Start(
            k,
            _,
        ) && k == kind) by {
            assert(rest[i] == steps[i + 1]);
        }
        assert(!(steps[0] matches PickStep::Start(k, _) && k == kind));
        match steps[0] {
            PickStep::Start(k, id) => {
                lemma_waiting_start(entries, k, id, kind);
                law_pick_reported_once(start_after(entries, k, id), rest, kind);
            },
            PickStep::Poll(k, received) => {
                let next = poll_outcome(entries, k, received).0;
                lemma_waiting_without(entries, k, kind);
                if k != kind {
                    assert(waiting(next, kind) == waiting(entries, kind));
                } else {
                    lemma_waiting_without(entries, kind, kind);
                }
                law_pick_reported_once(next, rest, kind);
                assert(seq![(waiting(entries, kind)->0, received->0)] + Seq::<(i32, Option<String>)>::empty()
                    =~= seq![(waiting(entries, kind)->0, received->0)]);
            },
        }
    }
}

fn remove_kind(entries: &mut Vec<(PickKind, i32)>, kind: PickKind)
    ensures
        final(entries)@ == without_kind(old(entries)@, kind),
{
    let ghost orig = entries@;
    let mut kept: Vec<(PickKind, i32)> = Vec::new();
    let mut i: usize = 0;
    while i < entries.len()
        invariant
            entries@ == orig,
            i <= orig.len(),
            kept@ == without_kind(orig.take(i as int), kind),
        decreases orig.len() - i,
    {
        let e = entries[i];
        proof {
            orig.take(i as int).lemma_filter_push(orig[i as int], other_kind(kind));
            assert(orig.take(i + 1) == orig.take(i as int).push(orig[i as int]));
        }
        if e.0 != kind {
            kept.push(e);
        }
        i = i + 1;
    }
    assert(orig.take(orig.len() as int) == orig);
    *entries = kept;
}

impl PendingPicks {
    pub fn new() -> (r: Self)
        ensures
            r.entries@.len() == 0,
    {
        PendingPicks { entries: Vec::new() }
    }

    /// A pick of `kind` started for `browser_id`, replacing any earlier one.
    pub fn start(&mut self, kind: PickKind, browser_id: i32)
        ensures
            final(self).entries@ == start_after(old(self).entries@, kind, browser_id),
            waiting(final(self).entries@, kind) == Some(browser_id),
            forall|k: PickKind|
                k != kind ==> waiting(final(self).entries@, k) == waiting(old(self).entries@, k),
    {
        let ghost before = self.entries@;
        remove_kind(&mut self.entries, kind);
        self.entries.push((kind, browser_id));
        proof {
            assert(self.entries@.drop_last() == without_kind(before, kind));
            assert forall|k: PickKind| k != kind implies waiting(self.entries@, k) == waiting(
                before,
                k,
            ) by {
                lemma_waiting_without(before, kind, k);
            }
        }
    }

    /// What polling a pick of `kind` gives, after the channel said
    /// `received`: a finished pick is removed and reported with the
    /// browser id that asked; an abandoned one is removed quietly; an open
    /// one stays. Without a pick of that kind, nothing.
    pub fn poll(&mut self, kind: PickKind, received: PickReceive) -> (r: Option<(i32, Option<String>)>)
        ensures
            (final(self).entries@, r) == poll_outcome(old(self).entries@, kind, received),
            waiting(old(self).entries@, kind) is None ==> r is None && final(self).entries@ == old(
                self,
            ).entries@,
            waiting(old(self).entries@, kind) is Some ==> match received {
                PickReceive::Done(path) => r == Some((waiting(old(self).entries@, kind)->0, path))
                    && final(self).entries@ == without_kind(old(self).entries@, kind),
                PickReceive::Empty => r is None && final(self).entries@ == old(self).entries@,
                PickReceive::Disconnected => r is None && final(self).entries@ == without_kind(
                    old(self).entries@,
                    kind,
                ),
            },
    {
        let ghost es = self.entries@;
        let mut found: Option<i32> = None;
        let mut i: usize = 0;
        assert(es.take(0) =~= Seq::<(PickKind, i32)>::empty());
        while i < self.entries.len()
            invariant
                self.entries@ == es,
                i <= es.len(),
                found == waiting(es.take(i as int), kind),
            decreases es.len() - i,
        {
            assert(es.take(i + 1).drop_last() == es.take(i as int));
            if self.entries[i].0 == kind {
                found = Some(self.entries[i].1);
            }
            i = i + 1;
        }
        assert(es.take(es.len() as int) == es);
        let id = match found {
            Some(id) => id,
            None => {
                return None;
            },
        };
        match received {
            PickReceive::Done(path) => {
                remove_kind(&mut self.entries, kind);
                Some((id, path))
            },
            PickReceive::Empty => None,
            PickReceive::Disconnected => {
                remove_kind(&mut self.entries, kind);
                None
            },
        }
    }
}

} // verus!
