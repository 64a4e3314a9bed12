//! What the bookmark, download, history and workspace list pages' actions
//! do to the lists, and what the caller does afterwards (open something,
//! save the list, re-render the page).

use vstd::prelude::*;
use crate::bookmarks::{Bookmark, BookmarkView, bookmark_views};
use crate::downloads::{DownloadRecord, DownloadView, download_views};
use crate::history::{HistoryEntry, HistoryView, history_views};
use crate::nav_actions::{BookmarkAction, DownloadPageAction, HistoryPageAction, WorkspacePageAction};
use crate::text::{chars_of, chars_eq_str};

verus! {

/// What the caller does after a list action.
pub struct ListEffects {
    /// A URL (or, for downloads, a file path) to open.
    pub open: Option<String>,
    /// Write the list to disk.
    pub save: bool,
    /// Re-render the list page.
    pub refresh: bool,
}

pub open spec fn effects_are(e: ListEffects, open: Option<Seq<char>>, save: bool, refresh: bool) -> bool {
    &&& crate::vault::opt_view(e.open) == open
    &&& e.save == save
    &&& e.refresh == refresh
}

/// Empty text means "not set".
pub open spec fn set_or_none(s: Seq<char>) -> Option<Seq<char>> {
    if s.len() == 0 {
        None
    } else {
        Some(s)
    }
}

fn some_if_set(s: String) -> (r: Option<String>)
    ensures
        crate::vault::opt_view(r) == set_or_none(s@),
{
    if s.as_str().is_empty() {
        None
    } else {
        Some(s)
    }
}

/// Applies a bookmarks-list action: open the bookmark, delete it, or set
/// its title and folder (empty clears them). Out-of-range indexes change
/// nothing; a rename is saved and both it and a delete re-render the page.
pub fn apply_bookmark_action(bookmarks: &mut Vec<Bookmark>, action: BookmarkAction) -> (r: ListEffects)
    ensures
        match action {
            BookmarkAction::Open(i) => final(bookmarks)@ == old(bookmarks)@ && if i < old(
                bookmarks,
            )@.len() {
                effects_are(r, Some(old(bookmarks)@[i as int].url@), false, false)
            } else {
                effects_are(r, None, false, false)
            },
            BookmarkAction::Delete(i) => if i < old(bookmarks)@.len() {
                final(bookmarks)@ == old(bookmarks)@.remove(i as int) && effects_are(r, None, true, true)
            } else {
                final(bookmarks)@ == old(bookmarks)@ && effects_are(r, None, false, true)
            },
            BookmarkAction::Rename(i, title, folder) => effects_are(r, None, true, true) && if i < old(
                bookmarks,
            )@.len() {
                bookmark_views(final(bookmarks)@) == bookmark_views(old(bookmarks)@).update(
                    i as int,
                    BookmarkView {
                        url: old(bookmarks)@[i as int].url@,
                        title: set_or_none(title@),
                        folder: set_or_none(folder@),
                    },
                )
            } else {
                final(bookmarks)@ == old(bookmarks)@
            },
        },
{
    match action {
        BookmarkAction::Open(i) => {
            if i < bookmarks.len() {
                ListEffects { open: Some(bookmarks[i].url.clone()), save: false, refresh: false }
            } else {
                ListEffects { open: None, save: false, refresh: false }
            }
        },
        BookmarkAction::Delete(i) => {
            if i < bookmarks.len() {
                let _ = bookmarks.remove(i);
                ListEffects { open: None, save: true, refresh: true }
            } else {
                ListEffects { open: None, save: false, refresh: true }
            }
        },
        BookmarkAction::Rename(i, title, folder) => {
            if i < bookmarks.len() {
                let ghost before = bookmark_views(bookmarks@);
                let mut b = bookmarks.remove(i);
                b.title = some_if_set(title);
                b.folder = some_if_set(folder);
                bookmarks.insert(i, b);
                assert(bookmark_views(bookmarks@) =~= before.update(
                    i as int,
                    BookmarkView { url: before[i as int].url, title: b@.title, folder: b@.folder },
                ));
            }
            ListEffects { open: None, save: true, refresh: true }
        },
    }
}

/// Adds the focused page's URL as a bookmark, unless the page is a
/// built-in one or the URL is already bookmarked; `true` when added (the
/// caller then saves).
pub fn bookmark_url(bookmarks: &mut Vec<Bookmark>, url: &str, ephemeral: bool) -> (r: bool)
    ensures
        r == (!ephemeral && !(exists|i: int|
            0 <= i < old(bookmarks)@.len() && #[trigger] old(bookmarks)@[i].url@ == url@)),
        r ==> bookmark_views(final(bookmarks)@) == bookmark_views(old(bookmarks)@).push(
            BookmarkView { url: url@, title: None, folder: None },
        ),
        !r ==> final(bookmarks)@ == old(bookmarks)@,
{
    if ephemeral {
        return false;
    }
    let mut i: usize = 0;
    while i < bookmarks.len()
        invariant
            i <= bookmarks@.len(),
            bookmarks@ == old(bookmarks)@,
            forall|k: int| 0 <= k < i ==> #[trigger] bookmarks@[k].url@ != url@,
        decreases bookmarks@.len() - i,
    {
        if chars_eq_str(chars_of(bookmarks[i].url.as_str()).as_slice(), url) {
            return false;
        }
        i = i + 1;
    }
    let ghost before = bookmark_views(bookmarks@);
    bookmarks.push(Bookmark { url: url.to_string(), title: None, folder: None });
    assert(bookmark_views(bookmarks@) =~= before.push(
        BookmarkView { url: url@, title: None, folder: None },
    ));
    true
}

/// Applies a downloads-list action: open the file, or forget the entry
/// (the file stays on disk). Out-of-range indexes change nothing; a
/// removal re-renders the page.
pub fn apply_download_action(downloads: &mut Vec<DownloadRecord>, action: DownloadPageAction) -> (r:
    ListEffects)
    ensures
        match action {
            DownloadPageAction::Open(i) => final(downloads)@ == old(downloads)@ && if i < old(
                downloads,
            )@.len() {
                effects_are(r, Some(old(downloads)@[i as int].path@), false, false)
            } else {
                effects_are(r, None, false, false)
            },
            DownloadPageAction::Remove(i) => if i < old(downloads)@.len() {
                final(downloads)@ == old(downloads)@.remove(i as int) && effects_are(r, None, true, true)
            } else {
                final(downloads)@ == old(downloads)@ && effects_are(r, None, false, true)
            },
        },
{
    match action {
        DownloadPageAction::Open(i) => {
            if i < downloads.len() {
                ListEffects { open: Some(downloads[i].path.clone()), save: false, refresh: false }
            } else {
                ListEffects { open: None, save: false, refresh: false }
            }
        },
        DownloadPageAction::Remove(i) => {
            if i < downloads.len() {
                let _ = downloads.remove(i);
                ListEffects { open: None, save: true, refresh: true }
            } else {
                ListEffects { open: None, save: false, refresh: true }
            }
        },
    }
}

/// Applies a history-list action: open the visited URL, forget one
/// entry, or forget all. Out-of-range indexes change nothing.
pub fn apply_history_action(history: &mut Vec<HistoryEntry>, action: HistoryPageAction) -> (r:
    ListEffects)
    ensures
        match action {
            HistoryPageAction::Open(i) => final(history)@ == old(history)@ && if i < old(
                history,
            )@.len() {
                effects_are(r, Some(old(history)@[i as int].url@), false, false)
            } else {
                effects_are(r, None, false, false)
            },
            HistoryPageAction::Remove(i) => if i < old(history)@.len() {
                final(history)@ == old(history)@.remove(i as int) && effects_are(r, None, true, true)
            } else {
                final(history)@ == old(history)@ && effects_are(r, None, false, true)
            },
            HistoryPageAction::Clear => final(history)@.len() == 0 && effects_are(r, None, true, true),
        },
{
    match action {
        HistoryPageAction::Open(i) => {
            if i < history.len() {
                ListEffects { open: Some(history[i].url.clone()), save: false, refresh: false }
            } else {
                ListEffects { open: None, save: false, refresh: false }
            }
        },
        HistoryPageAction::Remove(i) => {
            if i < history.len() {
                let _ = history.remove(i);
                ListEffects { open: None, save: true, refresh: true }
            } else {
                ListEffects { open: None, save: false, refresh: true }
            }
        },
        HistoryPageAction::Clear => {
            history.clear();
            ListEffects { open: None, save: true, refresh: true }
        },
    }
}

/// What a workspace-list action asks of the slot store.
#[derive(Clone, Copy, Debug, PartialEq, Eq, Structural)]
pub enum WorkspaceStep {
    /// Switch to the slot with this id.
    SwitchTo(u32),
    /// Delete the slot with this id.
    Delete(u32),
    /// Snapshot the canvas into a new slot and switch to it.
    AddAndSwitch,
    /// Re-render the list only (slots are numbered; renaming does nothing).
    Refresh,
    /// Nothing (the index names no slot).
    Nothing,
}

/// The step for a workspace-list action, given the slot ids in list order.
pub open spec fn workspace_step(ids: Seq<u32>, action: WorkspacePageAction) -> WorkspaceStep {
    match action {
        WorkspacePageAction::Load(i) => if i < ids.len() {
            WorkspaceStep::SwitchTo(ids[i as int])
        } else {
            WorkspaceStep::Nothing
        },
        WorkspacePageAction::Rename(_, _) => WorkspaceStep::Refresh,
        WorkspacePageAction::Delete(i) => if i < ids.len() {
            WorkspaceStep::Delete(ids[i as int])
        } else {
            WorkspaceStep::Nothing
        },
        WorkspacePageAction::SaveNew => WorkspaceStep::AddAndSwitch,
    }
}

pub fn workspace_action_step(ids: &[u32], action: WorkspacePageAction) -> (r: WorkspaceStep)
    ensures
        r == workspace_step(ids@, action),
{
    match action {
        WorkspacePageAction::Load(i) => if i < ids.len() {
            WorkspaceStep::SwitchTo(ids[i])
        } else {
            WorkspaceStep::Nothing
        },
        WorkspacePageAction::Rename(_, _) => WorkspaceStep::Refresh,
        WorkspacePageAction::Delete(i) => if i < ids.len() {
            WorkspaceStep::Delete(ids[i])
        } else {
            WorkspaceStep::Nothing
        },
        WorkspacePageAction::SaveNew => WorkspaceStep::AddAndSwitch,
    }
}

/// What a right-click menu page asked for.
#[derive(Clone, Copy, Debug, PartialEq, Eq, Structural)]
pub enum ContextActionKind {
    /// A right-click landed on a page: open a new menu for it.
    Hit,
    OpenLink,
    Copy,
    SaveImage,
    GenPassword,
    FillPassword,
    ClosePage,
    NewPage,
    SaveWorkspace,
    Reader,
    Dismiss,
}

/// The open right-click menu: the menu's own page and the page it applies
/// to, if any.
#[derive(Clone, Copy, Debug, PartialEq, Eq, Structural)]
pub struct ContextMenuState {
    pub menu_browser_id: i32,
    pub target_browser_id: Option<i32>,
}

/// What the caller does for a menu action besides the action itself: close
/// the old menu's page, and the page the action applies to.
#[derive(Clone, Copy, Debug, PartialEq, Eq, Structural)]
pub struct ContextStep {
    pub close_menu_page: Option<i32>,
    pub target: Option<i32>,
}

/// The page a menu action applies to: a new menu applies to the page the
/// pending right-click hit (else the page that sent it); saving an image
/// to the menu's page (else the sender); filling a password, closing a
/// page and reader mode to the menu's page, if it has one; the rest to no
/// page.
pub open spec fn context_target(
    kind: ContextActionKind,
    menu: Option<ContextMenuState>,
    browser_id: i32,
    pending_hit: Option<i32>,
) -> Option<i32> {
    let menu_target = match menu {
        Some(m) => m.target_browser_id,
        None => None,
    };
    match kind {
        ContextActionKind::Hit => Some(
            match pending_hit {
                Some(t) => t,
                None => browser_id,
            },
        ),
        ContextActionKind::SaveImage => Some(
            match menu_target {
                Some(t) => t,
                None => browser_id,
            },
        ),
        ContextActionKind::FillPassword | ContextActionKind::ClosePage | ContextActionKind::Reader => menu_target,
        _ => None,
    }
}

/// Every menu action dismisses the open menu (a new one replaces it): the
/// menu is forgotten and its page is to be closed; the step also names the
/// page the action applies to (`browser_id` sent the action,
/// `pending_hit` is the page a right-click last landed on).
pub fn context_action_step(
    menu: &mut Option<ContextMenuState>,
    kind: ContextActionKind,
    browser_id: i32,
    pending_hit: Option<i32>,
) -> (r: ContextStep)
    ensures
        *final(menu) is None,
        r.close_menu_page == match *old(menu) {
            Some(m) => Some(m.menu_browser_id),
            None => None,
        },
        r.target == context_target(kind, *old(menu), browser_id, pending_hit),
{
    let menu_target = match menu {
        Some(m) => m.target_browser_id,
        None => None,
    };
    let target = match kind {
        ContextActionKind::Hit => Some(
            match pending_hit {
                Some(t) => t,
                None => browser_id,
            },
        ),
        ContextActionKind::SaveImage => Some(
            match menu_target {
                Some(t) => t,
                None => browser_id,
            },
        ),
        ContextActionKind::FillPassword | ContextActionKind::ClosePage | ContextActionKind::Reader => menu_target,
        _ => None,
    };
    let close_menu_page = match menu {
        Some(m) => Some(m.menu_browser_id),
        None => None,
    };
    *menu = None;
    ContextStep { close_menu_page, target }
}

} // verus!
