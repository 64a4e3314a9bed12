//! Which pointer shape the window shows for the cursor type a page asks
//! for.

use vstd::prelude::*;

verus! {

/// The cursor types a page can ask for.
#[derive(Clone, Copy, PartialEq, Eq, Structural, Debug)]
pub enum CefCursor {
    Pointer,
    Cross,
    Hand,
    IBeam,
    Wait,
    Help,
    EastResize,
    NorthResize,
    NorthEastResize,
    NorthWestResize,
    SouthResize,
    SouthEastResize,
    SouthWestResize,
    WestResize,
    NorthSouthResize,
    EastWestResize,
    NorthEastSouthWestResize,
    NorthWestSouthEastResize,
    ColumnResize,
    RowResize,
    MiddlePanning,
    EastPanning,
    NorthPanning,
    NorthEastPanning,
    NorthWestPanning,
    SouthPanning,
    SouthEastPanning,
    SouthWestPanning,
    WestPanning,
    MiddlePanningVertical,
    MiddlePanningHorizontal,
    Move,
    VerticalText,
    Cell,
    ContextMenu,
    Alias,
    Progress,
    NoDrop,
    Copy,
    DndCopy,
    Invisible,
    NotAllowed,
    ZoomIn,
    ZoomOut,
    Grab,
    DndMove,
    Grabbing,
    DndNone,
    DndLink,
    Custom,
    Other,
}

/// The pointer shapes the window can show.
#[derive(Clone, Copy, PartialEq, Eq, Structural, Debug)]
pub enum CursorShape {
    Default,
    Crosshair,
    Pointer,
    Text,
    Wait,
    Help,
    EResize,
    NResize,
    NeResize,
    NwResize,
    SResize,
    SeResize,
    SwResize,
    WResize,
    NsResize,
    EwResize,
    NeswResize,
    NwseResize,
    ColResize,
    RowResize,
    AllScroll,
    Move,
    VerticalText,
    Cell,
    ContextMenu,
    Alias,
    Progress,
    NoDrop,
    Copy,
    NotAllowed,
    ZoomIn,
    ZoomOut,
    Grab,
    Grabbing,
}

/// The shape shown for each cursor type: the matching shape where the
/// window has one, a scrolling arrow for every panning type, and the
/// default arrow for the rest.
pub open spec fn cursor_shape(t: CefCursor) -> CursorShape {
    match t {
        CefCursor::Pointer => CursorShape::Default,
        CefCursor::Cross => CursorShape::Crosshair,
        CefCursor::Hand => CursorShape::Pointer,
        CefCursor::IBeam => CursorShape::Text,
        CefCursor::Wait => CursorShape::Wait,
        CefCursor::Help => CursorShape::Help,
        CefCursor::EastResize => CursorShape::EResize,
        CefCursor::NorthResize => CursorShape::NResize,
        CefCursor::NorthEastResize => CursorShape::NeResize,
        CefCursor::NorthWestResize => CursorShape::NwResize,
        CefCursor::SouthResize => CursorShape::SResize,
        CefCursor::SouthEastResize => CursorShape::SeResize,
        CefCursor::SouthWestResize => CursorShape::SwResize,
        CefCursor::WestResize => CursorShape::WResize,
        CefCursor::NorthSouthResize => CursorShape::NsResize,
        CefCursor::EastWestResize => CursorShape::EwResize,
        CefCursor::NorthEastSouthWestResize => CursorShape::NeswResize,
        CefCursor::NorthWestSouthEastResize => CursorShape::NwseResize,
        CefCursor::ColumnResize => CursorShape::ColResize,
        CefCursor::RowResize => CursorShape::RowResize,
        CefCursor::MiddlePanning | CefCursor::EastPanning | CefCursor::NorthPanning | CefCursor::NorthEastPanning | CefCursor::NorthWestPanning | CefCursor::SouthPanning | CefCursor::SouthEastPanning | CefCursor::SouthWestPanning | CefCursor::WestPanning | CefCursor::MiddlePanningVertical | CefCursor::MiddlePanningHorizontal => CursorShape::AllScroll,
        CefCursor::Move => CursorShape::Move,
        CefCursor::VerticalText => CursorShape::VerticalText,
        CefCursor::Cell => CursorShape::Cell,
        CefCursor::ContextMenu => CursorShape::ContextMenu,
        CefCursor::Alias => CursorShape::Alias,
        CefCursor::Progress => CursorShape::Progress,
        CefCursor::NoDrop => CursorShape::NoDrop,
        CefCursor::Copy | CefCursor::DndCopy => CursorShape::Copy,
        CefCursor::Invisible => CursorShape::Default,
        CefCursor::NotAllowed => CursorShape::NotAllowed,
        CefCursor::ZoomIn => CursorShape::ZoomIn,
        CefCursor::ZoomOut => CursorShape::ZoomOut,
        CefCursor::Grab | CefCursor::DndMove => CursorShape::Grab,
        CefCursor::Grabbing => CursorShape::Grabbing,
        CefCursor::DndNone => CursorShape::NoDrop,
        CefCursor::DndLink => CursorShape::Alias,
        _ => CursorShape::Default,
    }
}

/// The pointer shape for a page's cursor type.
pub fn cef_cursor_to_winit(t: CefCursor) -> (r: CursorShape)
    ensures
        r == cursor_shape(t),
{
    match t {
        CefCursor::Pointer => CursorShape::Default,
        CefCursor::Cross => CursorShape::Crosshair,
        CefCursor::Hand => CursorShape::Pointer,
        CefCursor::IBeam => CursorShape::Text,
        CefCursor::Wait => CursorShape::Wait,
        CefCursor::Help => CursorShape::Help,
        CefCursor::EastResize => CursorShape::EResize,
        CefCursor::NorthResize => CursorShape::NResize,
        CefCursor::NorthEastResize => CursorShape::NeResize,
        CefCursor::NorthWestResize => CursorShape::NwResize,
        CefCursor::SouthResize => CursorShape::SResize,
        CefCursor::SouthEastResize => CursorShape::SeResize,
        CefCursor::SouthWestResize => CursorShape::SwResize,
        CefCursor::WestResize => CursorShape::WResize,
        CefCursor::NorthSouthResize => CursorShape::NsResize,
        CefCursor::EastWestResize => CursorShape::EwResize,
        CefCursor::NorthEastSouthWestResize => CursorShape::NeswResize,
        CefCursor::NorthWestSouthEastResize => CursorShape::NwseResize,
        CefCursor::ColumnResize => CursorShape::ColResize,
        CefCursor::RowResize => CursorShape::RowResize,
        CefCursor::MiddlePanning | CefCursor::EastPanning | CefCursor::NorthPanning | CefCursor::NorthEastPanning | CefCursor::NorthWestPanning | CefCursor::SouthPanning | CefCursor::SouthEastPanning | CefCursor::SouthWestPanning | CefCursor::WestPanning | CefCursor::MiddlePanningVertical | CefCursor::MiddlePanningHorizontal => CursorShape::AllScroll,
        CefCursor::Move => CursorShape::Move,
        CefCursor::VerticalText => CursorShape::VerticalText,
        CefCursor::Cell => CursorShape::Cell,
        CefCursor::ContextMenu => CursorShape::ContextMenu,
        CefCursor::Alias => CursorShape::Alias,
        CefCursor::Progress => CursorShape::Progress,
        CefCursor::NoDrop => CursorShape::NoDrop,
        CefCursor::Copy | CefCursor::DndCopy => CursorShape::Copy,
        CefCursor::Invisible => CursorShape::Default,
        CefCursor::NotAllowed => CursorShape::NotAllowed,
        CefCursor::ZoomIn => CursorShape::ZoomIn,
        CefCursor::ZoomOut => CursorShape::ZoomOut,
        CefCursor::Grab | CefCursor::DndMove => CursorShape::Grab,
        CefCursor::Grabbing => CursorShape::Grabbing,
        CefCursor::DndNone => CursorShape::NoDrop,
        CefCursor::DndLink => CursorShape::Alias,
        _ => CursorShape::Default,
    }
}

} // verus!
