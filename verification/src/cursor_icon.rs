//! Abstract pointer shapes and the stock cursors of the system that stand
//! for them.

use vstd::prelude::*;

verus! {

/// Identifier of the stock arrow cursor.
pub const IDC_ARROW: u16 = 32512;

/// Identifier of the stock text-insertion cursor.
pub const IDC_IBEAM: u16 = 32513;

/// Identifier of the stock hourglass cursor.
pub const IDC_WAIT: u16 = 32514;

/// Identifier of the stock crosshair cursor.
pub const IDC_CROSS: u16 = 32515;

/// Identifier of the stock cursor with arrows to the north-west and south-east.
pub const IDC_SIZENWSE: u16 = 32642;

/// Identifier of the stock cursor with arrows to the north-east and south-west.
pub const IDC_SIZENESW: u16 = 32643;

/// Identifier of the stock cursor with arrows to the west and east.
pub const IDC_SIZEWE: u16 = 32644;

/// Identifier of the stock cursor with arrows to the north and south.
pub const IDC_SIZENS: u16 = 32645;

/// Identifier of the stock cursor with arrows in all four directions.
pub const IDC_SIZEALL: u16 = 32646;

/// Identifier of the stock slashed-circle cursor.
pub const IDC_NO: u16 = 32648;

/// Identifier of the stock hand cursor.
pub const IDC_HAND: u16 = 32649;

/// Identifier of the stock arrow-with-hourglass cursor.
pub const IDC_APPSTARTING: u16 = 32650;

/// Identifier of the stock arrow-with-question-mark cursor.
pub const IDC_HELP: u16 = 32651;

/// The shapes a pointer can be asked to take.
#[derive(Clone, Copy, Debug, PartialEq, Eq, Hash, Structural)]
pub enum CursorIcon {
    Default,
    Crosshair,
    Hand,
    Arrow,
    Move,
    Text,
    Wait,
    Help,
    Progress,
    NotAllowed,
    ContextMenu,
    Cell,
    VerticalText,
    Alias,
    Copy,
    NoDrop,
    Grab,
    Grabbing,
    AllScroll,
    ZoomIn,
    ZoomOut,
    EResize,
    NResize,
    NeResize,
    NwResize,
    SResize,
    SeResize,
    SwResize,
    WResize,
    EwResize,
    NsResize,
    NeswResize,
    NwseResize,
    ColResize,
    RowResize,
}

/// Whether `id` names one of the stock cursors that a shape can map to.
pub open spec fn is_stock_cursor(id: u16) -> bool {
    32512 <= id <= 32515 || 32642 <= id <= 32646 || 32648 <= id <= 32651
}

impl CursorIcon {
    /// Whether the shape resizes along the horizontal axis.
    pub open spec fn is_horizontal_resize(self) -> bool {
        self is EResize || self is WResize || self is EwResize || self is ColResize
    }

    /// Whether the shape resizes along the vertical axis.
    pub open spec fn is_vertical_resize(self) -> bool {
        self is NResize || self is SResize || self is NsResize || self is RowResize
    }

    /// Whether the shape resizes along the diagonal that rises to the right.
    pub open spec fn is_rising_diagonal_resize(self) -> bool {
        self is NeResize || self is SwResize || self is NeswResize
    }

    /// Whether the shape resizes along the diagonal that falls to the right.
    pub open spec fn is_falling_diagonal_resize(self) -> bool {
        self is NwResize || self is SeResize || self is NwseResize
    }

    /// Whether the shape moves or drags in any direction.
    pub open spec fn is_move(self) -> bool {
        self is Grab || self is Grabbing || self is Move || self is AllScroll
    }

    /// The stock cursor for a shape. A shape with no stock cursor of its own
    /// gets the arrow.
    pub open spec fn spec_windows_cursor(self) -> u16 {
        if self is Hand {
            IDC_HAND
        } else if self is Crosshair {
            IDC_CROSS
        } else if self is Text || self is VerticalText {
            IDC_IBEAM
        } else if self is NotAllowed || self is NoDrop {
            IDC_NO
        } else if self.is_move() {
            IDC_SIZEALL
        } else if self.is_horizontal_resize() {
            IDC_SIZEWE
        } else if self.is_vertical_resize() {
            IDC_SIZENS
        } else if self.is_rising_diagonal_resize() {
            IDC_SIZENESW
        } else if self.is_falling_diagonal_resize() {
            IDC_SIZENWSE
        } else if self is Wait {
            IDC_WAIT
        } else if self is Progress {
            IDC_APPSTARTING
        } else if self is Help {
            IDC_HELP
        } else {
            IDC_ARROW
        }
    }

    /// The identifier of the stock cursor that stands for this shape. Every
    /// shape has one, and none is zero.
    pub fn to_windows_cursor(self) -> (id: u16)
        ensures
            id == self.spec_windows_cursor(),
            is_stock_cursor(id),
            id != 0,
    {
        match self {
            CursorIcon::Arrow | CursorIcon::Default => IDC_ARROW,
            CursorIcon::Hand => IDC_HAND,
            CursorIcon::Crosshair => IDC_CROSS,
            CursorIcon::Text | CursorIcon::VerticalText => IDC_IBEAM,
            CursorIcon::NotAllowed | CursorIcon::NoDrop => IDC_NO,
            CursorIcon::Grab | CursorIcon::Grabbing | CursorIcon::Move | CursorIcon::AllScroll => {
                IDC_SIZEALL
            },
            CursorIcon::EResize
            | CursorIcon::WResize
            | CursorIcon::EwResize
            | CursorIcon::ColResize => IDC_SIZEWE,
            CursorIcon::NResize
            | CursorIcon::SResize
            | CursorIcon::NsResize
            | CursorIcon::RowResize => IDC_SIZENS,
            CursorIcon::NeResize | CursorIcon::SwResize | CursorIcon::NeswResize => IDC_SIZENESW,
            CursorIcon::NwResize | CursorIcon::SeResize | CursorIcon::NwseResize => IDC_SIZENWSE,
            CursorIcon::Wait => IDC_WAIT,
            CursorIcon::Progress => IDC_APPSTARTING,
            CursorIcon::Help => IDC_HELP,
            _ => IDC_ARROW,
        }
    }
}

impl Default for CursorIcon {
    fn default() -> (icon: CursorIcon)
        ensures
            icon == CursorIcon::Default,
    {
        CursorIcon::Default
    }
}

} // verus!
