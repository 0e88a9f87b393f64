//! The discrete actions the controller can be asked to perform: one tagged
//! variant per user-visible operation, dispatched by `App::handle_action`.

use vstd::prelude::*;

verus! {

#[derive(Debug, Clone, Copy, PartialEq, Eq, Structural)]
pub enum Action {
    // Application lifecycle
    Quit,
    // Navigation
    SelectUp,
    SelectDown,
    SelectPageUp,
    SelectPageDown,
    SelectFirst,
    SelectLast,
    // View toggles
    ToggleHelp,
    HelpScrollUp,
    HelpScrollDown,
    TogglePause,
    ToggleGraph,
    ToggleIndices,
    ToggleSystemIndices,
    ToggleHealth,
    // Data operations
    ShowDetails,
    ToggleExclude,
    ClearExclusions,
    // Settings
    IncreaseRefreshRate,
    DecreaseRefreshRate,
    NextColormap,
    PrevColormap,
    NextColumn,
    PrevColumn,
    ToggleSortOrder,
    // Filter
    EnterFilterMode,
    ExitFilterMode,
    ClearFilter,
    // Details popup
    CloseDetails,
    DetailsScrollUp,
    DetailsScrollDown,
    DetailsScrollPageUp,
    DetailsScrollPageDown,
}

} // verus!
