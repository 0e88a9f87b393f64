//! Input-mode router: decides which component receives a keystroke. The
//! priority order is fixed: an open help overlay first, then an open detail
//! overlay, then filter editing, and the full key table only in normal mode.

use vstd::prelude::*;

use crate::actions::Action;
use crate::app::App;

verus! {

/// A keystroke, reduced to what the router reads.
#[derive(Debug, Clone, Copy, PartialEq, Eq, Structural)]
pub enum KeyCode {
    Char(char),
    Esc,
    Enter,
    Up,
    Down,
    PageUp,
    PageDown,
    Home,
    End,
    Other,
}

/// One key press with its control modifier.
#[derive(Debug, Clone, Copy, PartialEq, Eq, Structural)]
pub struct KeyPress {
    pub code: KeyCode,
    pub ctrl: bool,
}

/// The key table while the help overlay is open: only scrolling and
/// closing are live.
pub open spec fn help_key_action(key: KeyPress) -> Option<Action> {
    match key.code {
        KeyCode::Esc => Some(Action::ToggleHelp),
        KeyCode::Enter => Some(Action::ToggleHelp),
        KeyCode::Char(c) => if c == 'q' || c == '?' {
            Some(Action::ToggleHelp)
        } else if c == 'k' {
            Some(Action::HelpScrollUp)
        } else if c == 'j' {
            Some(Action::HelpScrollDown)
        } else {
            None
        },
        KeyCode::Up => Some(Action::HelpScrollUp),
        KeyCode::Down => Some(Action::HelpScrollDown),
        _ => None,
    }
}

/// The key table while the detail overlay is open: only scrolling and
/// closing are live.
pub open spec fn detail_key_action(key: KeyPress) -> Option<Action> {
    match key.code {
        KeyCode::Esc => Some(Action::CloseDetails),
        KeyCode::Enter => Some(Action::CloseDetails),
        KeyCode::Char(c) => if c == 'q' {
            Some(Action::CloseDetails)
        } else if c == 'k' {
            Some(Action::DetailsScrollUp)
        } else if c == 'j' {
            Some(Action::DetailsScrollDown)
        } else {
            None
        },
        KeyCode::Up => Some(Action::DetailsScrollUp),
        KeyCode::Down => Some(Action::DetailsScrollDown),
        KeyCode::PageUp => Some(Action::DetailsScrollPageUp),
        KeyCode::PageDown => Some(Action::DetailsScrollPageDown),
        _ => None,
    }
}

/// The key table while the filter line is being edited: only the explicit
/// clear binding is intercepted; everything else falls through to text
/// entry.
pub open spec fn filter_key_action(key: KeyPress) -> Option<Action> {
    match key.code {
        KeyCode::Char(c) => if c == 'u' && key.ctrl {
            Some(Action::ClearFilter)
        } else {
            None
        },
        _ => None,
    }
}

/// The full key table of normal mode.
pub open spec fn normal_key_action(key: KeyPress) -> Option<Action> {
    match key.code {
        KeyCode::Char(c) => if c == 'q' {
            Some(Action::Quit)
        } else if c == '?' {
            Some(Action::ToggleHelp)
        } else if c == ' ' {
            Some(Action::TogglePause)
        } else if c == '/' {
            Some(Action::EnterFilterMode)
        } else if c == 'x' {
            Some(Action::ToggleExclude)
        } else if c == 'X' {
            Some(Action::ClearExclusions)
        } else if c == 'l' {
            Some(Action::NextColumn)
        } else if c == 'h' {
            Some(Action::PrevColumn)
        } else if c == 'r' {
            Some(Action::ToggleSortOrder)
        } else if c == '+' || c == '=' {
            Some(Action::DecreaseRefreshRate)
        } else if c == '-' || c == '_' {
            Some(Action::IncreaseRefreshRate)
        } else if c == '1' {
            Some(Action::ToggleGraph)
        } else if c == '2' {
            Some(Action::ToggleHealth)
        } else if c == '3' {
            Some(Action::ToggleIndices)
        } else if c == '.' {
            Some(Action::ToggleSystemIndices)
        } else if c == 'c' {
            Some(Action::NextColormap)
        } else if c == 'C' {
            Some(Action::PrevColormap)
        } else if c == 'k' {
            Some(Action::SelectUp)
        } else if c == 'j' {
            Some(Action::SelectDown)
        } else if c == 'b' && key.ctrl {
            Some(Action::SelectPageUp)
        } else if c == 'f' && key.ctrl {
            Some(Action::SelectPageDown)
        } else if c == 'g' {
            Some(Action::SelectFirst)
        } else if c == 'G' {
            Some(Action::SelectLast)
        } else {
            None
        },
        KeyCode::Esc => Some(Action::Quit),
        KeyCode::Enter => Some(Action::ShowDetails),
        KeyCode::Up => Some(Action::SelectUp),
        KeyCode::Down => Some(Action::SelectDown),
        KeyCode::PageUp => Some(Action::SelectPageUp),
        KeyCode::PageDown => Some(Action::SelectPageDown),
        KeyCode::Home => Some(Action::SelectFirst),
        KeyCode::End => Some(Action::SelectLast),
        KeyCode::Other => None,
    }
}

/// The router: the help overlay's table wins over the detail overlay's,
/// which wins over filter editing, which wins over normal mode.
pub open spec fn spec_key_action(
    help_open: bool,
    detail_open: bool,
    filter_active: bool,
    key: KeyPress,
) -> Option<Action> {
    if help_open {
        help_key_action(key)
    } else if detail_open {
        detail_key_action(key)
    } else if filter_active {
        filter_key_action(key)
    } else {
        normal_key_action(key)
    }
}

/// Routes one keystroke to the action the active mode maps it to, or to
/// nothing: in filter-editing mode an unmapped key then belongs to the text
/// input.
pub fn map_key_to_action(app: &App, key: KeyPress) -> (r: Option<Action>)
    ensures
        r == spec_key_action(
            app.show_help_popup,
            app.details.show_popup,
            app.filter.active,
            key,
        ),
{
    if app.show_help_popup {
        return match key.code {
            KeyCode::Esc => Some(Action::ToggleHelp),
            KeyCode::Enter => Some(Action::ToggleHelp),
            KeyCode::Char(c) => {
                if c == 'q' || c == '?' {
                    Some(Action::ToggleHelp)
                } else if c == 'k' {
                    Some(Action::HelpScrollUp)
                } else if c == 'j' {
                    Some(Action::HelpScrollDown)
                } else {
                    None
                }
            },
            KeyCode::Up => Some(Action::HelpScrollUp),
            KeyCode::Down => Some(Action::HelpScrollDown),
            _ => None,
        };
    }
    if app.details.show_popup {
        return match key.code {
            KeyCode::Esc => Some(Action::CloseDetails),
            KeyCode::Enter => Some(Action::CloseDetails),
            KeyCode::Char(c) => {
                if c == 'q' {
                    Some(Action::CloseDetails)
                } else if c == 'k' {
                    Some(Action::DetailsScrollUp)
                } else if c == 'j' {
                    Some(Action::DetailsScrollDown)
                } else {
                    None
                }
            },
            KeyCode::Up => Some(Action::DetailsScrollUp),
            KeyCode::Down => Some(Action::DetailsScrollDown),
            KeyCode::PageUp => Some(Action::DetailsScrollPageUp),
            KeyCode::PageDown => Some(Action::DetailsScrollPageDown),
            _ => None,
        };
    }
    if app.filter.active {
        return match key.code {
            KeyCode::Char(c) => {
                if c == 'u' && key.ctrl {
                    Some(Action::ClearFilter)
                } else {
                    None
                }
            },
            _ => None,
        };
    }
    match key.code {
        KeyCode::Char(c) => {
            if c == 'q' {
                Some(Action::Quit)
            } else if c == '?' {
                Some(Action::ToggleHelp)
            } else if c == ' ' {
                Some(Action::TogglePause)
            } else if c == '/' {
                Some(Action::EnterFilterMode)
            } else if c == 'x' {
                Some(Action::ToggleExclude)
            } else if c == 'X' {
                Some(Action::ClearExclusions)
            } else if c == 'l' {
                Some(Action::NextColumn)
            } else if c == 'h' {
                Some(Action::PrevColumn)
            } else if c == 'r' {
                Some(Action::ToggleSortOrder)
            } else if c == '+' || c == '=' {
                Some(Action::DecreaseRefreshRate)
            } else if c == '-' || c == '_' {
                Some(Action::IncreaseRefreshRate)
            } else if c == '1' {
                Some(Action::ToggleGraph)
            } else if c == '2' {
                Some(Action::ToggleHealth)
            } else if c == '3' {
                Some(Action::ToggleIndices)
            } else if c == '.' {
                Some(Action::ToggleSystemIndices)
            } else if c == 'c' {
                Some(Action::NextColormap)
            } else if c == 'C' {
                Some(Action::PrevColormap)
            } else if c == 'k' {
                Some(Action::SelectUp)
            } else if c == 'j' {
                Some(Action::SelectDown)
            } else if c == 'b' && key.ctrl {
                Some(Action::SelectPageUp)
            } else if c == 'f' && key.ctrl {
                Some(Action::SelectPageDown)
            } else if c == 'g' {
                Some(Action::SelectFirst)
            } else if c == 'G' {
                Some(Action::SelectLast)
            } else {
                None
            }
        },
        KeyCode::Esc => Some(Action::Quit),
        KeyCode::Enter => Some(Action::ShowDetails),
        KeyCode::Up => Some(Action::SelectUp),
        KeyCode::Down => Some(Action::SelectDown),
        KeyCode::PageUp => Some(Action::SelectPageUp),
        KeyCode::PageDown => Some(Action::SelectPageDown),
        KeyCode::Home => Some(Action::SelectFirst),
        KeyCode::End => Some(Action::SelectLast),
        KeyCode::Other => None,
    }
}

} // verus!
