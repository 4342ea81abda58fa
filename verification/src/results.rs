//! What a search hands back: result rows and the actions tied to them.

use vstd::prelude::*;

verus! {

/// The mode in which a result was produced.
#[derive(Clone, Copy, Debug, PartialEq, Eq, Structural)]
pub enum SearchMode {
    Search,
    Calculator,
}

/// The side effect of selecting a result. An action carries all that its
/// execution needs.
#[derive(Clone, Debug, PartialEq, Eq)]
pub enum ResultAction {
    /// Open a path with the system's default handler.
    Open { path: String },
    /// Copy a text to the clipboard.
    Copy { text: String },
    /// Run the callback that a script registered under a name.
    Lua { name: String },
}

/// One row of a result list.
#[derive(Clone, Debug, PartialEq, Eq)]
pub struct SearchResult {
    pub mode: SearchMode,
    pub text: String,
    pub action: Option<ResultAction>,
}

/// The mathematical value of a [`ResultAction`].
pub enum ActionView {
    Open { path: Seq<char> },
    Copy { text: Seq<char> },
    Lua { name: Seq<char> },
}

/// The mathematical value of a [`SearchResult`].
pub struct ResultView {
    pub mode: SearchMode,
    pub text: Seq<char>,
    pub action: Option<ActionView>,
}

impl View for ResultAction {
    type V = ActionView;

    open spec fn view(&self) -> ActionView {
        match self {
            ResultAction::Open { path } => ActionView::Open { path: path@ },
            ResultAction::Copy { text } => ActionView::Copy { text: text@ },
            ResultAction::Lua { name } => ActionView::Lua { name: name@ },
        }
    }
}

/// The value of an optional action.
pub open spec fn action_view(action: Option<ResultAction>) -> Option<ActionView> {
    match action {
        Some(a) => Some(a@),
        None => None,
    }
}

impl View for SearchResult {
    type V = ResultView;

    open spec fn view(&self) -> ResultView {
        ResultView { mode: self.mode, text: self.text@, action: action_view(self.action) }
    }
}

/// The values of a list of results, row by row.
pub open spec fn rows_of(results: Seq<SearchResult>) -> Seq<ResultView> {
    results.map_values(|r: SearchResult| r@)
}

/// Whether some row shows `text`.
pub open spec fn has_text(rows: Seq<ResultView>, text: Seq<char>) -> bool {
    exists|k: int| 0 <= k < rows.len() && (#[trigger] rows[k]).text == text
}

} // verus!
