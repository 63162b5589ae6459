//! What can go wrong while a registry is filled or a layout is rebuilt.

use vstd::prelude::*;
use vstd::string::StringExecFns;

verus! {

/// A failure of the dock engine. Each of them leaves the caller free to go
/// on, for one with a default layout.
#[derive(Debug, PartialEq, Eq)]
pub enum DockError {
    /// A stored node names a panel kind that no factory is registered for.
    UnknownPanel { panel_name: String },
    /// A stored node's layout data does not fit its children: a stack with
    /// another number of sizes than children, or tabs whose active index
    /// points past the last child.
    CorruptLayout,
    /// A stored node carries layout data of a kind that cannot be rebuilt.
    UnsupportedLayoutKind,
    /// A factory is already registered under the name.
    DuplicatePanel { panel_name: String },
}

/// The mathematical value of a [`DockError`].
pub ghost enum DockErrorView {
    UnknownPanel { panel_name: Seq<char> },
    CorruptLayout,
    UnsupportedLayoutKind,
    DuplicatePanel { panel_name: Seq<char> },
}

impl View for DockError {
    type V = DockErrorView;

    open spec fn view(&self) -> DockErrorView {
        match *self {
            DockError::UnknownPanel { panel_name } => DockErrorView::UnknownPanel {
                panel_name: panel_name@,
            },
            DockError::CorruptLayout => DockErrorView::CorruptLayout,
            DockError::UnsupportedLayoutKind => DockErrorView::UnsupportedLayoutKind,
            DockError::DuplicatePanel { panel_name } => DockErrorView::DuplicatePanel {
                panel_name: panel_name@,
            },
        }
    }
}

impl Clone for DockError {
    /// The same failure once more.
    fn clone(&self) -> (res: Self)
        ensures
            res == *self,
    {
        match self {
            DockError::UnknownPanel { panel_name } => DockError::UnknownPanel {
                panel_name: panel_name.clone(),
            },
            DockError::CorruptLayout => DockError::CorruptLayout,
            DockError::UnsupportedLayoutKind => DockError::UnsupportedLayoutKind,
            DockError::DuplicatePanel { panel_name } => DockError::DuplicatePanel {
                panel_name: panel_name.clone(),
            },
        }
    }
}

impl DockErrorView {
    /// The text that describes the failure to a reader.
    pub open spec fn message(self) -> Seq<char> {
        match self {
            DockErrorView::UnknownPanel { panel_name } => {
                "layout load failed: unknown panel type `"@ + panel_name + "`"@
            },
            DockErrorView::CorruptLayout => "corrupt layout"@,
            DockErrorView::UnsupportedLayoutKind => "unsupported layout kind"@,
            DockErrorView::DuplicatePanel { panel_name } => {
                "duplicate panel registration: `"@ + panel_name + "`"@
            },
        }
    }
}

impl DockError {
    /// The text that describes the failure to a reader.
    pub fn message(&self) -> (text: String)
        ensures
            text@ == self@.message(),
    {
        match self {
            DockError::UnknownPanel { panel_name } => {
                let mut text = String::from_str("layout load failed: unknown panel type `");
                text.append(panel_name.as_str());
                text.append("`");
                text
            },
            DockError::CorruptLayout => String::from_str("corrupt layout"),
            DockError::UnsupportedLayoutKind => String::from_str("unsupported layout kind"),
            DockError::DuplicatePanel { panel_name } => {
                let mut text = String::from_str("duplicate panel registration: `");
                text.append(panel_name.as_str());
                text.append("`");
                text
            },
        }
    }
}

} // verus!
