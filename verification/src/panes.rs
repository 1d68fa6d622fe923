//! The fixed set of editor panes and their display names.

use vstd::prelude::*;

verus! {

/// What a pane shows.
#[derive(Clone, Copy, PartialEq, Eq, Structural)]
pub enum PaneType {
    CodeEditor,
    ErrorViewer,
    RenderTarget,
}

impl PaneType {
    /// The pane's display name.
    pub fn name(&self) -> (r: &'static str)
        ensures
            *self == PaneType::CodeEditor ==> r@ == "Editor"@,
            *self == PaneType::ErrorViewer ==> r@ == "Error Viewer"@,
            *self == PaneType::RenderTarget ==> r@ == "Render Viewer"@,
    {
        match self {
            PaneType::CodeEditor => "Editor",
            PaneType::ErrorViewer => "Error Viewer",
            PaneType::RenderTarget => "Render Viewer",
        }
    }
}

/// One pane of the workspace layout.
pub struct ShaderWheelsPane {
    pub id_number: usize,
    pub kind: PaneType,
}

} // verus!
