//! Verified core of the file manager, workspace sidebar, context menu and
//! drag-and-drop behaviour of the terminal front end.
use vstd::prelude::*;

pub mod text;
pub mod paths;
pub mod size;
pub mod entries;
pub mod input;
pub mod file_manager;
pub mod viewer;
pub mod sidebars;
pub mod menus;
pub mod term_window;
pub mod workspaces;
pub mod drag;
pub mod workspace_overlay;
pub mod picker;

verus! {

} // verus!
