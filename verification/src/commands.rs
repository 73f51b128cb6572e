//! Command strings of the compositor's request socket. Building the command
//! text is verified here; writing it to the socket and reading the reply are
//! transport concerns of the embedding application.

use vstd::prelude::*;

use crate::text::{concat_strs, dec_int, i32_to_dec_string};

verus! {

pub struct HyprlandCommands {}

impl HyprlandCommands {
    /// The dispatch command that focuses the window at `window_address`.
    pub fn set_active_window_command(window_address: &str) -> (r: String)
        ensures
            r@ == "dispatch focuswindow address:"@ + window_address@,
    {
        concat_strs("dispatch focuswindow address:", window_address)
    }

    /// The dispatch command that switches to workspace `workspace_id`.
    pub fn set_active_workspace_command(workspace_id: i32) -> (r: String)
        ensures
            r@ == "dispatch workspace "@ + dec_int(workspace_id as int),
    {
        let rendered = i32_to_dec_string(workspace_id);
        concat_strs("dispatch workspace ", rendered.as_str())
    }
}

} // verus!
