//! Commands for a browser pane.

use vstd::prelude::*;

verus! {

/// Commands accepted by a browser pane's actor.
#[derive(Debug, PartialEq, Eq)]
pub enum BrowserCommand {
    Navigate(String),
    /// Resizes the page to the pane's pixel size, so that drawing it into the
    /// pane distorts nothing.
    SetViewport { width: u32, height: u32 },
    /// Button press at a pixel. Paired with [`Self::MouseUp`] rather than
    /// pressing and releasing in one go, so a press followed by
    /// [`Self::MouseMove`] is a real drag.
    MouseDown { x: i32, y: i32 },
    /// Pointer moved with the button held.
    MouseMove { x: i32, y: i32 },
    /// Button released at a pixel.
    MouseUp { x: i32, y: i32 },
    Reload,
    Back,
    Forward,
    Scroll { delta_x: i32, delta_y: i32 },
    /// Printable text for the focused element. Adjacent values are merged into
    /// one call.
    TypeText(String),
    /// A named key or modifier chord (`Enter`, `Control+a`).
    PressKey(String),
}

/// The contents of a [`BrowserCommand`].
pub enum CommandView {
    Navigate(Seq<char>),
    SetViewport { width: u32, height: u32 },
    MouseDown { x: i32, y: i32 },
    MouseMove { x: i32, y: i32 },
    MouseUp { x: i32, y: i32 },
    Reload,
    Back,
    Forward,
    Scroll { delta_x: i32, delta_y: i32 },
    TypeText(Seq<char>),
    PressKey(Seq<char>),
}

impl View for BrowserCommand {
    type V = CommandView;

    open spec fn view(&self) -> CommandView {
        match self {
            BrowserCommand::Navigate(url) => CommandView::Navigate(url@),
            BrowserCommand::SetViewport { width, height } => CommandView::SetViewport {
                width: *width,
                height: *height,
            },
            BrowserCommand::MouseDown { x, y } => CommandView::MouseDown { x: *x, y: *y },
            BrowserCommand::MouseMove { x, y } => CommandView::MouseMove { x: *x, y: *y },
            BrowserCommand::MouseUp { x, y } => CommandView::MouseUp { x: *x, y: *y },
            BrowserCommand::Reload => CommandView::Reload,
            BrowserCommand::Back => CommandView::Back,
            BrowserCommand::Forward => CommandView::Forward,
            BrowserCommand::Scroll { delta_x, delta_y } => CommandView::Scroll {
                delta_x: *delta_x,
                delta_y: *delta_y,
            },
            BrowserCommand::TypeText(text) => CommandView::TypeText(text@),
            BrowserCommand::PressKey(key) => CommandView::PressKey(key@),
        }
    }
}

/// The contents of a list of commands.
pub open spec fn commands_view(commands: Seq<BrowserCommand>) -> Seq<CommandView> {
    commands.map_values(|c: BrowserCommand| c@)
}

} // verus!
