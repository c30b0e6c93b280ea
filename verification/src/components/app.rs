//! The main window: it shows or hides the seat panel and quits.
use vstd::prelude::*;

use crate::components::content::ContentOutput;
use crate::icons::{icon_text, GtkIcons};

verus! {

/// What the main window is told.
pub enum AppInput {
    CollapseSidebar,
    Quit,
}

/// What the main window asks its surroundings to do.
pub enum AppEffect {
    Quit,
}

/// The main window: whether the seat panel is collapsed.
pub struct App {
    pub collapsed: bool,
}

impl App {
    /// The window with the seat panel shown.
    pub fn new() -> (r: App)
        ensures
            !r.collapsed,
    {
        App { collapsed: false }
    }

    /// Answers a message: collapsing toggles the seat panel, quitting asks
    /// to quit and changes nothing else.
    pub fn update(&mut self, msg: AppInput) -> (r: Option<AppEffect>)
        ensures
            msg is CollapseSidebar ==> final(self).collapsed == !old(self).collapsed && r is None,
            msg is Quit ==> final(self).collapsed == old(self).collapsed && r is Some,
    {
        match msg {
            AppInput::Quit => Some(AppEffect::Quit),
            AppInput::CollapseSidebar => {
                self.collapsed = !self.collapsed;
                None
            },
        }
    }
}

impl AppInput {
    /// The message the device pane's output becomes for the window, if any.
    pub fn from_content(output: ContentOutput) -> (r: Option<AppInput>)
        ensures
            output is CollapseSidebar ==> (r matches Some(AppInput::CollapseSidebar)),
            !(output is CollapseSidebar) ==> r is None,
    {
        match output {
            ContentOutput::CollapseSidebar => Some(AppInput::CollapseSidebar),
            _ => None,
        }
    }
}

/// The about window.
pub struct AboutDialog {}

impl AboutDialog {
    /// The icon the about window shows for the application.
    pub fn icon(&self) -> (r: &'static str)
        ensures
            r@ == icon_text(GtkIcons::Multitasking),
    {
        GtkIcons::Multitasking.as_str()
    }
}

} // verus!
