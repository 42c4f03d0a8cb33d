use vstd::prelude::*;

verus! {

/// The page footer: whether its about dialog is to be opened.
pub struct Footer {
    pub dialog_open: bool,
}

/// A message for the footer.
#[derive(Debug, Clone, Copy, PartialEq, Eq, Structural)]
pub enum FooterMessage {
    /// The about link was clicked.
    OpenDialog,
    /// The dialog has been opened.
    DialogOpened,
}

impl Footer {
    /// A footer with the dialog closed.
    pub fn new() -> (r: Footer)
        ensures
            !r.dialog_open,
    {
        Footer { dialog_open: false }
    }

    /// Handles a message; returns whether the footer is drawn again. A click
    /// asks for the dialog, and once it is open the request is withdrawn.
    pub fn update(&mut self, msg: FooterMessage) -> (r: bool)
        ensures
            final(self).dialog_open == (msg == FooterMessage::OpenDialog),
            r == (msg == FooterMessage::OpenDialog),
    {
        match msg {
            FooterMessage::OpenDialog => {
                self.dialog_open = true;
                true
            },
            FooterMessage::DialogOpened => {
                self.dialog_open = false;
                false
            },
        }
    }
}

} // verus!
