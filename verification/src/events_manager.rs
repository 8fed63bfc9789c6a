//! Bookkeeping for the commands sent to the translation view.
//!
//! The translation view may not exist yet when a command is issued; the
//! manager records the last command so the view can replay it when it first
//! loads.  Emitting the command over the window channel is the runtime's
//! job; recording it is the decision kept here.

use vstd::prelude::*;

verus! {

/// A command addressed to the translation view.
#[derive(Clone, Copy, Debug, PartialEq, Eq, Structural)]
pub enum TranslationCommands {
    /// Translate the extracted text; the payload says whether the definition
    /// pane opens with it.
    Translate(bool),
    /// Read the extracted text aloud.
    Play,
    /// Open the manual text input.
    ShowInput,
}

/// Remembers the last command sent to the translation view.
pub struct EventsManager {
    /// The last translation command, so the translation view can check it
    /// upon initial load; absent until the first command is sent.
    pub last_translation_command: Option<TranslationCommands>,
}

impl EventsManager {
    /// A manager that has not yet seen any command.
    pub fn new() -> (r: EventsManager)
        ensures
            r.last_translation_command is None,
    {
        EventsManager { last_translation_command: None }
    }

    /// Record the command that was just sent, replacing any earlier one.
    pub fn set_last_translation_command(&mut self, command: TranslationCommands)
        ensures
            final(self).last_translation_command == Some(command),
    {
        self.last_translation_command = Some(command);
    }
}

} // verus!
