//! The info bar's text: what the bottom bar shows for each interaction
//! mode.

use crate::paths::{wf_view, Paths};
use crate::text::{spec_decimal, usize_to_string};
use crate::ui::{Mode, State};
use vstd::pervasive::unreached;
use vstd::prelude::*;

verus! {

/// The two strings the info bar prints.
pub struct Text {
    /// The current image's path, the command line being typed, or the
    /// message being shown.
    pub information: String,
    /// The image number, the mode's name, or the repeat count being typed.
    pub mode: String,
}

impl Text {
    /// The bar's text for the current mode: in normal mode the image number
    /// and path, in command mode the line typed so far, in the overlay
    /// modes their message, in repeat-count mode the count so far.
    pub fn update(current_mode: &Mode, paths: &Paths, state: &State) -> (r: Text)
        requires
            wf_view(paths@),
        ensures
            match *current_mode {
                Mode::Command(msg) => r.mode@ == "Command"@ && r.information@ == ":"@ + msg@,
                Mode::Normal => {
                    &&& (paths@.index matches Some(i) ==> r.information@ == paths@.images[i]
                        && r.mode@ == spec_decimal(i + 1) + " of "@ + spec_decimal(paths@.art_len))
                    &&& (paths@.index is None ==> r.information@ == "No file selected"@ && r.mode@
                        == "No files in path"@)
                },
                Mode::MultiNormal => r.mode@ == spec_decimal(
                    state.register.cur_action.times as int,
                ) && r.information@ == " "@,
                Mode::Error(msg) => r.mode@ == "Error"@ && r.information@ == msg@,
                Mode::Success(msg) => r.mode@ == "Success"@ && r.information@ == msg@,
                Mode::Exit => r.mode@ == "Exit"@ && r.information@ == "Exiting... Goodbye"@,
            },
    {
        match current_mode {
            Mode::Command(msg) => {
                let mut information = String::from_str(":");
                information.append(msg.as_str());
                Text { information, mode: String::from_str("Command") }
            },
            Mode::Normal => {
                match paths.current_index_and_path() {
                    Some((index, path)) => {
                        let total: usize = match paths.max_viewable() {
                            Some(t) => t,
                            None => unreached(),
                        };
                        let mut mode = usize_to_string(index + 1);
                        mode.append(" of ");
                        mode.append(usize_to_string(total).as_str());
                        Text { information: path.clone(), mode }
                    },
                    None => Text {
                        information: String::from_str("No file selected"),
                        mode: String::from_str("No files in path"),
                    },
                }
            },
            Mode::MultiNormal => Text {
                information: String::from_str(" "),
                mode: usize_to_string(state.register.cur_action.times),
            },
            Mode::Error(msg) => Text {
                information: msg.clone(),
                mode: String::from_str("Error"),
            },
            Mode::Success(msg) => Text {
                information: msg.clone(),
                mode: String::from_str("Success"),
            },
            Mode::Exit => Text {
                information: String::from_str("Exiting... Goodbye"),
                mode: String::from_str("Exit"),
            },
        }
    }
}

} // verus!
