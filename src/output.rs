use vstd::prelude::*;
use vstd::utf8::{encode_utf8, encode_utf8_valid_utf8, is_char_boundary, is_char_boundary_start_end_of_seq};

verus! {

/// Length in bytes of the UTF-8 encoding of `s`.
pub open spec fn byte_len(s: Seq<char>) -> int {
    encode_utf8(s).len() as int
}

/// A labelled byte range of a command's text.
pub struct Section {
    pub start: usize,
    pub end: usize,
    pub label: String,
}

/// What a slash command hands back: Markdown text and its sections.
pub struct CommandOutput {
    pub text: String,
    pub sections: Vec<Section>,
}

impl Section {
    /// The range lies within `text` and starts and ends on character
    /// boundaries, and the label is not empty.
    pub open spec fn in_bounds_of(&self, text: Seq<char>) -> bool {
        &&& self.start <= self.end <= byte_len(text)
        &&& is_char_boundary(encode_utf8(text), self.start as int)
        &&& is_char_boundary(encode_utf8(text), self.end as int)
        &&& self.label@.len() > 0
    }
}

impl CommandOutput {
    /// Every section is in bounds of the text.
    pub open spec fn well_formed(&self) -> bool {
        forall|i: int|
            0 <= i < self.sections@.len() ==> (#[trigger] self.sections@[i]).in_bounds_of(
                self.text@,
            )
    }

    /// The output is `text` with a single section over all of it, labelled `label`.
    pub open spec fn is_whole_text_section(&self, text: Seq<char>, label: Seq<char>) -> bool {
        &&& self.text@ == text
        &&& self.sections@.len() == 1
        &&& self.sections@[0].start == 0
        &&& self.sections@[0].end == byte_len(text)
        &&& self.sections@[0].label@ == label
    }

    /// Builds the output that consists of `text` and one section over all of it.
    pub fn whole_text(text: String, label: String) -> (r: CommandOutput)
        requires
            label@.len() > 0,
        ensures
            r.is_whole_text_section(text@, label@),
            r.well_formed(),
    {
        let end = text.as_str().as_bytes().len();
        proof {
            encode_utf8_valid_utf8(text@);
            is_char_boundary_start_end_of_seq(encode_utf8(text@));
        }
        let section = Section { start: 0, end, label };
        CommandOutput { text, sections: vec![section] }
    }
}

/// A process for the editor to spawn: executable, arguments and environment.
pub struct ServerCommand {
    pub command: String,
    pub args: Vec<String>,
    pub env: Vec<(String, String)>,
}

/// A suggestion for the argument of a slash command.
pub struct ArgumentCompletion {
    pub label: String,
    pub new_text: String,
    pub run_command: bool,
}

} // verus!
