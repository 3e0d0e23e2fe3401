use vstd::prelude::*;
use vstd::utf8::{encode_utf8, encode_utf8_valid_utf8, is_char_boundary_start_end_of_seq};
use crate::error::{CommandError, UNKNOWN_COMMAND_PREFIX, USAGE_RELATED};
use crate::extension::{
    dispatch_outcome, is_known_command, occurs_at, BACKLINKS_COMMAND, GRAPH_COMMAND,
    RELATED_COMMAND,
};
use crate::output::CommandOutput;
use crate::templates::join_with_spaces;

verus! {

/// A command of any name that the extension does not provide fails, and the
/// message of its error holds that name exactly, after the prefix.
pub proof fn unknown_command_error_names_it(
    name: Seq<char>,
    words: Seq<Seq<char>>,
    root: Option<String>,
    r: Result<CommandOutput, CommandError>,
)
    requires
        !is_known_command(name),
        dispatch_outcome(name, words, root, r),
    ensures
        r is Err,
        r->Err_0.message_view() == UNKNOWN_COMMAND_PREFIX@ + name,
        occurs_at(r->Err_0.message_view(), name, UNKNOWN_COMMAND_PREFIX@.len() as int),
{
    let msg = UNKNOWN_COMMAND_PREFIX@ + name;
    assert(msg.subrange(UNKNOWN_COMMAND_PREFIX@.len() as int, msg.len() as int) =~= name);
}

/// `/related` with arguments that join to the empty string, among them no
/// arguments at all, fails with the usage message.
pub proof fn empty_query_gives_usage(
    words: Seq<Seq<char>>,
    root: Option<String>,
    r: Result<CommandOutput, CommandError>,
)
    requires
        join_with_spaces(words).len() == 0,
        dispatch_outcome(RELATED_COMMAND@, words, root, r),
    ensures
        r is Err,
        r->Err_0.message_view() == USAGE_RELATED@,
        join_with_spaces(Seq::<Seq<char>>::empty()).len() == 0,
{
    reveal_strlit("related");
    reveal_strlit("backlinks");
    reveal_strlit("graph");
    assert(RELATED_COMMAND@.len() != BACKLINKS_COMMAND@.len());
    assert(RELATED_COMMAND@.len() != GRAPH_COMMAND@.len());
}

/// Whatever command runs, each section of its output lies within the text,
/// on character boundaries, with a label that is not empty.
pub proof fn dispatch_sections_in_bounds(
    name: Seq<char>,
    words: Seq<Seq<char>>,
    root: Option<String>,
    r: Result<CommandOutput, CommandError>,
)
    requires
        dispatch_outcome(name, words, root, r),
        r is Ok,
    ensures
        r->Ok_0.well_formed(),
{
    let out = r->Ok_0;
    reveal_strlit("Backlinks");
    reveal_strlit("Link Graph");
    encode_utf8_valid_utf8(out.text@);
    is_char_boundary_start_end_of_seq(encode_utf8(out.text@));
    assert(out.sections@[0].label@.len() > 0);
}

} // verus!
