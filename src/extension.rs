use vstd::prelude::*;
use crate::error::{CommandError, UNKNOWN_COMMAND_PREFIX, USAGE_RELATED};
use crate::output::{ArgumentCompletion, CommandOutput, ServerCommand};
use crate::templates::{
    backlinks_body, backlinks_text, graph_body, graph_text, join_query, join_with_spaces,
    related_body, related_text, workspace_info, workspace_label,
};

verus! {

pub const BACKLINKS_COMMAND: &'static str = "backlinks";

pub const GRAPH_COMMAND: &'static str = "graph";

pub const RELATED_COMMAND: &'static str = "related";

pub const BACKLINKS_LABEL: &'static str = "Backlinks";

pub const GRAPH_LABEL: &'static str = "Link Graph";

/// Precedes the query in the label of `/related`'s section.
pub const RELATED_LABEL_PREFIX: &'static str = "Related: ";

/// Executable that runs the context server.
pub const SERVER_EXECUTABLE: &'static str = "npx";

/// Package that `npx` runs as the context server.
pub const SERVER_PACKAGE: &'static str = "roamingzed-mcp";

/// The names of the slash commands that the extension provides.
pub open spec fn is_known_command(name: Seq<char>) -> bool {
    name == BACKLINKS_COMMAND@ || name == GRAPH_COMMAND@ || name == RELATED_COMMAND@
}

/// What `/related` returns for the arguments `words`.
pub open spec fn related_outcome(
    words: Seq<Seq<char>>,
    root: Option<String>,
    r: Result<CommandOutput, CommandError>,
) -> bool {
    let query = join_with_spaces(words);
    if query.len() == 0 {
        r is Err && r->Err_0 is EmptyQuery
    } else {
        r is Ok && r->Ok_0.is_whole_text_section(
            related_text(query, workspace_label(root)),
            RELATED_LABEL_PREFIX@ + query,
        )
    }
}

/// What running the slash command `name` with the arguments `words` returns,
/// where `root` is the root path of the worktree, if any.
pub open spec fn dispatch_outcome(
    name: Seq<char>,
    words: Seq<Seq<char>>,
    root: Option<String>,
    r: Result<CommandOutput, CommandError>,
) -> bool {
    if name == BACKLINKS_COMMAND@ {
        r is Ok && r->Ok_0.is_whole_text_section(
            backlinks_text(workspace_label(root)),
            BACKLINKS_LABEL@,
        )
    } else if name == GRAPH_COMMAND@ {
        r is Ok && r->Ok_0.is_whole_text_section(graph_text(workspace_label(root)), GRAPH_LABEL@)
    } else if name == RELATED_COMMAND@ {
        related_outcome(words, root, r)
    } else {
        r is Err && r->Err_0 is UnknownCommand && r->Err_0->UnknownCommand_0@ == name
    }
}

/// `needle` stands in `hay` from position `i` on.
pub open spec fn occurs_at(hay: Seq<char>, needle: Seq<char>, i: int) -> bool {
    0 <= i && i + needle.len() <= hay.len() && hay.subrange(i, i + needle.len()) == needle
}

/// Whether `name` is the command `known`.
fn is_command(name: &str, known: &str) -> (r: bool)
    ensures
        r == (name@ == known@),
{
    String::from_str(name) == String::from_str(known)
}

/// The RoamingZed editor extension: wikilink slash commands and the launcher
/// of its context server.
pub struct RoamingZedExtension;

impl RoamingZedExtension {
    pub fn new() -> (r: RoamingZedExtension) {
        RoamingZedExtension
    }

    /// The process that runs the context server: `npx roamingzed-mcp`, with
    /// no environment. The server finds the workspace from its directory.
    pub fn context_server_command(&mut self) -> (r: Result<ServerCommand, String>)
        ensures
            r is Ok,
            r->Ok_0.command@ == SERVER_EXECUTABLE@,
            r->Ok_0.args.deep_view() == seq![SERVER_PACKAGE@],
            r->Ok_0.env@.len() == 0,
    {
        let args = vec![String::from_str(SERVER_PACKAGE)];
        assert(args.deep_view() =~= seq![SERVER_PACKAGE@]);
        Ok(ServerCommand { command: String::from_str(SERVER_EXECUTABLE), args, env: Vec::new() })
    }

    /// Runs the slash command `command_name`; `worktree_root` is the root
    /// path of the worktree it runs in, if any.
    pub fn run_slash_command(
        &self,
        command_name: &str,
        args: Vec<String>,
        worktree_root: Option<String>,
    ) -> (r: Result<CommandOutput, CommandError>)
        ensures
            dispatch_outcome(command_name@, args.deep_view(), worktree_root, r),
            r is Ok ==> r->Ok_0.well_formed(),
    {
        if is_command(command_name, BACKLINKS_COMMAND) {
            self.run_backlinks_command(args, worktree_root)
        } else if is_command(command_name, GRAPH_COMMAND) {
            self.run_graph_command(args, worktree_root)
        } else if is_command(command_name, RELATED_COMMAND) {
            self.run_related_command(args, worktree_root)
        } else {
            Err(CommandError::UnknownCommand(String::from_str(command_name)))
        }
    }

    /// Suggestions for the argument of a slash command. None are offered yet,
    /// for any command.
    pub fn complete_slash_command_argument(
        &self,
        _command_name: &str,
        _args: Vec<String>,
    ) -> (r: Result<Vec<ArgumentCompletion>, String>)
        ensures
            r is Ok,
            r->Ok_0@.len() == 0,
    {
        Ok(Vec::new())
    }

    /// `/backlinks`: points to the backlink queries of the assistant. The
    /// arguments are not read.
    pub fn run_backlinks_command(
        &self,
        _args: Vec<String>,
        worktree_root: Option<String>,
    ) -> (r: Result<CommandOutput, CommandError>)
        ensures
            r is Ok,
            r->Ok_0.is_whole_text_section(
                backlinks_text(workspace_label(worktree_root)),
                BACKLINKS_LABEL@,
            ),
            r->Ok_0.well_formed(),
    {
        let ws = workspace_info(worktree_root);
        let text = backlinks_body(ws.as_str());
        proof {
            reveal_strlit("Backlinks");
        }
        Ok(CommandOutput::whole_text(text, String::from_str(BACKLINKS_LABEL)))
    }

    /// `/graph`: points to the link-graph queries of the assistant. The
    /// arguments are not read.
    pub fn run_graph_command(
        &self,
        _args: Vec<String>,
        worktree_root: Option<String>,
    ) -> (r: Result<CommandOutput, CommandError>)
        ensures
            r is Ok,
            r->Ok_0.is_whole_text_section(graph_text(workspace_label(worktree_root)), GRAPH_LABEL@),
            r->Ok_0.well_formed(),
    {
        let ws = workspace_info(worktree_root);
        let text = graph_body(ws.as_str());
        proof {
            reveal_strlit("Link Graph");
        }
        Ok(CommandOutput::whole_text(text, String::from_str(GRAPH_LABEL)))
    }

    /// `/related`: points to the semantic search of the assistant for the
    /// query that the arguments make, joined with single spaces. An empty
    /// query is refused.
    pub fn run_related_command(
        &self,
        args: Vec<String>,
        worktree_root: Option<String>,
    ) -> (r: Result<CommandOutput, CommandError>)
        ensures
            related_outcome(args.deep_view(), worktree_root, r),
            r is Ok ==> r->Ok_0.well_formed(),
    {
        let query = join_query(&args);
        if query.as_str().is_empty() {
            return Err(CommandError::EmptyQuery);
        }
        let ws = workspace_info(worktree_root);
        let text = related_body(query.as_str(), ws.as_str());
        let mut label = String::from_str(RELATED_LABEL_PREFIX);
        label.append(query.as_str());
        Ok(CommandOutput::whole_text(text, label))
    }
}

} // verus!
