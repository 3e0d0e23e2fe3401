use vstd::prelude::*;

verus! {

/// Stands for the workspace when the editor gives no worktree.
pub const CURRENT_WORKSPACE: &'static str = "current workspace";

pub const BACKLINKS_HEAD: &'static str = "# Backlinks\n\n*Querying backlinks for current file in: ";

pub const BACKLINKS_TAIL: &'static str = "*\n\n\
    > **Tip**: Use the AI assistant with `@roamingzed` context for rich backlink queries.\n\n\
    Example prompts:\n\
    - \"What pages link to this file?\"\n\
    - \"Show me all backlinks to [[topic]]\"\n\
    - \"Find notes that reference this concept\"";

pub const GRAPH_HEAD: &'static str = "# Link Graph\n\n*Generating link graph for: ";

pub const GRAPH_TAIL: &'static str = "*\n\n\
    > **Tip**: Use the AI assistant with `@roamingzed` context to explore the graph.\n\n\
    Example prompts:\n\
    - \"Show me the link graph around this file\"\n\
    - \"What notes are connected to [[topic]]?\"\n\
    - \"Visualize connections within 2 hops\"";

pub const RELATED_HEAD: &'static str = "# Related Notes\n\n*Searching for notes related to: \"";

pub const RELATED_WORKSPACE: &'static str = "\"*\n*Workspace: ";

pub const RELATED_PROMPTS: &'static str = "*\n\n\
    > **Tip**: Use the AI assistant with `@roamingzed` context for semantic search.\n\n\
    Example prompts:\n\
    - \"Find notes related to ";

pub const RELATED_CONNECT: &'static str = "\"\n- \"What topics connect to ";

pub const RELATED_RELEVANT: &'static str = "?\"\n- \"Show notes that might be relevant to ";

pub const RELATED_TAIL: &'static str = "\"";

/// The words joined with one space between each two of them.
pub open spec fn join_with_spaces(words: Seq<Seq<char>>) -> Seq<char>
    decreases words.len(),
{
    if words.len() == 0 {
        Seq::empty()
    } else if words.len() == 1 {
        words[0]
    } else {
        join_with_spaces(words.drop_last()) + seq![' '] + words.last()
    }
}

/// The workspace as the texts name it: the worktree's root path, or a
/// placeholder where there is none.
pub open spec fn workspace_label(root: Option<String>) -> Seq<char> {
    match root {
        Some(path) => path@,
        None => CURRENT_WORKSPACE@,
    }
}

/// Text of `/backlinks` for the workspace `ws`.
pub open spec fn backlinks_text(ws: Seq<char>) -> Seq<char> {
    BACKLINKS_HEAD@ + ws + BACKLINKS_TAIL@
}

/// Text of `/graph` for the workspace `ws`.
pub open spec fn graph_text(ws: Seq<char>) -> Seq<char> {
    GRAPH_HEAD@ + ws + GRAPH_TAIL@
}

/// Text of `/related` for `query` in the workspace `ws`.
pub open spec fn related_text(query: Seq<char>, ws: Seq<char>) -> Seq<char> {
    RELATED_HEAD@ + query + RELATED_WORKSPACE@ + ws + RELATED_PROMPTS@ + query
        + RELATED_CONNECT@ + query + RELATED_RELEVANT@ + query + RELATED_TAIL@
}

/// Joins the arguments of a command into one query, with single spaces.
pub fn join_query(args: &Vec<String>) -> (r: String)
    ensures
        r@ == join_with_spaces(args.deep_view()),
{
    let ghost words = args.deep_view();
    let mut query = String::new();
    let mut i: usize = 0;
    while i < args.len()
        invariant
            i <= args.len(),
            words == args.deep_view(),
            query@ == join_with_spaces(words.take(i as int)),
        decreases args.len() - i,
    {
        if i > 0 {
            proof {
                reveal_strlit(" ");
            }
            query.append(" ");
        }
        query.append(args[i].as_str());
        assert(words.take(i as int + 1).drop_last() =~= words.take(i as int));
        i += 1;
    }
    assert(words.take(args.len() as int) =~= words);
    query
}

/// The workspace as the texts name it (see `workspace_label`).
pub fn workspace_info(root: Option<String>) -> (r: String)
    ensures
        r@ == workspace_label(root),
{
    match root {
        Some(path) => path,
        None => String::from_str(CURRENT_WORKSPACE),
    }
}

/// Builds the text of `/backlinks`.
pub fn backlinks_body(ws: &str) -> (r: String)
    ensures
        r@ == backlinks_text(ws@),
{
    let mut text = String::from_str(BACKLINKS_HEAD);
    text.append(ws);
    text.append(BACKLINKS_TAIL);
    text
}

/// Builds the text of `/graph`.
pub fn graph_body(ws: &str) -> (r: String)
    ensures
        r@ == graph_text(ws@),
{
    let mut text = String::from_str(GRAPH_HEAD);
    text.append(ws);
    text.append(GRAPH_TAIL);
    text
}

/// Builds the text of `/related`.
pub fn related_body(query: &str, ws: &str) -> (r: String)
    ensures
        r@ == related_text(query@, ws@),
{
    let mut text = String::from_str(RELATED_HEAD);
    text.append(query);
    text.append(RELATED_WORKSPACE);
    text.append(ws);
    text.append(RELATED_PROMPTS);
    text.append(query);
    text.append(RELATED_CONNECT);
    text.append(query);
    text.append(RELATED_RELEVANT);
    text.append(query);
    text.append(RELATED_TAIL);
    text
}

} // verus!
