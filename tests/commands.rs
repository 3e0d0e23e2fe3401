use roamingzed::templates::{join_query, workspace_info, CURRENT_WORKSPACE};
use roamingzed::{CommandError, CommandOutput, RoamingZedExtension};

fn words(list: &[&str]) -> Vec<String> {
    list.iter().map(|w| w.to_string()).collect()
}

fn run(name: &str, args: &[&str], root: Option<&str>) -> Result<CommandOutput, CommandError> {
    RoamingZedExtension::new().run_slash_command(name, words(args), root.map(|r| r.to_string()))
}

fn assert_sections_slice(out: &CommandOutput) {
    assert_eq!(out.sections.len(), 1);
    for s in &out.sections {
        assert!(s.start <= s.end);
        let piece = out.text.get(s.start..s.end);
        assert!(piece.is_some());
        assert!(!s.label.is_empty());
    }
    assert_eq!(out.sections[0].start, 0);
    assert_eq!(out.sections[0].end, out.text.len());
}

#[test]
fn unknown_command_mentions_its_name() {
    for name in ["foo", "", "Backlinks", "graph ", "related-notes", "ünïcode"] {
        match run(name, &["x"], Some("/home/user/notes")) {
            Err(e) => {
                let msg = e.message();
                assert!(msg.contains(name));
                assert_eq!(msg, format!("Unknown command: {}", name));
                assert!(matches!(e, CommandError::UnknownCommand(ref n) if n == name));
            }
            Ok(_) => panic!("unknown command {:?} succeeded", name),
        }
    }
}

#[test]
fn related_without_arguments_is_usage_error() {
    match run("related", &[], None) {
        Err(e) => {
            assert!(matches!(e, CommandError::EmptyQuery));
            assert_eq!(e.message(), "Usage: /related <query>");
        }
        Ok(_) => panic!("empty query accepted"),
    }
}

#[test]
fn related_with_one_empty_argument_is_usage_error() {
    match run("related", &[""], Some("/home/user/notes")) {
        Err(e) => assert_eq!(e.message(), "Usage: /related <query>"),
        Ok(_) => panic!("empty query accepted"),
    }
}

#[test]
fn related_with_two_empty_arguments_is_a_space() {
    let out = run("related", &["", ""], None).ok().unwrap();
    assert_eq!(out.sections[0].label, "Related:  ");
}

#[test]
fn related_zettelkasten_method() {
    let out = run("related", &["zettelkasten", "method"], Some("/home/user/notes")).ok().unwrap();
    assert!(out.text.matches("zettelkasten method").count() >= 4);
    assert_eq!(out.sections[0].label, "Related: zettelkasten method");
    assert!(out.text.contains("/home/user/notes"));
    assert_sections_slice(&out);
}

#[test]
fn related_exact_text() {
    let out = run("related", &["a", "b"], None).ok().unwrap();
    let expected = "# Related Notes\n\n*Searching for notes related to: \"a b\"*\n*Workspace: current workspace*\n\n> **Tip**: Use the AI assistant with `@roamingzed` context for semantic search.\n\nExample prompts:\n- \"Find notes related to a b\"\n- \"What topics connect to a b?\"\n- \"Show notes that might be relevant to a b\"";
    assert_eq!(out.text, expected);
}

#[test]
fn backlinks_and_graph_name_root() {
    let b = run("backlinks", &[], Some("/home/user/notes")).ok().unwrap();
    assert!(b.text.contains("/home/user/notes"));
    assert_eq!(b.sections[0].label, "Backlinks");
    let g = run("graph", &[], Some("/home/user/notes")).ok().unwrap();
    assert!(g.text.contains("/home/user/notes"));
    assert_eq!(g.sections[0].label, "Link Graph");
}

#[test]
fn backlinks_without_root_uses_placeholder() {
    let b = run("backlinks", &[], None).ok().unwrap();
    assert!(b.text.contains("current workspace"));
}

#[test]
fn backlinks_exact_text_ignores_arguments() {
    let out = run("backlinks", &["ignored", "words"], Some("/w")).ok().unwrap();
    let expected = "# Backlinks\n\n*Querying backlinks for current file in: /w*\n\n> **Tip**: Use the AI assistant with `@roamingzed` context for rich backlink queries.\n\nExample prompts:\n- \"What pages link to this file?\"\n- \"Show me all backlinks to [[topic]]\"\n- \"Find notes that reference this concept\"";
    assert_eq!(out.text, expected);
}

#[test]
fn graph_exact_text() {
    let out = run("graph", &[], None).ok().unwrap();
    let expected = "# Link Graph\n\n*Generating link graph for: current workspace*\n\n> **Tip**: Use the AI assistant with `@roamingzed` context to explore the graph.\n\nExample prompts:\n- \"Show me the link graph around this file\"\n- \"What notes are connected to [[topic]]?\"\n- \"Visualize connections within 2 hops\"";
    assert_eq!(out.text, expected);
}

#[test]
fn sections_slice_for_every_command() {
    for root in [None, Some("/home/user/notes"), Some("/home/ÿser/笔记")] {
        for (name, args) in [("backlinks", vec![]), ("graph", vec!["x"]), ("related", vec!["日本", "語"])] {
            let out = run(name, &args, root).ok().unwrap();
            assert_sections_slice(&out);
        }
    }
}

#[test]
fn section_end_counts_bytes() {
    let out = run("graph", &[], Some("/é")).ok().unwrap();
    let plain = run("graph", &[], Some("/e")).ok().unwrap();
    assert_eq!(out.sections[0].end, plain.sections[0].end + 1);
}

#[test]
fn server_command_is_npx() {
    let mut ext = RoamingZedExtension::new();
    let c = ext.context_server_command().ok().unwrap();
    assert_eq!(c.command, "npx");
    assert_eq!(c.args, vec!["roamingzed-mcp".to_string()]);
    assert!(c.env.is_empty());
}

#[test]
fn completions_are_empty() {
    let ext = RoamingZedExtension::new();
    for name in ["related", "backlinks", "other"] {
        let c = ext.complete_slash_command_argument(name, words(&["zet"])).ok().unwrap();
        assert!(c.is_empty());
    }
}

#[test]
fn join_query_uses_single_spaces() {
    assert_eq!(join_query(&words(&[])), "");
    assert_eq!(join_query(&words(&["one"])), "one");
    assert_eq!(join_query(&words(&["a", "b", "c"])), "a b c");
    assert_eq!(join_query(&words(&["a", "", "c"])), "a  c");
}

#[test]
fn workspace_info_falls_back_to_placeholder() {
    assert_eq!(workspace_info(None), CURRENT_WORKSPACE);
    assert_eq!(workspace_info(Some("/p".to_string())), "/p");
}
