use sketshy::action::Action;
use sketshy::commands::{completion_request, get_completions, parse_command};
use sketshy::paths::{path_completions, PathEntry};

#[test]
fn empty_input_lists_every_command() {
    let c = get_completions("", &vec![]);
    assert_eq!(c.len(), 2);
    assert_eq!(c[0].val, "quit");
    assert_eq!(c[0].full, "quit");
    assert_eq!(c[0].description.as_deref(), Some("Quit sketshy. Aliases: q"));
    assert_eq!(c[1].val, "export");
    assert_eq!(c[1].description.as_deref(), Some("Export to a plaintext file. Aliases: e"));
}

#[test]
fn a_prefix_lists_the_commands_it_begins() {
    let c = get_completions("ex", &vec![]);
    assert_eq!(c.len(), 1);
    assert_eq!(c[0].val, "export");
    let c = get_completions("q", &vec![]);
    assert_eq!(c.len(), 1);
    assert_eq!(c[0].val, "quit");
    assert!(get_completions("z", &vec![]).is_empty());
}

#[test]
fn arguments_complete_as_paths() {
    assert_eq!(completion_request("export no"), Some("no".to_string()));
    assert_eq!(completion_request("e "), Some("".to_string()));
    assert_eq!(completion_request("quit x"), None);
    assert_eq!(completion_request("export a b"), None);
    assert_eq!(completion_request("export"), None);
    let listing = vec!["notes.txt".to_string(), "now/".to_string()];
    let c = get_completions("export no", &listing);
    assert_eq!(c.len(), 2);
    assert_eq!(c[0].val, "notes.txt");
    assert_eq!(c[0].full, "export notes.txt");
    assert!(c[0].description.is_none());
    assert_eq!(c[1].full, "export now/");
    assert!(get_completions("quit x", &listing).is_empty());
    assert!(get_completions("nothing x", &listing).is_empty());
}

#[test]
fn commands_parse_to_actions() {
    assert_eq!(parse_command("quit"), Some(Action::Quit));
    assert_eq!(parse_command("q"), Some(Action::Quit));
    assert_eq!(parse_command("export out.txt"), Some(Action::Export("out.txt".to_string())));
    assert_eq!(parse_command("  e   out.txt "), Some(Action::Export("out.txt".to_string())));
    assert_eq!(parse_command("export\tout.txt"), Some(Action::Export("out.txt".to_string())));
    assert_eq!(parse_command("export"), None);
    assert_eq!(parse_command("quit now"), None);
    assert_eq!(parse_command("frobnicate"), None);
    assert_eq!(parse_command(""), None);
}


fn entry(path: &str, is_dir: bool) -> PathEntry {
    PathEntry { path: path.to_string(), name: path.to_string(), is_dir }
}

#[test]
fn path_completions_match_ignoring_case_and_sort() {
    let entries = vec![
        entry("b.txt", false),
        entry("Abc", true),
        entry("abd.md", false),
        entry("x", false),
    ];
    assert_eq!(path_completions("ab", &entries), vec!["Abc/", "abd.md"]);
    assert_eq!(path_completions("AB", &entries), vec!["Abc/", "abd.md"]);
    assert_eq!(path_completions("", &entries), vec!["Abc/", "abd.md", "b.txt", "x"]);
    assert!(path_completions("abcd", &entries).is_empty());
    assert!(path_completions("y", &entries).is_empty());
}
