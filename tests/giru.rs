use giru::controller::{
    author_line, command_or_default, editor_launch, list_banner, help_text, missing_log_message, open_with_obsidian_or_neovim, plan,
    viewer_exit_notice, viewer_launch, Command, Launch, Step,
};
use giru::log::{entry_text, log_dir, log_path, memory_entry};
use giru::save::{body_prompt, confirmation_for, hint_for, save_confirmation, title_prompt};
use giru::text::clean_input;

const HEADER: &str = "# Your Giru File";

fn launch_of(step: Step) -> Launch {
    match step {
        Step::Start(l) => l,
        _ => panic!("expected a program to start"),
    }
}

fn notice_of(step: Step) -> String {
    match step {
        Step::Notice(m) => m,
        _ => panic!("expected a notice"),
    }
}

fn printed(step: Step) -> String {
    match step {
        Step::Print(m) => m,
        _ => panic!("expected printed text"),
    }
}

fn save_into(log: &mut String, body: &str, title: &str) {
    let appended = memory_entry(log.is_empty(), body, title);
    log.push_str(&appended);
}

#[test]
fn missing_log_is_reported_for_read_commands() {
    let path = "/home/u/.giru/giru.md";
    let expected = "🤖 (Giru): No memories found. Please save a memory first.";
    assert_eq!(notice_of(plan(&Command::List, false, path)), expected);
    assert_eq!(notice_of(plan(&Command::Open, false, path)), expected);
    assert_eq!(notice_of(plan(&Command::View, false, path)), expected);
    assert_eq!(missing_log_message(), expected);
}

#[test]
fn read_commands_with_a_log() {
    let path = "/home/u/.giru/giru.md";
    assert!(matches!(plan(&Command::List, true, path), Step::RenderLog));
    let open = launch_of(plan(&Command::Open, true, path));
    assert_eq!(open.program, "alacritty");
    assert_eq!(open.args, vec!["-e", "nvim", path]);
    assert!(!open.wait);
    assert_eq!(open.on_failure, "Failed to open file with Neovim in Alacritty");
    let view = launch_of(plan(&Command::View, true, path));
    assert_eq!(view.program, "frogmouth");
    assert_eq!(view.args, vec![path]);
    assert!(view.wait);
    assert_eq!(view.on_failure, "Failed to view file with Frogmouth");
}

#[test]
fn save_runs_whether_or_not_the_log_exists() {
    assert!(matches!(plan(&Command::Save, false, "p"), Step::SaveEntry));
    assert!(matches!(plan(&Command::Save, true, "p"), Step::SaveEntry));
}

#[test]
fn one_save_writes_header_title_and_block() {
    let mut log = String::new();
    save_into(&mut log, "hello", "Greeting");
    assert_eq!(log, "# Your Giru File\n## Greeting\n\n```\nhello\n```\n\n");
    let lines: Vec<&str> = log.lines().collect();
    assert_eq!(lines.iter().filter(|l| **l == HEADER).count(), 1);
    assert_eq!(lines.iter().filter(|l| **l == "## Greeting").count(), 1);
    assert_eq!(lines.iter().filter(|l| **l == "```").count(), 2);
    assert_eq!(lines.iter().filter(|l| **l == "hello").count(), 1);
}

#[test]
fn two_saves_header_once_in_order() {
    let mut log = String::new();
    save_into(&mut log, "first body", "One");
    save_into(&mut log, "second body", "Two");
    assert_eq!(
        log,
        "# Your Giru File\n## One\n\n```\nfirst body\n```\n\n## Two\n\n```\nsecond body\n```\n\n"
    );
    assert_eq!(log.lines().filter(|l| *l == HEADER).count(), 1);
    assert!(log.starts_with(HEADER));
    assert!(log.find("## One").unwrap() < log.find("## Two").unwrap());
}

#[test]
fn save_on_a_non_empty_log_has_no_header() {
    assert_eq!(memory_entry(false, "b", "t"), "## t\n\n```\nb\n```\n\n");
}

#[test]
fn values_are_stored_trimmed() {
    assert_eq!(clean_input("  hi  "), "hi");
    assert_eq!(clean_input("\t hi there \n"), "hi there");
    assert_eq!(clean_input("   \n"), "");
    assert_eq!(clean_input("plain"), "plain");
    assert_eq!(memory_entry(false, "  hi  \n", "  hi  \n"), "## hi\n\n```\nhi\n```\n\n");
    assert_eq!(memory_entry(false, "  hi  ", "\u{3000}hi\u{a0}"), memory_entry(false, "hi", "hi"));
}

#[test]
fn entry_text_layout() {
    assert_eq!(entry_text("T", "B"), "## T\n\n```\nB\n```\n\n");
    assert_eq!(entry_text("", ""), "## \n\n```\n\n```\n\n");
}

#[test]
fn confirmation_suggests_list_or_view() {
    let list = "🤖 (Giru): I've saved the new item.\n Hint: use `giru list` to open all my memories.";
    let view = "🤖 (Giru): I've saved the new item.\n Hint: use `giru view` to open all my memories.";
    let mut saw_list = false;
    let mut saw_view = false;
    for _ in 0..400 {
        let m = save_confirmation();
        assert!(m == list || m == view);
        saw_list |= m == list;
        saw_view |= m == view;
    }
    assert!(saw_list && saw_view);
    assert_eq!(confirmation_for("list"), list);
    assert_eq!(confirmation_for("view"), view);
}

#[test]
fn hint_for_each_draw() {
    assert_eq!(hint_for(1), "list");
    assert_eq!(hint_for(2), "view");
}

#[test]
fn obsidian_without_path_opens_home_in_notes_app() {
    let l = launch_of(plan(&Command::Obsidian { path: None, neovim: false }, false, "p"));
    assert_eq!(l.program, "obsidian");
    assert_eq!(l.args, vec!["~"]);
    assert!(!l.wait);
    assert_eq!(l.on_failure, "Failed to open path with Obsidian");
}

#[test]
fn obsidian_with_path_and_neovim_opens_editor() {
    let cmd = Command::Obsidian { path: Some("somepath".to_string()), neovim: true };
    let l = launch_of(plan(&cmd, true, "p"));
    assert_eq!(l.program, "alacritty");
    assert_eq!(l.args, vec!["-e", "nvim", "somepath"]);
    assert!(!l.wait);
    assert_eq!(l.on_failure, "Failed to open path with Neovim in Alacritty");
}

#[test]
fn obsidian_variants() {
    let l = open_with_obsidian_or_neovim(&Some("notes/a.md".to_string()), false);
    assert_eq!(l.program, "obsidian");
    assert_eq!(l.args, vec!["notes/a.md"]);
    let l = open_with_obsidian_or_neovim(&None, true);
    assert_eq!(l.program, "alacritty");
    assert_eq!(l.args, vec!["-e", "nvim", "~"]);
}

#[test]
fn help_and_author_do_not_depend_on_the_log() {
    let h1 = printed(plan(&Command::Help, false, "/a/.giru/giru.md"));
    let h2 = printed(plan(&Command::Help, true, "/b/.giru/giru.md"));
    assert_eq!(h1, h2);
    assert_eq!(h1, help_text());
    assert!(h1.starts_with("🤖 Giru Help Menu:\n  giru list"));
    assert_eq!(h1.lines().count(), 9);
    let a1 = printed(plan(&Command::Author, false, "x"));
    let a2 = printed(plan(&Command::Author, true, "y"));
    assert_eq!(a1, a2);
    assert_eq!(a1, "🤖 Author: WMouton");
    assert_eq!(author_line(), "🤖 Author: WMouton");
}

#[test]
fn log_location_under_home() {
    assert_eq!(log_path("/home/u"), "/home/u/.giru/giru.md");
    assert_eq!(log_dir("/home/u"), "/home/u/.giru");
}

#[test]
fn viewer_exit_status() {
    assert!(viewer_exit_notice(true).is_none());
    assert_eq!(
        viewer_exit_notice(false).unwrap(),
        "🤖 (Giru): Failed to view file with Frogmouth."
    );
}

#[test]
fn launches_by_hand() {
    let e = editor_launch("/x/y.md", "could not start");
    assert_eq!(e.program, "alacritty");
    assert_eq!(e.args, vec!["-e", "nvim", "/x/y.md"]);
    assert_eq!(e.on_failure, "could not start");
    let v = viewer_launch("/x/y.md");
    assert_eq!(v.program, "frogmouth");
    assert_eq!(v.args, vec!["/x/y.md"]);
    assert!(v.wait);
}

#[test]
fn prompts() {
    assert_eq!(body_prompt(), "🤖 (Giru): What do you want to remember?");
    assert_eq!(title_prompt(), "🤖 (Giru): Enter Title of this memory:");
}

#[test]
fn no_command_means_save() {
    assert!(matches!(command_or_default(None), Command::Save));
    assert!(matches!(command_or_default(Some(Command::List)), Command::List));
    let c = command_or_default(Some(Command::Obsidian { path: Some("p".to_string()), neovim: true }));
    assert!(matches!(c, Command::Obsidian { path: Some(ref p), neovim: true } if p == "p"));
}

#[test]
fn listing_banner() {
    assert_eq!(list_banner(), "🤖 Giru Contents Below 🤖");
}
