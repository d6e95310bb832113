use nixpkgs_track::cache::Cache;
use nixpkgs_track::cli::{
    get_github_token, needs_helper, remove_selected, run_command, Action, Cli, Commands, HelperOutput,
};
use nixpkgs_track::listing::TrackedPullRequest;

fn args(command: Option<Commands>) -> Cli {
    Cli { pull_request: None, command, token: None }
}

fn entry(id: u64) -> TrackedPullRequest {
    TrackedPullRequest { id, title: format!("title {}", id), url: format!("https://example.org/{}", id) }
}

fn helper(success: bool, stdout: &[u8]) -> Option<HelperOutput> {
    Some(HelperOutput { success, stdout: stdout.to_vec() })
}

#[test]
fn token_of_the_command_line_wins() {
    let cli = Cli { pull_request: Some(1), command: None, token: Some("from-flag".to_string()) };
    assert!(!needs_helper(&cli));
    assert_eq!(get_github_token(&cli, helper(true, b"from-helper\n")), Some("from-flag".to_string()));
    assert_eq!(get_github_token(&cli, None), Some("from-flag".to_string()));
}

#[test]
fn helper_token_is_trimmed() {
    let cli = args(None);
    assert!(needs_helper(&cli));
    assert_eq!(get_github_token(&cli, helper(true, b"  gho_abc\n")), Some("gho_abc".to_string()));
    assert_eq!(get_github_token(&cli, helper(true, b"gho_abc")), Some("gho_abc".to_string()));
    assert_eq!(get_github_token(&cli, helper(true, b"\n")), Some("".to_string()));
}

#[test]
fn helper_that_failed_gives_no_token() {
    let cli = args(None);
    assert_eq!(get_github_token(&cli, helper(false, b"gho_abc\n")), None);
    assert_eq!(get_github_token(&cli, None), None);
}

#[test]
fn helper_output_that_is_no_utf8_gives_no_token() {
    let cli = args(None);
    assert_eq!(get_github_token(&cli, helper(true, &[0x67, 0xff, 0x68])), None);
    assert_eq!(get_github_token(&cli, helper(true, &[0xc3])), None);
    assert_eq!(get_github_token(&cli, helper(true, "tökén\n".as_bytes())), Some("tökén".to_string()));
}

#[test]
fn no_subcommand_checks_the_given_pull_request() {
    let cli = Cli { pull_request: Some(370713), command: None, token: None };
    let mut cache = Cache::from_ids(&vec![1, 2]);
    assert!(matches!(run_command(&cli, &mut cache), Action::Check(370713)));
    assert_eq!(cache.list(), vec![1, 2]);
}

#[test]
fn add_command_extends_the_watchlist() {
    let mut cache = Cache::from_ids(&vec![3]);
    let action = run_command(&args(Some(Commands::Add { pull_requests: vec![5, 1, 3] })), &mut cache);
    assert!(matches!(action, Action::Store(None)));
    assert_eq!(cache.list(), vec![1, 3, 5]);
}

#[test]
fn remove_command_drops_the_given_numbers() {
    let mut cache = Cache::from_ids(&vec![1, 2, 3]);
    let command = Commands::Remove { pull_requests: vec![2, 7], all: false, interactive: false };
    assert!(matches!(run_command(&args(Some(command)), &mut cache), Action::Store(None)));
    assert_eq!(cache.list(), vec![1, 3]);
}

#[test]
fn remove_all_clears_and_says_how_many() {
    let mut cache = Cache::from_ids(&vec![1, 2, 3]);
    let command = Commands::Remove { pull_requests: vec![], all: true, interactive: false };
    match run_command(&args(Some(command)), &mut cache) {
        Action::Store(Some(message)) => assert_eq!(message, "All pull requests (3 total) removed."),
        other => panic!("{:?}", other),
    }
    assert!(cache.is_empty());
}

#[test]
fn interactive_remove_asks_the_user_to_pick() {
    let mut cache = Cache::from_ids(&vec![1, 2, 3]);
    let command = Commands::Remove { pull_requests: vec![1], all: true, interactive: true };
    assert!(matches!(run_command(&args(Some(command)), &mut cache), Action::Pick));
    assert_eq!(cache.list(), vec![1, 2, 3]);
}

#[test]
fn list_and_check_commands_leave_the_watchlist() {
    let mut cache = Cache::from_ids(&vec![1, 2, 3]);
    assert!(matches!(
        run_command(&args(Some(Commands::List { json: true })), &mut cache),
        Action::List { json: true }
    ));
    assert!(matches!(
        run_command(&args(Some(Commands::List { json: false })), &mut cache),
        Action::List { json: false }
    ));
    assert!(matches!(run_command(&args(Some(Commands::Check {})), &mut cache), Action::CheckAll));
    assert_eq!(cache.list(), vec![1, 2, 3]);
}

#[test]
fn empty_watchlist_has_nothing_to_show() {
    let mut cache = Cache::new();
    for command in [
        Commands::List { json: false },
        Commands::Check {},
        Commands::Remove { pull_requests: vec![], all: false, interactive: true },
    ] {
        match run_command(&args(Some(command)), &mut cache) {
            Action::Say(message) => assert_eq!(message, "No pull requests saved."),
            other => panic!("{:?}", other),
        }
    }
    assert!(cache.is_empty());
}

#[test]
fn picked_entries_are_removed() {
    let mut cache = Cache::from_ids(&vec![10, 20, 30, 40]);
    let shown = vec![entry(10), entry(20), entry(30), entry(40)];
    match remove_selected(&mut cache, &shown, &Some(vec![3, 1])) {
        Action::Store(Some(message)) => assert_eq!(message, "Selected pull requests (2) removed."),
        other => panic!("{:?}", other),
    }
    assert_eq!(cache.list(), vec![10, 30]);
}

#[test]
fn picking_nothing_removes_nothing() {
    let mut cache = Cache::from_ids(&vec![10, 20]);
    let shown = vec![entry(10), entry(20)];
    match remove_selected(&mut cache, &shown, &Some(vec![])) {
        Action::Store(Some(message)) => assert_eq!(message, "Selected pull requests (0) removed."),
        other => panic!("{:?}", other),
    }
    assert_eq!(cache.list(), vec![10, 20]);
    match remove_selected(&mut cache, &shown, &None) {
        Action::Say(message) => assert_eq!(message, "No pull requests selected."),
        other => panic!("{:?}", other),
    }
    assert_eq!(cache.list(), vec![10, 20]);
}
