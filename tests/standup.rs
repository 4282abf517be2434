use git_standup::cli::Args;
use git_standup::date::{
    calculate_since, parse_weekday, since_on, weekday_from_upper_text, weekday_name, StandupError, Weekday,
};
use git_standup::git::{branches_to_query, collect_branch_commits, log_args, parse_branches, resolve_author, BranchCommits};
use git_standup::output::{report_text, split_lines, strip_ansi_codes, terminal_lines, LineStyle};
use git_standup::repo::{descends_into, enters, is_repo_marker, stops_at_base, whitelist_roots};

fn base_args() -> Args {
    Args {
        author: None,
        branch: None,
        weekdays: "MON-FRI".to_string(),
        max_depth: 2,
        force_recursion: false,
        follow_links: false,
        days: None,
        until_days: None,
        date_format: "relative".to_string(),
        after: None,
        before: None,
        gpg_sign: false,
        fetch: false,
        silent: false,
        diff_stat: false,
        report: false,
        author_date: false,
    }
}

fn since_text(args: &Args, today: Weekday) -> String {
    match since_on(args, today) {
        Ok(s) => s,
        Err(e) => panic!("unexpected error {:?}", e),
    }
}

fn invalid_token(args: &Args, today: Weekday) -> String {
    match since_on(args, today) {
        Ok(s) => panic!("unexpected boundary {}", s),
        Err(StandupError::InvalidWeekday(t)) => t,
    }
}

fn bc(branch: &str, output: &str) -> BranchCommits {
    BranchCommits { branch: branch.to_string(), output: output.to_string() }
}

#[test]
fn strips_color_codes() {
    assert_eq!(strip_ansi_codes("\x1b[31mhello\x1b[0m"), "hello");
    assert_eq!(strip_ansi_codes("plain"), "plain");
    assert_eq!(strip_ansi_codes(""), "");
    assert_eq!(strip_ansi_codes("a\x1b[1;34mb\x1b[mc"), "abc");
    assert_eq!(strip_ansi_codes("x\x1b[31"), "x");
}

#[test]
fn parses_weekdays_in_any_case() {
    assert_eq!(parse_weekday("mon").unwrap(), Weekday::Mon);
    assert_eq!(parse_weekday("Tuesday").unwrap(), Weekday::Tue);
    assert_eq!(parse_weekday("WED").unwrap(), Weekday::Wed);
    assert_eq!(parse_weekday("thursday").unwrap(), Weekday::Thu);
    assert_eq!(parse_weekday("fRi").unwrap(), Weekday::Fri);
    assert_eq!(parse_weekday("SATURDAY").unwrap(), Weekday::Sat);
    assert_eq!(parse_weekday("sun").unwrap(), Weekday::Sun);
}

#[test]
fn rejects_unknown_weekday() {
    match parse_weekday("funday") {
        Err(StandupError::InvalidWeekday(t)) => assert_eq!(t, "funday"),
        Ok(w) => panic!("parsed {:?}", w),
    }
    assert!(parse_weekday("").is_err());
    assert!(parse_weekday("MO").is_err());
}

#[test]
fn names_weekdays() {
    assert_eq!(weekday_name(Weekday::Mon), "Monday");
    assert_eq!(weekday_name(Weekday::Thu), "Thursday");
    assert_eq!(weekday_name(Weekday::Sun), "Sunday");
}

#[test]
fn day_count_wins() {
    let mut args = base_args();
    args.days = Some(3);
    args.after = Some("2024-01-01".to_string());
    args.weekdays = "bogus".to_string();
    assert_eq!(since_text(&args, Weekday::Mon), "3 days ago");
    args.days = Some(0);
    assert_eq!(since_text(&args, Weekday::Wed), "0 days ago");
    args.days = Some(120);
    assert_eq!(since_text(&args, Weekday::Wed), "120 days ago");
    args.days = Some(4294967295);
    assert_eq!(calculate_since(&args).unwrap(), "4294967295 days ago");
}

#[test]
fn after_date_gives_epoch() {
    let mut args = base_args();
    args.after = Some("2024-01-01".to_string());
    args.weekdays = "bogus".to_string();
    assert_eq!(since_text(&args, Weekday::Mon), "1970-01-01");
    assert_eq!(calculate_since(&args).unwrap(), "1970-01-01");
}

#[test]
fn weekday_range_boundary() {
    let mut args = base_args();
    assert_eq!(since_text(&args, Weekday::Mon), "last Friday");
    assert_eq!(since_text(&args, Weekday::Tue), "yesterday");
    args.weekdays = "sun-thu".to_string();
    assert_eq!(since_text(&args, Weekday::Sun), "last Thursday");
    assert_eq!(since_text(&args, Weekday::Mon), "yesterday");
    args.weekdays = "Monday-Saturday".to_string();
    assert_eq!(since_text(&args, Weekday::Mon), "last Saturday");
    args.weekdays = "TUE".to_string();
    assert_eq!(since_text(&args, Weekday::Tue), "last Friday");
    args.weekdays = "wed-sun-mon".to_string();
    assert_eq!(since_text(&args, Weekday::Wed), "last Sunday");
}

#[test]
fn weekday_range_errors() {
    let mut args = base_args();
    args.weekdays = "FOO-FRI".to_string();
    assert_eq!(invalid_token(&args, Weekday::Mon), "FOO");
    args.weekdays = "MON-XYZ".to_string();
    assert_eq!(invalid_token(&args, Weekday::Mon), "XYZ");
    args.weekdays = "".to_string();
    assert_eq!(invalid_token(&args, Weekday::Mon), "");
    args.weekdays = "MON-".to_string();
    assert_eq!(invalid_token(&args, Weekday::Mon), "");
    assert!(calculate_since(&args).is_err());
}

#[test]
fn splits_lines() {
    assert_eq!(split_lines("a\nb\r\n\nc"), vec!["a", "b", "", "c"]);
    assert_eq!(split_lines("a\n"), vec!["a"]);
    assert_eq!(split_lines(""), Vec::<String>::new());
    assert_eq!(split_lines("\n"), vec![""]);
    assert_eq!(split_lines("x\ny"), "x\ny".lines().collect::<Vec<_>>());
}

#[test]
fn resolves_author() {
    assert_eq!(resolve_author(&Some("all".to_string()), "ignored"), ".*");
    assert_eq!(resolve_author(&Some("bob".to_string()), "ignored"), "bob");
    assert_eq!(resolve_author(&None, "  Alice Doe \n"), "Alice Doe");
    assert_eq!(resolve_author(&None, ""), "");
}

#[test]
fn parses_branch_listing() {
    assert_eq!(parse_branches("main\n\n  \ndev\n"), vec!["main", "dev"]);
    assert_eq!(parse_branches(""), Vec::<String>::new());
}

#[test]
fn keeps_branches_with_output() {
    let branches = vec!["main".to_string(), "dev".to_string(), "topic".to_string()];
    let outputs = vec!["abc - fix\n".to_string(), "  \n".to_string(), "def - add".to_string()];
    let r = collect_branch_commits(&branches, outputs);
    assert_eq!(r.len(), 2);
    assert_eq!(r[0].branch, "main");
    assert_eq!(r[0].output, "abc - fix\n");
    assert_eq!(r[1].branch, "topic");
    assert_eq!(r[1].output, "def - add");
}

#[test]
fn builds_default_log_query() {
    let args = base_args();
    let r = log_args("main", "Alice", "yesterday", &args);
    assert_eq!(
        r,
        vec![
            "--no-pager",
            "log",
            "main",
            "--no-merges",
            "--since=yesterday",
            "--author=Alice",
            "--abbrev-commit",
            "--oneline",
            "--pretty=format:%Cred%h%Creset - %s %Cgreen(%cd) %C(bold blue)<%an>%Creset",
            "--date=relative",
            "--color=always",
        ]
    );
}

#[test]
fn builds_log_query_with_all_options() {
    let mut args = base_args();
    args.until_days = Some(2);
    args.before = Some("2024-05-01".to_string());
    args.after = Some("2024-04-01".to_string());
    args.author_date = true;
    args.gpg_sign = true;
    args.diff_stat = true;
    args.date_format = "iso".to_string();
    let r = log_args("dev", ".*", "1970-01-01", &args);
    assert_eq!(
        r,
        vec![
            "--no-pager",
            "log",
            "dev",
            "--no-merges",
            "--since=1970-01-01",
            "--until=2 days ago",
            "--after=2024-04-01",
            "--author=.*",
            "--abbrev-commit",
            "--oneline",
            "--pretty=format:%Cred%h%Creset - %s %Cgreen(%ad) %C(bold blue)<%an>%Creset %C(yellow)gpg: %G?%Creset",
            "--date=iso",
            "--color=always",
            "--stat",
        ]
    );
    args.until_days = None;
    let r = log_args("dev", ".*", "1970-01-01", &args);
    assert_eq!(r[5], "--until=2024-05-01");
}

#[test]
fn report_for_branches() {
    let bcs = vec![bc("main", "\x1b[31mabc\x1b[m - fix\n\x1b[31mdef\x1b[m - add\n"), bc("dev", "ghi - x")];
    assert_eq!(
        report_text("/r/proj", &bcs, false),
        "/r/proj\n  main\n  abc - fix\n  def - add\n  dev\n  ghi - x\n"
    );
}

#[test]
fn report_without_activity() {
    let bcs: Vec<BranchCommits> = Vec::new();
    assert_eq!(report_text("/r/proj", &bcs, false), "/r/proj\nNo activity found!\n\n");
    assert_eq!(report_text("/r/proj", &bcs, true), "/r/proj\n");
}

#[test]
fn terminal_for_branches() {
    let bcs = vec![bc("main", "\x1b[31mabc\x1b[m - fix\n")];
    let r = terminal_lines("/r/proj", &bcs, "Alice", false);
    assert_eq!(r.len(), 3);
    assert_eq!(r[0].style, LineStyle::Header);
    assert_eq!(r[0].text, "/r/proj");
    assert_eq!(r[1].style, LineStyle::Branch);
    assert_eq!(r[1].text, "main");
    assert_eq!(r[2].style, LineStyle::Commit);
    assert_eq!(r[2].text, "\x1b[31mabc\x1b[m - fix");
}

#[test]
fn terminal_without_activity() {
    let bcs: Vec<BranchCommits> = Vec::new();
    let r = terminal_lines("/r/proj", &bcs, ".*", false);
    assert_eq!(r.len(), 2);
    assert_eq!(r[1].style, LineStyle::Notice);
    assert_eq!(r[1].text, "No commits found during this period.");
    let r = terminal_lines("/r/proj", &bcs, "Alice", false);
    assert_eq!(r[1].text, "No commits from Alice during this period.");
    let r = terminal_lines("/r/proj", &bcs, "Alice", true);
    assert_eq!(r.len(), 1);
    assert_eq!(r[0].style, LineStyle::Header);
    assert_eq!(r[0].text, "/r/proj");
}

#[test]
fn two_branch_scenario_shows_only_matching_branch() {
    let branches = parse_branches("main\ndev\n");
    let args = base_args();
    let author = resolve_author(&args.author, "Alice\n");
    let since = since_text(&args, Weekday::Wed);
    assert_eq!(log_args(&branches[0], &author, &since, &args)[2], "main");
    let outputs = vec!["\x1b[31m1a2b3c\x1b[m - first (2 hours ago) <Alice>".to_string(), String::new()];
    let bcs = collect_branch_commits(&branches, outputs);
    let r = terminal_lines("/work/repo", &bcs, &author, args.silent);
    assert_eq!(r.len(), 3);
    assert_eq!(r[0].text, "/work/repo");
    assert_eq!(r[1].text, "main");
    assert_eq!(r[2].style, LineStyle::Commit);
    assert!(r.iter().all(|l| l.text != "dev"));
}

#[test]
fn whitelist_lists_roots() {
    assert_eq!(whitelist_roots(" a \n\n  \nb/c\n"), vec!["a", "b/c"]);
    assert_eq!(whitelist_roots(""), Vec::<String>::new());
}

#[test]
fn walk_rules() {
    assert!(enters("src"));
    assert!(enters(".git"));
    assert!(!enters(".cache"));
    assert!(enters(""));
    assert!(is_repo_marker(".git", true));
    assert!(!is_repo_marker(".git", false));
    assert!(!is_repo_marker("git", true));
    assert!(descends_into("src"));
    assert!(!descends_into(".git"));
    assert!(stops_at_base(true, false));
    assert!(!stops_at_base(true, true));
    assert!(!stops_at_base(false, false));
}

#[test]
fn picks_branches_to_query() {
    assert_eq!(branches_to_query(&Some("dev".to_string()), "main\n"), vec!["dev"]);
    assert_eq!(branches_to_query(&None, "main\ndev\n"), vec!["main", "dev"]);
}

#[test]
fn reads_upper_case_tokens() {
    assert_eq!(weekday_from_upper_text("MONDAY"), Some(Weekday::Mon));
    assert_eq!(weekday_from_upper_text("SUN"), Some(Weekday::Sun));
    assert_eq!(weekday_from_upper_text("mon"), None);
    assert_eq!(weekday_from_upper_text("FRIDA"), None);
}

#[test]
fn trims_unicode_white_space() {
    assert_eq!(resolve_author(&None, "\u{a0}\tAlice Doe\u{3000}\r\n"), "Alice Doe");
    assert_eq!(parse_branches("\u{2003}\nmain\n"), vec!["main"]);
}
