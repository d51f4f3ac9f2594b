use artisan_cli::cli::{
    billing_url, target_name, whoami_url, AuthCmd, Cli, InstanceCmd, NodeCmd, RunnerCmd,
    TopLevelCommand, Watch,
};
use artisan_cli::text::{
    chars_of, decimal_of, matches_at, remove_all, same_chars, split_chars, starts_with, string_of,
    trim,
};

fn text(s: &str) -> String {
    s.to_string()
}

#[test]
fn watch_repeats_from_thirty_milliseconds_on() {
    let run = |watch| {
        Cli {
            command: TopLevelCommand::Node(NodeCmd::List),
            watch,
        }
        .after_run()
    };
    assert_eq!(run(None), Watch::Once);
    assert_eq!(run(Some(0)), Watch::TooFast);
    assert_eq!(run(Some(29)), Watch::TooFast);
    assert_eq!(run(Some(30)), Watch::Again { millis: 30 });
    assert_eq!(run(Some(250)), Watch::Again { millis: 250 });
    assert_eq!(run(Some(u64::MAX)), Watch::Again { millis: u64::MAX });
}

#[test]
fn every_command_but_login_needs_a_token() {
    assert!(TopLevelCommand::Node(NodeCmd::List).needs_token());
    assert!(TopLevelCommand::Auth(AuthCmd::Whoami).needs_token());
    assert!(TopLevelCommand::Auth(AuthCmd::Discover).needs_token());
    assert!(TopLevelCommand::Logs {
        instance_id: text("i"),
        lines: 1
    }
    .needs_token());
    assert!(!TopLevelCommand::Auth(AuthCmd::Login {
        email: text("a@example.com"),
        password: text("pw")
    })
    .needs_token());
}

#[test]
fn each_command_has_its_address() {
    let base = "https://api.artisanhosting.net/v1/";
    let url = |c: TopLevelCommand| c.url();
    assert_eq!(
        url(TopLevelCommand::Node(NodeCmd::List)),
        format!("{}nodes", base)
    );
    assert_eq!(
        url(TopLevelCommand::Node(NodeCmd::Get { node_id: text("n1") })),
        format!("{}node/n1", base)
    );
    assert_eq!(
        url(TopLevelCommand::Runner(RunnerCmd::List)),
        format!("{}runners", base)
    );
    assert_eq!(
        url(TopLevelCommand::Runner(RunnerCmd::Details {
            runner_id: text("r1")
        })),
        format!("{}runner/r1", base)
    );
    assert_eq!(
        url(TopLevelCommand::Runner(RunnerCmd::Usage {
            runner_id: text("r1")
        })),
        format!("{}usage/group/r1", base)
    );
    assert_eq!(
        url(TopLevelCommand::Runner(RunnerCmd::Control {
            runner_id: text("r1"),
            command: text("restart")
        })),
        format!("{}control/r1/restart", base)
    );
    assert_eq!(
        url(TopLevelCommand::Runner(RunnerCmd::Bill {
            runner_id: text("r1")
        })),
        format!("{}usage/group/r1", base)
    );
    assert_eq!(
        url(TopLevelCommand::Instance(InstanceCmd::Usage {
            instance_id: text("i1")
        })),
        format!("{}usage/single/i1", base)
    );
    assert_eq!(
        url(TopLevelCommand::Auth(AuthCmd::Whoami)),
        format!("{}account/me", base)
    );
    assert_eq!(
        url(TopLevelCommand::Auth(AuthCmd::Discover)),
        format!("{}discover", base)
    );
    assert_eq!(
        url(TopLevelCommand::Auth(AuthCmd::Login {
            email: text("e"),
            password: text("p")
        })),
        format!("{}auth/login", base)
    );
    assert_eq!(
        url(TopLevelCommand::Logs {
            instance_id: text("i1"),
            lines: 100
        }),
        format!("{}logs/i1/100", base)
    );
}

#[test]
fn follow_up_addresses() {
    assert_eq!(whoami_url(), "https://api.artisanhosting.net/v1/whoami");
    assert_eq!(
        billing_url(3),
        "https://api.artisanhosting.net/v1/billing/calculate?instances=3"
    );
    assert_eq!(
        billing_url(0),
        "https://api.artisanhosting.net/v1/billing/calculate?instances=0"
    );
}

#[test]
fn target_is_the_group_where_the_server_says_general() {
    assert_eq!(target_name("general", "web"), "web runner group");
    assert_eq!(target_name("web-1", "web-1"), "web-1");
    assert_eq!(target_name("General", "web"), "web");
    assert_eq!(target_name("", "web"), "web");
}

#[test]
fn decimal_digits_of_numbers() {
    let digits = |n: u64| string_of(&decimal_of(n));
    assert_eq!(digits(0), "0");
    assert_eq!(digits(7), "7");
    assert_eq!(digits(10), "10");
    assert_eq!(digits(1234567890), "1234567890");
    assert_eq!(digits(u64::MAX), "18446744073709551615");
}

#[test]
fn characters_go_to_a_vector_and_back() {
    assert_eq!(chars_of("héllo"), vec!['h', 'é', 'l', 'l', 'o']);
    assert_eq!(string_of(&vec!['h', 'é', 'l', 'l', 'o']), "héllo");
    assert_eq!(chars_of(""), Vec::<char>::new());
}

#[test]
fn prefixes_and_equality_of_characters() {
    let v = |s: &str| chars_of(s);
    assert!(starts_with(&v("API_TOKEN=x"), &v("API_TOKEN=")));
    assert!(starts_with(&v("abc"), &v("")));
    assert!(starts_with(&v("abc"), &v("abc")));
    assert!(!starts_with(&v("ab"), &v("abc")));
    assert!(!starts_with(&v("xbc"), &v("ab")));
    assert!(same_chars(&v("abc"), &v("abc")));
    assert!(!same_chars(&v("abc"), &v("abd")));
    assert!(!same_chars(&v("abc"), &v("ab")));
}

#[test]
fn split_keeps_empty_parts() {
    let parts = |s: &str| -> Vec<String> {
        split_chars(&chars_of(s), '.')
            .iter()
            .map(|p| string_of(p))
            .collect()
    };
    assert_eq!(parts("a.b.c"), vec!["a", "b", "c"]);
    assert_eq!(parts(""), vec![""]);
    assert_eq!(parts("."), vec!["", ""]);
    assert_eq!(parts("a..b."), vec!["a", "", "b", ""]);
    assert_eq!(parts("abc"), vec!["abc"]);
}

#[test]
fn trim_takes_whitespace_from_both_ends() {
    let trimmed = |s: &str| string_of(&trim(&chars_of(s)));
    assert_eq!(trimmed("  a b \t\r\n"), "a b");
    assert_eq!(trimmed("a"), "a");
    assert_eq!(trimmed(""), "");
    assert_eq!(trimmed(" \n "), "");
    assert_eq!(trimmed("\x0Cx\x0C"), "x");
    assert_eq!(trimmed("\u{a0}x"), "\u{a0}x");
}

#[test]
fn remove_all_takes_every_occurrence_out() {
    let removed = |s: &str, p: &str| string_of(&remove_all(&chars_of(s), &chars_of(p)));
    assert_eq!(removed("ais_web", "ais_"), "web");
    assert_eq!(removed("ais_ais_web_ais_", "ais_"), "web_");
    assert_eq!(removed("aaa", "aa"), "a");
    assert_eq!(removed("abc", ""), "abc");
    assert_eq!(removed("", "x"), "");
    assert_eq!(removed("ais", "ais_"), "ais");
    assert!(matches_at(&chars_of("xais_"), 1, &chars_of("ais_")));
    assert!(!matches_at(&chars_of("xais_"), 2, &chars_of("ais_")));
    assert!(matches_at(&chars_of("x"), 1, &chars_of("")));
}
