use print_dispatch::listing::decide_primary;
use print_dispatch::listing::legacy_query_command;
use print_dispatch::listing::legacy_verdict;
use print_dispatch::listing::primary_query_command;
use print_dispatch::listing::unix_query_command;
use print_dispatch::listing::unix_verdict;
use print_dispatch::listing::PrimaryDecision;
use print_dispatch::outcome::CommandOutcome;

fn ran(succeeded: bool, stdout: &str, stderr: &str) -> CommandOutcome {
    CommandOutcome {
        succeeded,
        stdout: stdout.to_string(),
        stderr: stderr.to_string(),
        invocation_error: None,
    }
}

fn not_started(err: &str) -> CommandOutcome {
    CommandOutcome {
        succeeded: false,
        stdout: String::new(),
        stderr: String::new(),
        invocation_error: Some(err.to_string()),
    }
}

#[test]
fn unix_names_are_first_tokens_in_order() {
    let out = ran(
        true,
        "printer1 accepting requests since Mon\nprinter2 accepting requests since Tue\n",
        "",
    );
    assert_eq!(
        unix_verdict(&out),
        Ok(vec!["printer1".to_string(), "printer2".to_string()])
    );
}

#[test]
fn unix_blank_lines_yield_no_names() {
    let out = ran(true, "printer1 idle\n\n   \nprinter2 idle\n", "");
    assert_eq!(
        unix_verdict(&out),
        Ok(vec!["printer1".to_string(), "printer2".to_string()])
    );
}

#[test]
fn unix_empty_output_is_success() {
    let out = ran(true, "", "");
    assert_eq!(unix_verdict(&out), Ok(Vec::<String>::new()));
}

#[test]
fn unix_failure_surfaces_stderr() {
    let out = ran(false, "", "lpstat: scheduler is not running\n");
    assert_eq!(
        unix_verdict(&out),
        Err("lpstat: scheduler is not running\n".to_string())
    );
}

#[test]
fn unix_invocation_error_is_prefixed() {
    let out = not_started("No such file or directory (os error 2)");
    assert_eq!(
        unix_verdict(&out),
        Err("Failed to list printers: No such file or directory (os error 2)".to_string())
    );
}

#[test]
fn primary_lines_kept_verbatim_trimmed() {
    let out = ran(true, " HP LaserJet 1020 \r\nCanon G3000\r\n\r\n", "");
    match decide_primary(&out) {
        PrimaryDecision::Done(names) => {
            assert_eq!(names, vec!["HP LaserJet 1020".to_string(), "Canon G3000".to_string()]);
        }
        PrimaryDecision::RunLegacy => panic!("primary query output was usable"),
    }
}

#[test]
fn primary_without_usable_lines_falls_through() {
    let out = ran(true, "\n   \n\t\n", "");
    assert!(matches!(decide_primary(&out), PrimaryDecision::RunLegacy));
}

#[test]
fn failed_primary_falls_through() {
    let out = ran(false, "HP LaserJet\n", "broken");
    assert!(matches!(decide_primary(&out), PrimaryDecision::RunLegacy));
}

#[test]
fn legacy_skips_the_header_line() {
    let out = ran(true, "Name        Status\nHPLaserJet  OK\nCanonG3000  OK\n", "");
    assert_eq!(
        legacy_verdict(&out),
        Ok(vec!["HPLaserJet".to_string(), "CanonG3000".to_string()])
    );
}

#[test]
fn legacy_header_alone_yields_no_names() {
    let out = ran(true, "Name        Status\n", "");
    assert_eq!(legacy_verdict(&out), Ok(Vec::<String>::new()));
}

#[test]
fn legacy_empty_output_is_success() {
    let out = ran(true, "", "");
    assert_eq!(legacy_verdict(&out), Ok(Vec::<String>::new()));
}

#[test]
fn legacy_failure_surfaces_stderr() {
    let out = ran(false, "", "wmic is deprecated\n");
    assert_eq!(legacy_verdict(&out), Err("wmic is deprecated\n".to_string()));
}

#[test]
fn legacy_invocation_error_is_prefixed() {
    let out = not_started("program not found");
    assert_eq!(
        legacy_verdict(&out),
        Err("Failed to list printers: program not found".to_string())
    );
}

#[test]
fn unix_query_is_lpstat() {
    let c = unix_query_command();
    assert_eq!(c.program, "lpstat".to_string());
    assert_eq!(c.args, vec!["-a".to_string()]);
}

#[test]
fn primary_query_asks_the_shell_for_names() {
    let c = primary_query_command();
    assert_eq!(c.program, "powershell".to_string());
    assert_eq!(
        c.args,
        vec![
            "-NoProfile".to_string(),
            "-Command".to_string(),
            "Get-Printer | Select-Object -ExpandProperty Name".to_string(),
        ]
    );
}

#[test]
fn legacy_query_is_the_tabular_listing() {
    let c = legacy_query_command();
    assert_eq!(c.program, "wmic".to_string());
    assert_eq!(
        c.args,
        vec!["printer".to_string(), "list".to_string(), "brief".to_string()]
    );
}
