use print_dispatch::dispatch::build_job_title;
use print_dispatch::dispatch::build_lp_command;
use print_dispatch::dispatch::build_lpr_command;
use print_dispatch::dispatch::build_powershell_command;
use print_dispatch::dispatch::build_print_command;
use print_dispatch::dispatch::decide_after_first;
use print_dispatch::dispatch::decide_after_write;
use print_dispatch::dispatch::unix_fallback_verdict;
use print_dispatch::dispatch::windows_fallback_verdict;
use print_dispatch::dispatch::DispatchStep;
use print_dispatch::dispatch::PrintRequest;
use print_dispatch::outcome::CommandOutcome;

fn request(paper_width: Option<u32>, printer_name: Option<&str>) -> PrintRequest {
    PrintRequest {
        html_content: "<b>Receipt</b>".to_string(),
        paper_width,
        printer_name: printer_name.map(|n| n.to_string()),
    }
}

fn ran(succeeded: bool, stderr: &str) -> CommandOutcome {
    CommandOutcome {
        succeeded,
        stdout: String::new(),
        stderr: stderr.to_string(),
        invocation_error: None,
    }
}

fn not_started(err: &str) -> CommandOutcome {
    CommandOutcome {
        succeeded: false,
        stdout: String::new(),
        stderr: String::new(),
        invocation_error: Some(err.to_string()),
    }
}

#[test]
fn title_defaults_to_eighty() {
    let c = build_lp_command(&request(None, None), "/tmp/receipt.html");
    assert_eq!(c.program, "lp".to_string());
    assert_eq!(
        c.args,
        vec!["-t".to_string(), "SoukSoft Receipt 80mm".to_string(), "/tmp/receipt.html".to_string()]
    );
}

#[test]
fn title_uses_requested_width() {
    assert_eq!(build_job_title(58), "SoukSoft Receipt 58mm".to_string());
}

#[test]
fn lp_names_the_destination() {
    let c = build_lp_command(&request(Some(58), Some("EPSON_TM")), "/tmp/receipt.html");
    assert_eq!(
        c.args,
        vec![
            "-t".to_string(),
            "SoukSoft Receipt 58mm".to_string(),
            "-d".to_string(),
            "EPSON_TM".to_string(),
            "/tmp/receipt.html".to_string(),
        ]
    );
}

#[test]
fn lpr_takes_the_bare_path() {
    let c = build_lpr_command(&request(None, None), "/tmp/receipt.html");
    assert_eq!(c.program, "lpr".to_string());
    assert_eq!(c.args, vec!["/tmp/receipt.html".to_string()]);
}

#[test]
fn lpr_names_the_destination() {
    let c = build_lpr_command(&request(None, Some("EPSON_TM")), "/tmp/receipt.html");
    assert_eq!(
        c.args,
        vec!["-P".to_string(), "EPSON_TM".to_string(), "/tmp/receipt.html".to_string()]
    );
}

#[test]
fn shell_pipe_escapes_path_and_printer() {
    let c = build_powershell_command(
        &request(None, Some("My \"Nice\" Printer")),
        "C:\\Temp\\receipt.html",
    );
    assert_eq!(c.program, "powershell".to_string());
    assert_eq!(
        c.args,
        vec![
            "-NoProfile".to_string(),
            "-Command".to_string(),
            "Get-Content -Path 'C:\\\\Temp\\\\receipt.html' | Out-Printer -Name \"My \\\"Nice\\\" Printer\""
                .to_string(),
        ]
    );
}

#[test]
fn shell_pipe_without_printer_has_no_name_flag() {
    let c = build_powershell_command(&request(None, None), "C:\\Temp\\receipt.html");
    assert_eq!(
        c.args[2],
        "Get-Content -Path 'C:\\\\Temp\\\\receipt.html' | Out-Printer".to_string()
    );
}

#[test]
fn legacy_print_takes_a_destination_flag() {
    let c = build_print_command(&request(None, Some("Front Desk")), "C:\\Temp\\receipt.html");
    assert_eq!(c.program, "print".to_string());
    assert_eq!(
        c.args,
        vec!["/D:Front Desk".to_string(), "C:\\Temp\\receipt.html".to_string()]
    );
}

#[test]
fn first_success_stops_the_chain() {
    let mut fallback_invocations: u32 = 0;
    match decide_after_first(&ran(true, "")) {
        DispatchStep::Accepted => {}
        DispatchStep::TryFallback => {
            fallback_invocations += 1;
        }
    }
    assert_eq!(fallback_invocations, 0);
}

#[test]
fn first_failure_tries_the_fallback() {
    assert!(matches!(decide_after_first(&ran(false, "lp: oops")), DispatchStep::TryFallback));
}

#[test]
fn both_failing_surface_the_first_stderr() {
    let first = ran(false, "lp: no default destination");
    let second = ran(false, "lpr: job rejected");
    assert_eq!(
        unix_fallback_verdict(&first, &second),
        Err("lp: no default destination".to_string())
    );
}

#[test]
fn silent_first_failure_surfaces_the_second_stderr() {
    let first = ran(false, "");
    let second = ran(false, "lpr: job rejected");
    assert_eq!(unix_fallback_verdict(&first, &second), Err("lpr: job rejected".to_string()));
}

#[test]
fn first_invocation_error_is_labelled() {
    let first = not_started("No such file or directory (os error 2)");
    let second = ran(false, "lpr: job rejected");
    assert_eq!(
        unix_fallback_verdict(&first, &second),
        Err("lp error: No such file or directory (os error 2)".to_string())
    );
}

#[test]
fn silent_failures_get_the_generic_message() {
    let first = ran(false, "");
    let second = ran(false, "");
    assert_eq!(
        unix_fallback_verdict(&first, &second),
        Err("No printer command found (lp/lpr)".to_string())
    );
}

#[test]
fn windows_labels_name_their_mechanisms() {
    let first = ran(false, "");
    let second = not_started("program not found");
    assert_eq!(
        windows_fallback_verdict(&first, &second),
        Err("print command error: program not found".to_string())
    );
}

#[test]
fn fallback_success_wins() {
    let first = ran(false, "lp: no default destination");
    let second = ran(true, "");
    assert_eq!(unix_fallback_verdict(&first, &second), Ok(()));
}

#[test]
fn write_error_is_fatal_and_labelled() {
    let r = decide_after_write(&Some("Permission denied (os error 13)".to_string()));
    assert_eq!(r, Err("Failed to write receipt: Permission denied (os error 13)".to_string()));
}

#[test]
fn clean_write_proceeds_to_dispatch() {
    assert_eq!(decide_after_write(&None), Ok(()));
}

#[test]
fn receipt_prints_through_the_fallback() {
    // A receipt with every optional field empty, on a host where the
    // first mechanism is absent and the second accepts the job.
    let req = request(None, None);
    let lp = build_lp_command(&req, "/tmp/receipt.html");
    assert_eq!(lp.args[1], "SoukSoft Receipt 80mm".to_string());
    let first = not_started("No such file or directory (os error 2)");
    assert!(matches!(decide_after_first(&first), DispatchStep::TryFallback));
    let second = ran(true, "");
    assert_eq!(unix_fallback_verdict(&first, &second), Ok(()));
}
