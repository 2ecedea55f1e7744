//! Receipt dispatch: building the OS print commands for a request and
//! deciding the ordered fallback between the two mechanisms of each
//! host family from their recorded outcomes.

use vstd::prelude::*;
use vstd::string::StringExecFns;
use vstd::string::StrSliceExecFns;

use crate::outcome::CommandLine;
use crate::outcome::CommandOutcome;
use crate::text::dec_chars;
use crate::text::doubled_backslashes;
use crate::text::double_backslashes;
use crate::text::escaped_quotes;
use crate::text::escape_quotes;
use crate::text::u32_to_decimal;

verus! {

/// Paper width used when the request does not name one.
pub const DEFAULT_PAPER_WIDTH: u32 = 80;

/// One receipt to print: the markup to spool, and the optional paper
/// width and target printer.
pub struct PrintRequest {
    /// The markup to write to the spool file, verbatim.
    pub html_content: String,
    /// Paper width in millimeters; 80 when absent.
    pub paper_width: Option<u32>,
    /// Target printer; the OS default printer when absent.
    pub printer_name: Option<String>,
}

impl PrintRequest {
    /// The paper width the job is built with.
    pub open spec fn spec_effective_width(self) -> u32 {
        match self.paper_width {
            Some(w) => w,
            None => DEFAULT_PAPER_WIDTH,
        }
    }

    /// Returns the requested paper width, or the default of 80.
    pub fn effective_width(&self) -> (w: u32)
        ensures
            w == self.spec_effective_width(),
    {
        match self.paper_width {
            Some(w) => w,
            None => DEFAULT_PAPER_WIDTH,
        }
    }
}

/// Title given to a Unix-class print job: it names the application and
/// the paper width, so the spooler's queue shows what the receipt was
/// formatted for.
pub open spec fn job_title(width: u32) -> Seq<char> {
    "SoukSoft Receipt "@ + dec_chars(width as nat) + "mm"@
}

/// Builds the job title, as `job_title` describes.
pub fn build_job_title(width: u32) -> (t: String)
    ensures
        t@ == job_title(width),
{
    let mut t = String::from_str("SoukSoft Receipt ");
    t.append(u32_to_decimal(width).as_str());
    t.append("mm");
    t
}

/// Argument list of the Unix-class job-submission command `lp`.
pub open spec fn lp_args(req: PrintRequest, path: Seq<char>) -> Seq<Seq<char>> {
    let head = seq!["-t"@, job_title(req.spec_effective_width())];
    let dest = match req.printer_name {
        Some(n) => seq!["-d"@, n@],
        None => Seq::<Seq<char>>::empty(),
    };
    head + dest + seq![path]
}

/// Builds the first Unix-class dispatch mechanism: `lp` with a title
/// naming the paper width, an optional destination, and the file path.
pub fn build_lp_command(req: &PrintRequest, path: &str) -> (c: CommandLine)
    ensures
        c.program@ == "lp"@,
        c.args.deep_view() == lp_args(*req, path@),
{
    let mut args: Vec<String> = Vec::new();
    args.push(String::from_str("-t"));
    args.push(build_job_title(req.effective_width()));
    match &req.printer_name {
        Some(n) => {
            args.push(String::from_str("-d"));
            args.push(n.clone());
        },
        None => {},
    }
    args.push(path.to_owned());
    assert(args.deep_view() =~= lp_args(*req, path@));
    CommandLine { program: String::from_str("lp"), args }
}

/// Argument list of the Unix-class fallback command `lpr`.
pub open spec fn lpr_args(req: PrintRequest, path: Seq<char>) -> Seq<Seq<char>> {
    let dest = match req.printer_name {
        Some(n) => seq!["-P"@, n@],
        None => Seq::<Seq<char>>::empty(),
    };
    dest + seq![path]
}

/// Builds the second Unix-class dispatch mechanism: `lpr` with an
/// optional destination and the file path.
pub fn build_lpr_command(req: &PrintRequest, path: &str) -> (c: CommandLine)
    ensures
        c.program@ == "lpr"@,
        c.args.deep_view() == lpr_args(*req, path@),
{
    let mut args: Vec<String> = Vec::new();
    match &req.printer_name {
        Some(n) => {
            args.push(String::from_str("-P"));
            args.push(n.clone());
        },
        None => {},
    }
    args.push(path.to_owned());
    assert(args.deep_view() =~= lpr_args(*req, path@));
    CommandLine { program: String::from_str("lpr"), args }
}

/// The shell script run by the Windows-class primary mechanism: pipe
/// the file's content to the printer, with the path substituted between
/// single quotes (backslashes doubled) and the printer name, when
/// given, between double quotes (quotes escaped).
pub open spec fn powershell_script(req: PrintRequest, path: Seq<char>) -> Seq<char> {
    let base = "Get-Content -Path '"@ + doubled_backslashes(path) + "' | Out-Printer"@;
    match req.printer_name {
        Some(n) => base + " -Name \""@ + escaped_quotes(n@) + "\""@,
        None => base,
    }
}

/// Builds the Windows-class primary dispatch mechanism: a shell
/// invocation of the script `powershell_script` describes.
pub fn build_powershell_command(req: &PrintRequest, path: &str) -> (c: CommandLine)
    ensures
        c.program@ == "powershell"@,
        c.args.deep_view() == seq!["-NoProfile"@, "-Command"@, powershell_script(*req, path@)],
{
    let mut script = String::from_str("Get-Content -Path '");
    script.append(double_backslashes(path).as_str());
    script.append("' | Out-Printer");
    match &req.printer_name {
        Some(n) => {
            script.append(" -Name \"");
            script.append(escape_quotes(n.as_str()).as_str());
            script.append("\"");
        },
        None => {},
    }
    let mut args: Vec<String> = Vec::new();
    args.push(String::from_str("-NoProfile"));
    args.push(String::from_str("-Command"));
    args.push(script);
    assert(args.deep_view() =~= seq![
        "-NoProfile"@,
        "-Command"@,
        powershell_script(*req, path@),
    ]);
    CommandLine { program: String::from_str("powershell"), args }
}

/// Argument list of the Windows-class legacy direct-print command.
pub open spec fn print_args(req: PrintRequest, path: Seq<char>) -> Seq<Seq<char>> {
    match req.printer_name {
        Some(n) => seq!["/D:"@ + n@, path],
        None => seq![path],
    }
}

/// Builds the Windows-class fallback mechanism: the legacy `print`
/// command with an optional `/D:<printer>` flag and the bare file path.
pub fn build_print_command(req: &PrintRequest, path: &str) -> (c: CommandLine)
    ensures
        c.program@ == "print"@,
        c.args.deep_view() == print_args(*req, path@),
{
    let mut args: Vec<String> = Vec::new();
    match &req.printer_name {
        Some(n) => {
            args.push(String::from_str("/D:").concat(n.as_str()));
        },
        None => {},
    }
    args.push(path.to_owned());
    assert(args.deep_view() =~= print_args(*req, path@));
    CommandLine { program: String::from_str("print"), args }
}

/// What the dispatcher does once the first mechanism has run: stop, or
/// try the fallback mechanism.
pub enum DispatchStep {
    Accepted,
    TryFallback,
}

/// Decides the dispatch after the first mechanism ran: the job is
/// accepted exactly when that mechanism exited zero, and only then;
/// otherwise, and only otherwise, the fallback mechanism is to be run.
pub fn decide_after_first(first: &CommandOutcome) -> (d: DispatchStep)
    ensures
        first.succeeded <==> d is Accepted,
        !first.succeeded <==> d is TryFallback,
{
    if first.succeeded {
        DispatchStep::Accepted
    } else {
        DispatchStep::TryFallback
    }
}

/// The composite message reported when every mechanism failed: the
/// first mechanism's invocation error under its label, else its
/// standard error, else the same two for the second mechanism, else
/// the generic message.
pub open spec fn composed_failure(
    first: CommandOutcome,
    first_label: Seq<char>,
    second: CommandOutcome,
    second_label: Seq<char>,
    generic: Seq<char>,
) -> Seq<char> {
    match first.invocation_error {
        Some(e) => first_label + e@,
        None => if first.stderr@.len() > 0 {
            first.stderr@
        } else {
            match second.invocation_error {
                Some(e) => second_label + e@,
                None => if second.stderr@.len() > 0 {
                    second.stderr@
                } else {
                    generic
                },
            }
        },
    }
}

/// Decides the dispatch after the fallback mechanism ran: success
/// exactly when it exited zero, else the composite failure message
/// built from the two outcomes, as `composed_failure` describes.
pub fn decide_after_fallback(
    first: &CommandOutcome,
    first_label: &str,
    second: &CommandOutcome,
    second_label: &str,
    generic: &str,
) -> (r: Result<(), String>)
    requires
        !first.succeeded,
    ensures
        second.succeeded <==> r is Ok,
        !second.succeeded ==> (r matches Err(m) && m@ == composed_failure(
            *first,
            first_label@,
            *second,
            second_label@,
            generic@,
        )),
{
    if second.succeeded {
        return Ok(());
    }
    match &first.invocation_error {
        Some(e) => Err(first_label.to_owned().concat(e.as_str())),
        None => {
            if first.stderr.as_str().unicode_len() > 0 {
                Err(first.stderr.clone())
            } else {
                match &second.invocation_error {
                    Some(e) => Err(second_label.to_owned().concat(e.as_str())),
                    None => {
                        if second.stderr.as_str().unicode_len() > 0 {
                            Err(second.stderr.clone())
                        } else {
                            Err(generic.to_owned())
                        }
                    },
                }
            }
        },
    }
}

/// The Unix-class fallback outcome, once `lp` failed and `lpr` has
/// run; labels and generic message name those two mechanisms.
pub fn unix_fallback_verdict(first: &CommandOutcome, second: &CommandOutcome) -> (r: Result<
    (),
    String,
>)
    requires
        !first.succeeded,
    ensures
        second.succeeded <==> r is Ok,
        !second.succeeded ==> (r matches Err(m) && m@ == composed_failure(
            *first,
            "lp error: "@,
            *second,
            "lpr error: "@,
            "No printer command found (lp/lpr)"@,
        )),
{
    decide_after_fallback(first, "lp error: ", second, "lpr error: ", "No printer command found (lp/lpr)")
}

/// The Windows-class fallback outcome, once the shell pipe failed and
/// the legacy direct print has run; labels and generic message name
/// those two mechanisms.
pub fn windows_fallback_verdict(first: &CommandOutcome, second: &CommandOutcome) -> (r: Result<
    (),
    String,
>)
    requires
        !first.succeeded,
    ensures
        second.succeeded <==> r is Ok,
        !second.succeeded ==> (r matches Err(m) && m@ == composed_failure(
            *first,
            "PowerShell print error: "@,
            *second,
            "print command error: "@,
            "Printing failed (PowerShell and legacy print)"@,
        )),
{
    decide_after_fallback(
        first,
        "PowerShell print error: ",
        second,
        "print command error: ",
        "Printing failed (PowerShell and legacy print)",
    )
}

/// Decides the dispatch right after the spool file was written: a write
/// error is fatal, reported under a filesystem-error message, and only
/// a clean write lets any mechanism be attempted.
pub fn decide_after_write(write_error: &Option<String>) -> (r: Result<(), String>)
    ensures
        write_error is None <==> r is Ok,
        write_error matches Some(e) ==> (r matches Err(m) && m@ == "Failed to write receipt: "@
            + e@),
{
    match write_error {
        None => Ok(()),
        Some(e) => Err(String::from_str("Failed to write receipt: ").concat(e.as_str())),
    }
}

/// When both mechanisms failed: if the first mechanism ran and wrote to
/// its standard error, that text is the whole reported diagnostic; and
/// when neither mechanism had an invocation error, the diagnostic is
/// the standard error of one of the two whenever either wrote one.
pub proof fn lemma_failure_prefers_first_diagnostic(
    first: CommandOutcome,
    first_label: Seq<char>,
    second: CommandOutcome,
    second_label: Seq<char>,
    generic: Seq<char>,
)
    ensures
        first.invocation_error is None && first.stderr@.len() > 0 ==> composed_failure(
            first,
            first_label,
            second,
            second_label,
            generic,
        ) == first.stderr@,
        first.invocation_error is None && second.invocation_error is None && (first.stderr@.len()
            > 0 || second.stderr@.len() > 0) ==> (composed_failure(
            first,
            first_label,
            second,
            second_label,
            generic,
        ) == first.stderr@ || composed_failure(
            first,
            first_label,
            second,
            second_label,
            generic,
        ) == second.stderr@),
{
}

} // verus!

