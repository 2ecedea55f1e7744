//! Printer enumeration: the OS query commands, the verified parsing of
//! their output into printer names, and the fallback decision between
//! the primary and the legacy query.

use vstd::prelude::*;
use vstd::string::StringExecFns;
use vstd::string::StrSliceExecFns;

use crate::outcome::CommandLine;
use crate::outcome::CommandOutcome;
use crate::text::first_token;
use crate::text::line_split;
use crate::text::split_lines;
use crate::text::take_first_token;
use crate::text::trim;
use crate::text::trimmed;

verus! {

/// The first whitespace-delimited token of each line, in order, with
/// the lines that hold no token dropped.
pub open spec fn column_names(lines: Seq<Seq<char>>) -> Seq<Seq<char>>
    decreases lines.len(),
{
    if lines.len() == 0 {
        Seq::empty()
    } else {
        let init = column_names(lines.drop_last());
        let tok = first_token(lines.last());
        if tok.len() > 0 {
            init.push(tok)
        } else {
            init
        }
    }
}

/// Each line trimmed, in order, with the lines that trim to nothing
/// dropped.
pub open spec fn trimmed_names(lines: Seq<Seq<char>>) -> Seq<Seq<char>>
    decreases lines.len(),
{
    if lines.len() == 0 {
        Seq::empty()
    } else {
        let init = trimmed_names(lines.drop_last());
        let t = trimmed(lines.last());
        if t.len() > 0 {
            init.push(t)
        } else {
            init
        }
    }
}

proof fn lemma_column_names_push(lines: Seq<Seq<char>>, l: Seq<char>)
    ensures
        column_names(lines.push(l)) == (if first_token(l).len() > 0 {
            column_names(lines).push(first_token(l))
        } else {
            column_names(lines)
        }),
{
    assert(lines.push(l).drop_last() =~= lines);
    assert(lines.push(l).last() == l);
}

proof fn lemma_trimmed_names_push(lines: Seq<Seq<char>>, l: Seq<char>)
    ensures
        trimmed_names(lines.push(l)) == (if trimmed(l).len() > 0 {
            trimmed_names(lines).push(trimmed(l))
        } else {
            trimmed_names(lines)
        }),
{
    assert(lines.push(l).drop_last() =~= lines);
    assert(lines.push(l).last() == l);
}

/// Collects the first token of every line from index `from` on, as
/// `column_names` describes.
pub fn collect_column_names(lines: &Vec<String>, from: usize) -> (r: Vec<String>)
    requires
        from <= lines.len(),
    ensures
        r.deep_view() == column_names(lines.deep_view().skip(from as int)),
{
    let ghost all = lines.deep_view().skip(from as int);
    let mut r: Vec<String> = Vec::new();
    let mut i: usize = from;
    while i < lines.len()
        invariant
            from <= i <= lines.len(),
            all == lines.deep_view().skip(from as int),
            r.deep_view() == column_names(all.take(i - from)),
        decreases lines.len() - i,
    {
        let tok = take_first_token(lines[i].as_str());
        proof {
            assert(all[i - from] == lines.deep_view()[i as int]);
            assert(all.take(i + 1 - from) =~= all.take(i - from).push(all[i - from]));
            lemma_column_names_push(all.take(i - from), all[i - from]);
        }
        if tok.unicode_len() > 0 {
            r.push(tok);
            assert(r.deep_view() =~= column_names(all.take(i + 1 - from)));
        } else {
            assert(r.deep_view() =~= column_names(all.take(i + 1 - from)));
        }
        i = i + 1;
    }
    proof {
        assert(all.take(lines.len() - from) =~= all);
    }
    r
}

/// Trims every line and keeps the non-blank ones, as `trimmed_names`
/// describes.
pub fn collect_trimmed_names(lines: &Vec<String>) -> (r: Vec<String>)
    ensures
        r.deep_view() == trimmed_names(lines.deep_view()),
{
    let ghost all = lines.deep_view();
    let mut r: Vec<String> = Vec::new();
    let mut i: usize = 0;
    while i < lines.len()
        invariant
            0 <= i <= lines.len(),
            all == lines.deep_view(),
            r.deep_view() == trimmed_names(all.take(i as int)),
        decreases lines.len() - i,
    {
        let t = trim(lines[i].as_str());
        proof {
            assert(all.take(i + 1) =~= all.take(i as int).push(all[i as int]));
            lemma_trimmed_names_push(all.take(i as int), all[i as int]);
        }
        if t.unicode_len() > 0 {
            r.push(t);
            assert(r.deep_view() =~= trimmed_names(all.take(i + 1)));
        } else {
            assert(r.deep_view() =~= trimmed_names(all.take(i + 1)));
        }
        i = i + 1;
    }
    proof {
        assert(all.take(lines.len() as int) =~= all);
    }
    r
}

/// A tabular listing without its header line.
pub open spec fn skip_header(lines: Seq<Seq<char>>) -> Seq<Seq<char>> {
    if lines.len() == 0 {
        lines
    } else {
        lines.drop_first()
    }
}

/// Names parsed from the Unix-class status listing: the first token of
/// every output line.
pub open spec fn unix_names(out: Seq<char>) -> Seq<Seq<char>> {
    column_names(line_split(out))
}

/// Names parsed from the Windows-class primary query: its non-blank
/// lines, trimmed.
pub open spec fn primary_names(out: Seq<char>) -> Seq<Seq<char>> {
    trimmed_names(line_split(out))
}

/// Names parsed from the Windows-class legacy tabular query: the first
/// token of every line after the header.
pub open spec fn legacy_names(out: Seq<char>) -> Seq<Seq<char>> {
    column_names(skip_header(line_split(out)))
}

/// The Windows-class primary query: ask the shell for the printer
/// names, one per line.
pub fn primary_query_command() -> (c: CommandLine)
    ensures
        c.program@ == "powershell"@,
        c.args.deep_view() == seq![
            "-NoProfile"@,
            "-Command"@,
            "Get-Printer | Select-Object -ExpandProperty Name"@,
        ],
{
    let mut args: Vec<String> = Vec::new();
    args.push(String::from_str("-NoProfile"));
    args.push(String::from_str("-Command"));
    args.push(String::from_str("Get-Printer | Select-Object -ExpandProperty Name"));
    assert(args.deep_view() =~= seq![
        "-NoProfile"@,
        "-Command"@,
        "Get-Printer | Select-Object -ExpandProperty Name"@,
    ]);
    CommandLine { program: String::from_str("powershell"), args }
}

/// The Windows-class legacy query: a tabular listing with a header line.
pub fn legacy_query_command() -> (c: CommandLine)
    ensures
        c.program@ == "wmic"@,
        c.args.deep_view() == seq!["printer"@, "list"@, "brief"@],
{
    let mut args: Vec<String> = Vec::new();
    args.push(String::from_str("printer"));
    args.push(String::from_str("list"));
    args.push(String::from_str("brief"));
    assert(args.deep_view() =~= seq!["printer"@, "list"@, "brief"@]);
    CommandLine { program: String::from_str("wmic"), args }
}

/// The Unix-class query: the status listing of all printers.
pub fn unix_query_command() -> (c: CommandLine)
    ensures
        c.program@ == "lpstat"@,
        c.args.deep_view() == seq!["-a"@],
{
    let mut args: Vec<String> = Vec::new();
    args.push(String::from_str("-a"));
    assert(args.deep_view() =~= seq!["-a"@]);
    CommandLine { program: String::from_str("lpstat"), args }
}

/// What the Windows-class enumeration does once the primary query has
/// run: keep its names, or fall through to the legacy query.
pub enum PrimaryDecision {
    Done(Vec<String>),
    RunLegacy,
}

/// Decides the Windows-class enumeration from the primary query's
/// outcome: its names are kept exactly when it exited zero and at least
/// one usable line came out; otherwise the legacy query must be run.
pub fn decide_primary(outcome: &CommandOutcome) -> (d: PrimaryDecision)
    ensures
        outcome.succeeded && primary_names(outcome.stdout@).len() > 0 ==> (d matches
            PrimaryDecision::Done(names) && names.deep_view() == primary_names(outcome.stdout@)),
        !(outcome.succeeded && primary_names(outcome.stdout@).len() > 0) ==> d is RunLegacy,
{
    if !outcome.succeeded {
        return PrimaryDecision::RunLegacy;
    }
    let lines = split_lines(outcome.stdout.as_str());
    let names = collect_trimmed_names(&lines);
    if names.len() > 0 {
        PrimaryDecision::Done(names)
    } else {
        PrimaryDecision::RunLegacy
    }
}

/// Turns the legacy query's outcome into the enumeration result: an
/// invocation error or a non-zero exit is an error, any other outcome
/// yields the names of the tabular listing (possibly none).
pub fn legacy_verdict(outcome: &CommandOutcome) -> (r: Result<Vec<String>, String>)
    ensures
        outcome.invocation_error matches Some(e) ==> (r matches Err(m) && m@
            == "Failed to list printers: "@ + e@),
        outcome.invocation_error is None && !outcome.succeeded ==> (r matches Err(m) && m@
            == outcome.stderr@),
        outcome.invocation_error is None && outcome.succeeded ==> (r matches Ok(names)
            && names.deep_view() == legacy_names(outcome.stdout@)),
{
    match &outcome.invocation_error {
        Some(e) => Err(String::from_str("Failed to list printers: ").concat(e.as_str())),
        None => {
            if !outcome.succeeded {
                Err(outcome.stderr.clone())
            } else {
                let lines = split_lines(outcome.stdout.as_str());
                let from: usize = if lines.len() > 0 {
                    1
                } else {
                    0
                };
                let names = collect_column_names(&lines, from);
                proof {
                    assert(lines.deep_view().skip(from as int) =~= skip_header(
                        line_split(outcome.stdout@),
                    ));
                }
                Ok(names)
            }
        },
    }
}

/// Turns the Unix-class query's outcome into the enumeration result: an
/// invocation error or a non-zero exit is an error, any other outcome
/// yields the first token of every output line (possibly none).
pub fn unix_verdict(outcome: &CommandOutcome) -> (r: Result<Vec<String>, String>)
    ensures
        outcome.invocation_error matches Some(e) ==> (r matches Err(m) && m@
            == "Failed to list printers: "@ + e@),
        outcome.invocation_error is None && !outcome.succeeded ==> (r matches Err(m) && m@
            == outcome.stderr@),
        outcome.invocation_error is None && outcome.succeeded ==> (r matches Ok(names)
            && names.deep_view() == unix_names(outcome.stdout@)),
{
    match &outcome.invocation_error {
        Some(e) => Err(String::from_str("Failed to list printers: ").concat(e.as_str())),
        None => {
            if !outcome.succeeded {
                Err(outcome.stderr.clone())
            } else {
                let lines = split_lines(outcome.stdout.as_str());
                let names = collect_column_names(&lines, 0);
                proof {
                    assert(lines.deep_view().skip(0) =~= line_split(outcome.stdout@));
                }
                Ok(names)
            }
        },
    }
}

/// When every line of a listing carries a token, the parsed names are
/// exactly the first whitespace-delimited token of each line, in the
/// same order.
pub proof fn lemma_column_names_per_line(lines: Seq<Seq<char>>)
    requires
        forall|i: int| 0 <= i < lines.len() ==> first_token(#[trigger] lines[i]).len() > 0,
    ensures
        column_names(lines).len() == lines.len(),
        forall|i: int|
            0 <= i < lines.len() ==> #[trigger] column_names(lines)[i] == first_token(lines[i]),
    decreases lines.len(),
{
    if lines.len() > 0 {
        assert forall|i: int| 0 <= i < lines.drop_last().len() implies first_token(
            #[trigger] lines.drop_last()[i],
        ).len() > 0 by {
            assert(lines.drop_last()[i] == lines[i]);
        }
        lemma_column_names_per_line(lines.drop_last());
        assert(first_token(lines.last()).len() > 0);
        assert forall|i: int| 0 <= i < lines.len() implies #[trigger] column_names(lines)[i]
            == first_token(lines[i]) by {
            if i < lines.len() - 1 {
                assert(column_names(lines)[i] == column_names(lines.drop_last())[i]);
                assert(lines.drop_last()[i] == lines[i]);
            }
        }
    }
}

/// No parsed column name is empty, whatever the listing held.
pub proof fn lemma_column_names_nonempty(lines: Seq<Seq<char>>)
    ensures
        forall|i: int|
            0 <= i < column_names(lines).len() ==> (#[trigger] column_names(lines)[i]).len() > 0,
    decreases lines.len(),
{
    if lines.len() > 0 {
        lemma_column_names_nonempty(lines.drop_last());
        let init = column_names(lines.drop_last());
        let tok = first_token(lines.last());
        assert forall|i: int| 0 <= i < column_names(lines).len() implies (
        #[trigger] column_names(lines)[i]).len() > 0 by {
            if tok.len() > 0 {
                assert(column_names(lines) == init.push(tok));
                if i < init.len() {
                    assert(column_names(lines)[i] == init[i]);
                } else {
                    assert(column_names(lines)[i] == tok);
                }
            } else {
                assert(column_names(lines) == init);
            }
        }
    }
}

/// When every line of the primary listing is non-blank once trimmed,
/// the parsed names are exactly those lines, trimmed, in the same
/// order.
pub proof fn lemma_trimmed_names_per_line(lines: Seq<Seq<char>>)
    requires
        forall|i: int| 0 <= i < lines.len() ==> trimmed(#[trigger] lines[i]).len() > 0,
    ensures
        trimmed_names(lines).len() == lines.len(),
        forall|i: int|
            0 <= i < lines.len() ==> #[trigger] trimmed_names(lines)[i] == trimmed(lines[i]),
    decreases lines.len(),
{
    if lines.len() > 0 {
        assert forall|i: int| 0 <= i < lines.drop_last().len() implies trimmed(
            #[trigger] lines.drop_last()[i],
        ).len() > 0 by {
            assert(lines.drop_last()[i] == lines[i]);
        }
        lemma_trimmed_names_per_line(lines.drop_last());
        assert(trimmed(lines.last()).len() > 0);
        assert forall|i: int| 0 <= i < lines.len() implies #[trigger] trimmed_names(lines)[i]
            == trimmed(lines[i]) by {
            if i < lines.len() - 1 {
                assert(trimmed_names(lines)[i] == trimmed_names(lines.drop_last())[i]);
                assert(lines.drop_last()[i] == lines[i]);
            }
        }
    }
}

} // verus!
