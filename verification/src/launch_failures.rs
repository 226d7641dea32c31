//! Telling the operator why the service did not start.

use vstd::prelude::*;
use vstd::string::*;
use crate::text::{decimal, join, join_texts, push_decimal};

verus! {

/// A place in the sources where a guard asked for the launch to stop.
#[derive(Debug)]
pub struct SentinelAbort {
    pub guard: String,
    pub file: String,
    pub line: u32,
    pub column: u32,
}

/// Why a launch failed. Each text is what the failing part says of itself.
#[derive(Debug)]
pub enum LaunchFailure {
    /// The address or port could not be bound.
    Bind(String),
    /// Reading or writing failed while starting.
    Io(String),
    /// The configuration could not be read.
    Config(String),
    /// Two routes, or two catchers, answer the same requests.
    Collisions { routes: Vec<(String, String)>, catchers: Vec<(String, String)> },
    /// The named fairings failed.
    FailedFairings(Vec<String>),
    /// Guards asked for the launch to stop.
    SentinelAborts(Vec<SentinelAbort>),
    /// The profile is not the debug one and no secret key is set.
    InsecureSecretKey(String),
    /// Anything else.
    Unknown(String),
}

/// What is to be written to the log and the message to stop with.
#[derive(Debug)]
pub struct LaunchReport {
    pub logged: Vec<String>,
    pub message: String,
}

/// The line that describes one collision of the given kind.
pub open spec fn collision_line(kind: Seq<char>, first: Seq<char>, second: Seq<char>) -> Seq<
    char,
> {
    "Collision("@ + kind + ") between: \n"@ + first + "\nand\n"@ + second + "\n"@
}

/// One line per collision, in order.
pub open spec fn collision_lines(kind: Seq<char>, pairs: Seq<(Seq<char>, Seq<char>)>) -> Seq<
    Seq<char>,
> {
    Seq::new(pairs.len(), |i: int| collision_line(kind, pairs[i].0, pairs[i].1))
}

/// The line that describes one abort: the type, then file, line and column.
pub open spec fn abort_line(abort: SentinelAbort) -> Seq<char> {
    abort.guard@ + " ("@ + abort.file@ + ":"@ + decimal(abort.line as nat) + ":"@ + decimal(
        abort.column as nat,
    ) + ")"@
}

/// One line per abort, in order.
pub open spec fn abort_lines(aborts: Seq<SentinelAbort>) -> Seq<Seq<char>> {
    Seq::new(aborts.len(), |i: int| abort_line(aborts[i]))
}

/// What is logged for a failure, line by line.
pub open spec fn logged_lines(failure: LaunchFailure) -> Seq<Seq<char>> {
    match failure {
        LaunchFailure::Bind(e) => seq![e@],
        LaunchFailure::Io(e) => seq![e@],
        LaunchFailure::Config(e) => seq![e@],
        LaunchFailure::Collisions { routes, catchers } => seq![
            "Colliding routes: "@ + join(collision_lines("routes"@, routes.deep_view()), "\n"@),
            "Collision catchers: "@ + join(
                collision_lines("catchers"@, catchers.deep_view()),
                "\n"@,
            ),
        ],
        LaunchFailure::FailedFairings(names) => seq![
            "Fairing error: "@ + join(names.deep_view(), "\n"@),
        ],
        LaunchFailure::SentinelAborts(aborts) => seq![
            "Sentinel Aborts: "@ + join(abort_lines(aborts@), "\n"@),
        ],
        LaunchFailure::InsecureSecretKey(profile) => seq![profile@],
        LaunchFailure::Unknown(e) => seq![e@],
    }
}

/// The message the program stops with for a failure.
pub open spec fn stop_message(failure: LaunchFailure) -> Seq<char> {
    match failure {
        LaunchFailure::Bind(_) => "Address/Port binding error."@,
        LaunchFailure::Io(_) => "API IO error during launch."@,
        LaunchFailure::Config(_) => "Config is not valid."@,
        LaunchFailure::Collisions { .. } => "API Collision Error."@,
        LaunchFailure::FailedFairings(_) => "API Fairing Error."@,
        LaunchFailure::SentinelAborts(_) => "Sentinels request abort."@,
        LaunchFailure::InsecureSecretKey(_) =>
        "The configuration profile is not debug but not secret key is configured."@,
        LaunchFailure::Unknown(_) => "API Unknown Error."@,
    }
}

/// Writes one collision line.
fn collision_text(kind: &str, first: &str, second: &str) -> (out: String)
    ensures
        out@ == collision_line(kind@, first@, second@),
{
    let mut out = "Collision(".to_owned();
    out.append(kind);
    out.append(") between: \n");
    out.append(first);
    out.append("\nand\n");
    out.append(second);
    out.append("\n");
    out
}

/// Writes the lines of all collisions of one kind, a line break between
/// neighbours.
fn collision_messages(kind: &str, pairs: &Vec<(String, String)>) -> (out: String)
    ensures
        out@ == join(collision_lines(kind@, pairs.deep_view()), "\n"@),
{
    let mut lines: Vec<String> = Vec::new();
    let mut i: usize = 0;
    while i < pairs.len()
        invariant
            i <= pairs.len(),
            lines.deep_view() == collision_lines(kind@, pairs.deep_view()).take(i as int),
        decreases pairs.len() - i,
    {
        let pair = &pairs[i];
        let line = collision_text(kind, pair.0.as_str(), pair.1.as_str());
        let ghost before = lines.deep_view();
        let ghost written = line@;
        lines.push(line);
        proof {
            let all = collision_lines(kind@, pairs.deep_view());
            assert(pairs.deep_view()[i as int] == (pair.0@, pair.1@));
            assert(all.take(i + 1) =~= all.take(i as int).push(written));
            assert(lines.deep_view() =~= before.push(written));
        }
        i = i + 1;
    }
    proof {
        let all = collision_lines(kind@, pairs.deep_view());
        assert(all.take(pairs.len() as int) =~= all);
    }
    join_texts(&lines, "\n")
}

/// Writes the line of one abort.
fn abort_text(abort: &SentinelAbort) -> (out: String)
    ensures
        out@ == abort_line(*abort),
{
    let mut out = abort.guard.clone();
    out.append(" (");
    out.append(abort.file.as_str());
    out.append(":");
    push_decimal(&mut out, abort.line as u64);
    out.append(":");
    push_decimal(&mut out, abort.column as u64);
    out.append(")");
    out
}

/// Writes the lines of all aborts, a line break between neighbours.
fn abort_messages(aborts: &Vec<SentinelAbort>) -> (out: String)
    ensures
        out@ == join(abort_lines(aborts@), "\n"@),
{
    let mut lines: Vec<String> = Vec::new();
    let mut i: usize = 0;
    while i < aborts.len()
        invariant
            i <= aborts.len(),
            lines.deep_view() == abort_lines(aborts@).take(i as int),
        decreases aborts.len() - i,
    {
        let line = abort_text(&aborts[i]);
        let ghost before = lines.deep_view();
        let ghost written = line@;
        lines.push(line);
        proof {
            let all = abort_lines(aborts@);
            assert(all.take(i + 1) =~= all.take(i as int).push(written));
            assert(lines.deep_view() =~= before.push(written));
        }
        i = i + 1;
    }
    proof {
        let all = abort_lines(aborts@);
        assert(all.take(aborts.len() as int) =~= all);
    }
    join_texts(&lines, "\n")
}

/// A report of one logged line.
fn single_line(line: &String, message: &str) -> (report: LaunchReport)
    ensures
        report.logged.deep_view() == seq![line@],
        report.message@ == message@,
{
    let mut logged: Vec<String> = Vec::new();
    logged.push(line.clone());
    assert(logged.deep_view() =~= seq![line@]);
    LaunchReport { logged, message: message.to_owned() }
}

/// Decides what to tell the operator about a failed launch: the lines to
/// log, and the message to stop the program with. It stops for every
/// failure.
pub fn launch_failure_handler(error: &LaunchFailure) -> (report: LaunchReport)
    ensures
        report.logged.deep_view() == logged_lines(*error),
        report.message@ == stop_message(*error),
{
    match error {
        LaunchFailure::Bind(e) => single_line(e, "Address/Port binding error."),
        LaunchFailure::Io(e) => single_line(e, "API IO error during launch."),
        LaunchFailure::Config(e) => single_line(e, "Config is not valid."),
        LaunchFailure::Collisions { routes, catchers } => {
            let mut first = "Colliding routes: ".to_owned();
            first.append(collision_messages("routes", routes).as_str());
            let mut second = "Collision catchers: ".to_owned();
            second.append(collision_messages("catchers", catchers).as_str());
            let mut logged: Vec<String> = Vec::new();
            logged.push(first);
            logged.push(second);
            assert(logged.deep_view() =~= logged_lines(*error));
            LaunchReport { logged, message: "API Collision Error.".to_owned() }
        },
        LaunchFailure::FailedFairings(names) => {
            let mut line = "Fairing error: ".to_owned();
            line.append(join_texts(names, "\n").as_str());
            single_line(&line, "API Fairing Error.")
        },
        LaunchFailure::SentinelAborts(aborts) => {
            let mut line = "Sentinel Aborts: ".to_owned();
            line.append(abort_messages(aborts).as_str());
            single_line(&line, "Sentinels request abort.")
        },
        LaunchFailure::InsecureSecretKey(profile) => single_line(
            profile,
            "The configuration profile is not debug but not secret key is configured.",
        ),
        LaunchFailure::Unknown(e) => single_line(e, "API Unknown Error."),
    }
}

} // verus!
