//! The three operations and what the caller is shown about them: the job
//! each one sends, and the outcome for each way it can end.

use vstd::prelude::*;
use vstd::string::StringExecFns;
use crate::config::Config;
use crate::dispatch::{has_remote_effect, Decision};
use crate::mac::{
    is_mac_char, is_mac_form, lemma_sanitized_is_clean, lemma_valid_mac_is_kept, sanitize_mac,
    sanitized,
};
use crate::outcome::{
    outcome, Affordance, Outcome, OutcomeView, Verdict, TEXT_CANCELLED, TEXT_CONFIRM,
    TEXT_HANDLER_FAILED, TEXT_MAIN_MENU, TEXT_OFFLINE, TEXT_ONLINE_NO_DETAIL, TEXT_ONLINE_PREFIX,
    TEXT_PLEASE_WAIT, TEXT_SHUTDOWN_FAILED, TEXT_SHUTDOWN_SENT, TEXT_SHUTDOWN_STARTED,
    TEXT_STATUS_STARTED, TEXT_STATUS_TIMEOUT, TEXT_UNKNOWN, TEXT_WAKE_FAILED,
    TEXT_WAKE_SENT, TEXT_WAKE_STARTED,
};
use crate::session::{job_for, job_on, RemoteJob, RemoteJobView, SessionError};
use crate::text::{trim, trimmed};

verus! {

/// What the router is told, up to the address.
pub const WAKE_COMMAND_PREFIX: &'static str = "etherwake -i br-lan ";

/// What the server is told to power off.
pub const SHUTDOWN_COMMAND: &'static str = "sudo /sbin/shutdown -h now";

/// What the server is asked for its status detail.
pub const UPTIME_COMMAND: &'static str = "uptime";

/// The wake command for an address: the address is filtered first, so that
/// nothing but hexadecimal digits, colons and hyphens reaches the shell.
pub open spec fn wake_command_text(mac: Seq<char>) -> Seq<char> {
    WAKE_COMMAND_PREFIX@ + sanitized(mac)
}

/// For an address in the strict form the wake command carries the address
/// exactly as it was configured.
pub proof fn lemma_wake_command_of_valid_mac(mac: Seq<char>)
    requires
        is_mac_form(mac),
    ensures
        wake_command_text(mac) == WAKE_COMMAND_PREFIX@ + mac,
{
    lemma_valid_mac_is_kept(mac);
}

/// Whatever the address holds, what follows the fixed words of the wake
/// command is made of hexadecimal digits, colons and hyphens alone.
pub proof fn lemma_wake_command_is_clean(mac: Seq<char>, i: int)
    requires
        WAKE_COMMAND_PREFIX@.len() <= i < wake_command_text(mac).len(),
    ensures
        is_mac_char(wake_command_text(mac)[i]),
{
    lemma_sanitized_is_clean(mac);
    assert(wake_command_text(mac)[i] == sanitized(mac)[i - WAKE_COMMAND_PREFIX@.len()]);
}

/// Builds the wake command for an address.
pub fn wake_command(mac: &str) -> (r: String)
    ensures
        r@ == wake_command_text(mac@),
{
    let safe: String = sanitize_mac(mac);
    String::from_str(WAKE_COMMAND_PREFIX).concat(safe.as_str())
}

/// The three remote operations.
#[derive(Clone, Copy, Debug, PartialEq, Eq, Structural)]
pub enum Operation {
    /// Have the router send the wake packet.
    Wake,
    /// Have the server power off.
    Shutdown,
    /// Probe the server: reach it first, then ask it for detail.
    Status,
}

/// The operation that a decision sets going, if it sets one going.
pub open spec fn operation_of(d: Decision) -> Option<Operation> {
    match d {
        Decision::Wake => Some(Operation::Wake),
        Decision::Shutdown => Some(Operation::Shutdown),
        Decision::Status => Some(Operation::Status),
        _ => None,
    }
}

/// The job of an operation: the wake command goes to the router, the other
/// two commands to the server, and only the status detail is read back.
pub open spec fn job_of(config: Config, op: Operation) -> RemoteJobView {
    match op {
        Operation::Wake => job_on(config.router, wake_command_text(config.server_mac@), false),
        Operation::Shutdown => job_on(config.server, SHUTDOWN_COMMAND@, false),
        Operation::Status => job_on(config.server, UPTIME_COMMAND@, true),
    }
}

/// The operation that a decision sets going; none for a decision that is
/// complete with its notice.
pub fn operation(d: Decision) -> (r: Option<Operation>)
    ensures
        r == operation_of(d),
        r is Some <==> has_remote_effect(d),
{
    match d {
        Decision::Wake => Some(Operation::Wake),
        Decision::Shutdown => Some(Operation::Shutdown),
        Decision::Status => Some(Operation::Status),
        _ => None,
    }
}

/// The wake job: the wake command for the configured address, on the
/// router, without reading any output. The address goes through the filter
/// like any other text, and comes out of it as it was configured.
pub fn send_wol(config: &Config) -> (r: RemoteJob)
    ensures
        r@ == job_of(*config, Operation::Wake),
        r@.command == WAKE_COMMAND_PREFIX@ + config.server_mac@,
{
    let mac: &str = config.server_mac.as_str();
    proof {
        lemma_wake_command_of_valid_mac(mac@);
    }
    let command: String = wake_command(mac);
    job_for(&config.router, command.as_str(), false)
}

/// The shutdown job: the power-off command on the server, without reading
/// any output.
pub fn send_shutdown(config: &Config) -> (r: RemoteJob)
    ensures
        r@ == job_of(*config, Operation::Shutdown),
{
    job_for(&config.server, SHUTDOWN_COMMAND, false)
}

/// The detail job of a status probe: the uptime command on the server, with
/// its output read.
pub fn status_detail_job(config: &Config) -> (r: RemoteJob)
    ensures
        r@ == job_of(*config, Operation::Status),
{
    job_for(&config.server, UPTIME_COMMAND, true)
}

/// The job of an operation.
pub fn job(config: &Config, op: Operation) -> (r: RemoteJob)
    ensures
        r@ == job_of(*config, op),
{
    match op {
        Operation::Wake => send_wol(config),
        Operation::Shutdown => send_shutdown(config),
        Operation::Status => status_detail_job(config),
    }
}

/// What is shown at once on a decision, before anything remote is done: the
/// request to wait, the unknown-command notice, the prompt, the menu after a
/// cancel, or the note that an operation has started. A denied caller is
/// shown nothing.
pub open spec fn notice_of(d: Decision) -> Option<OutcomeView> {
    match d {
        Decision::Deny => None,
        Decision::PleaseWait => Some(
            OutcomeView {
                verdict: Verdict::Failed,
                text: TEXT_PLEASE_WAIT@,
                affordance: Affordance::Unchanged,
            },
        ),
        Decision::Unknown => Some(
            OutcomeView {
                verdict: Verdict::Failed,
                text: TEXT_UNKNOWN@,
                affordance: Affordance::MainMenu,
            },
        ),
        Decision::AskConfirm => Some(
            OutcomeView {
                verdict: Verdict::Success,
                text: TEXT_CONFIRM@,
                affordance: Affordance::Confirm,
            },
        ),
        Decision::Cancel => Some(
            OutcomeView {
                verdict: Verdict::Success,
                text: TEXT_CANCELLED@,
                affordance: Affordance::MainMenu,
            },
        ),
        Decision::Wake => Some(
            OutcomeView {
                verdict: Verdict::Success,
                text: TEXT_WAKE_STARTED@,
                affordance: Affordance::Unchanged,
            },
        ),
        Decision::Shutdown => Some(
            OutcomeView {
                verdict: Verdict::Success,
                text: TEXT_SHUTDOWN_STARTED@,
                affordance: Affordance::Unchanged,
            },
        ),
        Decision::Status => Some(
            OutcomeView {
                verdict: Verdict::Success,
                text: TEXT_STATUS_STARTED@,
                affordance: Affordance::Unchanged,
            },
        ),
    }
}

/// What is shown at once on a decision.
pub fn notice(d: Decision) -> (r: Option<Outcome>)
    ensures
        r is Some == notice_of(d) is Some,
        r is Some ==> r->0@ == notice_of(d)->0,
{
    match d {
        Decision::Deny => None,
        Decision::PleaseWait => Some(
            outcome(Verdict::Failed, TEXT_PLEASE_WAIT, Affordance::Unchanged),
        ),
        Decision::Unknown => Some(outcome(Verdict::Failed, TEXT_UNKNOWN, Affordance::MainMenu)),
        Decision::AskConfirm => Some(outcome(Verdict::Success, TEXT_CONFIRM, Affordance::Confirm)),
        Decision::Cancel => Some(outcome(Verdict::Success, TEXT_CANCELLED, Affordance::MainMenu)),
        Decision::Wake => Some(
            outcome(Verdict::Success, TEXT_WAKE_STARTED, Affordance::Unchanged),
        ),
        Decision::Shutdown => Some(
            outcome(Verdict::Success, TEXT_SHUTDOWN_STARTED, Affordance::Unchanged),
        ),
        Decision::Status => Some(
            outcome(Verdict::Success, TEXT_STATUS_STARTED, Affordance::Unchanged),
        ),
    }
}

/// The main menu, as sent in answer to a menu command.
pub fn send_main_menu() -> (r: Outcome)
    ensures
        r@ == (OutcomeView {
            verdict: Verdict::Success,
            text: TEXT_MAIN_MENU@,
            affordance: Affordance::MainMenu,
        }),
{
    outcome(Verdict::Success, TEXT_MAIN_MENU, Affordance::MainMenu)
}

/// The outcome of a wake: sent, or failed whatever the error was. Either
/// way the main menu is offered again.
pub fn wake_outcome(result: Result<(), SessionError>) -> (r: Outcome)
    ensures
        r@ == (OutcomeView {
            verdict: if result is Ok {
                Verdict::Success
            } else {
                Verdict::Failed
            },
            text: if result is Ok {
                TEXT_WAKE_SENT@
            } else {
                TEXT_WAKE_FAILED@
            },
            affordance: Affordance::MainMenu,
        }),
{
    match result {
        Ok(_) => outcome(Verdict::Success, TEXT_WAKE_SENT, Affordance::MainMenu),
        Err(_) => outcome(Verdict::Failed, TEXT_WAKE_FAILED, Affordance::MainMenu),
    }
}

/// The outcome of a shutdown: sent, or failed whatever the error was.
pub fn shutdown_outcome(result: Result<(), SessionError>) -> (r: Outcome)
    ensures
        r@ == (OutcomeView {
            verdict: if result is Ok {
                Verdict::Success
            } else {
                Verdict::Failed
            },
            text: if result is Ok {
                TEXT_SHUTDOWN_SENT@
            } else {
                TEXT_SHUTDOWN_FAILED@
            },
            affordance: Affordance::MainMenu,
        }),
{
    match result {
        Ok(_) => outcome(Verdict::Success, TEXT_SHUTDOWN_SENT, Affordance::MainMenu),
        Err(_) => outcome(Verdict::Failed, TEXT_SHUTDOWN_FAILED, Affordance::MainMenu),
    }
}

/// What a status probe does after the bare reachability check.
#[derive(Debug)]
pub enum ProbeStep {
    /// The probe is over; this is its outcome.
    Report(Outcome),
    /// The host answered: open a session and ask for detail.
    FetchDetail,
}

/// The second half of a status probe is entered only if the host answered
/// the bare connection attempt. If it did not, the probe ends at once with
/// the offline report, and no session is opened.
pub fn check_status(reachable: bool) -> (r: ProbeStep)
    ensures
        reachable ==> r is FetchDetail,
        !reachable ==> r is Report && r->Report_0@ == (OutcomeView {
            verdict: Verdict::Success,
            text: TEXT_OFFLINE@,
            affordance: Affordance::MainMenu,
        }),
{
    if reachable {
        ProbeStep::FetchDetail
    } else {
        ProbeStep::Report(outcome(Verdict::Success, TEXT_OFFLINE, Affordance::MainMenu))
    }
}

/// The online report with a detail line below it; `detail` is shown as it
/// is.
pub fn online_report(detail: &str) -> (r: Outcome)
    ensures
        r@ == (OutcomeView {
            verdict: Verdict::Success,
            text: TEXT_ONLINE_PREFIX@ + detail@,
            affordance: Affordance::MainMenu,
        }),
{
    Outcome {
        verdict: Verdict::Success,
        text: String::from_str(TEXT_ONLINE_PREFIX).concat(detail),
        affordance: Affordance::MainMenu,
    }
}

/// The outcome of a status probe whose host answered. With the command's
/// output, the report shows it, trimmed. Without it, whatever went wrong in
/// the session, the report still says online, with a fixed line in place of
/// the detail: the host was reached, so this is no failure.
pub fn status_detail_outcome(detail: Result<String, SessionError>) -> (r: Outcome)
    ensures
        r@.verdict == Verdict::Success,
        r@.affordance == Affordance::MainMenu,
        r@.text == match detail {
            Ok(output) => TEXT_ONLINE_PREFIX@ + trimmed(output@),
            Err(_) => TEXT_ONLINE_NO_DETAIL@,
        },
{
    match detail {
        Ok(output) => online_report(trim(output.as_str())),
        Err(_) => outcome(Verdict::Success, TEXT_ONLINE_NO_DETAIL, Affordance::MainMenu),
    }
}

/// What the caller is shown when an operation's job has ended; `result` is
/// the command's output, or the error the session ended in.
pub open spec fn conclusion_of(op: Operation, result: Result<Seq<char>, SessionError>) -> OutcomeView {
    match op {
        Operation::Wake => OutcomeView {
            verdict: if result is Ok {
                Verdict::Success
            } else {
                Verdict::Failed
            },
            text: if result is Ok {
                TEXT_WAKE_SENT@
            } else {
                TEXT_WAKE_FAILED@
            },
            affordance: Affordance::MainMenu,
        },
        Operation::Shutdown => OutcomeView {
            verdict: if result is Ok {
                Verdict::Success
            } else {
                Verdict::Failed
            },
            text: if result is Ok {
                TEXT_SHUTDOWN_SENT@
            } else {
                TEXT_SHUTDOWN_FAILED@
            },
            affordance: Affordance::MainMenu,
        },
        Operation::Status => OutcomeView {
            verdict: Verdict::Success,
            text: match result {
                Ok(output) => TEXT_ONLINE_PREFIX@ + trimmed(output),
                Err(_) => TEXT_ONLINE_NO_DETAIL@,
            },
            affordance: Affordance::MainMenu,
        },
    }
}

/// The outcome of an operation whose job has ended. A wake or a shutdown
/// that failed is reported as failed, whatever the error; a status probe
/// that got this far reports online either way.
pub fn conclude(op: Operation, result: Result<String, SessionError>) -> (r: Outcome)
    ensures
        r@ == conclusion_of(
            op,
            match result {
                Ok(output) => Ok(output@),
                Err(e) => Err(e),
            },
        ),
{
    match op {
        Operation::Wake => match result {
            Ok(_) => wake_outcome(Ok(())),
            Err(e) => wake_outcome(Err(e)),
        },
        Operation::Shutdown => match result {
            Ok(_) => shutdown_outcome(Ok(())),
            Err(e) => shutdown_outcome(Err(e)),
        },
        Operation::Status => status_detail_outcome(result),
    }
}

/// The outcome of a status probe that ran out of time: neither a success nor
/// a failure.
pub fn status_timeout_outcome() -> (r: Outcome)
    ensures
        r@ == (OutcomeView {
            verdict: Verdict::TimedOut,
            text: TEXT_STATUS_TIMEOUT@,
            affordance: Affordance::MainMenu,
        }),
{
    outcome(Verdict::TimedOut, TEXT_STATUS_TIMEOUT, Affordance::MainMenu)
}

/// The outcome when showing something to the caller failed half-way: a
/// general apology, with the main menu.
pub fn handler_failed_outcome() -> (r: Outcome)
    ensures
        r@ == (OutcomeView {
            verdict: Verdict::Failed,
            text: TEXT_HANDLER_FAILED@,
            affordance: Affordance::MainMenu,
        }),
{
    outcome(Verdict::Failed, TEXT_HANDLER_FAILED, Affordance::MainMenu)
}

/// Only the three operations are followed by remote work; every other
/// decision is complete with its notice, and a request to wait leaves the
/// keyboard as it is.
pub proof fn lemma_notices(d: Decision)
    ensures
        notice_of(d) is None <==> d == Decision::Deny,
        d == Decision::PleaseWait ==> notice_of(d)->0.affordance == Affordance::Unchanged
            && notice_of(d)->0.text == TEXT_PLEASE_WAIT@,
{
}

} // verus!
