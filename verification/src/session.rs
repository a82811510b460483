//! One remote command on one host: what to connect to, what to run, and how
//! the steps of a session follow one another and fail.

use vstd::prelude::*;
use vstd::string::StringExecFns;
use crate::config::HostProfile;
use crate::text::same_text;

verus! {

/// The host name that stands for the local machine.
pub const LOCALHOST: &'static str = "localhost";

/// The address that is connected to in its place.
pub const LOOPBACK: &'static str = "127.0.0.1";

/// The host to connect to for a configured host name.
pub open spec fn resolved(host: Seq<char>) -> Seq<char> {
    if host == LOCALHOST@ {
        LOOPBACK@
    } else {
        host
    }
}

/// Replaces the local machine's name by the loopback address; every other
/// host is taken as it is.
pub fn resolve_host(host: &str) -> (r: String)
    ensures
        r@ == resolved(host@),
{
    if same_text(host, LOCALHOST) {
        String::from_str(LOOPBACK)
    } else {
        String::from_str(host)
    }
}

/// Why a remote command did not run to its end.
#[derive(Clone, Copy, Debug, PartialEq, Eq, Structural)]
pub enum SessionError {
    /// The host was not reached, or the protocol handshake failed.
    Connect,
    /// The key was refused, or the session is not authenticated after all.
    Auth,
    /// The command channel failed.
    Exec,
}

/// One remote command, ready to be carried out: a fresh session to `host`,
/// one channel, one command.
#[derive(Debug)]
pub struct RemoteJob {
    /// The host to connect to, already resolved.
    pub host: String,
    pub port: u16,
    pub user: String,
    pub key_path: String,
    /// Bound on opening the connection, in seconds.
    pub timeout_secs: u64,
    pub command: String,
    /// Whether the command's output is read before the channel is closed.
    pub capture: bool,
}

/// A job as plain values.
pub struct RemoteJobView {
    pub host: Seq<char>,
    pub port: u16,
    pub user: Seq<char>,
    pub key_path: Seq<char>,
    pub timeout_secs: u64,
    pub command: Seq<char>,
    pub capture: bool,
}

impl View for RemoteJob {
    type V = RemoteJobView;

    open spec fn view(&self) -> RemoteJobView {
        RemoteJobView {
            host: self.host@,
            port: self.port,
            user: self.user@,
            key_path: self.key_path@,
            timeout_secs: self.timeout_secs,
            command: self.command@,
            capture: self.capture,
        }
    }
}

/// The job that runs `command` on the host of `profile`: the host is
/// resolved, everything else is taken from the profile as it is.
pub open spec fn job_on(profile: HostProfile, command: Seq<char>, capture: bool) -> RemoteJobView {
    RemoteJobView {
        host: resolved(profile.host@),
        port: profile.port,
        user: profile.user@,
        key_path: profile.key_path@,
        timeout_secs: profile.connect_timeout_secs,
        command,
        capture,
    }
}

/// Plans one command on the host of a profile.
pub fn job_for(profile: &HostProfile, command: &str, capture: bool) -> (r: RemoteJob)
    ensures
        r@ == job_on(*profile, command@, capture),
{
    RemoteJob {
        host: resolve_host(profile.host.as_str()),
        port: profile.port,
        user: String::from_str(profile.user.as_str()),
        key_path: String::from_str(profile.key_path.as_str()),
        timeout_secs: profile.connect_timeout_secs,
        command: String::from_str(command),
        capture,
    }
}

/// The steps of a session, in the order they are taken.
#[derive(Clone, Copy, Debug, PartialEq, Eq, Structural)]
pub enum Phase {
    /// Open the connection, within the time bound.
    Connect,
    /// Protocol handshake.
    Handshake,
    /// Offer the private key.
    Authenticate,
    /// Ask the session whether it is authenticated.
    VerifyAuth,
    /// Open a command channel.
    OpenChannel,
    /// Send the command.
    Exec,
    /// Read the output to its end.
    Read,
    /// Close the channel.
    Close,
}

/// Where a session stands after a step.
#[derive(Clone, Copy, Debug, PartialEq, Eq, Structural)]
pub enum Progress {
    /// Take this step next.
    Next(Phase),
    /// The command ran and the channel is closed.
    Done,
    /// The session is over; nothing more is to be tried.
    Failed(SessionError),
}

/// The error that a failed step amounts to.
pub open spec fn failure_of(phase: Phase) -> SessionError {
    match phase {
        Phase::Connect => SessionError::Connect,
        Phase::Handshake => SessionError::Connect,
        Phase::Authenticate => SessionError::Auth,
        Phase::VerifyAuth => SessionError::Auth,
        Phase::OpenChannel => SessionError::Exec,
        Phase::Exec => SessionError::Exec,
        Phase::Read => SessionError::Exec,
        Phase::Close => SessionError::Exec,
    }
}

/// What follows a step that went well. The output is read only where the
/// job captures it.
pub open spec fn successor(phase: Phase, capture: bool) -> Progress {
    match phase {
        Phase::Connect => Progress::Next(Phase::Handshake),
        Phase::Handshake => Progress::Next(Phase::Authenticate),
        Phase::Authenticate => Progress::Next(Phase::VerifyAuth),
        Phase::VerifyAuth => Progress::Next(Phase::OpenChannel),
        Phase::OpenChannel => Progress::Next(Phase::Exec),
        Phase::Exec => if capture {
            Progress::Next(Phase::Read)
        } else {
            Progress::Next(Phase::Close)
        },
        Phase::Read => Progress::Next(Phase::Close),
        Phase::Close => Progress::Done,
    }
}

/// Where the session stands after `phase` went well (`ok`) or did not.
pub open spec fn progress_of(phase: Phase, ok: bool, capture: bool) -> Progress {
    if ok {
        successor(phase, capture)
    } else {
        Progress::Failed(failure_of(phase))
    }
}

/// Where the session stands after a run of steps from `phase` on, each with
/// its result in `results`; steps after the end or after a failure do not
/// count.
pub open spec fn run_of(phase: Phase, results: Seq<bool>, capture: bool) -> Progress
    decreases results.len(),
{
    if results.len() == 0 {
        Progress::Next(phase)
    } else {
        match progress_of(phase, results[0], capture) {
            Progress::Next(p) => run_of(p, results.drop_first(), capture),
            Progress::Done => Progress::Done,
            Progress::Failed(e) => Progress::Failed(e),
        }
    }
}

/// The step a session begins with.
pub fn first_phase() -> (r: Phase)
    ensures
        r == Phase::Connect,
{
    Phase::Connect
}

/// Takes the result of one step and says what comes next. For the check
/// after authentication, `ok` is the session's own answer to whether it is
/// authenticated: a key that was taken without complaint is not trusted
/// until then.
pub fn advance(phase: Phase, ok: bool, capture: bool) -> (r: Progress)
    ensures
        r == progress_of(phase, ok, capture),
{
    if !ok {
        return Progress::Failed(
            match phase {
                Phase::Connect => SessionError::Connect,
                Phase::Handshake => SessionError::Connect,
                Phase::Authenticate => SessionError::Auth,
                Phase::VerifyAuth => SessionError::Auth,
                _ => SessionError::Exec,
            },
        );
    }
    match phase {
        Phase::Connect => Progress::Next(Phase::Handshake),
        Phase::Handshake => Progress::Next(Phase::Authenticate),
        Phase::Authenticate => Progress::Next(Phase::VerifyAuth),
        Phase::VerifyAuth => Progress::Next(Phase::OpenChannel),
        Phase::OpenChannel => Progress::Next(Phase::Exec),
        Phase::Exec => if capture {
            Progress::Next(Phase::Read)
        } else {
            Progress::Next(Phase::Close)
        },
        Phase::Read => Progress::Next(Phase::Close),
        Phase::Close => Progress::Done,
    }
}

/// A session whose key was taken but which then reports that it is not
/// authenticated fails with an authentication error, and no channel is
/// opened.
pub proof fn lemma_unverified_key_is_refused(capture: bool)
    ensures
        run_of(Phase::Connect, seq![true, true, true, false], capture) == Progress::Failed(
            SessionError::Auth,
        ),
{
    let r = seq![true, true, true, false];
    reveal_with_fuel(run_of, 5);
    assert(r.drop_first() =~= seq![true, true, false]);
    assert(r.drop_first().drop_first() =~= seq![true, false]);
    assert(r.drop_first().drop_first().drop_first() =~= seq![false]);
}

/// A failure ends the run at once, with the error of the step that failed.
pub proof fn lemma_failure_ends_run(phase: Phase, rest: Seq<bool>, capture: bool)
    ensures
        run_of(phase, seq![false] + rest, capture) == Progress::Failed(failure_of(phase)),
{
    assert((seq![false] + rest)[0] == false);
}

} // verus!
