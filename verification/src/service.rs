//! The daemon's lifecycle: the identity record that names the running
//! daemon, the liveness check, and the procedures that start and stop it.
//!
//! Nothing here touches a process or a file. Each procedure is a function
//! from the phase it is in and the answer to its latest action to the next
//! phase; a phase names the action to perform.

use vstd::prelude::*;
use crate::text::{chars_of, decimal, decimal_string, digit_char, is_space, lemma_trim_end,
    lemma_trim_start, trim_bounds, trimmed};

verus! {

/// How long the start procedure waits before it reads the identity record,
/// in milliseconds.
pub const LAUNCH_WAIT_MS: u64 = 1000;

/// How long the start procedure waits before its last liveness check, in
/// milliseconds.
pub const SETTLE_WAIT_MS: u64 = 500;

/// How long the stop procedure waits for the daemon to exit after asking it
/// to, in milliseconds.
pub const EXIT_WAIT_MS: u64 = 500;

/// How long the stop procedure waits after killing the daemon, in
/// milliseconds.
pub const KILL_WAIT_MS: u64 = 300;

/// Where the daemon is in its life.
#[derive(Clone, Copy, Debug, PartialEq, Eq, Structural)]
pub enum DaemonState {
    /// No daemon runs.
    Stopped,
    /// The daemon was launched and has not entered its loop yet.
    Starting,
    /// The daemon runs its loop.
    Running,
    /// The daemon was asked to stop and has not left its loop yet.
    StopRequested,
}

/// What happens to the daemon.
#[derive(Clone, Copy, Debug, PartialEq, Eq, Structural)]
pub enum DaemonEvent {
    /// The daemon process was launched.
    Launched,
    /// The daemon wrote its identity record and entered its loop.
    LoopEntered,
    /// A termination or interrupt signal arrived.
    StopSignal,
    /// The daemon left its loop and removed its identity record.
    LoopLeft,
}

/// What the liveness check found.
#[derive(Clone, Copy, Debug, PartialEq, Eq, Structural)]
pub struct Liveness {
    /// Whether a daemon is running.
    pub running: bool,
    /// Whether the identity record is stale and is to be removed.
    pub remove_record: bool,
}

/// An answer to an action of the start or the stop procedure.
#[derive(Debug)]
pub enum Answer {
    /// The liveness check ran; the daemon is alive or not.
    Alive(bool),
    /// The launch or the signal was carried out, with or without success.
    Carried(bool),
    /// The identity record was read; `None` if it could not be.
    Record(Option<String>),
}

/// How the start procedure ended.
#[derive(Clone, Copy, Debug, PartialEq, Eq, Structural)]
pub enum StartOutcome {
    /// A daemon was running already; nothing was done.
    AlreadyRunning,
    /// The daemon with this process identity runs.
    Started(u32),
    /// The daemon was launched but was not seen alive in time. A warning,
    /// not a failure.
    Unconfirmed(u32),
    /// The daemon could not be launched.
    LaunchFailed,
    /// The daemon left no identity record that could be read.
    RecordUnreadable,
    /// The identity record does not hold a process identity.
    RecordInvalid,
}

/// The phases of the start procedure. Each names the action that is due.
#[derive(Clone, Copy, Debug, PartialEq, Eq, Structural)]
pub enum StartPhase {
    /// Check whether a daemon is alive.
    Probing,
    /// Remove any stale identity record and launch the daemon, detached.
    Launching,
    /// Wait [`LAUNCH_WAIT_MS`], then read the identity record.
    ReadingRecord,
    /// Check whether the daemon with this identity is alive.
    Confirming(u32),
    /// Wait [`SETTLE_WAIT_MS`], then check once more whether the daemon with
    /// this identity is alive.
    Settling(u32),
    /// Nothing is left to do.
    Done(StartOutcome),
}

/// How the stop procedure ended.
#[derive(Clone, Copy, Debug, PartialEq, Eq, Structural)]
pub enum StopOutcome {
    /// No daemon was running; nothing was done.
    NotRunning,
    /// The daemon exited when asked to.
    Stopped,
    /// The daemon exited only after it was killed.
    Killed,
    /// The identity record could not be read or holds no process identity.
    RecordUnreadable,
    /// The daemon is still alive; the operator has to end it by hand.
    Failed,
}

/// The phases of the stop procedure. Each names the action that is due.
#[derive(Clone, Copy, Debug, PartialEq, Eq, Structural)]
pub enum StopPhase {
    /// Check whether a daemon is alive.
    Probing,
    /// Read the identity record.
    ReadingRecord,
    /// Ask the daemon with this identity to terminate.
    Terminating(u32),
    /// Wait [`EXIT_WAIT_MS`], then check whether the daemon is alive.
    AwaitingExit(u32),
    /// Kill the daemon with this identity.
    Killing(u32),
    /// Wait [`KILL_WAIT_MS`], then check whether the daemon is alive.
    AwaitingKill(u32),
    /// Nothing is left to do; on a confirmed stop the identity record is
    /// removed.
    Done(StopOutcome),
}

/// `c` is one of the ten decimal digits.
pub open spec fn is_digit(c: char) -> bool {
    '0' <= c <= '9'
}

/// `s` is a non-empty run of decimal digits.
pub open spec fn is_numeral(s: Seq<char>) -> bool {
    s.len() > 0 && forall|i: int| 0 <= i < s.len() ==> is_digit(#[trigger] s[i])
}

/// The number that a run of decimal digits writes.
pub open spec fn numeral_value(s: Seq<char>) -> nat
    decreases s.len(),
{
    if s.len() == 0 {
        0
    } else {
        numeral_value(s.drop_last()) * 10 + (s.last() as u32 - '0' as u32) as nat
    }
}

/// The process identity that an identity record holds: a decimal number
/// that fits 32 bits, with an optional `+` in front and any white space
/// around it. Anything else holds none.
pub open spec fn pid_of(text: Seq<char>) -> Option<u32> {
    let body = trimmed(text);
    let digits = if body.len() > 0 && body[0] == '+' {
        body.drop_first()
    } else {
        body
    };
    if is_numeral(digits) && numeral_value(digits) <= u32::MAX {
        Some(numeral_value(digits) as u32)
    } else {
        None
    }
}

/// What the liveness check finds, given the process identity that the
/// identity record holds, if any, and whether that process is alive. A record
/// that names no live process is stale.
pub open spec fn liveness_of(pid: Option<u32>, alive: bool) -> Liveness {
    match pid {
        Some(_) => Liveness { running: alive, remove_record: !alive },
        None => Liveness { running: false, remove_record: true },
    }
}

/// The daemon's state after an event. An event that does not fit the state
/// changes nothing.
pub open spec fn daemon_after(state: DaemonState, event: DaemonEvent) -> DaemonState {
    match (state, event) {
        (DaemonState::Stopped, DaemonEvent::Launched) => DaemonState::Starting,
        (DaemonState::Starting, DaemonEvent::LoopEntered) => DaemonState::Running,
        (DaemonState::Starting, DaemonEvent::StopSignal) => DaemonState::StopRequested,
        (DaemonState::Running, DaemonEvent::StopSignal) => DaemonState::StopRequested,
        (DaemonState::StopRequested, DaemonEvent::LoopLeft) => DaemonState::Stopped,
        _ => state,
    }
}

/// The content of an answer.
pub enum AnswerView {
    Alive(bool),
    Carried(bool),
    Record(Option<Seq<char>>),
}

impl View for Answer {
    type V = AnswerView;

    open spec fn view(&self) -> AnswerView {
        match self {
            Answer::Alive(b) => AnswerView::Alive(*b),
            Answer::Carried(b) => AnswerView::Carried(*b),
            Answer::Record(Some(text)) => AnswerView::Record(Some(text@)),
            Answer::Record(None) => AnswerView::Record(None),
        }
    }
}

/// The phase of the start procedure that follows `phase` on `answer`. An
/// answer that does not fit the phase changes nothing.
///
/// A daemon that is alive already ends the procedure at once. A launch that
/// fails, a record that cannot be read and a record without a process
/// identity are failures. Whether the launched daemon is seen alive decides
/// only between success and a warning.
pub open spec fn start_after(phase: StartPhase, answer: AnswerView) -> StartPhase {
    match (phase, answer) {
        (StartPhase::Probing, AnswerView::Alive(true)) => StartPhase::Done(
            StartOutcome::AlreadyRunning,
        ),
        (StartPhase::Probing, AnswerView::Alive(false)) => StartPhase::Launching,
        (StartPhase::Launching, AnswerView::Carried(true)) => StartPhase::ReadingRecord,
        (StartPhase::Launching, AnswerView::Carried(false)) => StartPhase::Done(
            StartOutcome::LaunchFailed,
        ),
        (StartPhase::ReadingRecord, AnswerView::Record(None)) => StartPhase::Done(
            StartOutcome::RecordUnreadable,
        ),
        (StartPhase::ReadingRecord, AnswerView::Record(Some(text))) => match pid_of(text) {
            Some(pid) => StartPhase::Confirming(pid),
            None => StartPhase::Done(StartOutcome::RecordInvalid),
        },
        (StartPhase::Confirming(pid), AnswerView::Alive(_)) => StartPhase::Settling(pid),
        (StartPhase::Settling(pid), AnswerView::Alive(true)) => StartPhase::Done(
            StartOutcome::Started(pid),
        ),
        (StartPhase::Settling(pid), AnswerView::Alive(false)) => StartPhase::Done(
            StartOutcome::Unconfirmed(pid),
        ),
        _ => phase,
    }
}

/// The phase of the stop procedure that follows `phase` on `answer`. An
/// answer that does not fit the phase changes nothing.
///
/// The daemon is first asked to terminate; only if it is still alive after
/// the grace period is it killed, and only if it is alive even then does the
/// procedure fail.
pub open spec fn stop_after(phase: StopPhase, answer: AnswerView) -> StopPhase {
    match (phase, answer) {
        (StopPhase::Probing, AnswerView::Alive(false)) => StopPhase::Done(StopOutcome::NotRunning),
        (StopPhase::Probing, AnswerView::Alive(true)) => StopPhase::ReadingRecord,
        (StopPhase::ReadingRecord, AnswerView::Record(None)) => StopPhase::Done(
            StopOutcome::RecordUnreadable,
        ),
        (StopPhase::ReadingRecord, AnswerView::Record(Some(text))) => match pid_of(text) {
            Some(pid) => StopPhase::Terminating(pid),
            None => StopPhase::Done(StopOutcome::RecordUnreadable),
        },
        (StopPhase::Terminating(pid), AnswerView::Carried(true)) => StopPhase::AwaitingExit(pid),
        (StopPhase::Terminating(_), AnswerView::Carried(false)) => StopPhase::Done(
            StopOutcome::Failed,
        ),
        (StopPhase::AwaitingExit(_), AnswerView::Alive(false)) => StopPhase::Done(
            StopOutcome::Stopped,
        ),
        (StopPhase::AwaitingExit(pid), AnswerView::Alive(true)) => StopPhase::Killing(pid),
        (StopPhase::Killing(pid), AnswerView::Carried(true)) => StopPhase::AwaitingKill(pid),
        (StopPhase::Killing(_), AnswerView::Carried(false)) => StopPhase::Done(StopOutcome::Failed),
        (StopPhase::AwaitingKill(_), AnswerView::Alive(false)) => StopPhase::Done(
            StopOutcome::Killed,
        ),
        (StopPhase::AwaitingKill(_), AnswerView::Alive(true)) => StopPhase::Done(
            StopOutcome::Failed,
        ),
        _ => phase,
    }
}

/// Why the start procedure failed, in words for the operator; `None` where
/// it did not fail. A daemon that runs already, one that was started and one
/// that was not seen alive in time are no failures.
pub open spec fn start_failure(outcome: StartOutcome) -> Option<Seq<char>> {
    match outcome {
        StartOutcome::LaunchFailed => Some("failed to start monitoring daemon"@),
        StartOutcome::RecordUnreadable => Some("failed to read daemon PID file"@),
        StartOutcome::RecordInvalid => Some("invalid PID in daemon PID file"@),
        _ => None,
    }
}

/// Why the stop procedure failed, in words for the operator; `None` where it
/// did not fail. A daemon that was not running and one that was stopped, by
/// request or by force, are no failures.
pub open spec fn stop_failure(outcome: StopOutcome) -> Option<Seq<char>> {
    match outcome {
        StopOutcome::RecordUnreadable => Some("could not read PID file"@),
        StopOutcome::Failed => Some(
            "failed to stop monitoring service, you may need to terminate it manually"@,
        ),
        _ => None,
    }
}

/// Whether `answer` is of the kind that `phase` waits for.
pub open spec fn fits_start(phase: StartPhase, answer: AnswerView) -> bool {
    match (phase, answer) {
        (StartPhase::Probing, AnswerView::Alive(_)) => true,
        (StartPhase::Launching, AnswerView::Carried(_)) => true,
        (StartPhase::ReadingRecord, AnswerView::Record(_)) => true,
        (StartPhase::Confirming(_), AnswerView::Alive(_)) => true,
        (StartPhase::Settling(_), AnswerView::Alive(_)) => true,
        _ => false,
    }
}

/// Whether `answer` is of the kind that `phase` waits for.
pub open spec fn fits_stop(phase: StopPhase, answer: AnswerView) -> bool {
    match (phase, answer) {
        (StopPhase::Probing, AnswerView::Alive(_)) => true,
        (StopPhase::ReadingRecord, AnswerView::Record(_)) => true,
        (StopPhase::Terminating(_), AnswerView::Carried(_)) => true,
        (StopPhase::AwaitingExit(_), AnswerView::Alive(_)) => true,
        (StopPhase::Killing(_), AnswerView::Carried(_)) => true,
        (StopPhase::AwaitingKill(_), AnswerView::Alive(_)) => true,
        _ => false,
    }
}

/// The largest number of actions that the start procedure can still take.
pub open spec fn start_steps_left(phase: StartPhase) -> nat {
    match phase {
        StartPhase::Probing => 5,
        StartPhase::Launching => 4,
        StartPhase::ReadingRecord => 3,
        StartPhase::Confirming(_) => 2,
        StartPhase::Settling(_) => 1,
        StartPhase::Done(_) => 0,
    }
}

/// The largest number of actions that the stop procedure can still take.
pub open spec fn stop_steps_left(phase: StopPhase) -> nat {
    match phase {
        StopPhase::Probing => 6,
        StopPhase::ReadingRecord => 5,
        StopPhase::Terminating(_) => 4,
        StopPhase::AwaitingExit(_) => 3,
        StopPhase::Killing(_) => 2,
        StopPhase::AwaitingKill(_) => 1,
        StopPhase::Done(_) => 0,
    }
}

/// The pause that comes before the action of a phase of the start
/// procedure, in milliseconds.
pub open spec fn start_pause(phase: StartPhase) -> u64 {
    match phase {
        StartPhase::ReadingRecord => LAUNCH_WAIT_MS,
        StartPhase::Settling(_) => SETTLE_WAIT_MS,
        _ => 0,
    }
}

/// The pause that comes before the action of a phase of the stop procedure,
/// in milliseconds.
pub open spec fn stop_pause(phase: StopPhase) -> u64 {
    match phase {
        StopPhase::AwaitingExit(_) => EXIT_WAIT_MS,
        StopPhase::AwaitingKill(_) => KILL_WAIT_MS,
        _ => 0,
    }
}

/// A numeral's value is at least that of each of its beginnings.
pub proof fn lemma_numeral_grows(s: Seq<char>, k: int)
    requires
        0 <= k <= s.len(),
        forall|i: int| 0 <= i < s.len() ==> is_digit(#[trigger] s[i]),
    ensures
        numeral_value(s.take(k)) <= numeral_value(s),
    decreases s.len() - k,
{
    if k == s.len() {
        assert(s.take(k) =~= s);
    } else {
        let front = s.drop_last();
        assert forall|i: int| 0 <= i < front.len() implies is_digit(#[trigger] front[i]) by {
            assert(front[i] == s[i]);
        }
        lemma_numeral_grows(front, k);
        assert(front.take(k) =~= s.take(k));
        assert(is_digit(s.last()));
    }
}

/// Reads the process identity out of the text of an identity record.
pub fn parse_pid(text: &str) -> (pid: Option<u32>)
    ensures
        pid == pid_of(text@),
{
    let chars = chars_of(text);
    let (a, b) = trim_bounds(&chars);
    let ghost body = chars@.subrange(a as int, b as int);
    let start: usize = if a < b && chars[a] == '+' {
        a + 1
    } else {
        a
    };
    let ghost digits = chars@.subrange(start as int, b as int);
    proof {
        if a < b {
            assert(body[0] == chars@[a as int]);
        }
        if start > a {
            assert(body.drop_first() =~= digits);
        } else {
            assert(body =~= digits);
        }
    }
    if start == b {
        return None;
    }
    let mut value: u64 = 0;
    let mut i: usize = start;
    while i < b
        invariant
            start <= i <= b <= chars.len(),
            digits == chars@.subrange(start as int, b as int),
            pid_of(text@) == (if is_numeral(digits) && numeral_value(digits) <= u32::MAX {
                Some(numeral_value(digits) as u32)
            } else {
                None::<u32>
            }),
            forall|j: int| 0 <= j < i - start ==> is_digit(#[trigger] digits[j]),
            value == numeral_value(digits.take(i - start)),
            value <= u32::MAX,
        decreases b - i,
    {
        let c = chars[i];
        proof {
            assert(digits[i - start] == c);
        }
        if !(c >= '0' && c <= '9') {
            return None;
        }
        let d: u64 = ((c as u32) - ('0' as u32)) as u64;
        let ghost grown = digits.take(i - start + 1);
        proof {
            assert(grown.drop_last() =~= digits.take(i - start));
            assert(grown.last() == c);
        }
        let next: u64 = value * 10 + d;
        if next > 0xFFFF_FFFF {
            proof {
                if is_numeral(digits) {
                    lemma_numeral_grows(digits, i - start + 1);
                }
            }
            return None;
        }
        value = next;
        i += 1;
    }
    proof {
        assert(digits.take(b - start) =~= digits);
    }
    Some(value as u32)
}

/// Writes a process identity as the text of an identity record.
pub fn format_pid(pid: u32) -> (text: String)
    ensures
        text@ == decimal(pid as nat),
{
    decimal_string(pid as u64)
}

/// The decimal numeral of a number is a numeral and writes that number.
pub proof fn lemma_decimal_is_numeral(n: nat)
    ensures
        is_numeral(decimal(n)),
        numeral_value(decimal(n)) == n,
        decimal(n)[0] != '+',
        !is_space(decimal(n)[0]),
        !is_space(decimal(n).last()),
    decreases n,
{
    let d = digit_char((n % 10) as int);
    assert(is_digit(d) && d as u32 - '0' as u32 == n % 10);
    if n < 10 {
        let s = decimal(n);
        assert(s.drop_last() =~= Seq::<char>::empty());
        assert(numeral_value(s.drop_last()) == 0);
    } else {
        lemma_decimal_is_numeral(n / 10);
        let front = decimal(n / 10);
        let s = front.push(d);
        assert(s.drop_last() =~= front);
        assert(s[0] == front[0]);
        assert forall|i: int| 0 <= i < s.len() implies is_digit(#[trigger] s[i]) by {
            if i < front.len() {
                assert(s[i] == front[i]);
            }
        }
    }
}

/// An identity record that was written with [`format_pid`] is read back by
/// [`parse_pid`] as the same process identity, also when a line end follows
/// the number.
pub proof fn lemma_pid_round_trip(pid: u32)
    ensures
        pid_of(decimal(pid as nat)) == Some(pid),
        pid_of(decimal(pid as nat).push('\n')) == Some(pid),
{
    let s = decimal(pid as nat);
    lemma_decimal_is_numeral(pid as nat);
    lemma_trim_start(s, 0);
    lemma_trim_end(s, s.len() as int);
    assert(s.skip(0) =~= s);
    assert(s.take(s.len() as int) =~= s);
    let line = s.push('\n');
    assert(is_space('\n'));
    assert(line[0] == s[0]);
    lemma_trim_start(line, 0);
    assert(line.skip(0) =~= line);
    assert(line[s.len() - 1] == s.last());
    assert forall|j: int| s.len() <= j < line.len() implies is_space(#[trigger] line[j]) by {}
    lemma_trim_end(line, s.len() as int);
    assert(line.take(s.len() as int) =~= s);
}

/// Decides the result of the liveness check from the process identity that
/// the identity record holds, if it holds one, and from whether that process
/// is alive.
pub fn is_daemon_running(pid: Option<u32>, alive: bool) -> (found: Liveness)
    ensures
        found == liveness_of(pid, alive),
{
    match pid {
        Some(_) => Liveness { running: alive, remove_record: !alive },
        None => Liveness { running: false, remove_record: true },
    }
}

/// The daemon's state after `event`.
pub fn daemon_step(state: DaemonState, event: DaemonEvent) -> (next: DaemonState)
    ensures
        next == daemon_after(state, event),
{
    match (state, event) {
        (DaemonState::Stopped, DaemonEvent::Launched) => DaemonState::Starting,
        (DaemonState::Starting, DaemonEvent::LoopEntered) => DaemonState::Running,
        (DaemonState::Starting, DaemonEvent::StopSignal) => DaemonState::StopRequested,
        (DaemonState::Running, DaemonEvent::StopSignal) => DaemonState::StopRequested,
        (DaemonState::StopRequested, DaemonEvent::LoopLeft) => DaemonState::Stopped,
        _ => state,
    }
}

/// Tells whether the daemon's loop has to end at its next round.
pub fn should_stop(state: DaemonState) -> (stop: bool)
    ensures
        stop == (state == DaemonState::StopRequested),
{
    match state {
        DaemonState::StopRequested => true,
        _ => false,
    }
}

/// The first phase of the start procedure.
pub fn begin_start() -> (phase: StartPhase)
    ensures
        phase == StartPhase::Probing,
{
    StartPhase::Probing
}

/// The first phase of the stop procedure.
pub fn begin_stop() -> (phase: StopPhase)
    ensures
        phase == StopPhase::Probing,
{
    StopPhase::Probing
}

/// Takes the start procedure one step on: from the phase it is in and the
/// answer to that phase's action to the next phase.
pub fn start_background_service(phase: StartPhase, answer: &Answer) -> (next: StartPhase)
    ensures
        next == start_after(phase, answer@),
{
    match (phase, answer) {
        (StartPhase::Probing, Answer::Alive(alive)) => {
            if *alive {
                StartPhase::Done(StartOutcome::AlreadyRunning)
            } else {
                StartPhase::Launching
            }
        },
        (StartPhase::Launching, Answer::Carried(ok)) => {
            if *ok {
                StartPhase::ReadingRecord
            } else {
                StartPhase::Done(StartOutcome::LaunchFailed)
            }
        },
        (StartPhase::ReadingRecord, Answer::Record(record)) => {
            match record {
                None => StartPhase::Done(StartOutcome::RecordUnreadable),
                Some(text) => match parse_pid(text.as_str()) {
                    Some(pid) => StartPhase::Confirming(pid),
                    None => StartPhase::Done(StartOutcome::RecordInvalid),
                },
            }
        },
        (StartPhase::Confirming(pid), Answer::Alive(_)) => StartPhase::Settling(pid),
        (StartPhase::Settling(pid), Answer::Alive(alive)) => {
            if *alive {
                StartPhase::Done(StartOutcome::Started(pid))
            } else {
                StartPhase::Done(StartOutcome::Unconfirmed(pid))
            }
        },
        _ => phase,
    }
}

/// Takes the stop procedure one step on: from the phase it is in and the
/// answer to that phase's action to the next phase.
pub fn stop_monitoring_service(phase: StopPhase, answer: &Answer) -> (next: StopPhase)
    ensures
        next == stop_after(phase, answer@),
{
    match (phase, answer) {
        (StopPhase::Probing, Answer::Alive(alive)) => {
            if *alive {
                StopPhase::ReadingRecord
            } else {
                StopPhase::Done(StopOutcome::NotRunning)
            }
        },
        (StopPhase::ReadingRecord, Answer::Record(record)) => {
            match record {
                None => StopPhase::Done(StopOutcome::RecordUnreadable),
                Some(text) => match parse_pid(text.as_str()) {
                    Some(pid) => StopPhase::Terminating(pid),
                    None => StopPhase::Done(StopOutcome::RecordUnreadable),
                },
            }
        },
        (StopPhase::Terminating(pid), Answer::Carried(ok)) => {
            if *ok {
                StopPhase::AwaitingExit(pid)
            } else {
                StopPhase::Done(StopOutcome::Failed)
            }
        },
        (StopPhase::AwaitingExit(pid), Answer::Alive(alive)) => {
            if *alive {
                StopPhase::Killing(pid)
            } else {
                StopPhase::Done(StopOutcome::Stopped)
            }
        },
        (StopPhase::Killing(pid), Answer::Carried(ok)) => {
            if *ok {
                StopPhase::AwaitingKill(pid)
            } else {
                StopPhase::Done(StopOutcome::Failed)
            }
        },
        (StopPhase::AwaitingKill(_), Answer::Alive(alive)) => {
            if *alive {
                StopPhase::Done(StopOutcome::Failed)
            } else {
                StopPhase::Done(StopOutcome::Killed)
            }
        },
        _ => phase,
    }
}

/// The pause that comes before the action of `phase`, in milliseconds.
pub fn pause_before_start(phase: StartPhase) -> (ms: u64)
    ensures
        ms == start_pause(phase),
{
    match phase {
        StartPhase::ReadingRecord => LAUNCH_WAIT_MS,
        StartPhase::Settling(_) => SETTLE_WAIT_MS,
        _ => 0,
    }
}

/// The pause that comes before the action of `phase`, in milliseconds.
pub fn pause_before_stop(phase: StopPhase) -> (ms: u64)
    ensures
        ms == stop_pause(phase),
{
    match phase {
        StopPhase::AwaitingExit(_) => EXIT_WAIT_MS,
        StopPhase::AwaitingKill(_) => KILL_WAIT_MS,
        _ => 0,
    }
}

/// Whether the identity record is to be removed once the stop procedure has
/// ended with `outcome`: it is, on every confirmed stop.
pub fn removes_record(outcome: StopOutcome) -> (remove: bool)
    ensures
        remove == (outcome == StopOutcome::Stopped || outcome == StopOutcome::Killed),
{
    match outcome {
        StopOutcome::Stopped => true,
        StopOutcome::Killed => true,
        _ => false,
    }
}

impl StartOutcome {
    /// Why the start procedure failed, in words for the operator, or `None`
    /// if it did not fail.
    pub fn failure(&self) -> (reason: Option<&'static str>)
        ensures
            reason is Some <==> start_failure(*self) is Some,
            reason is Some ==> Some(reason->0@) == start_failure(*self),
    {
        match self {
            StartOutcome::LaunchFailed => Some("failed to start monitoring daemon"),
            StartOutcome::RecordUnreadable => Some("failed to read daemon PID file"),
            StartOutcome::RecordInvalid => Some("invalid PID in daemon PID file"),
            _ => None,
        }
    }
}

impl StopOutcome {
    /// Why the stop procedure failed, in words for the operator, or `None` if
    /// it did not fail.
    pub fn failure(&self) -> (reason: Option<&'static str>)
        ensures
            reason is Some <==> stop_failure(*self) is Some,
            reason is Some ==> Some(reason->0@) == stop_failure(*self),
    {
        match self {
            StopOutcome::RecordUnreadable => Some("could not read PID file"),
            StopOutcome::Failed => Some(
                "failed to stop monitoring service, you may need to terminate it manually",
            ),
            _ => None,
        }
    }
}

/// Each answer of the fitting kind brings the start procedure nearer to its
/// end, so it ends after at most five actions; once ended it stays so.
pub proof fn lemma_start_ends(phase: StartPhase, answer: AnswerView)
    ensures
        fits_start(phase, answer) ==> start_steps_left(start_after(phase, answer))
            < start_steps_left(phase),
        !fits_start(phase, answer) ==> start_after(phase, answer) == phase,
        phase is Done ==> start_after(phase, answer) == phase,
{
}

/// Each answer of the fitting kind brings the stop procedure nearer to its
/// end, so it ends after at most six actions; once ended it stays so.
pub proof fn lemma_stop_ends(phase: StopPhase, answer: AnswerView)
    ensures
        fits_stop(phase, answer) ==> stop_steps_left(stop_after(phase, answer)) < stop_steps_left(
            phase,
        ),
        !fits_stop(phase, answer) ==> stop_after(phase, answer) == phase,
        phase is Done ==> stop_after(phase, answer) == phase,
{
}

/// Starting is a no-op when a daemon is alive, and a daemon that is not seen
/// alive after its launch is a warning, never a failure.
pub proof fn lemma_start_outcomes(pid: u32, alive: bool)
    ensures
        start_after(StartPhase::Probing, AnswerView::Alive(true)) == StartPhase::Done(
            StartOutcome::AlreadyRunning,
        ),
        start_after(StartPhase::Settling(pid), AnswerView::Alive(alive)) == StartPhase::Done(
            if alive {
                StartOutcome::Started(pid)
            } else {
                StartOutcome::Unconfirmed(pid)
            },
        ),
        start_failure(StartOutcome::AlreadyRunning) is None,
        start_failure(StartOutcome::Started(pid)) is None,
        start_failure(StartOutcome::Unconfirmed(pid)) is None,
{
}

/// Stopping is a no-op when no daemon is alive, the daemon is killed only
/// after it ignored the request to terminate, and the procedure fails only if
/// the daemon survives that too.
pub proof fn lemma_stop_escalates(pid: u32)
    ensures
        stop_after(StopPhase::Probing, AnswerView::Alive(false)) == StopPhase::Done(
            StopOutcome::NotRunning,
        ),
        stop_after(StopPhase::AwaitingExit(pid), AnswerView::Alive(false)) == StopPhase::Done(
            StopOutcome::Stopped,
        ),
        stop_after(StopPhase::AwaitingExit(pid), AnswerView::Alive(true)) == StopPhase::Killing(pid),
        stop_after(StopPhase::AwaitingKill(pid), AnswerView::Alive(true)) == StopPhase::Done(
            StopOutcome::Failed,
        ),
{
}

} // verus!
