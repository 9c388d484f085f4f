//! The stopwatch as a state machine. The library decides what happens next;
//! whoever drives it starts processes, waits for them, reads the clock and
//! writes the messages out, and hands back what came of it.

use vstd::prelude::*;
use crate::classify::classification;
use crate::classify::classify;
use crate::classify::Classified;
use crate::classify::ClassifiedView;
use crate::message::exit_failure;
use crate::message::exit_failure_message;
use crate::message::start_failure;
use crate::message::start_failure_message;
use crate::message::timing;
use crate::message::timing_message;
use crate::message::uptime_heading;
use crate::message::uptime_heading_message;
use crate::message::usage;
use crate::message::usage_message;
use crate::message::version;
use crate::message::version_message;
use crate::message::wait_failure;
use crate::message::wait_failure_message;
use crate::message::Message;
use crate::message::MessageView;
use crate::message::Stream;
use crate::text::texts;
use crate::unit::Elapsed;
use crate::unit::TimeUnit;

verus! {

/// The process that the stopwatch has in hand.
#[derive(Clone, Debug, PartialEq, Eq)]
pub enum Job {
    /// The command to time, and the unit for its time.
    Timing { unit: TimeUnit, program: String },
    /// The platform's uptime query.
    Uptime,
}

/// A [`Job`] as plain values.
pub enum JobView {
    Timing { unit: TimeUnit, program: Seq<char> },
    Uptime,
}

impl View for Job {
    type V = JobView;

    open spec fn view(&self) -> JobView {
        match self {
            Job::Timing { unit, program } => JobView::Timing { unit: *unit, program: program@ },
            Job::Uptime => JobView::Uptime,
        }
    }
}

/// Where the stopwatch stands.
#[derive(Clone, Debug, PartialEq, Eq)]
pub enum Phase {
    /// Nothing has happened yet.
    Idle,
    /// A process was asked for and has not started yet.
    Starting(Job),
    /// The process runs, and its end is awaited.
    Running(Job),
    /// There is nothing left to do.
    Done,
}

/// A [`Phase`] as plain values.
pub enum PhaseView {
    Idle,
    Starting(JobView),
    Running(JobView),
    Done,
}

impl View for Phase {
    type V = PhaseView;

    open spec fn view(&self) -> PhaseView {
        match self {
            Phase::Idle => PhaseView::Idle,
            Phase::Starting(job) => PhaseView::Starting(job@),
            Phase::Running(job) => PhaseView::Running(job@),
            Phase::Done => PhaseView::Done,
        }
    }
}

/// What happened outside.
#[derive(Clone, Debug, PartialEq, Eq)]
pub enum Event {
    /// The program was called with these tokens after its name, on Windows
    /// or elsewhere.
    Invoked { tokens: Vec<String>, windows: bool },
    /// The process has started.
    Started,
    /// The process could not be started.
    StartFailed { reason: String },
    /// The process has ended, `elapsed` after it was asked for.
    Exited { success: bool, code: Option<i32>, elapsed: Elapsed },
    /// Waiting for the process failed.
    WaitFailed { reason: String },
}

/// An [`Event`] as plain values.
pub enum EventView {
    Invoked { tokens: Seq<Seq<char>>, windows: bool },
    Started,
    StartFailed { reason: Seq<char> },
    Exited { success: bool, code: Option<i32>, nanos: nat },
    WaitFailed { reason: Seq<char> },
}

impl View for Event {
    type V = EventView;

    open spec fn view(&self) -> EventView {
        match self {
            Event::Invoked { tokens, windows } => EventView::Invoked {
                tokens: texts(tokens@),
                windows: *windows,
            },
            Event::Started => EventView::Started,
            Event::StartFailed { reason } => EventView::StartFailed { reason: reason@ },
            Event::Exited { success, code, elapsed } => EventView::Exited {
                success: *success,
                code: *code,
                nanos: elapsed@,
            },
            Event::WaitFailed { reason } => EventView::WaitFailed { reason: reason@ },
        }
    }
}

/// What is to be done outside.
#[derive(Clone, Debug, PartialEq, Eq)]
pub enum Directive {
    /// Note the time, then start `program` with `args`, each argument as it
    /// stands.
    Start { program: String, args: Vec<String> },
    /// Wait for the process to end, then note the time.
    Wait,
    /// Return.
    Stop,
}

/// A [`Directive`] as plain values.
pub enum DirectiveView {
    Start { program: Seq<char>, args: Seq<Seq<char>> },
    Wait,
    Stop,
}

impl View for Directive {
    type V = DirectiveView;

    open spec fn view(&self) -> DirectiveView {
        match self {
            Directive::Start { program, args } => DirectiveView::Start {
                program: program@,
                args: texts(args@),
            },
            Directive::Wait => DirectiveView::Wait,
            Directive::Stop => DirectiveView::Stop,
        }
    }
}

/// One move of the stopwatch: where it stands afterwards, what is written
/// first, and what is done then.
#[derive(Clone, Debug, PartialEq, Eq)]
pub struct Step {
    pub phase: Phase,
    pub message: Option<Message>,
    pub directive: Directive,
}

/// A [`Step`] as plain values.
pub struct StepView {
    pub phase: PhaseView,
    pub message: Option<MessageView>,
    pub directive: DirectiveView,
}

impl View for Step {
    type V = StepView;

    open spec fn view(&self) -> StepView {
        StepView {
            phase: self.phase@,
            message: match self.message {
                Some(message) => Some(message@),
                None => None,
            },
            directive: self.directive@,
        }
    }
}

/// The program that reports the machine's uptime: one executable of the
/// host, started without arguments. On Windows that is `systeminfo`, whose
/// report holds the time of the last boot; elsewhere it is `uptime`.
pub open spec fn uptime_program(windows: bool) -> Seq<char> {
    if windows {
        "systeminfo"@
    } else {
        "uptime"@
    }
}

/// Whether `name` can be the name of one executable: it is not empty, and it
/// holds no blank, no quote and no `|`, which only a shell would read.
pub open spec fn is_bare_name(name: Seq<char>) -> bool {
    &&& name.len() > 0
    &&& forall|i: int|
        0 <= i < name.len() ==> #[trigger] name[i] != ' ' && name[i] != '"' && name[i] != '|'
}

/// The last move: `message` is written, if there is one, and the program
/// returns.
pub open spec fn halt(message: Option<MessageView>) -> StepView {
    StepView { phase: PhaseView::Done, message: message, directive: DirectiveView::Stop }
}

/// The first move, on the tokens of the command line. A request for help or
/// for the version is answered and ends the run. Without a command the
/// uptime's heading is written and the uptime query started. Otherwise the
/// command is started with its arguments, and nothing is written.
pub open spec fn begin(tokens: Seq<Seq<char>>, windows: bool) -> StepView {
    match classification(tokens) {
        ClassifiedView::Help => halt(Some(usage())),
        ClassifiedView::Version => halt(Some(version())),
        ClassifiedView::Parsed(parsed) => if parsed.command.len() == 0 {
            StepView {
                phase: PhaseView::Starting(JobView::Uptime),
                message: Some(uptime_heading()),
                directive: DirectiveView::Start {
                    program: uptime_program(windows),
                    args: Seq::empty(),
                },
            }
        } else {
            StepView {
                phase: PhaseView::Starting(
                    JobView::Timing { unit: parsed.unit, program: parsed.command },
                ),
                message: None,
                directive: DirectiveView::Start { program: parsed.command, args: parsed.args },
            }
        },
    }
}

/// The stopwatch's moves. A process that has started is waited for. A
/// command that cannot be started, or not waited for, is reported, and so is
/// one that fails; only one that succeeds has its time shown. Whatever comes
/// of the uptime query is passed over in silence. Every report ends the run,
/// and so does an event that the phase does not expect.
pub open spec fn next(phase: PhaseView, event: EventView) -> StepView {
    match (phase, event) {
        (PhaseView::Idle, EventView::Invoked { tokens, windows }) => begin(tokens, windows),
        (PhaseView::Starting(job), EventView::Started) => StepView {
            phase: PhaseView::Running(job),
            message: None,
            directive: DirectiveView::Wait,
        },
        (
            PhaseView::Starting(JobView::Timing { unit, program }),
            EventView::StartFailed { reason },
        ) => halt(Some(start_failure(program, reason))),
        (
            PhaseView::Running(JobView::Timing { unit, program }),
            EventView::Exited { success, code, nanos },
        ) => if success {
            halt(Some(timing(unit, nanos)))
        } else {
            halt(Some(exit_failure(code)))
        },
        (
            PhaseView::Running(JobView::Timing { unit, program }),
            EventView::WaitFailed { reason },
        ) => halt(Some(wait_failure(reason))),
        _ => halt(None),
    }
}

/// A run ends for good: once the stopwatch is done, nothing is written and
/// nothing is started, whatever happens. The stopwatch is done exactly when
/// it says to stop.
pub proof fn lemma_done_is_final(phase: PhaseView, event: EventView)
    ensures
        next(PhaseView::Done, event) == halt(None),
        next(phase, event).phase == PhaseView::Done <==> next(phase, event).directive
            == DirectiveView::Stop,
{
}

/// A request for help or for the version is answered on standard output,
/// and no process is ever started for it.
pub proof fn lemma_help_and_version_run_nothing(tokens: Seq<Seq<char>>, windows: bool)
    requires
        classification(tokens) is Help || classification(tokens) is Version,
    ensures
        next(PhaseView::Idle, EventView::Invoked { tokens, windows }) == halt(
            Some(
                if classification(tokens) is Help {
                    usage()
                } else {
                    version()
                },
            ),
        ),
        usage().stream == Stream::Stdout,
        version().stream == Stream::Stdout,
{
}

/// Without a command the machine's uptime is asked for, and no command is
/// timed: the heading is written, the uptime query is started without
/// arguments and waited for, and whatever comes of it ends the run in
/// silence.
pub proof fn lemma_no_command_asks_for_uptime(
    tokens: Seq<Seq<char>>,
    windows: bool,
    event: EventView,
)
    requires
        classification(tokens) matches ClassifiedView::Parsed(parsed) && parsed.command.len()
            == 0,
    ensures
        next(PhaseView::Idle, EventView::Invoked { tokens, windows }) == (StepView {
            phase: PhaseView::Starting(JobView::Uptime),
            message: Some(uptime_heading()),
            directive: DirectiveView::Start {
                program: uptime_program(windows),
                args: Seq::empty(),
            },
        }),
        next(PhaseView::Starting(JobView::Uptime), EventView::Started) == (StepView {
            phase: PhaseView::Running(JobView::Uptime),
            message: None,
            directive: DirectiveView::Wait,
        }),
        !(event is Started) ==> next(PhaseView::Starting(JobView::Uptime), event) == halt(None),
        next(PhaseView::Running(JobView::Uptime), event) == halt(None),
{
}

/// The uptime query is a single command on every host: the program's name
/// is that of one executable and holds nothing for a shell to read, and no
/// arguments go with it.
pub proof fn lemma_uptime_query_is_one_command(tokens: Seq<Seq<char>>, windows: bool)
    requires
        classification(tokens) matches ClassifiedView::Parsed(parsed) && parsed.command.len()
            == 0,
    ensures
        is_bare_name(uptime_program(windows)),
        next(PhaseView::Idle, EventView::Invoked { tokens, windows }).directive
            == (DirectiveView::Start { program: uptime_program(windows), args: Seq::empty() }),
{
    reveal_strlit("systeminfo");
    reveal_strlit("uptime");
}

/// A command is started as it was given: the program is the command, the
/// arguments are its arguments, and nothing is written before it runs. Once
/// it has started it is waited for.
pub proof fn lemma_command_is_started_as_given(tokens: Seq<Seq<char>>, windows: bool)
    requires
        classification(tokens) matches ClassifiedView::Parsed(parsed) && parsed.command.len()
            > 0,
    ensures
        ({
            let parsed = classification(tokens)->Parsed_0;
            let job = JobView::Timing { unit: parsed.unit, program: parsed.command };
            &&& next(PhaseView::Idle, EventView::Invoked { tokens, windows }) == (StepView {
                phase: PhaseView::Starting(job),
                message: None,
                directive: DirectiveView::Start { program: parsed.command, args: parsed.args },
            })
            &&& next(PhaseView::Starting(job), EventView::Started) == (StepView {
                phase: PhaseView::Running(job),
                message: None,
                directive: DirectiveView::Wait,
            })
        }),
{
}

/// A command that ends with success has its time shown, once and on standard
/// output, in the unit that was chosen: that message ends the run.
pub proof fn lemma_success_shows_the_time(
    unit: TimeUnit,
    program: Seq<char>,
    code: Option<i32>,
    nanos: nat,
)
    ensures
        next(
            PhaseView::Running(JobView::Timing { unit, program }),
            EventView::Exited { success: true, code, nanos },
        ) == halt(Some(timing(unit, nanos))),
        timing(unit, nanos).stream == Stream::Stdout,
{
}

/// A command that ends with failure is reported on standard error with its
/// exit code, and its time is not shown, though it is known: that report
/// ends the run.
pub proof fn lemma_failure_hides_the_time(
    unit: TimeUnit,
    program: Seq<char>,
    code: Option<i32>,
    nanos: nat,
)
    ensures
        next(
            PhaseView::Running(JobView::Timing { unit, program }),
            EventView::Exited { success: false, code, nanos },
        ) == halt(Some(exit_failure(code))),
        exit_failure(code).stream == Stream::Stderr,
        exit_failure(code) != timing(unit, nanos),
{
}

/// A command that cannot be started is reported on standard error by its
/// name, with the platform's reason: that report ends the run, so the
/// command is neither waited for nor timed.
pub proof fn lemma_start_failure_is_reported(
    unit: TimeUnit,
    program: Seq<char>,
    reason: Seq<char>,
)
    ensures
        next(
            PhaseView::Starting(JobView::Timing { unit, program }),
            EventView::StartFailed { reason },
        ) == halt(Some(start_failure(program, reason))),
        start_failure(program, reason).stream == Stream::Stderr,
{
}

/// A command whose end cannot be waited for is reported on standard error
/// with the platform's reason: that report ends the run.
pub proof fn lemma_wait_failure_is_reported(
    unit: TimeUnit,
    program: Seq<char>,
    reason: Seq<char>,
)
    ensures
        next(
            PhaseView::Running(JobView::Timing { unit, program }),
            EventView::WaitFailed { reason },
        ) == halt(Some(wait_failure(reason))),
        wait_failure(reason).stream == Stream::Stderr,
{
}

fn stop(message: Option<Message>) -> (out: Step)
    ensures
        out@ == halt(
            match message {
                Some(message) => Some(message@),
                None => None,
            },
        ),
{
    Step { phase: Phase::Done, message, directive: Directive::Stop }
}

/// The name of the program that reports the machine's uptime.
pub fn uptime_command(windows: bool) -> (program: String)
    ensures
        program@ == uptime_program(windows),
{
    if windows {
        String::from_str("systeminfo")
    } else {
        String::from_str("uptime")
    }
}

/// Makes the first move of a run.
pub fn start(tokens: &Vec<String>, windows: bool) -> (out: Step)
    ensures
        out@ == begin(texts(tokens@), windows),
{
    match classify(tokens) {
        Classified::Help => stop(Some(usage_message())),
        Classified::Version => stop(Some(version_message())),
        Classified::Parsed(parsed) => {
            if parsed.command.as_str().is_empty() {
                let args: Vec<String> = Vec::new();
                assert(texts(args@) =~= Seq::empty());
                Step {
                    phase: Phase::Starting(Job::Uptime),
                    message: Some(uptime_heading_message()),
                    directive: Directive::Start { program: uptime_command(windows), args },
                }
            } else {
                let program = parsed.command.clone();
                Step {
                    phase: Phase::Starting(Job::Timing { unit: parsed.unit, program }),
                    message: None,
                    directive: Directive::Start { program: parsed.command, args: parsed.args },
                }
            }
        },
    }
}

/// Makes the stopwatch's move on `event`.
pub fn step(phase: Phase, event: Event) -> (out: Step)
    ensures
        out@ == next(phase@, event@),
{
    match (phase, event) {
        (Phase::Idle, Event::Invoked { tokens, windows }) => start(&tokens, windows),
        (Phase::Starting(job), Event::Started) => Step {
            phase: Phase::Running(job),
            message: None,
            directive: Directive::Wait,
        },
        (Phase::Starting(Job::Timing { unit, program }), Event::StartFailed { reason }) => stop(
            Some(start_failure_message(program.as_str(), reason.as_str())),
        ),
        (
            Phase::Running(Job::Timing { unit, program }),
            Event::Exited { success, code, elapsed },
        ) => {
            if success {
                stop(Some(timing_message(unit, elapsed)))
            } else {
                stop(Some(exit_failure_message(code)))
            }
        },
        (Phase::Running(Job::Timing { unit, program }), Event::WaitFailed { reason }) => stop(
            Some(wait_failure_message(reason.as_str())),
        ),
        _ => stop(None),
    }
}

} // verus!
