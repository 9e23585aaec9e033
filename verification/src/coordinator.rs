//! The coordinator of sessions: at most one per direction.
use vstd::prelude::*;

use crate::status::{Direction, StatusSnapshot, StatusUpdate};

verus! {

/// What the user interface asks of the coordinator.
#[derive(Debug)]
pub enum AudioCommand {
    StartOutgoing { target: String, output_device: Option<String> },
    StopOutgoing,
    StartIncoming { output_device: Option<String> },
    StopIncoming,
}

/// Which directions have a session.
#[derive(Clone, Copy, Debug, PartialEq, Eq, Structural)]
pub struct AppState {
    pub outgoing_running: bool,
    pub incoming_running: bool,
}

/// What the coordinator does about a command.
#[derive(Debug)]
pub enum Plan {
    /// Answers with an error and does nothing.
    Refuse { message: String },
    /// Opens a session, then reports how that went.
    Open { direction: Direction, target: String, output_device: Option<String> },
    /// Ends the session, where there is one, then reports.
    Close { direction: Direction, running: bool },
}

/// What is said once a session was opened or could not be.
#[derive(Debug)]
pub struct Report {
    /// For everyone who follows the sessions.
    pub status: StatusUpdate,
    /// For the one who asked.
    pub reply: Result<(), String>,
}

/// The meaning of an [`AudioCommand`].
pub enum CommandView {
    StartOutgoing { target: Seq<char>, output_device: Option<Seq<char>> },
    StopOutgoing,
    StartIncoming { output_device: Option<Seq<char>> },
    StopIncoming,
}

/// The meaning of a [`Plan`].
pub enum PlanView {
    Refuse { message: Seq<char> },
    Open { direction: Direction, target: Seq<char>, output_device: Option<Seq<char>> },
    Close { direction: Direction, running: bool },
}

impl View for AudioCommand {
    type V = CommandView;

    open spec fn view(&self) -> CommandView {
        match self {
            AudioCommand::StartOutgoing { target, output_device } => CommandView::StartOutgoing {
                target: target@,
                output_device: crate::text::opt_view(*output_device),
            },
            AudioCommand::StopOutgoing => CommandView::StopOutgoing,
            AudioCommand::StartIncoming { output_device } => CommandView::StartIncoming {
                output_device: crate::text::opt_view(*output_device),
            },
            AudioCommand::StopIncoming => CommandView::StopIncoming,
        }
    }
}

impl View for Plan {
    type V = PlanView;

    open spec fn view(&self) -> PlanView {
        match self {
            Plan::Refuse { message } => PlanView::Refuse { message: message@ },
            Plan::Open { direction, target, output_device } => PlanView::Open {
                direction: *direction,
                target: target@,
                output_device: crate::text::opt_view(*output_device),
            },
            Plan::Close { direction, running } => PlanView::Close {
                direction: *direction,
                running: *running,
            },
        }
    }
}

/// The direction that a command is about.
pub open spec fn direction_of(command: CommandView) -> Direction {
    match command {
        CommandView::StartOutgoing { .. } => Direction::Outgoing,
        CommandView::StopOutgoing => Direction::Outgoing,
        CommandView::StartIncoming { .. } => Direction::Incoming,
        CommandView::StopIncoming => Direction::Incoming,
    }
}

/// Whether a command asks for a session.
pub open spec fn is_start(command: CommandView) -> bool {
    command is StartOutgoing || command is StartIncoming
}

/// The answer to a second start.
pub open spec fn already_running(direction: Direction) -> Seq<char> {
    match direction {
        Direction::Outgoing => "Outgoing session already running"@,
        Direction::Incoming => "Incoming session already running"@,
    }
}

/// What the coordinator does about a command. The other side's speech always comes in English.
pub open spec fn plan_for(state: AppState, command: CommandView) -> PlanView {
    let direction = direction_of(command);
    if is_start(command) && state.has(direction) {
        PlanView::Refuse { message: already_running(direction) }
    } else {
        match command {
            CommandView::StartOutgoing { target, output_device } => PlanView::Open {
                direction,
                target,
                output_device,
            },
            CommandView::StartIncoming { output_device } => PlanView::Open {
                direction,
                target: "en"@,
                output_device,
            },
            _ => PlanView::Close { direction, running: state.has(direction) },
        }
    }
}

/// The sessions once a command was carried out, `opened` telling whether a session that was
/// asked for could be opened.
pub open spec fn after_command(state: AppState, command: CommandView, opened: bool) -> AppState {
    match plan_for(state, command) {
        PlanView::Refuse { .. } => state,
        PlanView::Open { direction, .. } => if opened {
            state.with(direction, true)
        } else {
            state
        },
        PlanView::Close { direction, .. } => state.with(direction, false),
    }
}

/// The meaning of an answer.
pub open spec fn reply_view(reply: Result<(), String>) -> Result<(), Seq<char>> {
    match reply {
        Ok(()) => Ok(()),
        Err(message) => Err(message@),
    }
}

impl AppState {
    /// Whether a direction has a session.
    pub open spec fn has(self, direction: Direction) -> bool {
        match direction {
            Direction::Outgoing => self.outgoing_running,
            Direction::Incoming => self.incoming_running,
        }
    }

    /// The state with one direction changed.
    pub open spec fn with(self, direction: Direction, running: bool) -> AppState {
        match direction {
            Direction::Outgoing => AppState { outgoing_running: running, ..self },
            Direction::Incoming => AppState { incoming_running: running, ..self },
        }
    }

    /// No session runs.
    pub fn new() -> (r: AppState)
        ensures
            r == (AppState { outgoing_running: false, incoming_running: false }),
    {
        AppState { outgoing_running: false, incoming_running: false }
    }

    /// Which directions have a session.
    pub fn status(&self) -> (r: StatusSnapshot)
        ensures
            r.outgoing == self.has(Direction::Outgoing),
            r.incoming == self.has(Direction::Incoming),
    {
        StatusSnapshot { outgoing: self.outgoing_running, incoming: self.incoming_running }
    }

    /// Decides what to do about a command.
    pub fn plan(&self, command: AudioCommand) -> (r: Plan)
        ensures
            r@ == plan_for(*self, command@),
            r@ is Refuse ==> forall|opened: bool|
                #[trigger] after_command(*self, command@, opened) == *self,
    {
        match command {
            AudioCommand::StartOutgoing { target, output_device } => {
                if self.outgoing_running {
                    Plan::Refuse { message: "Outgoing session already running".to_owned() }
                } else {
                    Plan::Open { direction: Direction::Outgoing, target, output_device }
                }
            },
            AudioCommand::StopOutgoing => Plan::Close {
                direction: Direction::Outgoing,
                running: self.outgoing_running,
            },
            AudioCommand::StartIncoming { output_device } => {
                if self.incoming_running {
                    Plan::Refuse { message: "Incoming session already running".to_owned() }
                } else {
                    Plan::Open {
                        direction: Direction::Incoming,
                        target: "en".to_owned(),
                        output_device,
                    }
                }
            },
            AudioCommand::StopIncoming => Plan::Close {
                direction: Direction::Incoming,
                running: self.incoming_running,
            },
        }
    }

    /// Sets whether a direction has a session.
    fn set(&mut self, direction: Direction, running: bool)
        ensures
            *final(self) == old(self).with(direction, running),
    {
        match direction {
            Direction::Outgoing => {
                self.outgoing_running = running;
            },
            Direction::Incoming => {
                self.incoming_running = running;
            },
        }
    }

    /// Takes note of how opening a session went.
    pub fn opened(
        &mut self,
        direction: Direction,
        target: String,
        outcome: Result<(), String>,
    ) -> (r: Report)
        ensures
            match outcome {
                Ok(()) => {
                    &&& *final(self) == old(self).with(direction, true)
                    &&& r.status@ == crate::status::running_status(direction, target@)
                    &&& reply_view(r.reply) == Ok::<(), Seq<char>>(())
                },
                Err(error) => {
                    &&& *final(self) == *old(self)
                    &&& r.status@ == crate::status::failed_status(
                        direction,
                        crate::status::start_failure(direction, error@),
                    )
                    &&& reply_view(r.reply) == Err::<(), Seq<char>>(error@)
                },
            },
            forall|command: CommandView|
                #[trigger] is_start(command) && direction_of(command) == direction && !old(self).has(
                    direction,
                ) ==> *final(self) == after_command(*old(self), command, outcome is Ok),
    {
        match outcome {
            Ok(()) => {
                self.set(direction, true);
                Report { status: StatusUpdate::running(direction, target), reply: Ok(()) }
            },
            Err(error) => Report {
                status: StatusUpdate::start_failed(direction, error.as_str()),
                reply: Err(error),
            },
        }
    }

    /// Takes note that a direction has no session any more.
    pub fn closed(&mut self, direction: Direction) -> (r: StatusUpdate)
        ensures
            *final(self) == old(self).with(direction, false),
            r@ == crate::status::stopped_status(direction),
            forall|command: CommandView, opened: bool|
                !is_start(command) && direction_of(command) == direction ==> *final(self)
                    == #[trigger] after_command(*old(self), command, opened),
    {
        self.set(direction, false);
        StatusUpdate::stopped(direction)
    }
}

/// While a direction has a session, asking for another is refused and changes nothing.
pub proof fn law_second_start_is_refused(state: AppState, command: CommandView, opened: bool)
    requires
        is_start(command),
        state.has(direction_of(command)),
    ensures
        plan_for(state, command) == (PlanView::Refuse {
            message: already_running(direction_of(command)),
        }),
        after_command(state, command, opened) == state,
{
}

/// The two directions do not touch each other: a command leaves the other direction as it was.
pub proof fn law_directions_are_independent(
    state: AppState,
    command: CommandView,
    opened: bool,
    other: Direction,
)
    requires
        other != direction_of(command),
    ensures
        after_command(state, command, opened).has(other) == state.has(other),
{
}

/// A session runs after a start if and only if one ran before or it could be opened; after a
/// stop none runs.
pub proof fn law_session_runs_as_asked(state: AppState, command: CommandView, opened: bool)
    ensures
        is_start(command) ==> (after_command(state, command, opened).has(direction_of(command))
            <==> state.has(direction_of(command)) || opened),
        !is_start(command) ==> !after_command(state, command, opened).has(direction_of(command)),
{
}

/// After a stop the same direction can be started again, and stopping twice is stopping once.
pub proof fn law_stop_frees_the_direction(
    state: AppState,
    stop: CommandView,
    start: CommandView,
    opened: bool,
)
    requires
        !is_start(stop),
        is_start(start),
        direction_of(start) == direction_of(stop),
    ensures
        plan_for(after_command(state, stop, opened), start) is Open,
        after_command(after_command(state, stop, opened), stop, opened) == after_command(
            state,
            stop,
            opened,
        ),
{
}

/// The sessions once a run of commands was carried out, each with whether a session that it asked
/// for could be opened.
pub open spec fn after_commands(state: AppState, run: Seq<(CommandView, bool)>) -> AppState
    decreases run.len(),
{
    if run.len() == 0 {
        state
    } else {
        after_command(after_commands(state, run.drop_last()), run.last().0, run.last().1)
    }
}

/// Whether a session of a direction has run ever since the first `since` commands of a run: it
/// ran at the start or the last of these opened it, and no command behind them stopped it.
pub open spec fn running_since(
    state: AppState,
    run: Seq<(CommandView, bool)>,
    direction: Direction,
    since: int,
) -> bool {
    &&& 0 <= since <= run.len()
    &&& if since == 0 {
        state.has(direction)
    } else {
        let (command, opened) = run[since - 1];
        is_start(command) && opened && direction_of(command) == direction
    }
    &&& forall|k: int|
        since <= k < run.len() ==> is_start((#[trigger] run[k]).0) || direction_of(run[k].0)
            != direction
}

/// Whatever commands come, a session runs exactly where one ran at the start or was opened and
/// has not been stopped since.
pub proof fn law_sessions_run_until_stopped(
    state: AppState,
    run: Seq<(CommandView, bool)>,
    direction: Direction,
)
    ensures
        after_commands(state, run).has(direction) <==> exists|since: int|
            #[trigger] running_since(state, run, direction, since),
    decreases run.len(),
{
    if run.len() == 0 {
        assert(running_since(state, run, direction, 0) == state.has(direction));
    } else {
        let init = run.drop_last();
        let (command, opened) = run.last();
        let len = run.len() as int;
        law_sessions_run_until_stopped(state, init, direction);
        assert(run[len - 1] == run.last());
        assert forall|since: int| 0 <= since < len implies (#[trigger] running_since(
            state,
            run,
            direction,
            since,
        ) <==> running_since(state, init, direction, since) && (is_start(command)
            || direction_of(command) != direction)) by {
            assert(forall|k: int| 0 <= k < len - 1 ==> #[trigger] init[k] == run[k]);
            if running_since(state, run, direction, since) {
                assert forall|k: int| since <= k < init.len() implies is_start(
                    (#[trigger] init[k]).0,
                ) || direction_of(init[k].0) != direction by {
                    assert(init[k] == run[k]);
                }
            }
            if running_since(state, init, direction, since) && (is_start(command)
                || direction_of(command) != direction) {
                assert forall|k: int| since <= k < len implies is_start((#[trigger] run[k]).0)
                    || direction_of(run[k].0) != direction by {
                    assert(k < len - 1 ==> init[k] == run[k]);
                }
            }
        }
        assert(running_since(state, run, direction, len) == (is_start(command) && opened
            && direction_of(command) == direction));
        if after_commands(state, init).has(direction) {
            let since = choose|since: int| #[trigger] running_since(state, init, direction, since);
            assert(running_since(state, run, direction, since) == (is_start(command)
                || direction_of(command) != direction));
        }
        if exists|since: int| #[trigger] running_since(state, run, direction, since) {
            let since = choose|since: int| #[trigger] running_since(state, run, direction, since);
            assert(since < len ==> running_since(state, init, direction, since));
        }
    }
}

/// A start that opens a session opens it in its own direction, for the language that was asked
/// for, English on the incoming side, and on the very output device that was named.
pub proof fn law_starts_open_what_was_asked_for(
    state: AppState,
    target: Seq<char>,
    output_device: Option<Seq<char>>,
)
    ensures
        !state.outgoing_running ==> plan_for(
            state,
            CommandView::StartOutgoing { target, output_device },
        ) == (PlanView::Open { direction: Direction::Outgoing, target, output_device }),
        !state.incoming_running ==> plan_for(state, CommandView::StartIncoming { output_device })
            == (PlanView::Open { direction: Direction::Incoming, target: "en"@, output_device }),
{
}

/// A start in a direction that has a session is refused in the words for that direction; a stop
/// closes its own direction and tells whether there is a session to close.
pub proof fn law_other_commands_are_answered(
    state: AppState,
    target: Seq<char>,
    output_device: Option<Seq<char>>,
)
    ensures
        state.outgoing_running ==> plan_for(
            state,
            CommandView::StartOutgoing { target, output_device },
        ) == (PlanView::Refuse { message: "Outgoing session already running"@ }),
        state.incoming_running ==> plan_for(state, CommandView::StartIncoming { output_device })
            == (PlanView::Refuse { message: "Incoming session already running"@ }),
        plan_for(state, CommandView::StopOutgoing) == (PlanView::Close {
            direction: Direction::Outgoing,
            running: state.outgoing_running,
        }),
        plan_for(state, CommandView::StopIncoming) == (PlanView::Close {
            direction: Direction::Incoming,
            running: state.incoming_running,
        }),
{
}

/// Opening or closing a session is noted for its own direction and leaves the other as it is.
pub proof fn law_notes_are_of_one_direction(state: AppState, running: bool)
    ensures
        state.with(Direction::Outgoing, running).outgoing_running == running,
        state.with(Direction::Outgoing, running).incoming_running == state.incoming_running,
        state.with(Direction::Incoming, running).incoming_running == running,
        state.with(Direction::Incoming, running).outgoing_running == state.outgoing_running,
        state.has(Direction::Outgoing) == state.outgoing_running,
        state.has(Direction::Incoming) == state.incoming_running,
{
}

} // verus!
