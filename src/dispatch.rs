//! The agent's control decisions: for each inbound message and each process
//! event, what is answered, launched, written, forwarded, and when the
//! session ends. The runtime around it performs the actions.

use crate::process::{ExecConfig, ProcessOutput, ProcessSlot, workspace_dir};
use crate::protocol::{
    json_null,
    ExecParams,
    ReplInputParams,
    ReplStartParams,
    Response,
    StreamEvent,
    INVALID_PARAMS,
    METHOD_NOT_FOUND,
};
use vstd::prelude::*;

verus! {

/// The recognised methods.
pub enum MethodKind {
    Exec,
    ReplStart,
    ReplInput,
    Unknown,
}

/// The method a request names.
pub open spec fn kind_of_method(m: Seq<char>) -> MethodKind {
    if m == "exec"@ {
        MethodKind::Exec
    } else if m == "repl.start"@ {
        MethodKind::ReplStart
    } else if m == "repl.input"@ {
        MethodKind::ReplInput
    } else {
        MethodKind::Unknown
    }
}

/// Which recognised method, if any, `method` names.
pub fn method_kind(method: &str) -> (r: MethodKind)
    ensures
        r == kind_of_method(method@),
{
    let m = String::from_str(method);
    if m == String::from_str("exec") {
        MethodKind::Exec
    } else if m == String::from_str("repl.start") {
        MethodKind::ReplStart
    } else if m == String::from_str("repl.input") {
        MethodKind::ReplInput
    } else {
        MethodKind::Unknown
    }
}

/// A request's method with its decoded parameters.
pub enum Command {
    Exec(ExecParams),
    ReplStart(ReplStartParams),
    ReplInput(ReplInputParams),
    /// A recognised method whose parameters did not decode; the text says why.
    InvalidParams(String),
    /// A method that does not exist.
    Unknown,
}

/// One message from the inbound stream.
pub enum Inbound {
    /// A well-formed request; without identifier it is a notification.
    Request { id: Option<serde_json::Value>, command: Command },
    /// A line that is not a request.
    Malformed,
    /// The transport closed.
    EndOfStream,
}

/// A process to start.
pub struct Launch {
    pub config: ExecConfig,
    pub persistent_input: bool,
    /// The generation that tags the new run's output.
    pub generation: u64,
    /// A live run is replaced: its process must be terminated.
    pub replaces: bool,
}

/// What to do after one inbound message.
pub struct Step {
    /// The response to send now.
    pub reply: Option<Response>,
    /// The process to start (after the reply is sent).
    pub launch: Option<Launch>,
    /// Data to write to the current run's input; the request is answered by
    /// `input_reply` once the write is done.
    pub input: Option<String>,
    /// The session is over.
    pub stop: bool,
}

/// How a request is answered.
pub enum Answer {
    /// An empty success result.
    Ack,
    /// An error with this code.
    Fail(i32),
    /// Once the input write finishes.
    Deferred,
}

/// The message sent when input arrives and no run takes it.
pub open spec fn no_input_message() -> Seq<char> {
    "no persistent input available"@
}

/// The message sent for an unknown method.
pub open spec fn unknown_method_message() -> Seq<char> {
    "Method not found"@
}

/// How `c` is answered in a slot.
pub open spec fn answer_of(slot: ProcessSlot, c: Command) -> Answer {
    match c {
        Command::Exec(_) => Answer::Ack,
        Command::ReplStart(_) => Answer::Ack,
        Command::ReplInput(_) => if slot.takes_input() {
            Answer::Deferred
        } else {
            Answer::Fail(INVALID_PARAMS)
        },
        Command::InvalidParams(_) => Answer::Fail(INVALID_PARAMS),
        Command::Unknown => Answer::Fail(METHOD_NOT_FOUND),
    }
}

/// The error message that goes with a failing answer to `c`.
pub open spec fn failure_message(c: Command) -> Seq<char> {
    match c {
        Command::InvalidParams(m) => m@,
        Command::Unknown => unknown_method_message(),
        _ => no_input_message(),
    }
}

/// `r` is the empty success response to request `i`.
pub open spec fn acknowledges(r: Response, i: serde_json::Value) -> bool {
    &&& r.jsonrpc@ == crate::protocol::version_tag()
    &&& r.id == i
    &&& r.result is Some
    &&& r.error is None
}

/// `r` is the error response to request `i` with `code` and `message`.
pub open spec fn rejects(r: Response, i: serde_json::Value, code: i32, message: Seq<char>) -> bool {
    &&& r.jsonrpc@ == crate::protocol::version_tag()
    &&& r.id == i
    &&& r.result is None
    &&& r.error is Some
    &&& r.error->0.code == code
    &&& r.error->0.message@ == message
    &&& r.error->0.data is None
}

/// `reply` answers a request with identifier `id` as `a` says: a request
/// with identifier gets a response bearing it, unless its answer is deferred;
/// a notification gets none.
pub open spec fn replied(
    reply: Option<Response>,
    id: Option<serde_json::Value>,
    a: Answer,
    message: Seq<char>,
) -> bool {
    match id {
        None => reply is None,
        Some(i) => match a {
            Answer::Ack => reply is Some && acknowledges(reply->0, i),
            Answer::Fail(code) => reply is Some && rejects(reply->0, i, code, message),
            Answer::Deferred => reply is None,
        },
    }
}

/// The slot after `c` is handled.
pub open spec fn slot_after(slot: ProcessSlot, c: Command) -> ProcessSlot {
    match c {
        Command::Exec(_) => slot.launched(false),
        Command::ReplStart(_) => slot.launched(true),
        _ => slot,
    }
}

/// `l` starts what `c` asks for in `slot`: `exec` and `repl.start` launch
/// their command in the workspace (with persistent input for the latter) as
/// the next generation, replacing the live run if any; nothing else launches.
pub open spec fn launch_for(l: Option<Launch>, slot: ProcessSlot, c: Command) -> bool {
    match c {
        Command::Exec(p) => l matches Some(x) && x.config.cmd == p.cmd && x.config.args == p.args
            && x.config.env == p.env && x.config.cwd@ == workspace_dir() && !x.persistent_input
            && x.generation == slot.launched(false).generation && x.replaces == slot.live,
        Command::ReplStart(p) => l matches Some(x) && x.config.cmd == p.cmd && x.config.args
            == p.args && x.config.env == p.env && x.config.cwd@ == workspace_dir()
            && x.persistent_input && x.generation == slot.launched(true).generation && x.replaces
            == slot.live,
        _ => l is None,
    }
}

/// `input` is what `c` writes in `slot`: the data of `repl.input` when the
/// current run takes input, nothing otherwise.
pub open spec fn input_for(input: Option<String>, slot: ProcessSlot, c: Command) -> bool {
    match c {
        Command::ReplInput(p) => if slot.takes_input() {
            input == Some(p.data)
        } else {
            input is None
        },
        _ => input is None,
    }
}

/// How a deferred `repl.input` is answered once its write finished.
pub open spec fn write_answer(written: Result<(), String>) -> Answer {
    match written {
        Ok(_) => Answer::Ack,
        Err(_) => Answer::Fail(INVALID_PARAMS),
    }
}

/// The error message of a failed write.
pub open spec fn write_message(written: Result<(), String>) -> Seq<char> {
    match written {
        Ok(_) => Seq::empty(),
        Err(m) => m@,
    }
}

fn ack(id: Option<serde_json::Value>) -> (r: Option<Response>)
    ensures
        replied(r, id, Answer::Ack, Seq::empty()),
{
    match id {
        Some(i) => Some(Response::success(i, json_null())),
        None => None,
    }
}

fn fail(id: Option<serde_json::Value>, code: i32, message: &str) -> (r: Option<Response>)
    ensures
        replied(r, id, Answer::Fail(code), message@),
{
    match id {
        Some(i) => Some(Response::error(i, code, message)),
        None => None,
    }
}

/// The response to a deferred `repl.input` request once its write finished:
/// success, or an invalid-params error carrying the write's failure.
pub fn input_reply(id: Option<serde_json::Value>, written: Result<(), String>) -> (r: Option<Response>)
    ensures
        replied(r, id, write_answer(written), write_message(written)),
{
    match written {
        Ok(_) => ack(id),
        Err(m) => fail(id, INVALID_PARAMS, m.as_str()),
    }
}

/// The dispatcher's state: the process slot it owns.
pub struct Dispatcher {
    pub slot: ProcessSlot,
}

impl Dispatcher {
    /// A dispatcher with an empty slot.
    pub fn new() -> (r: Dispatcher)
        ensures
            r.slot == ProcessSlot::idle(),
    {
        Dispatcher { slot: ProcessSlot::new() }
    }

    /// Decides what one inbound message calls for. Only the end of the stream
    /// stops the session; a malformed line is skipped.
    pub fn handle(&mut self, inbound: Inbound) -> (step: Step)
        ensures
            step.stop == (inbound is EndOfStream),
            match inbound {
                Inbound::Request { id, command } => replied(
                    step.reply,
                    id,
                    answer_of(old(self).slot, command),
                    failure_message(command),
                ) && launch_for(step.launch, old(self).slot, command) && input_for(
                    step.input,
                    old(self).slot,
                    command,
                ) && final(self).slot == slot_after(old(self).slot, command),
                _ => step.reply is None && step.launch is None && step.input is None
                    && final(self).slot == old(self).slot,
            },
    {
        match inbound {
            Inbound::EndOfStream => Step { reply: None, launch: None, input: None, stop: true },
            Inbound::Malformed => Step { reply: None, launch: None, input: None, stop: false },
            Inbound::Request { id, command } => self.handle_command(id, command),
        }
    }

    fn handle_command(&mut self, id: Option<serde_json::Value>, command: Command) -> (step: Step)
        ensures
            !step.stop,
            replied(step.reply, id, answer_of(old(self).slot, command), failure_message(command)),
            launch_for(step.launch, old(self).slot, command),
            input_for(step.input, old(self).slot, command),
            final(self).slot == slot_after(old(self).slot, command),
    {
        match command {
            Command::Exec(p) => {
                let config = ExecConfig::for_command(p.cmd, p.args, p.env);
                let (generation, replaces) = self.slot.launch(false);
                let launch = Launch { config, persistent_input: false, generation, replaces };
                Step { reply: ack(id), launch: Some(launch), input: None, stop: false }
            },
            Command::ReplStart(p) => {
                let config = ExecConfig::for_command(p.cmd, p.args, p.env);
                let (generation, replaces) = self.slot.launch(true);
                let launch = Launch { config, persistent_input: true, generation, replaces };
                Step { reply: ack(id), launch: Some(launch), input: None, stop: false }
            },
            Command::ReplInput(p) => {
                if self.slot.accepts_input() {
                    Step { reply: None, launch: None, input: Some(p.data), stop: false }
                } else {
                    let reply = fail(id, INVALID_PARAMS, "no persistent input available");
                    Step { reply, launch: None, input: None, stop: false }
                }
            },
            Command::InvalidParams(m) => {
                let reply = fail(id, INVALID_PARAMS, m.as_str());
                Step { reply, launch: None, input: None, stop: false }
            },
            Command::Unknown => {
                let reply = fail(id, METHOD_NOT_FOUND, "Method not found");
                Step { reply, launch: None, input: None, stop: false }
            },
        }
    }

    /// Takes output `o` of run `generation`: the event to send, if that run is current.
    pub fn on_output(&mut self, generation: u64, o: ProcessOutput) -> (r: Option<StreamEvent>)
        ensures
            final(self).slot == old(self).slot.after(generation, o),
            old(self).slot.is_current(generation) ==> (r is Some && crate::process::forwards(o, r->0)),
            !old(self).slot.is_current(generation) ==> r is None,
    {
        self.slot.forward(generation, o)
    }

    /// Run `generation` could not be spawned: it is closed, and, if it was
    /// current, the failure is reported as an `error` event.
    pub fn on_spawn_failed(&mut self, generation: u64, message: String) -> (r: Option<StreamEvent>)
        ensures
            final(self).slot == old(self).slot.closed(generation),
            old(self).slot.is_current(generation) ==> r == Some(StreamEvent::Error { message }),
            !old(self).slot.is_current(generation) ==> r is None,
    {
        if self.slot.live && self.slot.generation == generation {
            self.slot.close(generation);
            Some(StreamEvent::Error { message })
        } else {
            None
        }
    }
}

/// Every request with an identifier gets exactly one response, bearing that
/// identifier: at once, or, when its data is handed to the running process
/// (and only then), once the write is done.
pub proof fn lemma_one_response_per_request(
    slot: ProcessSlot,
    i: serde_json::Value,
    command: Command,
    now: Option<Response>,
    later: Option<Response>,
    written: Result<(), String>,
)
    requires
        replied(now, Some(i), answer_of(slot, command), failure_message(command)),
        replied(later, Some(i), write_answer(written), write_message(written)),
    ensures
        (answer_of(slot, command) is Deferred) <==> (command is ReplInput && slot.takes_input()),
        answer_of(slot, command) is Deferred ==> now is None && later is Some && later->0.id == i,
        !(answer_of(slot, command) is Deferred) ==> now is Some && now->0.id == i,
{
}

/// A notification never gets a response: neither at once nor after a write.
pub proof fn lemma_notification_unanswered(
    slot: ProcessSlot,
    command: Command,
    now: Option<Response>,
    later: Option<Response>,
    written: Result<(), String>,
)
    requires
        replied(now, None, answer_of(slot, command), failure_message(command)),
        replied(later, None, write_answer(written), write_message(written)),
    ensures
        now is None,
        later is None,
{
}

/// Until a `repl.start`, no run takes input: a fresh slot does not, and
/// neither launching with `exec`, nor process output, nor closing a run
/// changes that.
pub proof fn lemma_no_input_before_start(slot: ProcessSlot, generation: u64, o: ProcessOutput)
    requires
        !slot.persistent_input,
    ensures
        !ProcessSlot::idle().persistent_input,
        !slot.launched(false).persistent_input,
        !slot.after(generation, o).persistent_input,
        !slot.closed(generation).persistent_input,
        !slot.takes_input(),
{
}

/// `repl.input` while no run takes input is refused with an invalid-params
/// error, and launches nothing, writes nothing, and leaves the slot as it is.
pub proof fn lemma_input_without_start_refused(
    slot: ProcessSlot,
    p: ReplInputParams,
    l: Option<Launch>,
    input: Option<String>,
)
    requires
        !slot.takes_input(),
        launch_for(l, slot, Command::ReplInput(p)),
        input_for(input, slot, Command::ReplInput(p)),
    ensures
        answer_of(slot, Command::ReplInput(p)) == Answer::Fail(INVALID_PARAMS),
        failure_message(Command::ReplInput(p)) == no_input_message(),
        l is None,
        input is None,
        slot_after(slot, Command::ReplInput(p)) == slot,
{
}

/// A second `exec` or `repl.start` over a live run asks for that run to be
/// terminated, and from then on the old run's output is no longer forwarded.
pub proof fn lemma_start_replaces_live_run(slot: ProcessSlot, command: Command, l: Option<Launch>)
    requires
        slot.live,
        command is Exec || command is ReplStart,
        launch_for(l, slot, command),
    ensures
        l is Some && l->0.replaces,
        !slot_after(slot, command).is_current(slot.generation),
        slot_after(slot, command).is_current(l->0.generation),
{
}

} // verus!
