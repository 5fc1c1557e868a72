//! The process slot: at most one live child per supervisor, replaced by an
//! explicit transition, and the translation of its output into events.

use crate::protocol::StreamEvent;
use std::collections::HashMap;
use vstd::prelude::*;

verus! {

/// Output of a running process, as its readers and its completion report it.
pub enum ProcessOutput {
    /// A line from standard output, without its newline.
    Stdout(String),
    /// A line from standard error, without its newline.
    Stderr(String),
    /// The process exited with the given code.
    Exit(i32),
    /// A failure while running or observing the process.
    Error(String),
}

/// What one process spawn needs. Environment entries override the agent's own.
pub struct ExecConfig {
    pub cmd: String,
    pub args: Vec<String>,
    pub env: HashMap<String, String>,
    pub cwd: String,
}

/// The working directory of every command.
pub open spec fn workspace_dir() -> Seq<char> {
    "/workspace"@
}

impl ExecConfig {
    /// A configuration running `cmd` with `args` and `env` in the workspace.
    pub fn for_command(cmd: String, args: Vec<String>, env: HashMap<String, String>) -> (r: ExecConfig)
        ensures
            r.cmd == cmd,
            r.args == args,
            r.env == env,
            r.cwd@ == workspace_dir(),
    {
        ExecConfig { cmd, args, env, cwd: String::from_str("/workspace") }
    }
}

impl Default for ExecConfig {
    fn default() -> (r: ExecConfig)
        ensures
            r.cmd@.len() == 0,
            r.args@.len() == 0,
            r.env@ == Map::<String, String>::empty(),
            r.cwd@ == workspace_dir(),
    {
        ExecConfig::for_command(String::new(), Vec::new(), HashMap::new())
    }
}

/// The exit code reported when the host cannot tell a process's status; it
/// is distinct from a genuine exit with code 0.
pub const UNKNOWN_EXIT: i32 = -1;

/// The exit code reported for a finished process: its own code, or -1 when
/// the host cannot tell one (for instance, it was killed by a signal).
pub open spec fn exit_code_of(status: Option<i32>) -> i32 {
    match status {
        Some(c) => c,
        None => UNKNOWN_EXIT,
    }
}

/// The exit code reported for a process whose status code is `status`.
pub fn exit_code(status: Option<i32>) -> (r: i32)
    ensures
        r == exit_code_of(status),
{
    match status {
        Some(c) => c,
        None => UNKNOWN_EXIT,
    }
}

/// What the completion of a process reports: its exit, or, when waiting on it
/// failed, the failure followed by an exit with the unknown-status code, so
/// that an exit always closes a run.
pub fn completion_outputs(wait: Result<Option<i32>, String>) -> (r: Vec<ProcessOutput>)
    ensures
        match wait {
            Ok(status) => r@ == seq![ProcessOutput::Exit(exit_code_of(status))],
            Err(m) => r@ == seq![ProcessOutput::Error(m), ProcessOutput::Exit(UNKNOWN_EXIT)],
        },
{
    match wait {
        Ok(status) => vec![ProcessOutput::Exit(exit_code(status))],
        Err(m) => vec![ProcessOutput::Error(m), ProcessOutput::Exit(UNKNOWN_EXIT)],
    }
}

/// `e` is the event that forwards output `o`: a line keeps its newline.
pub open spec fn forwards(o: ProcessOutput, e: StreamEvent) -> bool {
    match o {
        ProcessOutput::Stdout(line) => e matches StreamEvent::Stdout { chunk } && chunk@ == line@
            + "\n"@,
        ProcessOutput::Stderr(line) => e matches StreamEvent::Stderr { chunk } && chunk@ == line@
            + "\n"@,
        ProcessOutput::Exit(code) => e == StreamEvent::Exit { code },
        ProcessOutput::Error(message) => e matches StreamEvent::Error { message: m } && m@
            == message@,
    }
}

/// The event that forwards one process output.
pub fn output_event(o: ProcessOutput) -> (e: StreamEvent)
    ensures
        forwards(o, e),
{
    match o {
        ProcessOutput::Stdout(line) => StreamEvent::Stdout { chunk: line.concat("\n") },
        ProcessOutput::Stderr(line) => StreamEvent::Stderr { chunk: line.concat("\n") },
        ProcessOutput::Exit(code) => StreamEvent::Exit { code },
        ProcessOutput::Error(message) => StreamEvent::Error { message },
    }
}

/// The supervisor's process slot. A run is numbered by its generation; the
/// slot is occupied while `live`, and the run accepts input only when it was
/// started with persistent input. Launching while occupied replaces the
/// occupant, which the caller terminates: only the newest run is current.
#[derive(Clone, Copy)]
pub struct ProcessSlot {
    pub generation: u64,
    pub live: bool,
    pub persistent_input: bool,
}

/// The generation that follows `g`.
pub open spec fn next_generation(g: u64) -> u64 {
    if g == u64::MAX {
        0
    } else {
        (g + 1) as u64
    }
}

impl ProcessSlot {
    /// The empty slot of a fresh supervisor.
    pub open spec fn idle() -> ProcessSlot {
        ProcessSlot { generation: 0, live: false, persistent_input: false }
    }

    /// Output of run `generation` is forwarded.
    pub open spec fn is_current(self, generation: u64) -> bool {
        self.live && self.generation == generation
    }

    /// Input can be written to the current run.
    pub open spec fn takes_input(self) -> bool {
        self.live && self.persistent_input
    }

    /// The slot after a new run is launched.
    pub open spec fn launched(self, persistent_input: bool) -> ProcessSlot {
        ProcessSlot {
            generation: next_generation(self.generation),
            live: true,
            persistent_input,
        }
    }

    /// The slot after run `generation` is closed: by its exit, or because it
    /// could not be spawned.
    pub open spec fn closed(self, generation: u64) -> ProcessSlot {
        if self.is_current(generation) {
            ProcessSlot { generation: self.generation, live: false, persistent_input: false }
        } else {
            self
        }
    }

    /// The slot after output `o` of run `generation` arrives.
    pub open spec fn after(self, generation: u64, o: ProcessOutput) -> ProcessSlot {
        if o is Exit {
            self.closed(generation)
        } else {
            self
        }
    }

    /// An empty slot.
    pub fn new() -> (r: ProcessSlot)
        ensures
            r == ProcessSlot::idle(),
    {
        ProcessSlot { generation: 0, live: false, persistent_input: false }
    }

    /// Whether run `generation` is the current one.
    pub fn is_running(&self, generation: u64) -> (r: bool)
        ensures
            r == self.is_current(generation),
    {
        self.live && self.generation == generation
    }

    /// Whether input can be written to the current run.
    pub fn accepts_input(&self) -> (r: bool)
        ensures
            r == self.takes_input(),
    {
        self.live && self.persistent_input
    }

    /// Starts a new run. Returns its generation and whether a live run was
    /// replaced (the caller then terminates that run's process).
    pub fn launch(&mut self, persistent_input: bool) -> (r: (u64, bool))
        ensures
            *final(self) == old(self).launched(persistent_input),
            r.0 == final(self).generation,
            r.1 == old(self).live,
    {
        let replaced = self.live;
        self.generation = if self.generation == u64::MAX {
            0
        } else {
            self.generation + 1
        };
        self.live = true;
        self.persistent_input = persistent_input;
        (self.generation, replaced)
    }

    /// Closes run `generation` if it is current.
    pub fn close(&mut self, generation: u64)
        ensures
            *final(self) == old(self).closed(generation),
    {
        if self.live && self.generation == generation {
            self.live = false;
            self.persistent_input = false;
        }
    }

    /// Takes output `o` of run `generation`: the event that forwards it when
    /// that run is current, nothing otherwise. An exit closes the run.
    pub fn forward(&mut self, generation: u64, o: ProcessOutput) -> (r: Option<StreamEvent>)
        ensures
            *final(self) == old(self).after(generation, o),
            old(self).is_current(generation) ==> (r is Some && forwards(o, r->0)),
            !old(self).is_current(generation) ==> r is None,
    {
        if !(self.live && self.generation == generation) {
            return None;
        }
        if let ProcessOutput::Exit(_) = o {
            self.close(generation);
        }
        Some(output_event(o))
    }
}

/// The slot after the outputs `outs` of run `generation` arrive in order.
pub open spec fn after_all(s: ProcessSlot, generation: u64, outs: Seq<ProcessOutput>) -> ProcessSlot
    decreases outs.len(),
{
    if outs.len() == 0 {
        s
    } else {
        after_all(s, generation, outs.drop_last()).after(generation, outs.last())
    }
}

/// Lines keep their order: while the current run has not exited, each of its
/// outputs, in the order they arrive, is forwarded by exactly one event, so
/// the events of each stream come out in the order the process wrote them.
pub proof fn lemma_outputs_forwarded_in_order(s: ProcessSlot, generation: u64, outs: Seq<ProcessOutput>)
    requires
        s.is_current(generation),
        forall|i: int| 0 <= i < outs.len() ==> !(outs[i] is Exit),
    ensures
        forall|i: int|
            0 <= i <= outs.len() ==> #[trigger] after_all(s, generation, outs.take(i)).is_current(
                generation,
            ),
    decreases outs.len(),
{
    if outs.len() > 0 {
        let front = outs.drop_last();
        lemma_outputs_forwarded_in_order(s, generation, front);
        assert forall|i: int| 0 <= i <= outs.len() implies #[trigger] after_all(
            s,
            generation,
            outs.take(i),
        ).is_current(generation) by {
            if i < outs.len() {
                assert(outs.take(i) == front.take(i));
            } else {
                assert(outs.take(i) == outs);
                assert(front.take(front.len() as int) == front);
                assert(after_all(s, generation, front.take(front.len() as int)).is_current(
                    generation,
                ));
                assert(!(outs[outs.len() - 1] is Exit));
            }
        }
    }
}

/// An exit closes its run: it is forwarded with the code it carries, and no
/// later output of that run is forwarded.
pub proof fn lemma_exit_is_last(s: ProcessSlot, generation: u64, code: i32, later: ProcessOutput)
    requires
        s.is_current(generation),
    ensures
        forwards(ProcessOutput::Exit(code), StreamEvent::Exit { code }),
        !s.after(generation, ProcessOutput::Exit(code)).is_current(generation),
        !s.after(generation, ProcessOutput::Exit(code)).after(generation, later).is_current(
            generation,
        ),
{
}

/// Replacement: once a new run is launched over a live one, the old run is no
/// longer current, so none of its output is forwarded, whatever arrives,
/// while the new run's output is.
pub proof fn lemma_replacement_silences_old_run(
    s: ProcessSlot,
    persistent_input: bool,
    outs: Seq<ProcessOutput>,
)
    requires
        s.live,
    ensures
        s.launched(persistent_input).is_current(s.launched(persistent_input).generation),
        !after_all(s.launched(persistent_input), s.generation, outs).is_current(s.generation),
        after_all(s.launched(persistent_input), s.generation, outs) == s.launched(
            persistent_input,
        ),
    decreases outs.len(),
{
    if outs.len() > 0 {
        lemma_replacement_silences_old_run(s, persistent_input, outs.drop_last());
    }
}

} // verus!
