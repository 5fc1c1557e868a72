use boxed_agent::codec::{encode_event, encode_response};
use boxed_agent::dispatch::{input_reply, method_kind, Command, Dispatcher, Inbound, MethodKind};
use boxed_agent::process::{completion_outputs, exit_code, output_event, ExecConfig, ProcessOutput, ProcessSlot};
use boxed_agent::protocol::{ExecParams, ReplInputParams, ReplStartParams, StreamEvent, INVALID_PARAMS, METHOD_NOT_FOUND};
use serde_json::Value;
use std::collections::HashMap;

fn exec(cmd: &str, args: &[&str]) -> Command {
    Command::Exec(ExecParams {
        cmd: cmd.to_string(),
        args: args.iter().map(|a| a.to_string()).collect(),
        env: HashMap::new(),
    })
}

fn repl_start(cmd: &str) -> Command {
    Command::ReplStart(ReplStartParams { cmd: cmd.to_string(), args: Vec::new(), env: HashMap::new() })
}

fn repl_input(data: &str) -> Command {
    Command::ReplInput(ReplInputParams { data: data.to_string() })
}

fn request(id: Option<i64>, command: Command) -> Inbound {
    Inbound::Request { id: id.map(Value::from), command }
}

fn stdout(line: &str) -> ProcessOutput {
    ProcessOutput::Stdout(line.to_string())
}

#[test]
fn method_names_are_recognised() {
    assert!(matches!(method_kind("exec"), MethodKind::Exec));
    assert!(matches!(method_kind("repl.start"), MethodKind::ReplStart));
    assert!(matches!(method_kind("repl.input"), MethodKind::ReplInput));
    assert!(matches!(method_kind("bogus"), MethodKind::Unknown));
    assert!(matches!(method_kind("Exec"), MethodKind::Unknown));
    assert!(matches!(method_kind(""), MethodKind::Unknown));
}

#[test]
fn exec_echo_scenario_lines() {
    let mut d = Dispatcher::new();
    let step = d.handle(request(Some(1), exec("echo", &["hi"])));
    assert!(!step.stop);
    let reply = step.reply.unwrap();
    assert_eq!(encode_response(&reply), "{\"jsonrpc\":\"2.0\",\"result\":null,\"id\":1}\n");
    let launch = step.launch.unwrap();
    assert_eq!(launch.config.cmd, "echo");
    assert_eq!(launch.config.args, vec!["hi".to_string()]);
    assert_eq!(launch.config.cwd, "/workspace");
    assert!(!launch.persistent_input);
    assert!(!launch.replaces);
    let g = launch.generation;
    let e = d.on_output(g, stdout("hi")).unwrap();
    assert_eq!(encode_event(&e), "{\"jsonrpc\":\"2.0\",\"method\":\"stdout\",\"params\":{\"chunk\":\"hi\\n\"}}\n");
    for o in completion_outputs(Ok(Some(0))) {
        let e = d.on_output(g, o).unwrap();
        assert_eq!(encode_event(&e), "{\"jsonrpc\":\"2.0\",\"method\":\"exit\",\"params\":{\"code\":0}}\n");
    }
    assert!(d.on_output(g, stdout("late")).is_none());
}

#[test]
fn unknown_method_scenario_line() {
    let mut d = Dispatcher::new();
    let step = d.handle(request(Some(2), Command::Unknown));
    assert!(step.launch.is_none() && step.input.is_none() && !step.stop);
    let reply = step.reply.unwrap();
    assert_eq!(reply.error.as_ref().unwrap().code, METHOD_NOT_FOUND);
    assert_eq!(
        encode_response(&reply),
        "{\"jsonrpc\":\"2.0\",\"error\":{\"code\":-32601,\"message\":\"Method not found\"},\"id\":2}\n"
    );
}

#[test]
fn malformed_line_then_valid_request_is_answered() {
    let mut d = Dispatcher::new();
    let step = d.handle(Inbound::Malformed);
    assert!(!step.stop && step.reply.is_none() && step.launch.is_none());
    let step = d.handle(request(Some(5), exec("ls", &[])));
    assert!(!step.stop);
    assert_eq!(step.reply.unwrap().id, Value::from(5));
}

#[test]
fn end_of_stream_alone_stops() {
    let mut d = Dispatcher::new();
    let step = d.handle(Inbound::EndOfStream);
    assert!(step.stop && step.reply.is_none() && step.launch.is_none());
}

#[test]
fn notifications_get_no_response() {
    let mut d = Dispatcher::new();
    assert!(d.handle(request(None, Command::Unknown)).reply.is_none());
    assert!(d.handle(request(None, repl_input("x"))).reply.is_none());
    assert!(d.handle(request(None, Command::InvalidParams("bad".to_string()))).reply.is_none());
    let step = d.handle(request(None, exec("true", &[])));
    assert!(step.reply.is_none());
    assert!(step.launch.is_some());
    assert!(input_reply(None, Ok(())).is_none());
    assert!(input_reply(None, Err("broken pipe".to_string())).is_none());
}

#[test]
fn repl_input_before_start_is_refused() {
    let mut d = Dispatcher::new();
    let step = d.handle(request(Some(3), repl_input("print(1)\n")));
    assert!(step.launch.is_none() && step.input.is_none());
    let reply = step.reply.unwrap();
    let error = reply.error.unwrap();
    assert_eq!(error.code, INVALID_PARAMS);
    assert_eq!(error.message, "no persistent input available");
    assert_eq!(reply.id, Value::from(3));
    assert!(!d.slot.live);
}

#[test]
fn repl_input_after_exec_is_refused() {
    let mut d = Dispatcher::new();
    d.handle(request(Some(1), exec("cat", &[])));
    let step = d.handle(request(Some(2), repl_input("x")));
    assert!(step.input.is_none());
    assert_eq!(step.reply.unwrap().error.unwrap().code, INVALID_PARAMS);
}

#[test]
fn repl_input_goes_to_a_started_repl_and_is_answered_once() {
    let mut d = Dispatcher::new();
    let step = d.handle(request(Some(1), repl_start("python3")));
    assert!(step.launch.as_ref().unwrap().persistent_input);
    let step = d.handle(request(Some(2), repl_input("1+1\n")));
    assert!(step.reply.is_none());
    assert_eq!(step.input.as_deref(), Some("1+1\n"));
    let reply = input_reply(Some(Value::from(2)), Ok(())).unwrap();
    assert_eq!(reply.id, Value::from(2));
    assert!(reply.result.is_some() && reply.error.is_none());
    let reply = input_reply(Some(Value::from(4)), Err("broken pipe".to_string())).unwrap();
    assert_eq!(reply.id, Value::from(4));
    let error = reply.error.unwrap();
    assert_eq!(error.code, INVALID_PARAMS);
    assert_eq!(error.message, "broken pipe");
}

#[test]
fn invalid_params_get_an_error_response() {
    let mut d = Dispatcher::new();
    let step = d.handle(request(Some(9), Command::InvalidParams("missing field `cmd`".to_string())));
    let error = step.reply.unwrap().error.unwrap();
    assert_eq!(error.code, INVALID_PARAMS);
    assert_eq!(error.message, "missing field `cmd`");
    assert!(step.launch.is_none());
}

#[test]
fn replacement_silences_the_first_run() {
    let mut d = Dispatcher::new();
    let first = d.handle(request(Some(1), exec("sleep", &["100"]))).launch.unwrap();
    let second = d.handle(request(Some(2), repl_start("python3"))).launch.unwrap();
    assert!(!first.replaces);
    assert!(second.replaces);
    assert_ne!(first.generation, second.generation);
    assert!(d.on_output(first.generation, stdout("old")).is_none());
    assert!(d.on_output(first.generation, ProcessOutput::Exit(0)).is_none());
    assert!(d.on_output(second.generation, stdout("new")).is_some());
}

#[test]
fn stdout_and_stderr_keep_their_order() {
    let mut d = Dispatcher::new();
    let g = d.handle(request(Some(1), exec("sh", &[]))).launch.unwrap().generation;
    let outputs = vec![stdout("a"), ProcessOutput::Stderr("x".to_string()), stdout("b"), stdout("c")];
    let mut chunks = Vec::new();
    for o in outputs {
        match d.on_output(g, o).unwrap() {
            StreamEvent::Stdout { chunk } => chunks.push(format!("out:{}", chunk)),
            StreamEvent::Stderr { chunk } => chunks.push(format!("err:{}", chunk)),
            _ => panic!("unexpected event"),
        }
    }
    assert_eq!(chunks, vec!["out:a\n", "err:x\n", "out:b\n", "out:c\n"]);
}

#[test]
fn exit_is_terminal_and_carries_the_true_code() {
    let mut d = Dispatcher::new();
    let g = d.handle(request(Some(1), exec("false", &[]))).launch.unwrap().generation;
    let outs = completion_outputs(Ok(Some(1)));
    assert_eq!(outs.len(), 1);
    for o in outs {
        assert!(matches!(d.on_output(g, o), Some(StreamEvent::Exit { code: 1 })));
    }
    assert!(d.on_output(g, stdout("after")).is_none());
    assert!(d.on_output(g, ProcessOutput::Exit(0)).is_none());
}

#[test]
fn failed_wait_reports_error_then_unknown_exit() {
    let outs = completion_outputs(Err("wait failed".to_string()));
    assert_eq!(outs.len(), 2);
    assert!(matches!(&outs[0], ProcessOutput::Error(m) if m == "wait failed"));
    assert!(matches!(outs[1], ProcessOutput::Exit(-1)));
    assert!(matches!(completion_outputs(Ok(None))[0], ProcessOutput::Exit(-1)));
}

#[test]
fn exit_code_sentinel() {
    assert_eq!(exit_code(Some(0)), 0);
    assert_eq!(exit_code(Some(3)), 3);
    assert_eq!(exit_code(None), -1);
}

#[test]
fn spawn_failure_reports_error_and_frees_slot() {
    let mut d = Dispatcher::new();
    let g = d.handle(request(Some(1), repl_start("/no/such/binary"))).launch.unwrap().generation;
    let e = d.on_spawn_failed(g, "not found".to_string()).unwrap();
    assert!(matches!(e, StreamEvent::Error { ref message } if message == "not found"));
    assert!(!d.slot.live);
    assert!(d.on_spawn_failed(g, "again".to_string()).is_none());
    assert!(d.handle(request(Some(2), repl_input("x"))).input.is_none());
}

#[test]
fn output_event_restores_newline() {
    match output_event(stdout("line")) {
        StreamEvent::Stdout { chunk } => assert_eq!(chunk, "line\n"),
        _ => panic!("expected stdout"),
    }
    match output_event(ProcessOutput::Stderr(String::new())) {
        StreamEvent::Stderr { chunk } => assert_eq!(chunk, "\n"),
        _ => panic!("expected stderr"),
    }
}

#[test]
fn slot_generations_and_defaults() {
    let mut s = ProcessSlot::new();
    assert!(!s.live && !s.accepts_input());
    let (g1, r1) = s.launch(true);
    assert!(!r1 && s.accepts_input() && s.is_running(g1));
    let (g2, r2) = s.launch(false);
    assert!(r2 && g2 != g1 && !s.accepts_input() && !s.is_running(g1));
    let c = ExecConfig::default();
    assert_eq!(c.cwd, "/workspace");
    assert!(c.cmd.is_empty() && c.args.is_empty() && c.env.is_empty());
}
