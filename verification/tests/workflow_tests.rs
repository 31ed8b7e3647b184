use cargo_decompile::build_driver::BuildCommand;
use cargo_decompile::options::{Opts, OptsError};
use cargo_decompile::tool::Tool;
use cargo_decompile::workflow::{Action, Event, Failure, Phase, Workflow};

fn run_options(release: bool, target: Option<&str>, tool: Tool) -> Opts {
    Opts {
        s: "main".to_string(),
        release,
        bin: "app".to_string(),
        target: target.map(|t| t.to_string()),
        tool,
    }
}

/// Starts a run and feeds it the events, collecting every action.
fn drive(opts: Opts, events: Vec<Event>) -> (Workflow, Vec<Action>) {
    let (mut workflow, first) = Workflow::start(opts, None);
    let mut actions = vec![first];
    for event in events {
        let (next, action) = workflow.step(event);
        workflow = next;
        actions.push(action);
    }
    (workflow, actions)
}

fn count_closes(actions: &[Action]) -> usize {
    actions
        .iter()
        .filter(|action| matches!(action, Action::CloseSession))
        .count()
}

fn reply(text: &str) -> Event {
    Event::Reply(text.to_string())
}

#[test]
fn scenario_native_debug_run() {
    let opts = run_options(false, None, Tool::Rizin);
    let (workflow, actions) = drive(
        opts,
        vec![
            Event::BuildExited { success: true },
            Event::SessionOpened,
            reply("analysis done"),
            reply("int main(void) {\n    return 0;\n}\n"),
            Event::SessionClosed,
        ],
    );
    assert_eq!(
        actions,
        vec![
            Action::RunBuild(BuildCommand {
                program: "cargo".to_string(),
                args: vec![
                    "build".to_string(),
                    "--workspace".to_string(),
                    "--bin".to_string(),
                    "app".to_string(),
                ],
                env: vec![("RUSTFLAGS".to_string(), String::new())],
            }),
            Action::OpenSession { tool: Tool::Rizin, path: "./target/debug/app".to_string() },
            Action::Send("aa".to_string()),
            Action::Send("pdg @ $(afl~main[0])".to_string()),
            Action::CloseSession,
            Action::Present("int main(void) {\n    return 0;\n}\n".to_string()),
        ]
    );
    assert_eq!(workflow.phase, Phase::Finished);
}

#[test]
fn scenario_cross_release_run() {
    let opts = run_options(true, Some("x86_64-unknown-linux-musl"), Tool::Radare2);
    let (first_state, first) =
        Workflow::start(opts, Some("-C target-cpu=native".to_string()));
    assert_eq!(
        first,
        Action::RunBuild(BuildCommand {
            program: "cross".to_string(),
            args: vec![
                "build".to_string(),
                "--workspace".to_string(),
                "--bin".to_string(),
                "app".to_string(),
                "--release".to_string(),
                "--target".to_string(),
                "x86_64-unknown-linux-musl".to_string(),
            ],
            env: vec![],
        })
    );
    let (_, second) = first_state.step(Event::BuildExited { success: true });
    assert_eq!(
        second,
        Action::OpenSession {
            tool: Tool::Radare2,
            path: "./target/x86_64-unknown-linux-musl/release/app".to_string(),
        }
    );
}

#[test]
fn scenario_unknown_tool_starts_nothing() {
    let resolved = Opts::resolve("main".to_string(), false, "app".to_string(), None, "ida");
    assert_eq!(resolved, Err(OptsError::UnknownTool));
    assert_eq!(Tool::from_str("ida"), Err("unknown tool".to_string()));
}

#[test]
fn start_waits_for_the_build() {
    let (workflow, action) = Workflow::start(run_options(false, None, Tool::Rizin), None);
    assert_eq!(workflow.phase, Phase::Building);
    assert!(matches!(action, Action::RunBuild(_)));
    assert_eq!(workflow.opts, run_options(false, None, Tool::Rizin));
}

#[test]
fn failed_build_ends_the_run() {
    let (workflow, actions) = drive(
        run_options(false, None, Tool::Rizin),
        vec![Event::BuildExited { success: false }],
    );
    assert_eq!(actions[1], Action::Abort(Failure::BuildFailed));
    assert_eq!(workflow.phase, Phase::Finished);
    assert_eq!(count_closes(&actions), 0);
}

#[test]
fn build_that_cannot_start_ends_the_run() {
    let (workflow, actions) =
        drive(run_options(false, None, Tool::Rizin), vec![Event::BuildNotStarted]);
    assert_eq!(actions[1], Action::Abort(Failure::BuildNotStarted));
    assert_eq!(workflow.phase, Phase::Finished);
}

#[test]
fn refused_session_ends_the_run_without_a_close() {
    let (workflow, actions) = drive(
        run_options(false, None, Tool::Radare2),
        vec![Event::BuildExited { success: true }, Event::SessionRefused],
    );
    assert_eq!(actions[2], Action::Abort(Failure::SpawnFailed));
    assert_eq!(workflow.phase, Phase::Finished);
    assert_eq!(count_closes(&actions), 0);
}

#[test]
fn failed_analysis_closes_the_session_once() {
    let (workflow, actions) = drive(
        run_options(false, None, Tool::Rizin),
        vec![
            Event::BuildExited { success: true },
            Event::SessionOpened,
            Event::RequestFailed,
            Event::SessionClosed,
        ],
    );
    assert_eq!(actions[3], Action::CloseSession);
    assert_eq!(actions[4], Action::Abort(Failure::AnalysisFailed));
    assert_eq!(count_closes(&actions), 1);
    assert_eq!(workflow.phase, Phase::Finished);
}

#[test]
fn failed_query_closes_the_session_once() {
    let (workflow, actions) = drive(
        run_options(false, None, Tool::Rizin),
        vec![
            Event::BuildExited { success: true },
            Event::SessionOpened,
            reply(""),
            Event::RequestFailed,
            Event::SessionClosed,
        ],
    );
    assert_eq!(actions[4], Action::CloseSession);
    assert_eq!(actions[5], Action::Abort(Failure::QueryFailed));
    assert_eq!(count_closes(&actions), 1);
    assert_eq!(workflow.phase, Phase::Finished);
}

#[test]
fn successful_query_closes_the_session_once() {
    let (_, actions) = drive(
        run_options(true, None, Tool::Radare2),
        vec![
            Event::BuildExited { success: true },
            Event::SessionOpened,
            reply("ignored"),
            reply("void f(void) {}"),
            Event::SessionClosed,
        ],
    );
    assert_eq!(count_closes(&actions), 1);
    assert_eq!(actions[4], Action::CloseSession);
    assert_eq!(actions[5], Action::Present("void f(void) {}".to_string()));
}

#[test]
fn the_query_answer_is_held_until_the_session_is_closed() {
    let (workflow, actions) = drive(
        run_options(false, None, Tool::Rizin),
        vec![
            Event::BuildExited { success: true },
            Event::SessionOpened,
            reply("x"),
            reply("decompiled"),
        ],
    );
    assert_eq!(actions[4], Action::CloseSession);
    assert_eq!(workflow.phase, Phase::Closing(Ok("decompiled".to_string())));
}

#[test]
fn the_analysis_answer_is_dropped() {
    let (_, with_text) = drive(
        run_options(false, None, Tool::Rizin),
        vec![Event::BuildExited { success: true }, Event::SessionOpened, reply("lots of text")],
    );
    let (_, without) = drive(
        run_options(false, None, Tool::Rizin),
        vec![Event::BuildExited { success: true }, Event::SessionOpened, reply("")],
    );
    assert_eq!(with_text, without);
    assert_eq!(with_text[3], Action::Send("pdg @ $(afl~main[0])".to_string()));
}

#[test]
fn an_empty_answer_is_presented_as_it_is() {
    let (_, actions) = drive(
        run_options(false, None, Tool::Rizin),
        vec![
            Event::BuildExited { success: true },
            Event::SessionOpened,
            reply("x"),
            reply(""),
            Event::SessionClosed,
        ],
    );
    assert_eq!(actions[5], Action::Present(String::new()));
}

#[test]
fn out_of_turn_event_during_the_build_ends_the_run() {
    let (workflow, actions) =
        drive(run_options(false, None, Tool::Rizin), vec![Event::SessionOpened]);
    assert_eq!(actions[1], Action::Abort(Failure::OutOfTurn));
    assert_eq!(workflow.phase, Phase::Finished);
    assert_eq!(count_closes(&actions), 0);
}

#[test]
fn out_of_turn_event_while_opening_ends_the_run() {
    let (workflow, actions) = drive(
        run_options(false, None, Tool::Rizin),
        vec![Event::BuildExited { success: true }, reply("early")],
    );
    assert_eq!(actions[2], Action::Abort(Failure::OutOfTurn));
    assert_eq!(workflow.phase, Phase::Finished);
    assert_eq!(count_closes(&actions), 0);
}

#[test]
fn out_of_turn_event_in_a_live_session_closes_it_first() {
    for stray in [
        Event::BuildExited { success: true },
        Event::BuildNotStarted,
        Event::SessionOpened,
        Event::SessionRefused,
        Event::SessionClosed,
    ] {
        let (workflow, actions) = drive(
            run_options(false, None, Tool::Rizin),
            vec![
                Event::BuildExited { success: true },
                Event::SessionOpened,
                stray.clone(),
                Event::SessionClosed,
            ],
        );
        assert_eq!(actions[3], Action::CloseSession);
        assert_eq!(actions[4], Action::Abort(Failure::OutOfTurn));
        assert_eq!(count_closes(&actions), 1);
        assert_eq!(workflow.phase, Phase::Finished);

        let (_, actions) = drive(
            run_options(false, None, Tool::Rizin),
            vec![
                Event::BuildExited { success: true },
                Event::SessionOpened,
                reply("x"),
                stray,
                Event::SessionClosed,
            ],
        );
        assert_eq!(actions[4], Action::CloseSession);
        assert_eq!(actions[5], Action::Abort(Failure::OutOfTurn));
        assert_eq!(count_closes(&actions), 1);
    }
}

#[test]
fn out_of_turn_event_while_closing_asks_for_no_second_close() {
    let (workflow, actions) = drive(
        run_options(false, None, Tool::Rizin),
        vec![
            Event::BuildExited { success: true },
            Event::SessionOpened,
            reply("x"),
            reply("text"),
            reply("again"),
        ],
    );
    assert_eq!(actions[5], Action::Abort(Failure::OutOfTurn));
    assert_eq!(count_closes(&actions), 1);
    assert_eq!(workflow.phase, Phase::Finished);
}

#[test]
fn a_finished_run_stays_finished() {
    let (workflow, actions) = drive(
        run_options(false, None, Tool::Rizin),
        vec![
            Event::BuildExited { success: false },
            Event::BuildExited { success: true },
            Event::SessionOpened,
            reply("x"),
            Event::SessionClosed,
        ],
    );
    assert_eq!(workflow.phase, Phase::Finished);
    for action in &actions[2..] {
        assert_eq!(*action, Action::Abort(Failure::OutOfTurn));
    }
    assert_eq!(count_closes(&actions), 0);
}

#[test]
fn every_path_closes_an_opened_session_exactly_once() {
    let events = [
        Event::BuildExited { success: true },
        Event::BuildExited { success: false },
        Event::BuildNotStarted,
        Event::SessionOpened,
        Event::SessionRefused,
        Event::Reply("r".to_string()),
        Event::RequestFailed,
        Event::SessionClosed,
    ];
    // every sequence of five events after a successful build
    let n = events.len();
    for code in 0..n * n * n * n * n {
        let mut picks = vec![Event::BuildExited { success: true }];
        let mut rest = code;
        for _ in 0..5 {
            picks.push(events[rest % n].clone());
            rest /= n;
        }
        let opened = matches!(picks[1], Event::SessionOpened);
        let (workflow, actions) = drive(run_options(false, None, Tool::Rizin), picks);
        let closes = count_closes(&actions);
        assert!(closes <= 1);
        match workflow.phase {
            Phase::Analysing | Phase::Querying => unreachable!(),
            _ => assert_eq!(closes, if opened { 1 } else { 0 }),
        }
    }
}

#[test]
fn the_tool_of_the_options_is_the_one_opened() {
    for tool in [Tool::Rizin, Tool::Radare2] {
        let (_, actions) =
            drive(run_options(false, None, tool), vec![Event::BuildExited { success: true }]);
        assert_eq!(
            actions[1],
            Action::OpenSession { tool, path: "./target/debug/app".to_string() }
        );
    }
}
