use llm_local::launch::{llm_server_options, LlmServerVariables};
use llm_local::servers::{
    config_keys, is_server_running, reported_launch, settings_from, Action, Bringup, Launches,
    Observation, Outcome, Server, ServerSettings, Step,
};

fn settings(llm_model: &str, embedding_model: &str) -> ServerSettings {
    let values: Vec<String> = vec![
        "http://l:1".to_string(),
        llm_model.to_string(),
        "http://e:2".to_string(),
        embedding_model.to_string(),
        "/opt/llama".to_string(),
    ];
    settings_from(&values).unwrap()
}

fn seen(llm_up: bool, embedding_up: bool) -> Observation {
    Observation {
        llm_up,
        embedding_up,
        llm_launch_failed: false,
        embedding_launch_failed: false,
    }
}

fn todo(step: Step) -> (Bringup, Action) {
    match step {
        Step::Do(bringup, action) => (bringup, action),
        Step::Done(_) => panic!("done"),
    }
}

fn done(step: Step) -> Outcome {
    match step {
        Step::Done(outcome) => outcome,
        Step::Do(..) => panic!("not done"),
    }
}

fn begun(llm_model: &str, embedding_model: &str) -> Bringup {
    let (bringup, action) = todo(Bringup::start(settings(llm_model, embedding_model)));
    assert!(action == Action::Check { pause_seconds: 0, llm: true, embedding: true });
    bringup
}

#[test]
fn settings_come_in_the_order_of_the_keys() {
    assert_eq!(
        config_keys(),
        vec!["llm-url", "llm-model", "embedding-url", "embedding-model", "llm-server-path"]
    );
    let s = settings("a", "b");
    assert_eq!(s.llm_url, "http://l:1");
    assert_eq!(s.llm_model, "a");
    assert_eq!(s.embedding_url, "http://e:2");
    assert_eq!(s.embedding_model, "b");
    assert_eq!(s.llm_server_path, "/opt/llama");
    assert!(settings_from(&[]).is_none());
}

#[test]
fn a_server_runs_if_it_reports_success() {
    assert!(is_server_running(Some(200)));
    assert!(!is_server_running(Some(503)));
    assert!(!is_server_running(None));
}

#[test]
fn nothing_is_done_where_both_run() {
    assert!(matches!(done(begun("a", "b").advance(seen(true, true))), Outcome::Ready));
    assert!(matches!(done(begun("", "").advance(seen(true, true))), Outcome::Ready));
}

#[test]
fn servers_that_do_not_run_and_have_a_model_are_started() {
    let (_, action) = todo(begun("a", "b").advance(seen(false, false)));
    assert!(action == Action::Launch(Launches { llm: true, embedding: true }));
    let (_, action) = todo(begun("a", "b").advance(seen(true, false)));
    assert!(action == Action::Launch(Launches { llm: false, embedding: true }));
    let (bringup, action) = todo(begun("", "b").advance(seen(false, true)));
    assert!(action == Action::Launch(Launches { llm: false, embedding: false }));
    assert!(matches!(done(bringup.advance(seen(false, false))), Outcome::Ready));
}

fn launch_with(llm_launch_failed: bool, embedding_launch_failed: bool) -> Step {
    let (bringup, _) = todo(begun("a", "b").advance(seen(false, false)));
    bringup.advance(Observation {
        llm_up: false,
        embedding_up: false,
        llm_launch_failed,
        embedding_launch_failed,
    })
}

#[test]
fn a_failed_launch_is_the_end() {
    assert!(matches!(
        done(launch_with(true, false)),
        Outcome::LaunchFailed(Server::Llm)
    ));
    assert!(matches!(
        done(launch_with(false, true)),
        Outcome::LaunchFailed(Server::Embedding)
    ));
    assert!(matches!(launch_with(false, false), Step::Do(..)));
}

#[test]
fn the_chat_server_is_reported_where_neither_could_be_started() {
    assert!(matches!(
        done(launch_with(true, true)),
        Outcome::LaunchFailed(Server::Llm)
    ));
    assert!(reported_launch(true, true) == Some(Server::Llm));
    assert!(reported_launch(true, false) == Some(Server::Llm));
    assert!(reported_launch(false, true) == Some(Server::Embedding));
    assert!(reported_launch(false, false) == None);
}

#[test]
fn the_settings_give_the_commands() {
    let s = settings("chat.gguf", "embed.gguf");
    let options = llm_server_options(LlmServerVariables {
        n_moe: Some("0".to_string()),
        ctx_size: None,
        parallel: None,
        cont_batching: Some("no".to_string()),
        mlock: Some("no".to_string()),
        no_mmap: Some("no".to_string()),
        gpu_layers: None,
    });
    let c = s.llm_command(&options, false);
    assert_eq!(c.program, "sh");
    assert_eq!(c.flag, "-c");
    assert_eq!(
        c.script,
        "cd /opt/llama && ./llama-server -m chat.gguf --host 0.0.0.0 --port 1 --top_p 0.95 \
         --temp 0.6 --ctx-size 4096 --repeat-penalty 1.2 -ngl 20 &"
    );
    assert_eq!(s.llm_command(&options, true).flag, "/C");
    let c = s.embedding_command(true);
    assert_eq!(c.program, "cmd");
    assert_eq!(c.flag, "/c");
    assert_eq!(
        c.script,
        "cd /opt/llama && .\\llama-server.exe -m embed.gguf --host 0.0.0.0 --port 2 \
         --embedding --n-gpu-layers 99"
    );
}

#[test]
fn the_settings_give_the_health_addresses() {
    let s = settings("a", "b");
    assert_eq!(s.llm_health_url(), "http://l:1/health");
    assert_eq!(s.embedding_health_url(), "http://e:2/health");
}

#[test]
fn the_wait_ends_when_each_server_has_answered() {
    let (bringup, _) = todo(begun("a", "b").advance(seen(false, false)));
    let (bringup, action) = todo(bringup.advance(seen(false, false)));
    assert!(action == Action::Check { pause_seconds: 2, llm: true, embedding: true });
    let (bringup, action) = todo(bringup.advance(seen(true, false)));
    assert!(action == Action::Check { pause_seconds: 2, llm: false, embedding: true });
    assert_eq!(bringup.server_settings().embedding_url, "http://e:2");
    assert!(matches!(done(bringup.advance(seen(false, true))), Outcome::Ready));
}

fn wait_in_vain(llm_model: &str, embedding_model: &str, first: Observation) -> (u64, String) {
    let (bringup, _) = todo(begun(llm_model, embedding_model).advance(first));
    let mut step = bringup.advance(seen(false, false));
    let mut seconds: u64 = 0;
    loop {
        match step {
            Step::Do(bringup, Action::Check { pause_seconds, .. }) => {
                seconds += pause_seconds;
                step = bringup.advance(seen(false, false));
            }
            Step::Done(Outcome::TimedOut(report)) => return (seconds, report),
            _ => panic!("unexpected"),
        }
    }
}

#[test]
fn the_wait_is_given_up_after_two_minutes() {
    let (seconds, report) = wait_in_vain("a", "b", seen(false, false));
    assert_eq!(seconds, 120);
    assert_eq!(
        report,
        "\u{274c} Servers failed to start within timeout:\n   - LLM server at http://l:1\n   \
         - Embedding server at http://e:2"
    );
}

#[test]
fn the_report_names_only_servers_that_are_not_ready() {
    let (_, report) = wait_in_vain("a", "b", seen(true, false));
    assert_eq!(
        report,
        "\u{274c} Servers failed to start within timeout:\n   - Embedding server at http://e:2"
    );
    let (_, report) = wait_in_vain("a", "", seen(false, false));
    assert_eq!(
        report,
        "\u{274c} Servers failed to start within timeout:\n   - LLM server at http://l:1"
    );
}
