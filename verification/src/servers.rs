//! Bringing the servers up: which ones to start, and how long to wait for them.
use crate::endpoints::health_url;
use crate::launch::{
    embedding_args_model, llm_args_model, script_model, shell_model, start_embedding_server,
    start_llm_server, LlmServerOptions, ShellCommand,
};
use crate::reply::{is_success, is_success_code};
use crate::text::after_last_colon;
use vstd::prelude::*;

verus! {

/// The rounds of health checks before the servers are given up.
pub const MAX_ATTEMPTS: u32 = 60;

/// The seconds between two rounds of health checks.
pub const SECONDS_PER_ATTEMPT: u64 = 2;

/// The name of the bot whose configuration holds for the servers.
pub const DEFAULT_BOT: &'static str = "default";

/// The configuration of the servers.
pub struct ServerSettings {
    pub llm_url: String,
    pub llm_model: String,
    pub embedding_url: String,
    pub embedding_model: String,
    pub llm_server_path: String,
}

/// The keys under which the configuration of the servers is kept, in the order
/// in which they are looked up.
pub fn config_keys() -> (r: Vec<String>)
    ensures
        r@.len() == 5,
        r@[0]@ == "llm-url"@,
        r@[1]@ == "llm-model"@,
        r@[2]@ == "embedding-url"@,
        r@[3]@ == "embedding-model"@,
        r@[4]@ == "llm-server-path"@,
{
    vec![
        "llm-url".to_string(),
        "llm-model".to_string(),
        "embedding-url".to_string(),
        "embedding-model".to_string(),
        "llm-server-path".to_string(),
    ]
}

/// The configuration from the values of the keys, in the order of the keys;
/// none where there is not one value for each key.
pub fn settings_from(values: &[String]) -> (r: Option<ServerSettings>)
    ensures
        r is Some <==> values@.len() == 5,
        r matches Some(settings) ==> {
            &&& settings.llm_url@ == values@[0]@
            &&& settings.llm_model@ == values@[1]@
            &&& settings.embedding_url@ == values@[2]@
            &&& settings.embedding_model@ == values@[3]@
            &&& settings.llm_server_path@ == values@[4]@
        },
{
    if values.len() != 5 {
        return None;
    }
    Some(
        ServerSettings {
            llm_url: values[0].clone(),
            llm_model: values[1].clone(),
            embedding_url: values[2].clone(),
            embedding_model: values[3].clone(),
            llm_server_path: values[4].clone(),
        },
    )
}

impl ServerSettings {
    /// There is a model for the chat server.
    pub open spec fn has_llm(self) -> bool {
        self.llm_model@.len() > 0
    }

    /// There is a model for the embedding server.
    pub open spec fn has_embedding(self) -> bool {
        self.embedding_model@.len() > 0
    }

    /// The command that starts the chat server.
    pub fn llm_command(&self, options: &LlmServerOptions, windows: bool) -> (r: ShellCommand)
        ensures
            r.program@ == shell_model(windows),
            r.flag@ == (if windows {
                "/C"@
            } else {
                "-c"@
            }),
            r.script@ == script_model(
                self.llm_server_path@,
                llm_args_model(self.llm_model@, after_last_colon(self.llm_url@), *options),
                windows,
            ),
    {
        start_llm_server(
            self.llm_server_path.as_str(),
            self.llm_model.as_str(),
            self.llm_url.as_str(),
            options,
            windows,
        )
    }

    /// The command that starts the embedding server, from the same directory as
    /// the chat server.
    pub fn embedding_command(&self, windows: bool) -> (r: ShellCommand)
        ensures
            r.program@ == shell_model(windows),
            r.flag@ == (if windows {
                "/c"@
            } else {
                "-c"@
            }),
            r.script@ == script_model(
                self.llm_server_path@,
                embedding_args_model(self.embedding_model@, after_last_colon(self.embedding_url@)),
                windows,
            ),
    {
        start_embedding_server(
            self.llm_server_path.as_str(),
            self.embedding_model.as_str(),
            self.embedding_url.as_str(),
            windows,
        )
    }

    /// Where the chat server reports whether it is up.
    pub fn llm_health_url(&self) -> (r: String)
        ensures
            r@ == self.llm_url@ + "/health"@,
    {
        health_url(self.llm_url.as_str())
    }

    /// Where the embedding server reports whether it is up.
    pub fn embedding_health_url(&self) -> (r: String)
        ensures
            r@ == self.embedding_url@ + "/health"@,
    {
        health_url(self.embedding_url.as_str())
    }
}

/// Whether a server runs, from the status with which it answered a health
/// check; there is none where it did not answer.
pub fn is_server_running(status: Option<u16>) -> (r: bool)
    ensures
        r == (status matches Some(code) && is_success_code(code)),
        r <==> (status matches Some(code) && 200 <= code < 300),
{
    match status {
        Some(code) => is_success(code),
        None => false,
    }
}

/// Which servers to start: those that do not run and have a model.
#[derive(Clone, Copy, PartialEq, Eq, Structural)]
pub struct Launches {
    pub llm: bool,
    pub embedding: bool,
}

/// Which servers to start: those that do not run and have a model.
pub open spec fn launches_model(
    settings: ServerSettings,
    llm_running: bool,
    embedding_running: bool,
) -> Launches {
    Launches {
        llm: !llm_running && settings.has_llm(),
        embedding: !embedding_running && settings.has_embedding(),
    }
}

/// The wait for the servers: which ones are ready, and how many rounds of health
/// checks were made.
#[derive(Clone, Copy, PartialEq, Eq, Structural)]
pub struct Waiting {
    pub llm_ready: bool,
    pub embedding_ready: bool,
    pub attempts: u32,
}

impl Waiting {
    /// Both servers are ready.
    pub open spec fn all_ready(self) -> bool {
        self.llm_ready && self.embedding_ready
    }

    /// Some server is not ready, and not all the rounds were made.
    pub open spec fn goes_on(self) -> bool {
        self.attempts < MAX_ATTEMPTS && !self.all_ready()
    }

    /// Only a server with a model is waited for.
    pub open spec fn waits_for_models(self, settings: ServerSettings) -> bool {
        &&& !self.llm_ready ==> settings.has_llm()
        &&& !self.embedding_ready ==> settings.has_embedding()
    }
}

/// The wait before the first round: a server that runs is ready, and so is one
/// without a model, for which nobody waits.
pub open spec fn begin_model(
    settings: ServerSettings,
    llm_running: bool,
    embedding_running: bool,
) -> Waiting {
    Waiting {
        llm_ready: llm_running || !settings.has_llm(),
        embedding_ready: embedding_running || !settings.has_embedding(),
        attempts: 0,
    }
}

/// What was seen after an action: which servers answered a health check, and
/// which could not be started. A server that was not checked did not answer, and a
/// launch that was not made did not fail.
#[derive(Clone, Copy, PartialEq, Eq, Structural)]
pub struct Observation {
    pub llm_up: bool,
    pub embedding_up: bool,
    pub llm_launch_failed: bool,
    pub embedding_launch_failed: bool,
}

/// One of the two servers.
#[derive(Clone, Copy, PartialEq, Eq, Structural)]
pub enum Server {
    Llm,
    Embedding,
}

/// The server whose failure to start is reported: the chat server goes first.
pub open spec fn reported_model(llm_failed: bool, embedding_failed: bool) -> Option<Server> {
    if llm_failed {
        Some(Server::Llm)
    } else if embedding_failed {
        Some(Server::Embedding)
    } else {
        None
    }
}

/// The server whose failure to start is reported; none where both could be
/// started. Where neither could, it is the chat server.
pub fn reported_launch(llm_failed: bool, embedding_failed: bool) -> (r: Option<Server>)
    ensures
        r == reported_model(llm_failed, embedding_failed),
        r == (if llm_failed {
            Some(Server::Llm)
        } else if embedding_failed {
            Some(Server::Embedding)
        } else {
            None
        }),
{
    if llm_failed {
        Some(Server::Llm)
    } else if embedding_failed {
        Some(Server::Embedding)
    } else {
        None
    }
}

impl Observation {
    /// The server whose failure to start is reported.
    pub open spec fn reported(self) -> Option<Server> {
        reported_model(self.llm_launch_failed, self.embedding_launch_failed)
    }
}

/// The wait after one more round of health checks.
pub open spec fn round_model(waiting: Waiting, seen: Observation) -> Waiting {
    Waiting {
        llm_ready: waiting.llm_ready || seen.llm_up,
        embedding_ready: waiting.embedding_ready || seen.embedding_up,
        attempts: (waiting.attempts + 1) as u32,
    }
}

/// The report that the servers were given up: the ones that are not ready, each
/// with its address.
pub open spec fn timeout_message(settings: ServerSettings, waiting: Waiting) -> Seq<char> {
    "❌ Servers failed to start within timeout:"@ + (if !waiting.llm_ready && settings.has_llm() {
        "\n   - LLM server at "@ + settings.llm_url@
    } else {
        Seq::empty()
    }) + (if !waiting.embedding_ready && settings.has_embedding() {
        "\n   - Embedding server at "@ + settings.embedding_url@
    } else {
        Seq::empty()
    })
}

/// How far the servers were brought up.
#[derive(Clone, Copy, PartialEq, Eq, Structural)]
pub enum Phase {
    /// It is being checked which servers run.
    Probing,
    /// Servers are being started; with the wait that comes then.
    Launching(Waiting),
    /// A round of health checks is being made.
    Checking(Waiting),
}

/// What to do next.
#[derive(Clone, Copy, PartialEq, Eq, Structural)]
pub enum Action {
    /// Pause for so many seconds, then check the health of the marked servers.
    Check { pause_seconds: u64, llm: bool, embedding: bool },
    /// Start the marked servers.
    Launch(Launches),
}

/// How bringing up the servers ended.
pub enum Outcome {
    /// Every server that has a model is up.
    Ready,
    /// A server could not be started: the one whose failure is reported.
    LaunchFailed(Server),
    /// The wait was given up; with the report.
    TimedOut(String),
}

/// How bringing up the servers ended, by the text of the report.
pub ghost enum OutcomeModel {
    Ready,
    LaunchFailed(Server),
    TimedOut(Seq<char>),
}

impl View for Outcome {
    type V = OutcomeModel;

    open spec fn view(&self) -> OutcomeModel {
        match self {
            Outcome::Ready => OutcomeModel::Ready,
            Outcome::LaunchFailed(server) => OutcomeModel::LaunchFailed(*server),
            Outcome::TimedOut(report) => OutcomeModel::TimedOut(report@),
        }
    }
}

/// Bringing up the servers: there is more to do, or it ended.
pub ghost enum StepModel {
    Do(Phase, Action),
    Done(OutcomeModel),
}

/// The first thing to do: to check at once which servers run.
pub open spec fn start_model() -> StepModel {
    StepModel::Do(Phase::Probing, Action::Check { pause_seconds: 0, llm: true, embedding: true })
}

/// Goes on waiting, or ends the wait.
pub open spec fn wait_model(settings: ServerSettings, waiting: Waiting) -> StepModel {
    if waiting.goes_on() {
        StepModel::Do(
            Phase::Checking(waiting),
            Action::Check {
                pause_seconds: SECONDS_PER_ATTEMPT,
                llm: !waiting.llm_ready && settings.has_llm(),
                embedding: !waiting.embedding_ready && settings.has_embedding(),
            },
        )
    } else if waiting.all_ready() {
        StepModel::Done(OutcomeModel::Ready)
    } else {
        StepModel::Done(OutcomeModel::TimedOut(timeout_message(settings, waiting)))
    }
}

/// What to do after what was seen.
pub open spec fn advance_model(
    settings: ServerSettings,
    phase: Phase,
    seen: Observation,
) -> StepModel {
    match phase {
        Phase::Probing => if seen.llm_up && seen.embedding_up {
            StepModel::Done(OutcomeModel::Ready)
        } else {
            StepModel::Do(
                Phase::Launching(begin_model(settings, seen.llm_up, seen.embedding_up)),
                Action::Launch(launches_model(settings, seen.llm_up, seen.embedding_up)),
            )
        },
        Phase::Launching(waiting) => match seen.reported() {
            Some(server) => StepModel::Done(OutcomeModel::LaunchFailed(server)),
            None => wait_model(settings, waiting),
        },
        Phase::Checking(waiting) => wait_model(settings, round_model(waiting, seen)),
    }
}

/// The servers on the way up.
pub struct Bringup {
    settings: ServerSettings,
    phase: Phase,
}

/// Bringing up the servers: there is more to do, or it ended.
pub enum Step {
    Do(Bringup, Action),
    Done(Outcome),
}

impl View for Step {
    type V = StepModel;

    open spec fn view(&self) -> StepModel {
        match self {
            Step::Do(bringup, action) => StepModel::Do(bringup.phase(), *action),
            Step::Done(outcome) => StepModel::Done(outcome@),
        }
    }
}

impl Step {
    /// What is to be done, is to be done about these settings.
    pub open spec fn is_about(self, settings: ServerSettings) -> bool {
        self matches Step::Do(bringup, _) ==> bringup.settings() == settings
    }
}

impl Bringup {
    #[verifier::type_invariant]
    spec fn on_the_way(self) -> bool {
        match self.phase {
            Phase::Probing => true,
            Phase::Launching(waiting) => {
                waiting.attempts == 0 && waiting.waits_for_models(self.settings)
            },
            Phase::Checking(waiting) => {
                waiting.goes_on() && waiting.waits_for_models(self.settings)
            },
        }
    }

    /// The configuration of the servers.
    pub closed spec fn settings(self) -> ServerSettings {
        self.settings
    }

    /// How far the servers were brought up.
    pub closed spec fn phase(self) -> Phase {
        self.phase
    }

    /// Starts to bring up the servers.
    pub fn start(settings: ServerSettings) -> (r: Step)
        ensures
            r@ == start_model(),
            r.is_about(settings),
            r matches Step::Do(bringup, action) && bringup.settings() == settings && action == (
            Action::Check { pause_seconds: 0, llm: true, embedding: true }),
    {
        Step::Do(
            Bringup { settings, phase: Phase::Probing },
            Action::Check { pause_seconds: 0, llm: true, embedding: true },
        )
    }

    /// The configuration of the servers.
    pub fn server_settings(&self) -> (r: &ServerSettings)
        ensures
            *r == self.settings(),
    {
        &self.settings
    }

    /// The report that the servers were given up.
    fn report(settings: &ServerSettings, waiting: Waiting) -> (message: String)
        ensures
            message@ == timeout_message(*settings, waiting),
    {
        let mut message: String = "❌ Servers failed to start within timeout:".to_string();
        let ghost head = message@;
        if !waiting.llm_ready && !settings.llm_model.as_str().is_empty() {
            let line: String = "\n   - LLM server at ".to_string().concat(
                settings.llm_url.as_str(),
            );
            message.append(line.as_str());
        } else {
            proof {
                assert(head + Seq::<char>::empty() =~= head);
            }
        }
        let ghost middle = message@;
        if !waiting.embedding_ready && !settings.embedding_model.as_str().is_empty() {
            let line: String = "\n   - Embedding server at ".to_string().concat(
                settings.embedding_url.as_str(),
            );
            message.append(line.as_str());
        } else {
            proof {
                assert(middle + Seq::<char>::empty() =~= middle);
            }
        }
        message
    }

    /// Goes on waiting, or ends the wait.
    fn wait(settings: ServerSettings, waiting: Waiting) -> (r: Step)
        requires
            waiting.waits_for_models(settings),
        ensures
            r@ == wait_model(settings, waiting),
            r.is_about(settings),
    {
        if waiting.llm_ready && waiting.embedding_ready {
            Step::Done(Outcome::Ready)
        } else if waiting.attempts < MAX_ATTEMPTS {
            let action = Action::Check {
                pause_seconds: SECONDS_PER_ATTEMPT,
                llm: !waiting.llm_ready,
                embedding: !waiting.embedding_ready,
            };
            Step::Do(Bringup { settings, phase: Phase::Checking(waiting) }, action)
        } else {
            Step::Done(Outcome::TimedOut(Bringup::report(&settings, waiting)))
        }
    }

    /// Takes what was seen after the action, and says what to do next.
    pub fn advance(self, seen: Observation) -> (r: Step)
        ensures
            r@ == advance_model(self.settings(), self.phase(), seen),
            r.is_about(self.settings()),
            r matches Step::Do(bringup, _) ==> bringup.settings() == self.settings(),
            self.phase() == Phase::Probing && !(seen.llm_up && seen.embedding_up) ==> (
            r matches Step::Do(_, Action::Launch(launches)) && (launches.llm <==> !seen.llm_up
                && self.settings().llm_model@.len() > 0) && (launches.embedding
                <==> !seen.embedding_up && self.settings().embedding_model@.len() > 0)),
    {
        proof {
            use_type_invariant(&self);
        }
        let settings = self.settings;
        match self.phase {
            Phase::Probing => {
                if seen.llm_up && seen.embedding_up {
                    return Step::Done(Outcome::Ready);
                }
                let has_llm: bool = !settings.llm_model.as_str().is_empty();
                let has_embedding: bool = !settings.embedding_model.as_str().is_empty();
                let waiting = Waiting {
                    llm_ready: seen.llm_up || !has_llm,
                    embedding_ready: seen.embedding_up || !has_embedding,
                    attempts: 0,
                };
                let launches = Launches {
                    llm: !seen.llm_up && has_llm,
                    embedding: !seen.embedding_up && has_embedding,
                };
                Step::Do(
                    Bringup { settings, phase: Phase::Launching(waiting) },
                    Action::Launch(launches),
                )
            },
            Phase::Launching(waiting) => {
                match reported_launch(seen.llm_launch_failed, seen.embedding_launch_failed) {
                    Some(server) => Step::Done(Outcome::LaunchFailed(server)),
                    None => Bringup::wait(settings, waiting),
                }
            },
            Phase::Checking(waiting) => {
                let next = Waiting {
                    llm_ready: waiting.llm_ready || seen.llm_up,
                    embedding_ready: waiting.embedding_ready || seen.embedding_up,
                    attempts: waiting.attempts + 1,
                };
                Bringup::wait(settings, next)
            },
        }
    }
}

/// Where bringing up the servers stands after a number of observations. Once it
/// ended, nothing more is done.
pub open spec fn after(
    settings: ServerSettings,
    start: StepModel,
    seen: Seq<Observation>,
) -> StepModel
    decreases seen.len(),
{
    if seen.len() == 0 {
        start
    } else {
        match after(settings, start, seen.drop_last()) {
            StepModel::Do(phase, _) => advance_model(settings, phase, seen.last()),
            StepModel::Done(outcome) => StepModel::Done(outcome),
        }
    }
}

proof fn lemma_after_concat(
    settings: ServerSettings,
    start: StepModel,
    first: Seq<Observation>,
    rest: Seq<Observation>,
)
    ensures
        after(settings, start, first + rest) == after(
            settings,
            after(settings, start, first),
            rest,
        ),
    decreases rest.len(),
{
    if rest.len() == 0 {
        assert(first + rest =~= first);
    } else {
        assert((first + rest).drop_last() =~= first + rest.drop_last());
        lemma_after_concat(settings, start, first, rest.drop_last());
    }
}

/// The chat server answered in one of the rounds.
pub open spec fn llm_answered(rounds: Seq<Observation>) -> bool {
    exists|i: int| 0 <= i < rounds.len() && (#[trigger] rounds[i]).llm_up
}

/// The embedding server answered in one of the rounds.
pub open spec fn embedding_answered(rounds: Seq<Observation>) -> bool {
    exists|i: int| 0 <= i < rounds.len() && (#[trigger] rounds[i]).embedding_up
}

/// The wait after these rounds, if none of them was spared.
pub open spec fn waited(waiting: Waiting, rounds: Seq<Observation>) -> Waiting {
    Waiting {
        llm_ready: waiting.llm_ready || llm_answered(rounds),
        embedding_ready: waiting.embedding_ready || embedding_answered(rounds),
        attempts: (waiting.attempts + rounds.len()) as u32,
    }
}

proof fn lemma_rounds(settings: ServerSettings, waiting: Waiting, rounds: Seq<Observation>)
    requires
        waiting.attempts == 0,
        rounds.len() <= MAX_ATTEMPTS,
    ensures
        after(settings, wait_model(settings, waiting), rounds) == wait_model(
            settings,
            waited(waiting, rounds),
        ),
    decreases rounds.len(),
{
    if rounds.len() == 0 {
        assert(waited(waiting, rounds) == waiting);
    } else {
        let earlier = rounds.drop_last();
        lemma_rounds(settings, waiting, earlier);
        let n = rounds.len() as int;
        assert(forall|i: int| 0 <= i < n - 1 ==> earlier[i] == #[trigger] rounds[i]);
        assert(llm_answered(rounds) == (llm_answered(earlier) || rounds.last().llm_up)) by {
            if llm_answered(earlier) {
                let i = choose|i: int| 0 <= i < earlier.len() && (#[trigger] earlier[i]).llm_up;
                assert(rounds[i].llm_up);
            }
            assert(rounds[n - 1] == rounds.last());
        }
        assert(embedding_answered(rounds) == (embedding_answered(earlier)
            || rounds.last().embedding_up)) by {
            if embedding_answered(earlier) {
                let i = choose|i: int|
                    0 <= i < earlier.len() && (#[trigger] earlier[i]).embedding_up;
                assert(rounds[i].embedding_up);
            }
            assert(rounds[n - 1] == rounds.last());
        }
        let before = waited(waiting, earlier);
        assert(round_model(before, rounds.last()) == waited(waiting, rounds));
    }
}

/// Where both servers run already, nothing is done.
pub proof fn lemma_nothing_to_do(settings: ServerSettings, seen: Seq<Observation>)
    requires
        seen.len() > 0,
        seen[0].llm_up && seen[0].embedding_up,
    ensures
        after(settings, start_model(), seen) == StepModel::Done(OutcomeModel::Ready),
    decreases seen.len(),
{
    if seen.len() > 1 {
        lemma_nothing_to_do(settings, seen.drop_last());
    } else {
        assert(after(settings, start_model(), seen.drop_last()) == start_model());
    }
}

/// After the first check, the servers that are started are those that did not
/// answer and have a model: each of them, whether or not the other can be started.
pub proof fn lemma_launches(settings: ServerSettings, first: Observation)
    requires
        !(first.llm_up && first.embedding_up),
    ensures
        after(settings, start_model(), seq![first]) == StepModel::Do(
            Phase::Launching(begin_model(settings, first.llm_up, first.embedding_up)),
            Action::Launch(launches_model(settings, first.llm_up, first.embedding_up)),
        ),
{
    assert(seq![first].drop_last() =~= Seq::empty());
    assert(after(settings, start_model(), Seq::empty()) == start_model());
}

/// Where a server cannot be started, that is the end, without a pause or another
/// check: the chat server's failure is reported where it failed, the embedding
/// server's otherwise.
pub proof fn lemma_failed_launch_ends(settings: ServerSettings, seen: Seq<Observation>)
    requires
        seen.len() >= 2,
        !(seen[0].llm_up && seen[0].embedding_up),
        seen[1].llm_launch_failed || seen[1].embedding_launch_failed,
    ensures
        after(settings, start_model(), seen) == StepModel::Done(
            OutcomeModel::LaunchFailed(
                if seen[1].llm_launch_failed {
                    Server::Llm
                } else {
                    Server::Embedding
                },
            ),
        ),
        total_pause(settings, seen) == 0,
    decreases seen.len(),
{
    let earlier = seen.drop_last();
    if seen.len() > 2 {
        lemma_failed_launch_ends(settings, earlier);
    } else {
        assert(earlier =~= seq![seen[0]]);
        lemma_launches(settings, seen[0]);
        assert(earlier.drop_last() =~= Seq::empty());
        assert(after(settings, start_model(), Seq::empty()) == start_model());
        assert(total_pause(settings, Seq::empty()) == 0);
        assert(total_pause(settings, earlier) == 0);
    }
}

/// Where starting the servers succeeds, the wait ends after at most 60 rounds:
/// well exactly if each server that has a model and did not run at first
/// answered in one of them, and else with a report on those that did not.
pub proof fn lemma_wait_outcome(settings: ServerSettings, seen: Seq<Observation>)
    requires
        seen.len() >= MAX_ATTEMPTS + 2,
        !(seen[0].llm_up && seen[0].embedding_up),
        !seen[1].llm_launch_failed && !seen[1].embedding_launch_failed,
    ensures
        ({
            let begun = begin_model(settings, seen[0].llm_up, seen[0].embedding_up);
            let end = waited(begun, seen.subrange(2, MAX_ATTEMPTS + 2));
            after(settings, start_model(), seen) == StepModel::Done(
                if end.all_ready() {
                    OutcomeModel::Ready
                } else {
                    OutcomeModel::TimedOut(timeout_message(settings, end))
                },
            )
        }),
    decreases seen.len(),
{
    if seen.len() > MAX_ATTEMPTS + 2 {
        let earlier = seen.drop_last();
        assert(earlier.subrange(2, MAX_ATTEMPTS + 2) =~= seen.subrange(2, MAX_ATTEMPTS + 2));
        lemma_wait_outcome(settings, earlier);
    } else {
        let begun = begin_model(settings, seen[0].llm_up, seen[0].embedding_up);
        let opening = seq![seen[0], seen[1]];
        let rounds = seen.subrange(2, MAX_ATTEMPTS + 2);
        assert(opening + rounds =~= seen);
        lemma_after_concat(settings, start_model(), opening, rounds);
        assert(opening.drop_last() =~= seq![seen[0]]);
        lemma_launches(settings, seen[0]);
        assert(after(settings, start_model(), opening) == wait_model(settings, begun));
        lemma_rounds(settings, begun, rounds);
    }
}

/// The seconds that an action pauses for.
pub open spec fn pause_of(step: StepModel) -> nat {
    match step {
        StepModel::Do(_, Action::Check { pause_seconds, .. }) => pause_seconds as nat,
        _ => 0,
    }
}

/// The seconds that were paused before the last of the observations.
pub open spec fn total_pause(settings: ServerSettings, seen: Seq<Observation>) -> nat
    decreases seen.len(),
{
    if seen.len() == 0 {
        0
    } else {
        total_pause(settings, seen.drop_last()) + pause_of(
            after(settings, start_model(), seen.drop_last()),
        )
    }
}

/// The pauses take two minutes in all, at most.
pub proof fn lemma_two_minutes_at_most(settings: ServerSettings, seen: Seq<Observation>)
    ensures
        total_pause(settings, seen) <= 120,
        after(settings, start_model(), seen) matches StepModel::Do(Phase::Checking(waiting), _)
            ==> waiting.attempts < MAX_ATTEMPTS && total_pause(settings, seen)
            == SECONDS_PER_ATTEMPT * waiting.attempts,
        after(settings, start_model(), seen) matches StepModel::Do(Phase::Launching(waiting), _)
            ==> waiting.attempts == 0 && total_pause(settings, seen) == 0,
        after(settings, start_model(), seen) matches StepModel::Do(Phase::Probing, action)
            ==> action == (Action::Check { pause_seconds: 0, llm: true, embedding: true })
            && total_pause(settings, seen) == 0,
    decreases seen.len(),
{
    if seen.len() > 0 {
        lemma_two_minutes_at_most(settings, seen.drop_last());
    }
}

/// Every check of a round is of a server that has a model and is not ready yet,
/// and there is always one to check.
pub proof fn lemma_checks_have_a_reason(settings: ServerSettings, seen: Seq<Observation>)
    ensures
        after(settings, start_model(), seen) matches StepModel::Do(Phase::Checking(waiting), action)
            ==> waiting.waits_for_models(settings) && action == (Action::Check {
            pause_seconds: SECONDS_PER_ATTEMPT,
            llm: !waiting.llm_ready,
            embedding: !waiting.embedding_ready,
        }) && !waiting.all_ready(),
        after(settings, start_model(), seen) matches StepModel::Do(Phase::Launching(waiting), _)
            ==> waiting.waits_for_models(settings),
    decreases seen.len(),
{
    if seen.len() > 0 {
        lemma_checks_have_a_reason(settings, seen.drop_last());
    }
}

/// The model of a step shows what is to be done, or how it ended and the report.
pub proof fn lemma_step_shown(step: Step)
    ensures
        step matches Step::Do(bringup, action) ==> step@ == StepModel::Do(bringup.phase(), action),
        step == Step::Done(Outcome::Ready) ==> step@ == StepModel::Done(OutcomeModel::Ready),
        step matches Step::Done(Outcome::LaunchFailed(server)) ==> step@ == StepModel::Done(
            OutcomeModel::LaunchFailed(server),
        ),
        step matches Step::Done(Outcome::TimedOut(report)) ==> step@ == StepModel::Done(
            OutcomeModel::TimedOut(report@),
        ),
{
}

/// First of all both servers are checked, at once. Where both answer, that is all.
/// Otherwise each server is launched if and only if it did not answer and its model
/// has a name, whatever the other one does; and what is waited for then is exactly
/// what was launched.
pub proof fn lemma_first_check_decides_launches(settings: ServerSettings, seen: Observation)
    ensures
        start_model() == StepModel::Do(
            Phase::Probing,
            Action::Check { pause_seconds: 0, llm: true, embedding: true },
        ),
        seen.llm_up && seen.embedding_up ==> advance_model(settings, Phase::Probing, seen)
            == StepModel::Done(OutcomeModel::Ready),
        !(seen.llm_up && seen.embedding_up) ==> (advance_model(settings, Phase::Probing, seen)
            matches StepModel::Do(Phase::Launching(waiting), Action::Launch(launches)) && ({
            &&& launches.llm <==> !seen.llm_up && settings.llm_model@.len() > 0
            &&& launches.embedding <==> !seen.embedding_up && settings.embedding_model@.len() > 0
            &&& waiting.llm_ready <==> !launches.llm
            &&& waiting.embedding_ready <==> !launches.embedding
            &&& waiting.attempts == 0
        })),
{
}

/// After the launches: a failed one ends it, the chat server's before the embedding
/// server's. Otherwise, where nothing is waited for, that is all, and else the first
/// round of checks comes after two seconds, of the servers that are waited for.
pub proof fn lemma_launches_decide_the_wait(
    settings: ServerSettings,
    waiting: Waiting,
    seen: Observation,
)
    requires
        waiting.attempts == 0,
        !waiting.llm_ready ==> settings.llm_model@.len() > 0,
        !waiting.embedding_ready ==> settings.embedding_model@.len() > 0,
    ensures
        ({
            let step = advance_model(settings, Phase::Launching(waiting), seen);
            if seen.llm_launch_failed {
                step == StepModel::Done(OutcomeModel::LaunchFailed(Server::Llm))
            } else if seen.embedding_launch_failed {
                step == StepModel::Done(OutcomeModel::LaunchFailed(Server::Embedding))
            } else if waiting.llm_ready && waiting.embedding_ready {
                step == StepModel::Done(OutcomeModel::Ready)
            } else {
                step == StepModel::Do(
                    Phase::Checking(waiting),
                    Action::Check {
                        pause_seconds: 2,
                        llm: !waiting.llm_ready,
                        embedding: !waiting.embedding_ready,
                    },
                )
            }
        }),
{
}

/// A round of checks: a server that answers is ready, and one that was ready stays so.
/// Where both are, that is all. Otherwise, before the sixtieth round, another one comes
/// after two seconds, of the servers that are not ready; and after it the wait is given
/// up, with a report that names each of them by its address, the chat server first.
pub proof fn lemma_round_decides(settings: ServerSettings, waiting: Waiting, seen: Observation)
    requires
        waiting.attempts < 60,
        !waiting.llm_ready ==> settings.llm_model@.len() > 0,
        !waiting.embedding_ready ==> settings.embedding_model@.len() > 0,
    ensures
        ({
            let step = advance_model(settings, Phase::Checking(waiting), seen);
            let llm_ready = waiting.llm_ready || seen.llm_up;
            let embedding_ready = waiting.embedding_ready || seen.embedding_up;
            let opening = "❌ Servers failed to start within timeout:"@;
            let llm_line = "\n   - LLM server at "@ + settings.llm_url@;
            let embedding_line = "\n   - Embedding server at "@ + settings.embedding_url@;
            if llm_ready && embedding_ready {
                step == StepModel::Done(OutcomeModel::Ready)
            } else if waiting.attempts + 1 < 60 {
                step matches StepModel::Do(Phase::Checking(next), action) && ({
                    &&& next.llm_ready == llm_ready
                    &&& next.embedding_ready == embedding_ready
                    &&& next.attempts == waiting.attempts + 1
                    &&& action == (Action::Check {
                        pause_seconds: 2,
                        llm: !llm_ready,
                        embedding: !embedding_ready,
                    })
                })
            } else {
                step matches StepModel::Done(OutcomeModel::TimedOut(report)) && ({
                    &&& !llm_ready && !embedding_ready ==> report == opening + llm_line
                        + embedding_line
                    &&& !llm_ready && embedding_ready ==> report == opening + llm_line
                    &&& llm_ready && !embedding_ready ==> report == opening + embedding_line
                })
            }
        }),
{
    let opening = "❌ Servers failed to start within timeout:"@;
    let llm_line = "\n   - LLM server at "@ + settings.llm_url@;
    let embedding_line = "\n   - Embedding server at "@ + settings.embedding_url@;
    let next = round_model(waiting, seen);
    if !next.llm_ready && next.embedding_ready {
        assert(timeout_message(settings, next) =~= opening + llm_line);
    }
    if next.llm_ready && !next.embedding_ready {
        assert(timeout_message(settings, next) =~= opening + embedding_line);
    }
}

/// The bot whose configuration holds for the servers is called `default`.
pub proof fn lemma_default_bot()
    ensures
        DEFAULT_BOT@ == "default"@,
{
}

} // verus!
