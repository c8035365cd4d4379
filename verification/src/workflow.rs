//! The provisioning, deploy and launch workflows as state machines.
//!
//! Each workflow alternates outside work (a subprocess run, a file write, a
//! store query) with a decision about what comes next. The outside work is
//! owned by the caller: a `begin` function hands it the first piece of work,
//! it reports the textual `Outcome` back, and a `step` function decides the
//! next state and the next action. Every failure short-circuits: the machine
//! moves to its failed state, issues no further action, and stays failed.
//! Prior side effects are left in place; there is no rollback and no retry.

use vstd::prelude::*;
use vstd::string::*;
use crate::commands::Invocation;
use crate::commands::is_pip_invocation;
use crate::commands::pip_invocation;
use crate::commands::venv_create_command;
use crate::commands::venv_create_command_spec;
use crate::launcher::launcher_script_spec;
use crate::launcher::render_launcher;
use crate::paths::payload_path;
use crate::paths::payload_path_spec;
use crate::paths::script_path;
use crate::paths::script_path_spec;
use crate::paths::venv_path;
use crate::paths::venv_path_spec;
use crate::store::UpsertRequest;
use crate::store::is_upsert_request;
use crate::store::upsert_request;

verus! {

/// The textual outcome of one piece of outside work, as the caller reports it
/// back: the captured output on success, the error text on failure.
#[derive(Clone)]
pub enum Outcome {
    Success(String),
    Failure(String),
}

// ---------------------------------------------------------------------------
// Environment creation
// ---------------------------------------------------------------------------
/// Where the creation workflow stands. The environment-creation log travels
/// through the later states because a fully successful creation returns it.
#[derive(Clone)]
pub enum CreateState {
    /// The environment-creation command is running.
    CreatingVenv,
    /// The first dependency is being installed.
    InstallingFirst { log: String },
    /// The second dependency is being installed.
    InstallingSecond { log: String },
    /// The server payload and launcher are being deployed.
    Deploying { log: String },
    /// Creation succeeded; `log` is the environment-creation output.
    Done { log: String },
    /// Creation failed; nothing further runs.
    Failed { error: String },
}

/// The next piece of outside work the creation workflow asks for.
pub enum CreateAction {
    /// Run the given installer invocation, blocking until it exits.
    RunInstaller { invocation: Invocation },
    /// Run the deploy workflow for the same environment.
    RunDeploy,
    /// Nothing further: the workflow is finished or has failed.
    Stop,
}

/// The creation workflow's transition: each success moves to the next step of
/// the chain, any failure moves to `Failed` with the reported error, and both
/// `Done` and `Failed` are absorbing.
pub open spec fn create_next(state: CreateState, event: Outcome) -> CreateState {
    match (state, event) {
        (CreateState::CreatingVenv, Outcome::Success(out)) => CreateState::InstallingFirst {
            log: out,
        },
        (CreateState::InstallingFirst { log }, Outcome::Success(_)) => CreateState::InstallingSecond {
            log,
        },
        (CreateState::InstallingSecond { log }, Outcome::Success(_)) => CreateState::Deploying {
            log,
        },
        (CreateState::Deploying { log }, Outcome::Success(_)) => CreateState::Done { log },
        (CreateState::CreatingVenv, Outcome::Failure(err)) => CreateState::Failed { error: err },
        (CreateState::InstallingFirst { .. }, Outcome::Failure(err)) => CreateState::Failed {
            error: err,
        },
        (CreateState::InstallingSecond { .. }, Outcome::Failure(err)) => CreateState::Failed {
            error: err,
        },
        (CreateState::Deploying { .. }, Outcome::Failure(err)) => CreateState::Failed {
            error: err,
        },
        (s, _) => s,
    }
}

/// The only action the creation workflow may issue for `state` and `event`:
/// after the environment is created, install the first dependency; after the
/// first install, the second; after the second, deploy; in every other case,
/// stop.
pub open spec fn create_action_ok(
    home: Seq<char>,
    name: Seq<char>,
    state: CreateState,
    event: Outcome,
    action: CreateAction,
) -> bool {
    match (state, event) {
        (CreateState::CreatingVenv, Outcome::Success(_)) => action matches CreateAction::RunInstaller { invocation }
            && is_pip_invocation(invocation, venv_path_spec(home, name), "asyncpg"@),
        (CreateState::InstallingFirst { .. }, Outcome::Success(_)) => action matches CreateAction::RunInstaller { invocation }
            && is_pip_invocation(invocation, venv_path_spec(home, name), "asyncpg-listen"@),
        (CreateState::InstallingSecond { .. }, Outcome::Success(_)) => action is RunDeploy,
        (_, _) => action is Stop,
    }
}

/// Start creating the environment `name` under `home`: the caller gets the
/// command line to run through the shell, and reports its outcome to
/// `create_step`.
pub fn create_begin(home: &str, name: &str) -> (r: (CreateState, String))
    ensures
        r.0 is CreatingVenv,
        r.1@ == venv_create_command_spec(venv_path_spec(home@, name@)),
{
    let venv = venv_path(home, name);
    let command = venv_create_command(venv.as_str());
    (CreateState::CreatingVenv, command)
}

/// Advance the creation workflow by one reported outcome.
pub fn create_step(home: &str, name: &str, state: CreateState, event: Outcome) -> (r: (
    CreateState,
    CreateAction,
))
    ensures
        r.0 == create_next(state, event),
        create_action_ok(home@, name@, state, event, r.1),
{
    match (state, event) {
        (CreateState::CreatingVenv, Outcome::Success(out)) => {
            let venv = venv_path(home, name);
            let invocation = pip_invocation(venv.as_str(), "asyncpg");
            (
                CreateState::InstallingFirst { log: out },
                CreateAction::RunInstaller { invocation },
            )
        },
        (CreateState::InstallingFirst { log }, Outcome::Success(_)) => {
            let venv = venv_path(home, name);
            let invocation = pip_invocation(venv.as_str(), "asyncpg-listen");
            (
                CreateState::InstallingSecond { log },
                CreateAction::RunInstaller { invocation },
            )
        },
        (CreateState::InstallingSecond { log }, Outcome::Success(_)) => (
            CreateState::Deploying { log },
            CreateAction::RunDeploy,
        ),
        (CreateState::Deploying { log }, Outcome::Success(_)) => (
            CreateState::Done { log },
            CreateAction::Stop,
        ),
        (CreateState::CreatingVenv, Outcome::Failure(err)) => (
            CreateState::Failed { error: err },
            CreateAction::Stop,
        ),
        (CreateState::InstallingFirst { .. }, Outcome::Failure(err)) => (
            CreateState::Failed { error: err },
            CreateAction::Stop,
        ),
        (CreateState::InstallingSecond { .. }, Outcome::Failure(err)) => (
            CreateState::Failed { error: err },
            CreateAction::Stop,
        ),
        (CreateState::Deploying { .. }, Outcome::Failure(err)) => (
            CreateState::Failed { error: err },
            CreateAction::Stop,
        ),
        (CreateState::Done { log }, _) => (CreateState::Done { log }, CreateAction::Stop),
        (CreateState::Failed { error }, _) => (CreateState::Failed { error }, CreateAction::Stop),
    }
}

/// Read the creation workflow off: the creation log once it is done, the
/// error text once it has failed, nothing while work remains.
pub fn create_result(state: CreateState) -> (r: Option<Result<String, String>>)
    ensures
        match state {
            CreateState::Done { log } => r matches Some(Result::Ok(out)) && out == log,
            CreateState::Failed { error } => r matches Some(Result::Err(err)) && err == error,
            _ => r is None,
        },
{
    match state {
        CreateState::Done { log } => Some(Result::Ok(log)),
        CreateState::Failed { error } => Some(Result::Err(error)),
        _ => None,
    }
}

/// Any step's failure aborts the creation chain: from every state where work
/// remains, a failure event moves the workflow to `Failed` carrying the
/// reported error, and the only admissible action is to stop. In particular a
/// failing first dependency install prevents the second install, the deploy,
/// and with them any process spawn or configuration write.
pub proof fn lemma_create_failure_aborts(
    home: Seq<char>,
    name: Seq<char>,
    state: CreateState,
    err: String,
    action: CreateAction,
)
    requires
        state !is Done,
        state !is Failed,
    ensures
        create_next(state, Outcome::Failure(err)) == (CreateState::Failed { error: err }),
        create_action_ok(home, name, state, Outcome::Failure(err), action) ==> action is Stop,
{
}

/// `Done` and `Failed` are terminal: no event moves the creation workflow out
/// of them, and no further action is admissible.
pub proof fn lemma_create_terminal(
    home: Seq<char>,
    name: Seq<char>,
    state: CreateState,
    event: Outcome,
    action: CreateAction,
)
    requires
        state is Done || state is Failed,
    ensures
        create_next(state, event) == state,
        create_action_ok(home, name, state, event, action) ==> action is Stop,
{
}

// ---------------------------------------------------------------------------
// Deploy: payload write, live configuration reads, launcher write
// ---------------------------------------------------------------------------
/// The query reading the port the host service listens on.
pub open spec fn port_query_spec() -> Seq<char> {
    "show port"@
}

/// The query reading the name of the active database.
pub open spec fn database_query_spec() -> Seq<char> {
    "select current_database()::text"@
}

/// Where the deploy workflow stands.
#[derive(Clone)]
pub enum DeployState {
    /// The server payload is being written into the environment.
    WritingPayload,
    /// The host service's port is being read.
    ReadingPort,
    /// The active database name is being read; `port` was read before.
    ReadingDatabase { port: String },
    /// The launcher script is being written.
    WritingScript,
    /// Deploy succeeded.
    Done,
    /// Deploy failed; nothing further runs.
    Failed { error: String },
}

/// The next piece of outside work the deploy workflow asks for.
pub enum DeployAction {
    /// Run the given read-only query against the host store; it must return
    /// exactly one non-null value, anything else is a failure.
    RunQuery { query: String },
    /// Write `content` to the file at `path`, overwriting it.
    WriteFile { path: String, content: String },
    /// Nothing further: the workflow is finished or has failed.
    Stop,
}

/// The deploy workflow's transition: payload write, port read, database read
/// and script write in that order; any failure moves to `Failed`, and both
/// `Done` and `Failed` are absorbing.
pub open spec fn deploy_next(state: DeployState, event: Outcome) -> DeployState {
    match (state, event) {
        (DeployState::WritingPayload, Outcome::Success(_)) => DeployState::ReadingPort,
        (DeployState::ReadingPort, Outcome::Success(port)) => DeployState::ReadingDatabase {
            port,
        },
        (DeployState::ReadingDatabase { .. }, Outcome::Success(_)) => DeployState::WritingScript,
        (DeployState::WritingScript, Outcome::Success(_)) => DeployState::Done,
        (DeployState::WritingPayload, Outcome::Failure(err)) => DeployState::Failed { error: err },
        (DeployState::ReadingPort, Outcome::Failure(err)) => DeployState::Failed { error: err },
        (DeployState::ReadingDatabase { .. }, Outcome::Failure(err)) => DeployState::Failed {
            error: err,
        },
        (DeployState::WritingScript, Outcome::Failure(err)) => DeployState::Failed { error: err },
        (s, _) => s,
    }
}

/// The only action the deploy workflow may issue for `state` and `event`:
/// after the payload write, read the port; after the port, read the database
/// name; after both reads, write the launcher script rendered from exactly
/// those values; in every other case, stop.
pub open spec fn deploy_action_ok(
    home: Seq<char>,
    name: Seq<char>,
    state: DeployState,
    event: Outcome,
    action: DeployAction,
) -> bool {
    match (state, event) {
        (DeployState::WritingPayload, Outcome::Success(_)) => action matches DeployAction::RunQuery { query }
            && query@ == port_query_spec(),
        (DeployState::ReadingPort, Outcome::Success(_)) => action matches DeployAction::RunQuery { query }
            && query@ == database_query_spec(),
        (DeployState::ReadingDatabase { port }, Outcome::Success(db)) => action matches DeployAction::WriteFile { path, content }
            && path@ == script_path_spec(venv_path_spec(home, name))
            && content@ == launcher_script_spec(venv_path_spec(home, name), port@, db@, name),
        (_, _) => action is Stop,
    }
}

/// Start deploying into the environment `name` under `home`: the caller gets
/// the path at which to write the server payload, and reports the write's
/// outcome to `deploy_step`.
pub fn deploy_begin(home: &str, name: &str) -> (r: (DeployState, String))
    ensures
        r.0 is WritingPayload,
        r.1@ == payload_path_spec(venv_path_spec(home@, name@)),
{
    let venv = venv_path(home, name);
    let path = payload_path(venv.as_str());
    (DeployState::WritingPayload, path)
}

/// Advance the deploy workflow by one reported outcome.
pub fn deploy_step(home: &str, name: &str, state: DeployState, event: Outcome) -> (r: (
    DeployState,
    DeployAction,
))
    ensures
        r.0 == deploy_next(state, event),
        deploy_action_ok(home@, name@, state, event, r.1),
{
    match (state, event) {
        (DeployState::WritingPayload, Outcome::Success(_)) => (
            DeployState::ReadingPort,
            DeployAction::RunQuery { query: String::from_str("show port") },
        ),
        (DeployState::ReadingPort, Outcome::Success(port)) => (
            DeployState::ReadingDatabase { port },
            DeployAction::RunQuery { query: String::from_str("select current_database()::text") },
        ),
        (DeployState::ReadingDatabase { port }, Outcome::Success(db)) => {
            let venv = venv_path(home, name);
            let path = script_path(venv.as_str());
            let content = render_launcher(venv.as_str(), port.as_str(), db.as_str(), name);
            (DeployState::WritingScript, DeployAction::WriteFile { path, content })
        },
        (DeployState::WritingScript, Outcome::Success(_)) => (
            DeployState::Done,
            DeployAction::Stop,
        ),
        (DeployState::WritingPayload, Outcome::Failure(err)) => (
            DeployState::Failed { error: err },
            DeployAction::Stop,
        ),
        (DeployState::ReadingPort, Outcome::Failure(err)) => (
            DeployState::Failed { error: err },
            DeployAction::Stop,
        ),
        (DeployState::ReadingDatabase { .. }, Outcome::Failure(err)) => (
            DeployState::Failed { error: err },
            DeployAction::Stop,
        ),
        (DeployState::WritingScript, Outcome::Failure(err)) => (
            DeployState::Failed { error: err },
            DeployAction::Stop,
        ),
        (DeployState::Done, _) => (DeployState::Done, DeployAction::Stop),
        (DeployState::Failed { error }, _) => (DeployState::Failed { error }, DeployAction::Stop),
    }
}

/// Read the deploy workflow off: success once it is done, the error text once
/// it has failed, nothing while work remains.
pub fn deploy_result(state: DeployState) -> (r: Option<Result<(), String>>)
    ensures
        match state {
            DeployState::Done => r matches Some(Result::Ok(_)),
            DeployState::Failed { error } => r matches Some(Result::Err(err)) && err == error,
            _ => r is None,
        },
{
    match state {
        DeployState::Done => Some(Result::Ok(())),
        DeployState::Failed { error } => Some(Result::Err(error)),
        _ => None,
    }
}

/// The deploy workflow writes at most one file after the payload: whenever a
/// file write is admissible at all, its target is the launcher script path of
/// this environment and its content is the rendered launcher.
pub proof fn lemma_deploy_writes_confined(
    home: Seq<char>,
    name: Seq<char>,
    state: DeployState,
    event: Outcome,
    action: DeployAction,
)
    requires
        deploy_action_ok(home, name, state, event, action),
        action is WriteFile,
    ensures
        state is ReadingDatabase && event is Success,
        action->WriteFile_path@ == script_path_spec(venv_path_spec(home, name)),
        action->WriteFile_content@ == launcher_script_spec(
            venv_path_spec(home, name),
            state->ReadingDatabase_port@,
            event->Success_0@,
            name,
        ),
{
}

/// Any step's failure aborts the deploy chain, and `Done` and `Failed` are
/// terminal.
pub proof fn lemma_deploy_failure_aborts(
    home: Seq<char>,
    name: Seq<char>,
    state: DeployState,
    err: String,
    action: DeployAction,
)
    requires
        state !is Done,
        state !is Failed,
    ensures
        deploy_next(state, Outcome::Failure(err)) == (DeployState::Failed { error: err }),
        deploy_action_ok(home, name, state, Outcome::Failure(err), action) ==> action is Stop,
{
}

// ---------------------------------------------------------------------------
// Launch: detached spawn, then the two configuration writes
// ---------------------------------------------------------------------------
/// A request to spawn the launcher as a new, detached process: run `program`
/// with `script` as its argument, with the working directory set to
/// `workdir`. The caller does not wait for the child and captures only its
/// process identifier.
pub struct SpawnRequest {
    pub program: String,
    pub script: String,
    pub workdir: String,
}

/// `r` spawns the launcher of the environment at `venv` through the shell.
pub open spec fn is_spawn_request(r: SpawnRequest, venv: Seq<char>) -> bool {
    &&& r.program@ == "sh"@
    &&& r.script@ == script_path_spec(venv)
    &&& r.workdir@ == venv
}

/// Where the launch workflow stands.
#[derive(Clone)]
pub enum LaunchState {
    /// The launcher process is being spawned.
    Spawning,
    /// The spawned process's identifier is being recorded.
    RecordingPid,
    /// The communication channel key is being recorded.
    RecordingChannel,
    /// Launch succeeded; `channel` is the recorded channel key.
    Done { channel: String },
    /// Launch failed; nothing further runs.
    Failed { error: String },
}

/// The next piece of outside work the launch workflow asks for.
pub enum LaunchAction {
    /// Execute the given upsert against the host store.
    UpsertConfig { request: UpsertRequest },
    /// Nothing further: the workflow is finished or has failed.
    Stop,
}

/// The launch workflow's transition: spawn, record the process identifier,
/// record the channel key, in that order; any failure moves to `Failed`, and
/// both `Done` and `Failed` are absorbing. A successful spawn's outcome
/// carries the child's process identifier as text.
pub open spec fn launch_next(channel: Seq<char>, state: LaunchState, event: Outcome, next: LaunchState) -> bool {
    match (state, event) {
        (LaunchState::Spawning, Outcome::Success(_)) => next is RecordingPid,
        (LaunchState::RecordingPid, Outcome::Success(_)) => next is RecordingChannel,
        (LaunchState::RecordingChannel, Outcome::Success(_)) => next matches LaunchState::Done { channel: c }
            && c@ == channel,
        (LaunchState::Spawning, Outcome::Failure(err)) => next == (LaunchState::Failed {
            error: err,
        }),
        (LaunchState::RecordingPid, Outcome::Failure(err)) => next == (LaunchState::Failed {
            error: err,
        }),
        (LaunchState::RecordingChannel, Outcome::Failure(err)) => next == (LaunchState::Failed {
            error: err,
        }),
        (s, _) => next == s,
    }
}

/// The only action the launch workflow may issue for `state` and `event`:
/// after a successful spawn, upsert the child's identifier under `PID`; after
/// that write, upsert the channel key under `listen_key`; in every other
/// case, stop. Both writes are for this environment's name and carry the
/// fixed row tag.
pub open spec fn launch_action_ok(
    name: Seq<char>,
    channel: Seq<char>,
    state: LaunchState,
    event: Outcome,
    action: LaunchAction,
) -> bool {
    match (state, event) {
        (LaunchState::Spawning, Outcome::Success(pid)) => action matches LaunchAction::UpsertConfig { request }
            && is_upsert_request(request, name, "PID"@, pid@),
        (LaunchState::RecordingPid, Outcome::Success(_)) => action matches LaunchAction::UpsertConfig { request }
            && is_upsert_request(request, name, "listen_key"@, channel),
        (_, _) => action is Stop,
    }
}

/// Start launching the server of the environment `name` under `home`: the
/// caller gets the spawn request for the generated launcher, and reports the
/// spawn's outcome — the child's process identifier as text on success — to
/// `launch_step`.
pub fn launch_begin(home: &str, name: &str) -> (r: (LaunchState, SpawnRequest))
    ensures
        r.0 is Spawning,
        is_spawn_request(r.1, venv_path_spec(home@, name@)),
{
    let venv = venv_path(home, name);
    let script = script_path(venv.as_str());
    let request = SpawnRequest { program: String::from_str("sh"), script, workdir: venv };
    (LaunchState::Spawning, request)
}

/// Advance the launch workflow by one reported outcome.
pub fn launch_step(name: &str, channel: &str, state: LaunchState, event: Outcome) -> (r: (
    LaunchState,
    LaunchAction,
))
    ensures
        launch_next(channel@, state, event, r.0),
        launch_action_ok(name@, channel@, state, event, r.1),
{
    match (state, event) {
        (LaunchState::Spawning, Outcome::Success(pid)) => {
            let request = upsert_request(name, "PID", pid.as_str());
            (LaunchState::RecordingPid, LaunchAction::UpsertConfig { request })
        },
        (LaunchState::RecordingPid, Outcome::Success(_)) => {
            let request = upsert_request(name, "listen_key", channel);
            (LaunchState::RecordingChannel, LaunchAction::UpsertConfig { request })
        },
        (LaunchState::RecordingChannel, Outcome::Success(_)) => (
            LaunchState::Done { channel: String::from_str(channel) },
            LaunchAction::Stop,
        ),
        (LaunchState::Spawning, Outcome::Failure(err)) => (
            LaunchState::Failed { error: err },
            LaunchAction::Stop,
        ),
        (LaunchState::RecordingPid, Outcome::Failure(err)) => (
            LaunchState::Failed { error: err },
            LaunchAction::Stop,
        ),
        (LaunchState::RecordingChannel, Outcome::Failure(err)) => (
            LaunchState::Failed { error: err },
            LaunchAction::Stop,
        ),
        (LaunchState::Done { channel: c }, _) => (
            LaunchState::Done { channel: c },
            LaunchAction::Stop,
        ),
        (LaunchState::Failed { error }, _) => (LaunchState::Failed { error }, LaunchAction::Stop),
    }
}

/// Read the launch workflow off: the recorded channel key once it is done —
/// confirming what was durably written — the error text once it has failed,
/// nothing while work remains.
pub fn launch_result(state: LaunchState) -> (r: Option<Result<String, String>>)
    ensures
        match state {
            LaunchState::Done { channel } => r matches Some(Result::Ok(c)) && c == channel,
            LaunchState::Failed { error } => r matches Some(Result::Err(err)) && err == error,
            _ => r is None,
        },
{
    match state {
        LaunchState::Done { channel } => Some(Result::Ok(channel)),
        LaunchState::Failed { error } => Some(Result::Err(error)),
        _ => None,
    }
}

/// Any step's failure aborts the launch chain: in particular a failed spawn
/// or a failed `PID` write prevents every later configuration write.
pub proof fn lemma_launch_failure_aborts(
    name: Seq<char>,
    channel: Seq<char>,
    state: LaunchState,
    err: String,
    action: LaunchAction,
    next: LaunchState,
)
    requires
        state !is Done,
        state !is Failed,
        launch_next(channel, state, Outcome::Failure(err), next),
    ensures
        next == (LaunchState::Failed { error: err }),
        launch_action_ok(name, channel, state, Outcome::Failure(err), action) ==> action is Stop,
{
}

} // verus!
