use symbiotic::store::ConfigStore;
use symbiotic::workflow::create_begin;
use symbiotic::workflow::create_result;
use symbiotic::workflow::create_step;
use symbiotic::workflow::deploy_begin;
use symbiotic::workflow::deploy_step;
use symbiotic::workflow::launch_begin;
use symbiotic::workflow::launch_result;
use symbiotic::workflow::launch_step;
use symbiotic::workflow::CreateAction;
use symbiotic::workflow::CreateState;
use symbiotic::workflow::DeployAction;
use symbiotic::workflow::DeployState;
use symbiotic::workflow::LaunchAction;
use symbiotic::workflow::LaunchState;
use symbiotic::workflow::Outcome;

const HOME: &str = "/Users/mars";
const NAME: &str = "workshop";
const VENV: &str = "/Users/mars/.symbiotic/workshop";

#[test]
fn create_success_path() {
    let (state, command) = create_begin(HOME, NAME);
    assert!(matches!(state, CreateState::CreatingVenv));
    assert_eq!(command, format!("python -m venv {}", VENV));

    let (state, action) = create_step(HOME, NAME, state, Outcome::Success("venv log".to_string()));
    assert!(matches!(state, CreateState::InstallingFirst { .. }));
    match action {
        CreateAction::RunInstaller { invocation } => {
            assert_eq!(invocation.program, format!("{}/bin/pip", VENV));
            assert_eq!(
                invocation.args,
                vec!["install".to_string(), "asyncpg".to_string()]
            );
            assert_eq!(
                invocation.env,
                vec![("VIRTUAL_ENV".to_string(), VENV.to_string())]
            );
        }
        _ => panic!("expected the first installer invocation"),
    }

    let (state, action) = create_step(HOME, NAME, state, Outcome::Success("pip out".to_string()));
    assert!(matches!(state, CreateState::InstallingSecond { .. }));
    match action {
        CreateAction::RunInstaller { invocation } => {
            assert_eq!(
                invocation.args,
                vec!["install".to_string(), "asyncpg-listen".to_string()]
            );
        }
        _ => panic!("expected the second installer invocation"),
    }

    let (state, action) = create_step(HOME, NAME, state, Outcome::Success("pip out".to_string()));
    assert!(matches!(state, CreateState::Deploying { .. }));
    assert!(matches!(action, CreateAction::RunDeploy));

    let (state, action) = create_step(HOME, NAME, state, Outcome::Success(String::new()));
    assert!(matches!(action, CreateAction::Stop));
    assert_eq!(create_result(state), Some(Ok("venv log".to_string())));
}

#[test]
fn failing_first_install_aborts_everything() {
    let (state, _command) = create_begin(HOME, NAME);
    let (state, _action) =
        create_step(HOME, NAME, state, Outcome::Success("venv log".to_string()));
    assert!(matches!(state, CreateState::InstallingFirst { .. }));

    let (state, action) = create_step(
        HOME,
        NAME,
        state,
        Outcome::Failure("pip exploded".to_string()),
    );
    assert!(matches!(action, CreateAction::Stop));
    assert!(matches!(state, CreateState::Failed { .. }));
    assert_eq!(create_result(state.clone()), Some(Err("pip exploded".to_string())));

    // The failed state is terminal: even a later success event yields no
    // further work, so no second install, no deploy, no spawn and no
    // configuration write can follow. The config store stays empty.
    let (state, action) = create_step(HOME, NAME, state, Outcome::Success("late".to_string()));
    assert!(matches!(state, CreateState::Failed { .. }));
    assert!(matches!(action, CreateAction::Stop));

    let store = ConfigStore::new();
    assert_eq!(store.row_count("python venv", NAME, "PID"), 0);
}

#[test]
fn venv_creation_failure_aborts() {
    let (state, _command) = create_begin(HOME, NAME);
    let (state, action) = create_step(
        HOME,
        NAME,
        state,
        Outcome::Failure("python not found".to_string()),
    );
    assert!(matches!(action, CreateAction::Stop));
    assert_eq!(
        create_result(state),
        Some(Err("python not found".to_string()))
    );
}

#[test]
fn deploy_success_path() {
    let (state, payload_path) = deploy_begin(HOME, NAME);
    assert!(matches!(state, DeployState::WritingPayload));
    assert_eq!(payload_path, format!("{}/bin/symbiotic.py", VENV));

    let (state, action) = deploy_step(HOME, NAME, state, Outcome::Success(String::new()));
    assert!(matches!(state, DeployState::ReadingPort));
    match action {
        DeployAction::RunQuery { query } => assert_eq!(query, "show port"),
        _ => panic!("expected the port query"),
    }

    let (state, action) = deploy_step(HOME, NAME, state, Outcome::Success("5432".to_string()));
    assert!(matches!(state, DeployState::ReadingDatabase { .. }));
    match action {
        DeployAction::RunQuery { query } => {
            assert_eq!(query, "select current_database()::text")
        }
        _ => panic!("expected the database query"),
    }

    let (state, action) = deploy_step(HOME, NAME, state, Outcome::Success("postgres".to_string()));
    assert!(matches!(state, DeployState::WritingScript));
    match action {
        DeployAction::WriteFile { path, content } => {
            assert_eq!(path, format!("{}/bin/run.sh", VENV));
            let expected = format!(
                "#!/usr/bin/env sh\nexport VIRTUALENV={venv}/bin\nexport PATH={venv}:$PATH\n\nnohup {venv}/bin/python {venv}/bin/symbiotic.py 5432 postgres workshop &\n",
                venv = VENV
            );
            assert_eq!(content, expected);
        }
        _ => panic!("expected the launcher write"),
    }

    let (state, action) = deploy_step(HOME, NAME, state, Outcome::Success(String::new()));
    assert!(matches!(state, DeployState::Done));
    assert!(matches!(action, DeployAction::Stop));
}

#[test]
fn deploy_missing_configuration_is_fatal() {
    let (state, _payload_path) = deploy_begin(HOME, NAME);
    let (state, _action) = deploy_step(HOME, NAME, state, Outcome::Success(String::new()));
    assert!(matches!(state, DeployState::ReadingPort));
    let (state, action) = deploy_step(
        HOME,
        NAME,
        state,
        Outcome::Failure("no value returned".to_string()),
    );
    assert!(matches!(state, DeployState::Failed { .. }));
    assert!(matches!(action, DeployAction::Stop));
}

#[test]
fn launch_records_pid_then_channel() {
    let mut store = ConfigStore::new();

    let (state, spawn) = launch_begin(HOME, NAME);
    assert!(matches!(state, LaunchState::Spawning));
    assert_eq!(spawn.program, "sh");
    assert_eq!(spawn.script, format!("{}/bin/run.sh", VENV));
    assert_eq!(spawn.workdir, VENV);

    let (state, action) = launch_step(NAME, "chan1", state, Outcome::Success("4711".to_string()));
    assert!(matches!(state, LaunchState::RecordingPid));
    let written = match action {
        LaunchAction::UpsertConfig { request } => {
            assert_eq!(
                request.params,
                vec![NAME.to_string(), "PID".to_string(), "4711".to_string()]
            );
            store.upsert("python venv", &request.params[0], &request.params[1], &request.params[2])
        }
        _ => panic!("expected the PID upsert"),
    };

    let (state, action) = launch_step(NAME, "chan1", state, Outcome::Success(written));
    assert!(matches!(state, LaunchState::RecordingChannel));
    let written = match action {
        LaunchAction::UpsertConfig { request } => {
            assert_eq!(
                request.params,
                vec![
                    NAME.to_string(),
                    "listen_key".to_string(),
                    "chan1".to_string()
                ]
            );
            store.upsert("python venv", &request.params[0], &request.params[1], &request.params[2])
        }
        _ => panic!("expected the listen_key upsert"),
    };

    let (state, action) = launch_step(NAME, "chan1", state, Outcome::Success(written));
    assert!(matches!(action, LaunchAction::Stop));
    assert_eq!(launch_result(state), Some(Ok("chan1".to_string())));

    // Exactly one row per key, holding the recorded values.
    assert_eq!(store.row_count("python venv", NAME, "PID"), 1);
    assert_eq!(store.row_count("python venv", NAME, "listen_key"), 1);
    assert_eq!(store.get("python venv", NAME, "PID"), Some("4711".to_string()));
    assert_eq!(
        store.get("python venv", NAME, "listen_key"),
        Some("chan1".to_string())
    );
}

#[test]
fn launch_spawn_failure_writes_nothing() {
    let (state, _spawn) = launch_begin(HOME, NAME);
    let (state, action) = launch_step(
        NAME,
        "chan1",
        state,
        Outcome::Failure("sh not found".to_string()),
    );
    assert!(matches!(action, LaunchAction::Stop));
    assert_eq!(launch_result(state), Some(Err("sh not found".to_string())));
}

#[test]
fn launch_pid_write_failure_prevents_channel_write() {
    let (state, _spawn) = launch_begin(HOME, NAME);
    let (state, _action) = launch_step(NAME, "chan1", state, Outcome::Success("4711".to_string()));
    let (state, action) = launch_step(
        NAME,
        "chan1",
        state,
        Outcome::Failure("store unavailable".to_string()),
    );
    assert!(matches!(state, LaunchState::Failed { .. }));
    assert!(matches!(action, LaunchAction::Stop));
}
