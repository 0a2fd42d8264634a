//! The single decisions, on concrete values.
use std::path::PathBuf;

use tmkms::application::KmsApplication;
use tmkms::application::TracingConfig;
use tmkms::commands::start::blocking_wait;
use tmkms::commands::start::run_app;
use tmkms::commands::start::run_app_with_http_server;
use tmkms::commands::start::HttpRunEvent;
use tmkms::commands::start::HttpRunWait;
use tmkms::commands::start::HttpServerEnd;
use tmkms::commands::start::LogLevel;
use tmkms::commands::start::LogLine;
use tmkms::commands::start::RunMode;
use tmkms::commands::start::SpawnPlan;
use tmkms::commands::start::StartCommand;
use tmkms::commands::start::WaitAction;
use tmkms::config::DeviceConfig;
use tmkms::config::KmsConfig;
use tmkms::config::ProviderConfig;
use tmkms::config::ValidatorConfig;
use tmkms::error::Error;
use tmkms::error::ErrorKind;
use tmkms::http_server::config::HttpServerConfig;
use tmkms::http_server::config_update::atomic_config_update;
use tmkms::http_server::config_update::find_config_path;
use tmkms::http_server::config_update::ConfigUpdate;
use tmkms::http_server::config_update::UpdateAction;
use tmkms::http_server::config_update::UpdateEvent;
use tmkms::http_server::config_update::UpdateStage;
use tmkms::http_server::config_update::UpdateStart;
use tmkms::http_server::handlers::create_error_response;
use tmkms::http_server::handlers::create_success_response;
use tmkms::http_server::handlers::health_check;
use tmkms::http_server::handlers::list_chains;
use tmkms::http_server::handlers::merge_provider_config;
use tmkms::http_server::handlers::register_chain_in_memory;
use tmkms::http_server::handlers::AddChainEvent;
use tmkms::http_server::handlers::AddChainStage;
use tmkms::http_server::handlers::ConfigError;
use tmkms::http_server::handlers::RegisterStage;
use tmkms::http_server::handlers::RegisterStep;
use tmkms::http_server::models::ErrorResponse;
use tmkms::http_server::models::ReplyBody;
use tmkms::http_server::routes::create_routes;
use tmkms::http_server::routes::Endpoint;
use tmkms::http_server::routes::Method;
use tmkms::paths::temp_file_name;
use tmkms::paths::temp_path;

fn s(text: &str) -> String {
    text.to_string()
}

fn device(document: &str) -> DeviceConfig {
    DeviceConfig { document: s(document) }
}

fn validator(chain_id: &str) -> ValidatorConfig {
    ValidatorConfig {
        addr: s("tcp://localhost:26658"),
        chain_id: s(chain_id),
        reconnect: true,
        timeout: None,
        secret_key: None,
        max_height: None,
        protocol_version: None,
    }
}

fn http_config(config_file_path: Option<&str>) -> HttpServerConfig {
    HttpServerConfig {
        bind_address: s("0.0.0.0"),
        port: 9000,
        config_file_path: config_file_path.map(PathBuf::from),
    }
}

#[test]
fn temporary_file_stands_beside_the_file() {
    assert_eq!(
        temp_path(&PathBuf::from("/etc/tmkms/tmkms.toml")),
        Some(PathBuf::from("/etc/tmkms/tmkms.toml.tmp"))
    );
    assert_eq!(temp_path(&PathBuf::from("tmkms.toml")), Some(PathBuf::from("tmkms.toml.tmp")));
    assert_eq!(temp_file_name("kms"), "kms.tmp");
}

#[test]
fn paths_without_a_file_name_have_no_temporary_file() {
    assert_eq!(temp_path(&PathBuf::from("/")), None);
    assert_eq!(temp_path(&PathBuf::from("..")), None);
    assert_eq!(temp_path(&PathBuf::from("")), None);
}

#[test]
fn default_http_server_is_local() {
    let config = HttpServerConfig::default();
    assert_eq!(config.bind_address, "127.0.0.1");
    assert_eq!(config.port, 8080);
    assert_eq!(config.config_file_path, None);
}

#[test]
fn application_remembers_the_config_path() {
    let mut app = KmsApplication::default();
    assert_eq!(app.get_config_file_path(), None);
    app.set_config_file_path(PathBuf::from("a.toml"));
    app.set_config_file_path(PathBuf::from("b.toml"));
    assert_eq!(app.get_config_file_path(), Some(PathBuf::from("b.toml")));
    assert_eq!(app.tracing_config(true), TracingConfig::Verbose);
    assert_eq!(app.tracing_config(false), TracingConfig::Default);
}

#[test]
fn http_server_path_goes_before_the_application_path() {
    let mut app = KmsApplication::default();
    app.set_config_file_path(PathBuf::from("app.toml"));
    assert_eq!(
        find_config_path(&Some(http_config(Some("http.toml"))), &app),
        Some(PathBuf::from("http.toml"))
    );
    assert_eq!(find_config_path(&Some(http_config(None)), &app), Some(PathBuf::from("app.toml")));
    assert_eq!(find_config_path(&None, &app), Some(PathBuf::from("app.toml")));
    assert_eq!(find_config_path(&None, &KmsApplication::default()), None);
}

#[test]
fn update_starts_by_reading_the_file() {
    let mut app = KmsApplication::default();
    assert_eq!(atomic_config_update(&None, &app), UpdateStart::Failed(Error::NoConfigPath));
    app.set_config_file_path(PathBuf::from("/etc/kms.toml"));
    assert_eq!(
        atomic_config_update(&None, &app),
        UpdateStart::Started(
            ConfigUpdate {
                config_path: PathBuf::from("/etc/kms.toml"),
                temp_path: PathBuf::from("/etc/kms.toml.tmp"),
                stage: UpdateStage::Read,
            },
            UpdateAction::ReadFile { path: PathBuf::from("/etc/kms.toml") },
        )
    );
}

fn update_at(stage: UpdateStage) -> ConfigUpdate {
    ConfigUpdate {
        config_path: PathBuf::from("/etc/kms.toml"),
        temp_path: PathBuf::from("/etc/kms.toml.tmp"),
        stage,
    }
}

fn empty_config() -> KmsConfig {
    KmsConfig {
        chain: vec![],
        validator: vec![],
        providers: ProviderConfig::default(),
        http_server: None,
    }
}

#[test]
fn update_goes_through_its_stages() {
    let mut update = update_at(UpdateStage::Read);
    assert_eq!(
        update.advance(UpdateEvent::FileRead(Ok(s("old")))),
        UpdateAction::ParseConfig { text: s("old") }
    );
    assert_eq!(
        update.advance(UpdateEvent::ConfigParsed(Ok(empty_config()))),
        UpdateAction::ApplyUpdate { config: empty_config() }
    );
    assert_eq!(
        update.advance(UpdateEvent::UpdateApplied(Ok(empty_config()))),
        UpdateAction::SerializeConfig { config: empty_config() }
    );
    assert_eq!(
        update.advance(UpdateEvent::ConfigSerialized(Ok(s("new")))),
        UpdateAction::WriteFile { path: PathBuf::from("/etc/kms.toml.tmp"), text: s("new") }
    );
    assert_eq!(
        update.advance(UpdateEvent::FileWritten(Ok(()))),
        UpdateAction::RenameFile {
            from: PathBuf::from("/etc/kms.toml.tmp"),
            to: PathBuf::from("/etc/kms.toml"),
        }
    );
    assert_eq!(
        update.advance(UpdateEvent::FileRenamed(Ok(()))),
        UpdateAction::Finish { result: Ok(()) }
    );
    assert_eq!(update.stage, UpdateStage::Done);
}

#[test]
fn events_answer_one_stage() {
    let event = UpdateEvent::FileWritten(Ok(()));
    assert!(event.is_answer_at(UpdateStage::Write));
    assert!(!event.is_answer_at(UpdateStage::Rename));
    assert!(!event.is_answer_at(UpdateStage::Done));
    let built = AddChainEvent::ChainBuilt(Ok(()));
    assert!(built.is_answer_at(&AddChainStage::Registering(RegisterStage::Build)));
    assert!(!built.is_answer_at(&AddChainStage::Registering(RegisterStage::Register)));
    assert!(!built.is_answer_at(&AddChainStage::Replied));
    let applied = AddChainEvent::Update(UpdateEvent::UpdateApplied(Ok(empty_config())));
    assert!(!applied.is_answer_at(&AddChainStage::Updating(update_at(UpdateStage::Update))));
    let (run, _) = run_app_with_http_server(1);
    assert!(run.can_take(&HttpRunEvent::ClientEnded(Ok(()))));
    assert!(run.can_take(&HttpRunEvent::HttpServerEnded(HttpServerEnd::Stopped)));
    assert!(!run.can_take(&HttpRunEvent::SecondPassed));
}

#[test]
fn each_failure_ends_the_update_with_its_error() {
    let failures = vec![
        (
            UpdateStage::Read,
            UpdateEvent::FileRead(Err(s("x"))),
            "config error: failed to read config file: x",
        ),
        (
            UpdateStage::Parse,
            UpdateEvent::ConfigParsed(Err(s("x"))),
            "config error: failed to parse config: x",
        ),
        (UpdateStage::Update, UpdateEvent::UpdateApplied(Err(Error::Other(s("x")))), "x"),
        (
            UpdateStage::Serialize,
            UpdateEvent::ConfigSerialized(Err(s("x"))),
            "config error: failed to serialize config: x",
        ),
        (
            UpdateStage::Write,
            UpdateEvent::FileWritten(Err(s("x"))),
            "config error: failed to write temp config: x",
        ),
        (
            UpdateStage::Rename,
            UpdateEvent::FileRenamed(Err(s("x"))),
            "config error: failed to rename config file: x",
        ),
    ];
    for (stage, event, text) in failures {
        let mut update = update_at(stage);
        match update.advance(event) {
            UpdateAction::Finish { result: Err(error) } => assert_eq!(error.describe(), text),
            other => panic!("unexpected action: {:?}", other),
        }
        assert_eq!(update.stage, UpdateStage::Done);
    }
}

#[test]
fn errors_are_shown_with_their_kind() {
    assert_eq!(Error::NoConfigPath.kind(), Some(ErrorKind::ConfigError));
    assert_eq!(Error::NoConfigPath.describe(), "config error: No config file path available");
    assert_eq!(Error::Other(s("as it is")).kind(), None);
    assert_eq!(Error::Other(s("as it is")).describe(), "as it is");
    assert_eq!(ErrorKind::ConfigError.text(), "config error");
    assert_eq!(ConfigError::new(s("m")).0, "m");
}

#[test]
fn providers_are_merged_kind_by_kind() {
    let mut existing = ProviderConfig::default();
    existing.yubihsm.push(device("y1"));
    existing.ledgertm.push(device("l1"));
    let mut new = ProviderConfig::default();
    new.yubihsm.push(device("y2"));
    new.yubihsm.push(device("y3"));
    new.fortanixdsm.push(device("f1"));
    merge_provider_config(&mut existing, &new);
    assert_eq!(existing.softsign, vec![]);
    assert_eq!(existing.yubihsm, vec![device("y1"), device("y2"), device("y3")]);
    assert_eq!(existing.ledgertm, vec![device("l1")]);
    assert_eq!(existing.fortanixdsm, vec![device("f1")]);
    assert_eq!(new.yubihsm.len(), 2);
}

#[test]
fn registration_builds_then_registers() {
    assert_eq!(register_chain_in_memory(RegisterStage::Build, Ok(())), RegisterStep::Register);
    assert_eq!(register_chain_in_memory(RegisterStage::Register, Ok(())), RegisterStep::Registered);
    assert_eq!(
        register_chain_in_memory(RegisterStage::Build, Err(s("no state"))),
        RegisterStep::Failed(Error::Other(s("no state")))
    );
    assert_eq!(
        register_chain_in_memory(RegisterStage::Register, Err(s("taken"))),
        RegisterStep::Failed(Error::Other(s("taken")))
    );
}

#[test]
fn replies_carry_their_status() {
    assert_eq!(create_success_response("c").status, 201);
    let reply = create_error_response("went wrong", 400);
    assert_eq!(reply.status, 400);
    assert_eq!(reply.body, ReplyBody::Failed(ErrorResponse { error: s("went wrong") }));
}

#[test]
fn chains_are_listed_in_order() {
    assert_eq!(list_chains(&vec![s("b"), s("a")]).chains, vec![s("b"), s("a")]);
    assert_eq!(list_chains(&vec![]).chains, Vec::<String>::new());
}

#[test]
fn health_check_names_the_service() {
    let response = health_check();
    assert_eq!(response.status, "healthy");
    assert_eq!(response.service, "tmkms-http-server");
}

#[test]
fn routes_are_three() {
    let api = create_routes();
    let table: Vec<(String, Method, Endpoint)> =
        api.routes.iter().map(|r| (r.segments.join("/"), r.method, r.endpoint)).collect();
    assert_eq!(
        table,
        vec![
            (s("api/v1/chains"), Method::Post, Endpoint::AddChain),
            (s("api/v1/chains"), Method::Get, Endpoint::ListChains),
            (s("health"), Method::Get, Endpoint::HealthCheck),
        ]
    );
    assert!(api.cors.allow_any_origin);
    assert_eq!(api.cors.allow_headers, vec![s("content-type")]);
    assert_eq!(api.cors.allow_methods, vec![Method::Get, Method::Post]);
}

#[test]
fn start_with_a_path_tells_it_to_everyone() {
    let command = StartCommand { config: Some(PathBuf::from("kms.toml")), verbose: false };
    let mut app = KmsApplication::default();
    let mode = command.run(&mut app, &Some(http_config(None)));
    assert_eq!(app.get_config_file_path(), Some(PathBuf::from("kms.toml")));
    assert_eq!(mode, RunMode::WithHttpServer(http_config(Some("kms.toml"))));
    assert_eq!(find_config_path(&Some(http_config(None)), &app), Some(PathBuf::from("kms.toml")));
}

#[test]
fn start_without_a_path_leaves_paths_alone() {
    let command = StartCommand::default();
    assert!(!command.verbose);
    let mut app = KmsApplication::default();
    app.set_config_file_path(PathBuf::from("old.toml"));
    assert_eq!(command.run(&mut app, &None), RunMode::Legacy);
    assert_eq!(app.get_config_file_path(), Some(PathBuf::from("old.toml")));
    assert_eq!(
        command.run(&mut app, &Some(http_config(Some("own.toml")))),
        RunMode::WithHttpServer(http_config(Some("own.toml")))
    );
}

#[test]
fn clients_are_spawned_unless_loading_failed() {
    let command = StartCommand::default();
    let validators = vec![validator("a"), validator("b")];
    assert_eq!(
        command.spawn_clients(Ok(()), &validators),
        SpawnPlan::Spawn(vec![validator("a"), validator("b")])
    );
    assert_eq!(
        command.spawn_clients(Err(s("bad chain")), &validators),
        SpawnPlan::Exit { message: s("error loading configuration: bad chain"), code: 1 }
    );
}

fn info(text: &str) -> LogLine {
    LogLine { level: LogLevel::Info, text: s(text) }
}

fn error(text: &str) -> LogLine {
    LogLine { level: LogLevel::Error, text: s(text) }
}

#[test]
fn http_run_outlives_its_clients() {
    let (mut run, lines) = run_app_with_http_server(2);
    assert_eq!(lines, vec![]);
    assert_eq!(run.wait, HttpRunWait::Client(0));
    assert_eq!(run.advance(HttpRunEvent::ClientEnded(Err(s("lost")))), vec![error("Client error: lost")]);
    assert_eq!(run.wait, HttpRunWait::Client(1));
    assert_eq!(
        run.advance(HttpRunEvent::ClientEnded(Err(s("gone")))),
        vec![error("Client error: gone"), info("All clients finished")]
    );
    assert_eq!(run.wait, HttpRunWait::HttpServerOnly);
    assert_eq!(run.advance(HttpRunEvent::SecondPassed), vec![]);
    assert_eq!(run.wait, HttpRunWait::HttpServerOnly);
    assert_eq!(
        run.advance(HttpRunEvent::HttpServerEnded(HttpServerEnd::Stopped)),
        vec![info("HTTP server stopped normally")]
    );
    assert_eq!(run.wait, HttpRunWait::Ended);
}

#[test]
fn http_server_failures_are_told_apart() {
    let (mut run, lines) = run_app_with_http_server(0);
    assert_eq!(lines, vec![info("All clients finished")]);
    assert_eq!(
        run.advance(HttpRunEvent::HttpServerEnded(HttpServerEnd::ServerError(s("bind")))),
        vec![error("HTTP server error: bind")]
    );
    let (mut run, _) = run_app_with_http_server(1);
    assert_eq!(
        run.advance(HttpRunEvent::HttpServerEnded(HttpServerEnd::TaskError(s("panic")))),
        vec![error("HTTP server task error: panic")]
    );
    assert_eq!(run.wait, HttpRunWait::Ended);
}

#[test]
fn shutdown_joins_every_client() {
    let mut wait = run_app(vec![s("one"), s("two"), s("three")]);
    assert_eq!(wait.pending(), WaitAction::Join(0));
    assert_eq!(blocking_wait(&mut wait, Ok(())), None);
    assert_eq!(
        blocking_wait(&mut wait, Err(s("boom"))),
        Some(s("client 'two' exited with error: boom"))
    );
    assert_eq!(wait.pending(), WaitAction::Join(2));
    assert_eq!(blocking_wait(&mut wait, Ok(())), None);
    assert_eq!(
        wait.pending(),
        WaitAction::CompletedWithErrors { message: s("Shutdown completed with errors"), code: 1 }
    );
}

#[test]
fn clean_shutdown_is_successful() {
    let mut wait = run_app(vec![s("one")]);
    assert_eq!(blocking_wait(&mut wait, Ok(())), None);
    assert_eq!(
        wait.pending(),
        WaitAction::Completed { message: s("Shutdown completed successfully") }
    );
    assert_eq!(
        run_app(vec![]).pending(),
        WaitAction::Completed { message: s("Shutdown completed successfully") }
    );
}
