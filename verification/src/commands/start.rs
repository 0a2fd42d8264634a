//! Start the server, and wait until it is over.
//!
//! Without an HTTP server, the program waits for its clients one after the other and
//! ends with the last of them. With one, it runs as long as the HTTP server does.
use std::path::PathBuf;
use vstd::prelude::*;

use crate::application::KmsApplication;
use crate::config::ValidatorConfig;
use crate::http_server::config::HttpServerConfig;
use crate::http_server::config::HttpServerConfigView;
use crate::http_server::config_update::config_path_for;

verus! {

/// The `start` command.
#[derive(Debug, PartialEq, Eq)]
pub struct StartCommand {
    /// Path to the configuration file.
    pub config: Option<PathBuf>,
    /// Enable verbose debug logging.
    pub verbose: bool,
}

impl Default for StartCommand {
    fn default() -> (command: Self)
        ensures
            command.config is None,
            !command.verbose,
    {
        StartCommand { config: None, verbose: false }
    }
}

/// How the server runs.
#[derive(Debug, PartialEq, Eq)]
pub enum RunMode {
    /// With an HTTP server.
    WithHttpServer(HttpServerConfig),
    /// Without one.
    Legacy,
}

/// The model of a `RunMode`.
#[verifier::ext_equal]
pub enum RunModeView {
    WithHttpServer(HttpServerConfigView),
    Legacy,
}

impl DeepView for RunMode {
    type V = RunModeView;

    open spec fn deep_view(&self) -> RunModeView {
        match self {
            RunMode::WithHttpServer(config) => RunModeView::WithHttpServer(config.deep_view()),
            RunMode::Legacy => RunModeView::Legacy,
        }
    }
}

/// What becomes of the configured validators.
#[derive(Debug, PartialEq, Eq)]
pub enum SpawnPlan {
    /// A client is spawned for each of these.
    Spawn(Vec<ValidatorConfig>),
    /// The message is told and the program exits with the code.
    Exit { message: String, code: i32 },
}

impl StartCommand {
    /// What the application knows of the configuration file once the command has run:
    /// the path that the command was given, if it was given one.
    pub open spec fn app_after(self, app: KmsApplication) -> KmsApplication {
        match self.config {
            Some(path) => app.told(path),
            None => app,
        }
    }

    /// How the server runs: with an HTTP server if one is configured. It is told the
    /// path that the command was given, if it was given one.
    pub open spec fn mode(self, http_server: Option<HttpServerConfigView>) -> RunModeView {
        match http_server {
            None => RunModeView::Legacy,
            Some(config) => RunModeView::WithHttpServer(
                HttpServerConfigView {
                    bind_address: config.bind_address,
                    port: config.port,
                    config_file_path: if self.config is Some {
                        self.config
                    } else {
                        config.config_file_path
                    },
                },
            ),
        }
    }

    /// Run the server: tells the application where the configuration file is, and
    /// decides how to run.
    pub fn run(&self, app: &mut KmsApplication, http_server: &Option<HttpServerConfig>) -> (mode:
        RunMode)
        ensures
            *final(app) == self.app_after(*old(app)),
            mode.deep_view() == self.mode(http_server.deep_view()),
            mode is WithHttpServer <==> http_server is Some,
            mode matches RunMode::WithHttpServer(running) ==> {
                let configured = http_server->0;
                &&& running.bind_address@ == configured.bind_address@
                &&& running.port == configured.port
                &&& running.config_file_path == (if self.config is Some {
                    self.config
                } else {
                    configured.config_file_path
                })
            },
            final(app).config_file_path == (if self.config is Some {
                self.config
            } else {
                old(app).config_file_path
            }),
    {
        if let Some(config_path) = &self.config {
            app.set_config_file_path(config_path.clone());
        }
        match http_server {
            Some(config) => {
                let mut http_config = config.clone();
                if let Some(config_path) = &self.config {
                    http_config.config_file_path = Some(config_path.clone());
                }
                RunMode::WithHttpServer(http_config)
            },
            None => RunMode::Legacy,
        }
    }

    /// Spawn clients from the application's configuration: one for each validator, in
    /// the order of the configuration. Where the configured chains could not be loaded,
    /// there is none, and the program exits.
    pub fn spawn_clients(
        &self,
        loaded: Result<(), String>,
        validators: &Vec<ValidatorConfig>,
    ) -> (plan: SpawnPlan)
        ensures
            match loaded {
                Ok(_) => plan matches SpawnPlan::Spawn(configs) && configs.deep_view()
                    == validators.deep_view(),
                Err(cause) => plan matches SpawnPlan::Exit { message, code } && message@
                    == "error loading configuration: "@ + cause@ && code == 1,
            },
    {
        match loaded {
            Ok(_) => {
                let configs = validators.clone();
                assert(configs.deep_view() =~= validators.deep_view());
                SpawnPlan::Spawn(configs)
            },
            Err(cause) => {
                let mut message: String = "error loading configuration: ".to_owned();
                message.append(cause.as_str());
                SpawnPlan::Exit { message, code: 1 }
            },
        }
    }
}

/// A chain is added to the file that the server was started with: after a `start`
/// command with a path, that path is the configuration file, both for the HTTP server
/// that the command starts and for a configuration that names no path itself.
pub proof fn started_path_is_updated(
    command: StartCommand,
    app: KmsApplication,
    configured: Option<HttpServerConfig>,
    running: HttpServerConfig,
)
    requires
        command.config is Some,
        RunModeView::WithHttpServer(running.deep_view()) == command.mode(configured.deep_view()),
    ensures
        config_path_for(Some(running), command.app_after(app)) == command.config,
        (configured->0).config_file_path is None ==> config_path_for(
            configured,
            command.app_after(app),
        ) == command.config,
{
    assert(running.deep_view().config_file_path == running.config_file_path);
}

/// How severe a log line is.
#[derive(Debug, Clone, Copy, PartialEq, Eq, Structural)]
pub enum LogLevel {
    Info,
    Error,
}

/// A line for the log.
#[derive(Debug, PartialEq, Eq)]
pub struct LogLine {
    pub level: LogLevel,
    pub text: String,
}

/// The model of a `LogLine`.
#[verifier::ext_equal]
pub struct LogLineView {
    pub level: LogLevel,
    pub text: Seq<char>,
}

impl DeepView for LogLine {
    type V = LogLineView;

    open spec fn deep_view(&self) -> LogLineView {
        LogLineView { level: self.level, text: self.text@ }
    }
}

fn info_line(text: &str) -> (line: LogLine)
    ensures
        line.deep_view() == (LogLineView { level: LogLevel::Info, text: text@ }),
{
    LogLine { level: LogLevel::Info, text: text.to_owned() }
}

fn error_line(what: &str, cause: &str) -> (line: LogLine)
    ensures
        line.deep_view() == (LogLineView { level: LogLevel::Error, text: what@ + cause@ }),
{
    let mut text: String = what.to_owned();
    text.append(cause);
    LogLine { level: LogLevel::Error, text }
}

/// What a run with an HTTP server waits for, besides the end of the HTTP server.
#[derive(Debug, Clone, Copy, PartialEq, Eq, Structural)]
pub enum HttpRunWait {
    /// The end of the client with this number.
    Client(usize),
    /// Nothing: the clients are over, and only the HTTP server keeps the run going.
    HttpServerOnly,
    /// Nothing at all: the run is over.
    Ended,
}

/// How the task of the HTTP server ended.
#[derive(Debug, PartialEq, Eq)]
pub enum HttpServerEnd {
    /// The server stopped normally.
    Stopped,
    /// The server failed.
    ServerError(String),
    /// The task itself failed.
    TaskError(String),
}

/// Something that happens while the server runs with an HTTP server.
#[derive(Debug, PartialEq, Eq)]
pub enum HttpRunEvent {
    /// The HTTP server's task ended.
    HttpServerEnded(HttpServerEnd),
    /// The client that was waited for ended.
    ClientEnded(Result<(), String>),
    /// A second passed.
    SecondPassed,
}

/// A run with an HTTP server.
#[derive(Debug, PartialEq, Eq)]
pub struct HttpRun {
    /// The number of clients.
    pub clients: usize,
    /// What is waited for.
    pub wait: HttpRunWait,
}

/// The line that tells that no client is left.
pub open spec fn all_finished_line() -> LogLineView {
    LogLineView { level: LogLevel::Info, text: "All clients finished"@ }
}

impl HttpRun {
    /// Whether the client that is waited for exists.
    pub open spec fn wf(self) -> bool {
        self.wait matches HttpRunWait::Client(i) ==> i < self.clients
    }

    /// The run waiting for client `i`, or for none where there is no such client.
    pub open spec fn waiting_for(clients: usize, i: int) -> HttpRun {
        HttpRun {
            clients,
            wait: if i < clients {
                HttpRunWait::Client(i as usize)
            } else {
                HttpRunWait::HttpServerOnly
            },
        }
    }

    /// The line that is due when the run comes to wait for client `i`.
    pub open spec fn lines_at(clients: usize, i: int) -> Seq<LogLineView> {
        if i < clients {
            Seq::empty()
        } else {
            seq![all_finished_line()]
        }
    }

    /// Whether `event` can happen now.
    pub open spec fn expects(self, event: HttpRunEvent) -> bool {
        match event {
            HttpRunEvent::HttpServerEnded(_) => self.wait != HttpRunWait::Ended,
            HttpRunEvent::ClientEnded(_) => self.wait is Client,
            HttpRunEvent::SecondPassed => self.wait == HttpRunWait::HttpServerOnly,
        }
    }

    /// Tests whether the run is well formed and `event` can happen now.
    pub fn can_take(&self, event: &HttpRunEvent) -> (can: bool)
        ensures
            can == (self.wf() && self.expects(*event)),
    {
        match self.wait {
            HttpRunWait::Client(i) => i < self.clients && match event {
                HttpRunEvent::SecondPassed => false,
                _ => true,
            },
            HttpRunWait::HttpServerOnly => match event {
                HttpRunEvent::ClientEnded(_) => false,
                _ => true,
            },
            HttpRunWait::Ended => false,
        }
    }

    /// Where the run goes on `event`, and what is logged.
    ///
    /// The end of the HTTP server ends the run. The end of a client does not, whether
    /// it failed or not.
    pub open spec fn step(self, event: HttpRunEvent) -> (HttpRun, Seq<LogLineView>) {
        match event {
            HttpRunEvent::HttpServerEnded(end) => (
                HttpRun { clients: self.clients, wait: HttpRunWait::Ended },
                seq![
                    match end {
                        HttpServerEnd::Stopped => LogLineView {
                            level: LogLevel::Info,
                            text: "HTTP server stopped normally"@,
                        },
                        HttpServerEnd::ServerError(cause) => LogLineView {
                            level: LogLevel::Error,
                            text: "HTTP server error: "@ + cause@,
                        },
                        HttpServerEnd::TaskError(cause) => LogLineView {
                            level: LogLevel::Error,
                            text: "HTTP server task error: "@ + cause@,
                        },
                    },
                ],
            ),
            HttpRunEvent::ClientEnded(outcome) => {
                let next = self.wait->Client_0 + 1;
                let failed = match outcome {
                    Ok(_) => Seq::empty(),
                    Err(cause) => seq![
                        LogLineView { level: LogLevel::Error, text: "Client error: "@ + cause@ },
                    ],
                };
                (
                    HttpRun::waiting_for(self.clients, next),
                    failed + HttpRun::lines_at(self.clients, next),
                )
            },
            HttpRunEvent::SecondPassed => (self, Seq::empty()),
        }
    }

    fn wait_for(&mut self, i: usize, lines: &mut Vec<LogLine>)
        ensures
            *final(self) == HttpRun::waiting_for(old(self).clients, i as int),
            final(lines).deep_view() == old(lines).deep_view() + HttpRun::lines_at(
                old(self).clients,
                i as int,
            ),
    {
        if i < self.clients {
            self.wait = HttpRunWait::Client(i);
        } else {
            self.wait = HttpRunWait::HttpServerOnly;
            lines.push(info_line("All clients finished"));
        }
        assert(lines.deep_view() =~= old(lines).deep_view() + HttpRun::lines_at(
            old(self).clients,
            i as int,
        ));
    }

    /// Takes what happened and returns the lines to log.
    pub fn advance(&mut self, event: HttpRunEvent) -> (lines: Vec<LogLine>)
        requires
            old(self).wf(),
            old(self).expects(event),
        ensures
            final(self).wf(),
            (*final(self), lines.deep_view()) == old(self).step(event),
            final(self).wait == HttpRunWait::Ended <==> event is HttpServerEnded,
    {
        let mut lines: Vec<LogLine> = Vec::new();
        match event {
            HttpRunEvent::HttpServerEnded(end) => {
                self.wait = HttpRunWait::Ended;
                let line = match end {
                    HttpServerEnd::Stopped => info_line("HTTP server stopped normally"),
                    HttpServerEnd::ServerError(cause) => error_line(
                        "HTTP server error: ",
                        cause.as_str(),
                    ),
                    HttpServerEnd::TaskError(cause) => error_line(
                        "HTTP server task error: ",
                        cause.as_str(),
                    ),
                };
                lines.push(line);
            },
            HttpRunEvent::ClientEnded(outcome) => {
                if let Err(cause) = outcome {
                    lines.push(error_line("Client error: ", cause.as_str()));
                }
                if let HttpRunWait::Client(i) = self.wait {
                    self.wait_for(i + 1, &mut lines);
                }
            },
            HttpRunEvent::SecondPassed => {},
        }
        assert(lines.deep_view() =~= old(self).step(event).1);
        lines
    }
}

/// Run the application with HTTP server: the run waits for the first of the clients,
/// and for the HTTP server alone where there is none. Returns the run and the lines
/// to log.
pub fn run_app_with_http_server(clients: usize) -> (started: (HttpRun, Vec<LogLine>))
    ensures
        started.0.wf(),
        started.0 == HttpRun::waiting_for(clients, 0),
        started.1.deep_view() == HttpRun::lines_at(clients, 0),
        started.0.wait == (if clients > 0 {
            HttpRunWait::Client(0)
        } else {
            HttpRunWait::HttpServerOnly
        }),
{
    let mut run = HttpRun { clients, wait: HttpRunWait::HttpServerOnly };
    let mut lines: Vec<LogLine> = Vec::new();
    run.wait_for(0, &mut lines);
    assert(lines.deep_view() =~= HttpRun::lines_at(clients, 0));
    (run, lines)
}

/// The HTTP server keeps running even if clients fail: a run is over exactly when the
/// HTTP server's task has ended, and nothing else ends it.
pub proof fn only_http_server_ends_run(run: HttpRun, event: HttpRunEvent)
    requires
        run.wf(),
        run.expects(event),
    ensures
        run.step(event).0.wait == HttpRunWait::Ended <==> event is HttpServerEnded,
        run.step(event).0.wf(),
{
}

/// The lines for the clients that failed, in the order in which they ended.
pub open spec fn client_errors(outcomes: Seq<Result<(), String>>) -> Seq<LogLineView>
    decreases outcomes.len(),
{
    if outcomes.len() == 0 {
        Seq::empty()
    } else {
        let earlier = client_errors(outcomes.drop_last());
        match outcomes.last() {
            Ok(_) => earlier,
            Err(cause) => earlier.push(
                LogLineView { level: LogLevel::Error, text: "Client error: "@ + cause@ },
            ),
        }
    }
}

/// Where a run with `clients` clients is after the first of them ended with these
/// outcomes, and everything that was logged until then.
pub open spec fn run_of_clients(clients: usize, outcomes: Seq<Result<(), String>>) -> (
    HttpRun,
    Seq<LogLineView>,
)
    decreases outcomes.len(),
{
    if outcomes.len() == 0 {
        (HttpRun::waiting_for(clients, 0), HttpRun::lines_at(clients, 0))
    } else {
        let (run, lines) = run_of_clients(clients, outcomes.drop_last());
        let (next, more) = run.step(HttpRunEvent::ClientEnded(outcomes.last()));
        (next, lines + more)
    }
}

/// Each client is waited for once, in order; each failure is logged once, in order;
/// and when the last client has ended, that is logged once and the run goes on.
pub proof fn clients_are_waited_for_in_order(clients: usize, outcomes: Seq<Result<(), String>>)
    requires
        outcomes.len() <= clients,
    ensures
        run_of_clients(clients, outcomes).0 == HttpRun::waiting_for(
            clients,
            outcomes.len() as int,
        ),
        run_of_clients(clients, outcomes).1 == client_errors(outcomes) + HttpRun::lines_at(
            clients,
            outcomes.len() as int,
        ),
    decreases outcomes.len(),
{
    if outcomes.len() == 0 {
        assert(client_errors(outcomes) + HttpRun::lines_at(clients, 0) =~= HttpRun::lines_at(
            clients,
            0,
        ));
    } else {
        clients_are_waited_for_in_order(clients, outcomes.drop_last());
        assert(run_of_clients(clients, outcomes).1 =~= client_errors(outcomes) + HttpRun::lines_at(
            clients,
            outcomes.len() as int,
        ));
    }
}

/// What waiting for the clients does next.
#[derive(Debug, PartialEq, Eq)]
pub enum WaitAction {
    /// Join the client with this number.
    Join(usize),
    /// All clients ended without an error: the message is logged and the program goes
    /// on to its end.
    Completed { message: String },
    /// Some client ended with an error: the message is logged as a warning and the
    /// program exits with the code.
    CompletedWithErrors { message: String, code: i32 },
}

/// The model of a `WaitAction`.
#[verifier::ext_equal]
pub enum WaitActionView {
    Join(int),
    Completed { message: Seq<char> },
    CompletedWithErrors { message: Seq<char>, code: i32 },
}

impl DeepView for WaitAction {
    type V = WaitActionView;

    open spec fn deep_view(&self) -> WaitActionView {
        match self {
            WaitAction::Join(i) => WaitActionView::Join(*i as int),
            WaitAction::Completed { message } => WaitActionView::Completed { message: message@ },
            WaitAction::CompletedWithErrors { message, code } => {
                WaitActionView::CompletedWithErrors { message: message@, code: *code }
            },
        }
    }
}

/// The wait for the clients to shut down, one after the other.
#[derive(Debug, PartialEq, Eq)]
pub struct ClientWait {
    /// The names of the clients.
    pub names: Vec<String>,
    /// How many of them have ended.
    pub ended: usize,
    /// Whether those ended without an error.
    pub success: bool,
}

impl ClientWait {
    /// No more clients have ended than there are.
    pub open spec fn wf(self) -> bool {
        self.ended <= self.names.len()
    }

    /// What is to be done now.
    pub open spec fn pending_action(self) -> WaitActionView {
        if self.ended < self.names.len() {
            WaitActionView::Join(self.ended as int)
        } else if self.success {
            WaitActionView::Completed { message: "Shutdown completed successfully"@ }
        } else {
            WaitActionView::CompletedWithErrors {
                message: "Shutdown completed with errors"@,
                code: 1,
            }
        }
    }

    /// The wait after the next client ended with `outcome`.
    pub open spec fn after(self, outcome: Result<(), String>) -> ClientWait {
        ClientWait {
            names: self.names,
            ended: (self.ended + 1) as usize,
            success: self.success && outcome is Ok,
        }
    }

    /// What is told when the next client ended with `outcome`: nothing unless it failed.
    pub open spec fn told(self, outcome: Result<(), String>) -> Option<Seq<char>> {
        match outcome {
            Ok(_) => None,
            Err(cause) => Some(
                "client '"@ + self.names[self.ended as int]@ + "' exited with error: "@ + cause@,
            ),
        }
    }

    /// The next thing to do.
    pub fn pending(&self) -> (action: WaitAction)
        ensures
            action.deep_view() == self.pending_action(),
            self.ended < self.names.len() ==> action == WaitAction::Join(self.ended),
            self.ended >= self.names.len() && self.success ==> {
                &&& action matches WaitAction::Completed { message }
                &&& message@ == "Shutdown completed successfully"@
            },
            self.ended >= self.names.len() && !self.success ==> {
                &&& action matches WaitAction::CompletedWithErrors { message, code }
                &&& message@ == "Shutdown completed with errors"@
                &&& code == 1
            },
    {
        if self.ended < self.names.len() {
            WaitAction::Join(self.ended)
        } else if self.success {
            WaitAction::Completed { message: "Shutdown completed successfully".to_owned() }
        } else {
            WaitAction::CompletedWithErrors {
                message: "Shutdown completed with errors".to_owned(),
                code: 1,
            }
        }
    }
}

/// Run the application: starts to wait for the clients with these names.
pub fn run_app(names: Vec<String>) -> (wait: ClientWait)
    ensures
        wait == (ClientWait { names, ended: 0, success: true }),
{
    ClientWait { names, ended: 0, success: true }
}

/// Wait for clients to shut down: takes how the client that was waited for ended, and
/// returns what to tell about it.
pub fn blocking_wait(wait: &mut ClientWait, outcome: Result<(), String>) -> (told: Option<String>)
    requires
        old(wait).ended < old(wait).names.len(),
    ensures
        *final(wait) == old(wait).after(outcome),
        told.deep_view() == old(wait).told(outcome),
        final(wait).wf(),
        final(wait).ended == old(wait).ended + 1,
        final(wait).success == (old(wait).success && outcome is Ok),
        told is Some <==> outcome is Err,
        outcome matches Err(cause) ==> told->0@ == "client '"@ + old(
            wait,
        ).names[old(wait).ended as int]@ + "' exited with error: "@ + cause@,
{
    let told = match outcome {
        Ok(_) => None,
        Err(cause) => {
            wait.success = false;
            let mut message: String = "client '".to_owned();
            message.append(wait.names[wait.ended].as_str());
            message.append("' exited with error: ");
            message.append(cause.as_str());
            Some(message)
        },
    };
    wait.ended = wait.ended + 1;
    told
}

/// The wait after the first clients ended with these outcomes.
pub open spec fn wait_after(wait: ClientWait, outcomes: Seq<Result<(), String>>) -> ClientWait
    decreases outcomes.len(),
{
    if outcomes.len() == 0 {
        wait
    } else {
        wait_after(wait, outcomes.drop_last()).after(outcomes.last())
    }
}

/// Every client is joined once and in order, whether or not an earlier one failed,
/// and the shutdown counts as successful exactly when no client failed.
pub proof fn shutdown_waits_for_all(names: Vec<String>, outcomes: Seq<Result<(), String>>)
    requires
        outcomes.len() <= names.len(),
    ensures
        ({
            let wait = wait_after(ClientWait { names, ended: 0, success: true }, outcomes);
            &&& wait.names == names
            &&& wait.ended == outcomes.len()
            &&& wait.success <==> forall|i: int|
                0 <= i < outcomes.len() ==> #[trigger] outcomes[i] is Ok
            &&& outcomes.len() < names.len() ==> wait.pending_action() == WaitActionView::Join(
                outcomes.len() as int,
            )
            &&& outcomes.len() == names.len() ==> (wait.pending_action() is Completed
                <==> forall|i: int| 0 <= i < outcomes.len() ==> #[trigger] outcomes[i] is Ok)
            &&& outcomes.len() == names.len() ==> !(wait.pending_action() is Join)
        }),
    decreases outcomes.len(),
{
    if outcomes.len() > 0 {
        let earlier = outcomes.drop_last();
        shutdown_waits_for_all(names, earlier);
        assert(forall|i: int| 0 <= i < earlier.len() ==> earlier[i] == outcomes[i]);
        let wait = wait_after(ClientWait { names, ended: 0, success: true }, outcomes);
        if wait.success {
            assert forall|i: int| 0 <= i < outcomes.len() implies #[trigger] outcomes[i] is Ok by {
                if i < earlier.len() {
                    assert(earlier[i] is Ok);
                }
            }
        } else if outcomes.last() is Ok {
            let i = choose|i: int| 0 <= i < earlier.len() && !(#[trigger] earlier[i] is Ok);
            assert(!(outcomes[i] is Ok));
        } else {
            assert(!(outcomes[outcomes.len() - 1] is Ok));
        }
    }
}

/// How a run is chosen: with an HTTP server exactly when one is configured, and then
/// with its address and its port; it is told the command's path if there is one, and
/// else keeps the configured one.
pub proof fn configured_server_is_run(
    command: StartCommand,
    configured: Option<HttpServerConfig>,
    mode: RunMode,
)
    requires
        mode.deep_view() == command.mode(configured.deep_view()),
    ensures
        mode is WithHttpServer <==> configured is Some,
        mode is Legacy <==> configured is None,
        mode matches RunMode::WithHttpServer(running) ==> {
            let server = configured->0;
            &&& running.bind_address@ == server.bind_address@
            &&& running.port == server.port
            &&& command.config is Some ==> running.config_file_path == command.config
            &&& command.config is None ==> running.config_file_path == server.config_file_path
        },
{
    if let RunMode::WithHttpServer(running) = mode {
        let server = configured->0;
        assert(configured.deep_view() == Some(server.deep_view()));
        assert(running.deep_view().bind_address == server.deep_view().bind_address);
    }
}

/// The application learns the path of the command, and loses nothing if the command
/// has none.
pub proof fn started_path_is_remembered(command: StartCommand, app: KmsApplication)
    ensures
        command.config is Some ==> command.app_after(app).config_file_path == command.config,
        command.config is None ==> command.app_after(app).config_file_path == app.config_file_path,
{
}

/// What a run with an HTTP server waits for is always there: it starts with its first
/// client, and with the HTTP server alone where it has no client, which it then says.
pub proof fn run_starts_with_first_client(clients: usize)
    ensures
        HttpRun::waiting_for(clients, 0).clients == clients,
        clients > 0 ==> {
            &&& HttpRun::waiting_for(clients, 0).wait == HttpRunWait::Client(0)
            &&& HttpRun::lines_at(clients, 0).len() == 0
        },
        clients == 0 ==> {
            &&& HttpRun::waiting_for(clients, 0).wait == HttpRunWait::HttpServerOnly
            &&& HttpRun::lines_at(clients, 0) == seq![
                LogLineView { level: LogLevel::Info, text: "All clients finished"@ },
            ]
        },
        HttpRun::waiting_for(clients, 0).wf(),
{
}

/// The end of a client is told if it failed, the run goes on to the next client, and
/// after the last one it says so and goes on with the HTTP server alone.
pub proof fn client_end_is_told(run: HttpRun, i: usize, outcome: Result<(), String>)
    requires
        run.wait == HttpRunWait::Client(i),
        i < run.clients,
    ensures
        ({
            let (next, lines) = run.step(HttpRunEvent::ClientEnded(outcome));
            let failures: int = if outcome is Err { 1 } else { 0 };
            &&& next.clients == run.clients
            &&& i + 1 < run.clients ==> next.wait == HttpRunWait::Client((i + 1) as usize)
                && lines.len() == failures
            &&& i + 1 == run.clients ==> {
                &&& next.wait == HttpRunWait::HttpServerOnly
                &&& lines.len() == failures + 1
                &&& lines.last() == (LogLineView {
                    level: LogLevel::Info,
                    text: "All clients finished"@,
                })
            }
            &&& outcome matches Err(cause) ==> lines[0] == (LogLineView {
                level: LogLevel::Error,
                text: "Client error: "@ + cause@,
            })
        }),
{
}

/// The end of the HTTP server is told with its cause and ends the run; a second that
/// passes changes and tells nothing.
pub proof fn server_end_is_told(run: HttpRun, cause: String)
    ensures
        run.step(HttpRunEvent::HttpServerEnded(HttpServerEnd::Stopped)).1 == seq![
            LogLineView { level: LogLevel::Info, text: "HTTP server stopped normally"@ },
        ],
        run.step(HttpRunEvent::HttpServerEnded(HttpServerEnd::ServerError(cause))).1 == seq![
            LogLineView { level: LogLevel::Error, text: "HTTP server error: "@ + cause@ },
        ],
        run.step(HttpRunEvent::HttpServerEnded(HttpServerEnd::TaskError(cause))).1 == seq![
            LogLineView { level: LogLevel::Error, text: "HTTP server task error: "@ + cause@ },
        ],
        run.step(HttpRunEvent::SecondPassed).0 == run,
        run.step(HttpRunEvent::SecondPassed).1.len() == 0,
{
}

/// What a run can be told: the end of the HTTP server until the run is over, the end
/// of a client exactly while one is waited for, and that a second passed exactly while
/// only the HTTP server is left.
pub proof fn run_takes_every_event(run: HttpRun, event: HttpRunEvent)
    ensures
        event is HttpServerEnded ==> (run.expects(event) <==> run.wait != HttpRunWait::Ended),
        event is ClientEnded ==> (run.expects(event) <==> run.wait is Client),
        event is SecondPassed ==> (run.expects(event) <==> run.wait is HttpServerOnly),
        run.wf() <==> (run.wait matches HttpRunWait::Client(i) ==> i < run.clients),
{
}

/// Whether a client failed decides how the program exits: if one did, with the warning
/// and exit code 1, however many clients there are; if none did, with the message of
/// success and no exit code.
pub proof fn failed_client_fails_shutdown(
    names: Vec<String>,
    outcomes: Seq<Result<(), String>>,
    action: WaitAction,
)
    requires
        outcomes.len() == names.len(),
        action.deep_view() == wait_after(
            ClientWait { names, ended: 0, success: true },
            outcomes,
        ).pending_action(),
    ensures
        (exists|i: int| 0 <= i < outcomes.len() && #[trigger] outcomes[i] is Err) ==> {
            &&& action matches WaitAction::CompletedWithErrors { message, code }
            &&& message@ == "Shutdown completed with errors"@
            &&& code == 1
        },
        (forall|i: int| 0 <= i < outcomes.len() ==> #[trigger] outcomes[i] is Ok) ==> {
            &&& action matches WaitAction::Completed { message }
            &&& message@ == "Shutdown completed successfully"@
        },
{
    shutdown_waits_for_all(names, outcomes);
}

/// A client is joined as long as there is one that has not ended, and it is the next
/// one; a failure is told under that client's own name and with its cause.
pub proof fn next_client_is_joined(
    names: Vec<String>,
    outcomes: Seq<Result<(), String>>,
    outcome: Result<(), String>,
    action: WaitAction,
)
    requires
        outcomes.len() < names.len(),
        action.deep_view() == wait_after(
            ClientWait { names, ended: 0, success: true },
            outcomes,
        ).pending_action(),
    ensures
        action matches WaitAction::Join(i) && i == outcomes.len(),
        ({
            let told = wait_after(ClientWait { names, ended: 0, success: true }, outcomes).told(
                outcome,
            );
            match outcome {
                Ok(_) => told is None,
                Err(cause) => told == Some(
                    "client '"@ + names[outcomes.len() as int]@ + "' exited with error: "@ + cause@,
                ),
            }
        }),
{
    shutdown_waits_for_all(names, outcomes);
}

/// The models of log lines and of actions tell all of them.
pub proof fn start_models_are_complete(a: LogLine, b: LogLine, c: WaitAction, d: WaitAction)
    requires
        a.deep_view() == b.deep_view(),
        c.deep_view() == d.deep_view(),
    ensures
        a.level == b.level,
        a.text@ == b.text@,
        match (c, d) {
            (WaitAction::Join(i), WaitAction::Join(j)) => i == j,
            (WaitAction::Completed { message: m }, WaitAction::Completed { message: n }) => m@
                == n@,
            (
                WaitAction::CompletedWithErrors { message: m, code: x },
                WaitAction::CompletedWithErrors { message: n, code: y },
            ) => m@ == n@ && x == y,
            _ => false,
        },
{
}

/// There is a client for each validator, in order, exactly when the chains could be
/// loaded; if not, the cause is told and the program exits with code 1.
pub proof fn every_validator_gets_a_client(
    command: StartCommand,
    loaded: Result<(), String>,
    validators: Vec<ValidatorConfig>,
    plan: SpawnPlan,
)
    requires
        call_ensures(StartCommand::spawn_clients, (&command, loaded, &validators), plan),
    ensures
        loaded is Ok ==> {
            &&& plan matches SpawnPlan::Spawn(configs)
            &&& configs.len() == validators.len()
            &&& forall|i: int|
                0 <= i < validators.len() ==> (#[trigger] configs[i]).deep_view()
                    == validators[i].deep_view()
        },
        loaded matches Err(cause) ==> {
            &&& plan matches SpawnPlan::Exit { message, code }
            &&& message@ == "error loading configuration: "@ + cause@
            &&& code == 1
        },
{
    if let SpawnPlan::Spawn(configs) = plan {
        assert(configs.deep_view().len() == validators.deep_view().len());
        assert forall|i: int| 0 <= i < validators.len() implies (#[trigger] configs[i]).deep_view()
            == validators[i].deep_view() by {
            assert(configs.deep_view()[i] == validators.deep_view()[i]);
        }
    }
}

/// A wait begins with all of the clients, none of which has ended or failed.
pub proof fn wait_begins_with_all_clients(names: Vec<String>, wait: ClientWait)
    requires
        call_ensures(run_app, (names,), wait),
    ensures
        wait.names == names,
        wait.ended == 0,
        wait.success,
{
}

/// Starting a server: it runs with an HTTP server exactly when one is configured, on
/// the configured address and port, and both the HTTP server and the application learn
/// the command's path and keep their own where there is none.
pub proof fn start_obeys_configuration(
    command: StartCommand,
    app: &mut KmsApplication,
    configured: Option<HttpServerConfig>,
    mode: RunMode,
)
    requires
        call_ensures(StartCommand::run, (&command, app, &configured), mode),
    ensures
        mode is WithHttpServer <==> configured is Some,
        mode matches RunMode::WithHttpServer(running) ==> {
            let server = configured->0;
            &&& running.bind_address@ == server.bind_address@
            &&& running.port == server.port
            &&& command.config is Some ==> running.config_file_path == command.config
            &&& command.config is None ==> running.config_file_path == server.config_file_path
        },
        command.config is Some ==> final(app).config_file_path == command.config,
        command.config is None ==> final(app).config_file_path == old(app).config_file_path,
{
}

/// Joining a client counts it, keeps every name, remembers a failure for good, and
/// tells exactly a failure, with the client's name and the cause.
pub proof fn joining_counts_and_tells(
    wait: &mut ClientWait,
    outcome: Result<(), String>,
    told: Option<String>,
)
    requires
        old(wait).ended < old(wait).names.len(),
        call_ensures(blocking_wait, (wait, outcome), told),
    ensures
        final(wait).names == old(wait).names,
        final(wait).ended == old(wait).ended + 1,
        final(wait).success <==> old(wait).success && outcome is Ok,
        outcome is Ok ==> told is None,
        outcome matches Err(cause) ==> {
            &&& told matches Some(message)
            &&& message@ == "client '"@ + old(wait).names[old(wait).ended as int]@
                + "' exited with error: "@ + cause@
        },
{
}

/// What waiting does next: it joins the next client as long as there is one; then it
/// exits with code 1 if a client failed, and goes on to the end if none did.
pub proof fn waiting_ends_by_success(wait: ClientWait, action: WaitAction)
    requires
        call_ensures(ClientWait::pending, (&wait,), action),
    ensures
        wait.ended < wait.names.len() ==> action == WaitAction::Join(wait.ended),
        wait.ended >= wait.names.len() && wait.success ==> {
            &&& action matches WaitAction::Completed { message }
            &&& message@ == "Shutdown completed successfully"@
        },
        wait.ended >= wait.names.len() && !wait.success ==> {
            &&& action matches WaitAction::CompletedWithErrors { message, code }
            &&& message@ == "Shutdown completed with errors"@
            &&& code == 1
        },
{
}

/// Telling a run an event takes it where [`HttpRun::step`] says, and it begins and
/// takes events as its own tests say.
pub proof fn run_takes_its_steps(
    run: &mut HttpRun,
    event: HttpRunEvent,
    lines: Vec<LogLine>,
    clients: usize,
    started: (HttpRun, Vec<LogLine>),
    can: bool,
)
    requires
        call_ensures(HttpRun::advance, (run, event), lines),
        call_ensures(run_app_with_http_server, (clients,), started),
        call_ensures(HttpRun::can_take, (old(run), &event), can),
    ensures
        (*final(run), lines.deep_view()) == old(run).step(event),
        final(run).wait == HttpRunWait::Ended <==> event is HttpServerEnded,
        started.0 == HttpRun::waiting_for(clients, 0),
        started.1.deep_view() == HttpRun::lines_at(clients, 0),
        can <==> old(run).wf() && old(run).expects(event),
{
}

/// Waiting that is over ends well exactly when no client failed, with however many
/// clients it began.
pub proof fn end_of_waiting_tells_success(wait: ClientWait)
    requires
        wait.ended >= wait.names.len(),
    ensures
        wait.pending_action() is Completed <==> wait.success,
        wait.pending_action() matches WaitActionView::CompletedWithErrors { code, .. } ==> code
            == 1,
        !(wait.pending_action() is Join),
{
}

/// A `start` command names no path and is not verbose unless it is told to be.
pub proof fn plain_start_names_no_path(command: StartCommand)
    requires
        call_ensures(StartCommand::default, (), command),
    ensures
        command.config is None,
        !command.verbose,
{
}

} // verus!
