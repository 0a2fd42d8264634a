//! HTTP request handlers.
//!
//! Adding a chain takes file operations and a registration in memory, which the
//! server performs. [`add_chain`] says what the first of them is, and
//! [`AddChain::advance`] takes the outcome of one and says what the next one is,
//! until there is a reply to send.
use std::path::PathBuf;
use vstd::pervasive::unreached;
use vstd::prelude::*;

use crate::application::KmsApplication;
use crate::config::ChainConfig;
use crate::config::KmsConfig;
use crate::config::KmsConfigView;
use crate::config::ProviderConfig;
use crate::error::Error;
use crate::http_server::config::HttpServerConfig;
use crate::http_server::config_update::atomic_config_update;
use crate::http_server::config_update::ConfigUpdate;
use crate::http_server::config_update::UpdateAction;
use crate::http_server::config_update::UpdateEvent;
use crate::http_server::config_update::UpdateStage;
use crate::http_server::config_update::UpdateStart;
use crate::http_server::models::AddChainRequest;
use crate::http_server::models::AddChainRequestView;
use crate::http_server::models::AddChainResponse;
use crate::http_server::models::ErrorResponse;
use crate::http_server::models::HealthResponse;
use crate::http_server::models::JsonReply;
use crate::http_server::models::JsonReplyView;
use crate::http_server::models::ListChainsResponse;
use crate::http_server::models::ReplyBody;
use crate::http_server::models::ReplyBodyView;

verus! {

/// Calls `StatusCode::as_u16` on `StatusCode::CREATED`: the code is 201.
#[verifier::external_body]
fn status_created() -> (code: u16)
    ensures
        code == 201,
{
    warp::http::StatusCode::CREATED.as_u16()
}

/// Calls `StatusCode::as_u16` on `StatusCode::BAD_REQUEST`: the code is 400.
#[verifier::external_body]
fn status_bad_request() -> (code: u16)
    ensures
        code == 400,
{
    warp::http::StatusCode::BAD_REQUEST.as_u16()
}

/// Calls `StatusCode::as_u16` on `StatusCode::INTERNAL_SERVER_ERROR`: the code is
/// 500.
#[verifier::external_body]
fn status_internal_server_error() -> (code: u16)
    ensures
        code == 500,
{
    warp::http::StatusCode::INTERNAL_SERVER_ERROR.as_u16()
}

/// A message about a request that could not be served.
#[derive(Debug, PartialEq, Eq)]
pub struct ConfigError(pub String);

impl ConfigError {
    /// An error with this message.
    pub fn new(message: String) -> (error: Self)
        ensures
            error.0 == message,
    {
        ConfigError(message)
    }
}

/// Merge provider configuration with existing providers: the new ones follow the
/// existing ones of their kind.
pub fn merge_provider_config(existing: &mut ProviderConfig, new: &ProviderConfig)
    ensures
        final(existing).deep_view() == old(existing).deep_view().merged_with(new.deep_view()),
        final(existing).softsign.deep_view() == old(existing).softsign.deep_view()
            + new.softsign.deep_view(),
        final(existing).yubihsm.deep_view() == old(existing).yubihsm.deep_view()
            + new.yubihsm.deep_view(),
        final(existing).ledgertm.deep_view() == old(existing).ledgertm.deep_view()
            + new.ledgertm.deep_view(),
        final(existing).fortanixdsm.deep_view() == old(existing).fortanixdsm.deep_view()
            + new.fortanixdsm.deep_view(),
{
    existing.softsign.extend_from_slice(new.softsign.as_slice());
    existing.yubihsm.extend_from_slice(new.yubihsm.as_slice());
    existing.ledgertm.extend_from_slice(new.ledgertm.as_slice());
    existing.fortanixdsm.extend_from_slice(new.fortanixdsm.as_slice());
    proof {
        let before = old(existing).deep_view();
        let added = new.deep_view();
        assert(existing.softsign.deep_view() =~= before.softsign + added.softsign);
        assert(existing.yubihsm.deep_view() =~= before.yubihsm + added.yubihsm);
        assert(existing.ledgertm.deep_view() =~= before.ledgertm + added.ledgertm);
        assert(existing.fortanixdsm.deep_view() =~= before.fortanixdsm + added.fortanixdsm);
    }
}

/// What is said of a request whose validator is one of another chain.
pub open spec fn mismatch_message(request: AddChainRequestView) -> Seq<char> {
    "Chain ID mismatch: validator chain_id "@ + request.validator.chain_id + " != chain id "@
        + request.chain.id
}

/// Validate the add chain request: its validator must be one of the chain to add.
pub fn validate_add_chain_request(request: &AddChainRequest) -> (outcome: Result<(), ErrorResponse>)
    ensures
        outcome is Ok <==> request.deep_view().is_consistent(),
        outcome is Ok <==> request.validator.chain_id@ == request.chain.id@,
        outcome matches Err(response) ==> response.error@ == mismatch_message(
            request.deep_view(),
        ),
        outcome matches Err(response) ==> response.error@
            == "Chain ID mismatch: validator chain_id "@ + request.validator.chain_id@
            + " != chain id "@ + request.chain.id@,
{
    if request.validator.chain_id == request.chain.id {
        Ok(())
    } else {
        let mut error: String = "Chain ID mismatch: validator chain_id ".to_owned();
        error.append(request.validator.chain_id.as_str());
        error.append(" != chain id ");
        error.append(request.chain.id.as_str());
        Err(ErrorResponse { error })
    }
}

/// The configuration with what `request` adds: the chain and the validator at the
/// end of their lists, and the providers after the existing ones.
pub open spec fn config_with_chain(
    config: KmsConfigView,
    request: AddChainRequestView,
) -> KmsConfigView {
    KmsConfigView {
        chain: config.chain.push(request.chain),
        validator: config.validator.push(request.validator),
        providers: config.providers.merged_with(request.provider),
        http_server: config.http_server,
    }
}

/// Update the configuration with the new chain.
pub fn update_config_file(config: &mut KmsConfig, request: &AddChainRequest)
    ensures
        final(config).deep_view() == config_with_chain(
            old(config).deep_view(),
            request.deep_view(),
        ),
        final(config).chain.deep_view() == old(config).chain.deep_view().push(
            request.chain.deep_view(),
        ),
        final(config).validator.deep_view() == old(config).validator.deep_view().push(
            request.validator.deep_view(),
        ),
        final(config).http_server == old(config).http_server,
{
    config.chain.push(request.chain.clone());
    config.validator.push(request.validator.clone());
    merge_provider_config(&mut config.providers, &request.provider);
    proof {
        let before = old(config).deep_view();
        assert(config.chain.deep_view() =~= before.chain.push(request.chain.deep_view()));
        assert(config.validator.deep_view() =~= before.validator.push(
            request.validator.deep_view(),
        ));
    }
}

/// The action of a registration whose outcome is waited for.
#[derive(Debug, Clone, Copy, PartialEq, Eq, Structural)]
pub enum RegisterStage {
    /// Building the chain from its configuration.
    Build,
    /// Entering the built chain in the registry.
    Register,
}

/// What a registration does next.
#[derive(Debug, PartialEq, Eq)]
pub enum RegisterStep {
    /// Enter the built chain in the registry.
    Register,
    /// Nothing: the chain is registered.
    Registered,
    /// Nothing: the chain is not registered.
    Failed(Error),
}

/// What follows when the action of `stage` came out as `outcome`.
pub open spec fn register_step(stage: RegisterStage, outcome: Result<(), String>) -> RegisterStep {
    match outcome {
        Err(cause) => RegisterStep::Failed(Error::Other(cause)),
        Ok(_) => match stage {
            RegisterStage::Build => RegisterStep::Register,
            RegisterStage::Register => RegisterStep::Registered,
        },
    }
}

/// Register the chain in the in-memory registry: it is built, then entered, and the
/// first failure ends the registration.
pub fn register_chain_in_memory(stage: RegisterStage, outcome: Result<(), String>) -> (step:
    RegisterStep)
    ensures
        step == register_step(stage, outcome),
        step is Failed <==> outcome is Err,
        step is Registered <==> outcome is Ok && stage == RegisterStage::Register,
{
    match outcome {
        Err(cause) => RegisterStep::Failed(Error::Other(cause)),
        Ok(_) => match stage {
            RegisterStage::Build => RegisterStep::Register,
            RegisterStage::Register => RegisterStep::Registered,
        },
    }
}

/// The reply to a request that added the chain `chain_id`.
pub open spec fn success_reply(chain_id: Seq<char>) -> JsonReplyView {
    JsonReplyView {
        status: 201,
        body: ReplyBodyView::Added { message: "Successfully added chain "@ + chain_id, chain_id },
    }
}

/// The reply to a request that failed.
pub open spec fn error_reply(message: Seq<char>, status: u16) -> JsonReplyView {
    JsonReplyView { status, body: ReplyBodyView::Failed { error: message } }
}

/// Create a success response for chain addition.
pub fn create_success_response(chain_id: &str) -> (reply: JsonReply)
    ensures
        reply.deep_view() == success_reply(chain_id@),
        reply.status == 201,
        reply.body matches ReplyBody::Added(response) && response.chain_id@ == chain_id@
            && response.message@ == "Successfully added chain "@ + chain_id@,
{
    let mut message: String = "Successfully added chain ".to_owned();
    message.append(chain_id);
    JsonReply {
        status: status_created(),
        body: ReplyBody::Added(AddChainResponse { message, chain_id: chain_id.to_owned() }),
    }
}

/// Create an error response.
pub fn create_error_response(message: &str, status: u16) -> (reply: JsonReply)
    ensures
        reply.deep_view() == error_reply(message@, status),
        reply.status == status,
        reply.body matches ReplyBody::Failed(response) && response.error@ == message@,
{
    JsonReply { status, body: ReplyBody::Failed(ErrorResponse { error: message.to_owned() }) }
}

/// How far a request to add a chain has come.
#[derive(Debug, PartialEq, Eq)]
pub enum AddChainStage {
    /// The configuration file is being updated.
    Updating(ConfigUpdate),
    /// The chain is being registered in memory.
    Registering(RegisterStage),
    /// The request has been answered.
    Replied,
    /// The request cannot be served.
    Aborted,
}

/// Something that is to be done for a request to add a chain.
#[derive(Debug, PartialEq, Eq)]
pub enum AddChainAction {
    /// A file operation, or the conversion of a configuration from or to text.
    Update(UpdateAction),
    /// Build the chain from its configuration.
    BuildChain(ChainConfig),
    /// Enter the chain that was built in the registry.
    RegisterChain,
    /// Send the reply. The request is over.
    Reply(JsonReply),
    /// Give up without a reply: the configuration file's path, given here, has no file
    /// name.
    Abort(PathBuf),
}

/// What came of an action for a request to add a chain. A failed one tells its cause.
#[derive(Debug, PartialEq, Eq)]
pub enum AddChainEvent {
    Update(UpdateEvent),
    ChainBuilt(Result<(), String>),
    ChainRegistered(Result<(), String>),
}

/// Whether an action for a request to add a chain failed.
pub open spec fn event_failed(event: AddChainEvent) -> bool {
    match event {
        AddChainEvent::Update(UpdateEvent::FileRead(outcome)) => outcome is Err,
        AddChainEvent::Update(UpdateEvent::ConfigParsed(outcome)) => outcome is Err,
        AddChainEvent::Update(UpdateEvent::UpdateApplied(outcome)) => outcome is Err,
        AddChainEvent::Update(UpdateEvent::ConfigSerialized(outcome)) => outcome is Err,
        AddChainEvent::Update(UpdateEvent::FileWritten(outcome)) => outcome is Err,
        AddChainEvent::Update(UpdateEvent::FileRenamed(outcome)) => outcome is Err,
        AddChainEvent::ChainBuilt(outcome) => outcome is Err,
        AddChainEvent::ChainRegistered(outcome) => outcome is Err,
    }
}

impl AddChainEvent {
    /// Whether this is an outcome of the action that is waited for at `stage`.
    pub open spec fn answers(self, stage: AddChainStage) -> bool {
        match stage {
            AddChainStage::Updating(update) => {
                &&& self matches AddChainEvent::Update(event)
                &&& event.answers(update.stage)
                &&& !(event is UpdateApplied)
            },
            AddChainStage::Registering(RegisterStage::Build) => self is ChainBuilt,
            AddChainStage::Registering(RegisterStage::Register) => self is ChainRegistered,
            AddChainStage::Replied => false,
            AddChainStage::Aborted => false,
        }
    }

    /// Tests whether this is an outcome of the action that is waited for at `stage`.
    pub fn is_answer_at(&self, stage: &AddChainStage) -> (answers: bool)
        ensures
            answers == self.answers(*stage),
    {
        match stage {
            AddChainStage::Updating(update) => match self {
                AddChainEvent::Update(UpdateEvent::UpdateApplied(_)) => false,
                AddChainEvent::Update(event) => event.is_answer_at(update.stage),
                _ => false,
            },
            AddChainStage::Registering(RegisterStage::Build) => match self {
                AddChainEvent::ChainBuilt(_) => true,
                _ => false,
            },
            AddChainStage::Registering(RegisterStage::Register) => match self {
                AddChainEvent::ChainRegistered(_) => true,
                _ => false,
            },
            AddChainStage::Replied => false,
            AddChainStage::Aborted => false,
        }
    }
}

/// A request to add a chain that is being served.
#[derive(Debug, PartialEq, Eq)]
pub struct AddChain {
    /// The request.
    pub request: AddChainRequest,
    /// How far it has come.
    pub stage: AddChainStage,
}

/// Whether a request to add a chain is served by `served` and begins with `action`,
/// where the configuration file is at `config_path`. A request that is not
/// consistent is answered at once, with status 400.
pub open spec fn add_chain_starts(
    request: AddChainRequest,
    config_path: Option<PathBuf>,
    served: AddChain,
    action: AddChainAction,
) -> bool {
    &&& served.request == request
    &&& if !request.deep_view().is_consistent() {
        &&& served.stage == AddChainStage::Replied
        &&& action matches AddChainAction::Reply(reply)
        &&& reply.deep_view() == error_reply(mismatch_message(request.deep_view()), 400)
    } else {
        match crate::http_server::config_update::update_start(config_path) {
            UpdateStart::Started(update, first) => {
                &&& served.stage == AddChainStage::Updating(update)
                &&& action == AddChainAction::Update(first)
            },
            UpdateStart::Failed(error) => {
                &&& served.stage == AddChainStage::Replied
                &&& action matches AddChainAction::Reply(reply)
                &&& reply.deep_view() == update_failed_reply(error)
            },
            UpdateStart::NotAFile(path) => {
                &&& served.stage == AddChainStage::Aborted
                &&& action == AddChainAction::Abort(path)
            },
        }
    }
}

/// The reply when the configuration file could not be updated.
pub open spec fn update_failed_reply(error: Error) -> JsonReplyView {
    error_reply("Failed to update configuration: "@ + error.shown(), 500)
}

/// The reply when the chain could not be registered.
pub open spec fn register_failed_reply(error: Error) -> JsonReplyView {
    error_reply("Failed to register chain in memory: "@ + error.shown(), 500)
}

impl AddChain {
    /// Whether `after` and `action` are what follows this state on `event`.
    ///
    /// The file operations follow each other as [`ConfigUpdate::step`] says, with the
    /// new chain added to the configuration as soon as that is known. Once the file is
    /// replaced, the chain is built and registered. Any failure is answered with status
    /// 500, success with status 201.
    pub open spec fn continues(
        self,
        event: AddChainEvent,
        after: AddChain,
        action: AddChainAction,
    ) -> bool {
        &&& after.request == self.request
        &&& match (self.stage, event) {
            (
                AddChainStage::Updating(update),
                AddChainEvent::Update(UpdateEvent::ConfigParsed(Ok(config))),
            ) => {
                &&& after.stage == AddChainStage::Updating(update.at(UpdateStage::Serialize))
                &&& action matches AddChainAction::Update(
                    UpdateAction::SerializeConfig { config: new_config },
                )
                &&& new_config.deep_view() == config_with_chain(
                    config.deep_view(),
                    self.request.deep_view(),
                )
            },
            (AddChainStage::Updating(update), AddChainEvent::Update(update_event)) => {
                let (next, next_action) = update.step(update_event);
                match next_action {
                    UpdateAction::Finish { result: Ok(_) } => {
                        &&& after.stage == AddChainStage::Registering(RegisterStage::Build)
                        &&& action matches AddChainAction::BuildChain(chain)
                        &&& chain.deep_view() == self.request.chain.deep_view()
                    },
                    UpdateAction::Finish { result: Err(error) } => {
                        &&& after.stage == AddChainStage::Replied
                        &&& action matches AddChainAction::Reply(reply)
                        &&& reply.deep_view() == update_failed_reply(error)
                    },
                    _ => {
                        &&& after.stage == AddChainStage::Updating(next)
                        &&& action == AddChainAction::Update(next_action)
                    },
                }
            },
            (AddChainStage::Registering(stage), AddChainEvent::ChainBuilt(outcome)) => {
                self.registers(register_step(stage, outcome), after, action)
            },
            (AddChainStage::Registering(stage), AddChainEvent::ChainRegistered(outcome)) => {
                self.registers(register_step(stage, outcome), after, action)
            },
            _ => false,
        }
    }

    /// Whether `after` and `action` are what follows when the registration takes `step`.
    pub open spec fn registers(
        self,
        step: RegisterStep,
        after: AddChain,
        action: AddChainAction,
    ) -> bool {
        match step {
            RegisterStep::Register => {
                &&& after.stage == AddChainStage::Registering(RegisterStage::Register)
                &&& action == AddChainAction::RegisterChain
            },
            RegisterStep::Registered => {
                &&& after.stage == AddChainStage::Replied
                &&& action matches AddChainAction::Reply(reply)
                &&& reply.deep_view() == success_reply(self.request.chain.id@)
            },
            RegisterStep::Failed(error) => {
                &&& after.stage == AddChainStage::Replied
                &&& action matches AddChainAction::Reply(reply)
                &&& reply.deep_view() == register_failed_reply(error)
            },
        }
    }

    fn fail(&mut self, what: &str, error: &Error) -> (action: AddChainAction)
        ensures
            final(self).request == old(self).request,
            final(self).stage == AddChainStage::Replied,
            action matches AddChainAction::Reply(reply) && reply.deep_view() == error_reply(
                what@ + error.shown(),
                500,
            ),
    {
        self.stage = AddChainStage::Replied;
        let mut message: String = what.to_owned();
        message.append(error.describe().as_str());
        AddChainAction::Reply(
            create_error_response(message.as_str(), status_internal_server_error()),
        )
    }

    fn register(&mut self, step: RegisterStep) -> (action: AddChainAction)
        ensures
            final(self).request == old(self).request,
            old(self).registers(step, *final(self), action),
    {
        match step {
            RegisterStep::Register => {
                self.stage = AddChainStage::Registering(RegisterStage::Register);
                AddChainAction::RegisterChain
            },
            RegisterStep::Registered => {
                self.stage = AddChainStage::Replied;
                AddChainAction::Reply(create_success_response(self.request.chain.id.as_str()))
            },
            RegisterStep::Failed(error) => self.fail(
                "Failed to register chain in memory: ",
                &error,
            ),
        }
    }

    /// Takes the outcome of the pending action and returns the next action.
    pub fn advance(&mut self, event: AddChainEvent) -> (action: AddChainAction)
        requires
            event.answers(old(self).stage),
        ensures
            old(self).continues(event, *final(self), action),
            final(self).request == old(self).request,
            action matches AddChainAction::Reply(reply) && reply.status != 201 ==> event_failed(
                event,
            ),
            event matches AddChainEvent::Update(UpdateEvent::ConfigParsed(Ok(config))) ==> {
                &&& action matches AddChainAction::Update(
                    UpdateAction::SerializeConfig { config: new_config },
                )
                &&& new_config.chain.deep_view() == config.chain.deep_view().push(
                    old(self).request.chain.deep_view(),
                )
                &&& new_config.validator.deep_view() == config.validator.deep_view().push(
                    old(self).request.validator.deep_view(),
                )
                &&& new_config.http_server.deep_view() == config.http_server.deep_view()
            },
            event matches AddChainEvent::Update(UpdateEvent::FileRenamed(Ok(_))) ==> action
                is BuildChain,
            event matches AddChainEvent::ChainBuilt(Ok(_)) ==> action is RegisterChain,
            event matches AddChainEvent::ChainRegistered(Ok(_)) ==> (
            action matches AddChainAction::Reply(reply) && reply.status == 201),
            action matches AddChainAction::Reply(reply) && reply.status == 201 ==> {
                &&& action->Reply_0.body matches ReplyBody::Added(response)
                &&& response.chain_id@ == old(self).request.chain.id@
            },
            event_failed(event) ==> (action matches AddChainAction::Reply(reply) && reply.status
                == 500),
            action matches AddChainAction::BuildChain(chain) ==> {
                let requested = old(self).request.chain;
                &&& chain.id@ == requested.id@
                &&& chain.key_format.deep_view() == requested.key_format.deep_view()
                &&& chain.sign_extensions == requested.sign_extensions
                &&& chain.state_file == requested.state_file
                &&& chain.state_hook.deep_view() == requested.state_hook.deep_view()
            },
    {
        match event {
            AddChainEvent::Update(update_event) => {
                let action = match &mut self.stage {
                    AddChainStage::Updating(update) => match update.advance(update_event) {
                        UpdateAction::ApplyUpdate { config } => {
                            let mut new_config = config;
                            update_config_file(&mut new_config, &self.request);
                            update.advance(UpdateEvent::UpdateApplied(Ok(new_config)))
                        },
                        other => other,
                    },
                    _ => unreached(),
                };
                match action {
                    UpdateAction::Finish { result: Ok(_) } => {
                        self.stage = AddChainStage::Registering(RegisterStage::Build);
                        AddChainAction::BuildChain(self.request.chain.clone())
                    },
                    UpdateAction::Finish { result: Err(error) } => self.fail(
                        "Failed to update configuration: ",
                        &error,
                    ),
                    _ => AddChainAction::Update(action),
                }
            },
            AddChainEvent::ChainBuilt(outcome) => {
                let step = register_chain_in_memory(RegisterStage::Build, outcome);
                self.register(step)
            },
            AddChainEvent::ChainRegistered(outcome) => {
                let step = register_chain_in_memory(RegisterStage::Register, outcome);
                self.register(step)
            },
        }
    }
}

/// Add a new chain: starts to serve the request and returns the first action.
pub fn add_chain(
    request: AddChainRequest,
    http_server: &Option<HttpServerConfig>,
    app: &KmsApplication,
) -> (started: (AddChain, AddChainAction))
    ensures
        add_chain_starts(
            request,
            crate::http_server::config_update::config_path_for(*http_server, *app),
            started.0,
            started.1,
        ),
        (started.1 matches AddChainAction::Reply(reply) && reply.status == 400)
            <==> request.validator.chain_id@ != request.chain.id@,
{
    if let Err(response) = validate_add_chain_request(&request) {
        let reply = JsonReply { status: status_bad_request(), body: ReplyBody::Failed(response) };
        return (
            AddChain { request, stage: AddChainStage::Replied },
            AddChainAction::Reply(reply),
        );
    }
    match atomic_config_update(http_server, app) {
        UpdateStart::Started(update, first) => (
            AddChain { request, stage: AddChainStage::Updating(update) },
            AddChainAction::Update(first),
        ),
        UpdateStart::Failed(error) => {
            let mut served = AddChain { request, stage: AddChainStage::Replied };
            let action = served.fail("Failed to update configuration: ", &error);
            (served, action)
        },
        UpdateStart::NotAFile(path) => (
            AddChain { request, stage: AddChainStage::Aborted },
            AddChainAction::Abort(path),
        ),
    }
}

/// List chains: the identifiers of the registered chains, in the registry's order.
pub fn list_chains(chain_ids: &Vec<String>) -> (response: ListChainsResponse)
    ensures
        response.chains.deep_view() == chain_ids.deep_view(),
{
    let chains = chain_ids.clone();
    assert(chains.deep_view() =~= chain_ids.deep_view());
    ListChainsResponse { chains }
}

/// Health check.
pub fn health_check() -> (response: HealthResponse)
    ensures
        response.status@ == "healthy"@,
        response.service@ == "tmkms-http-server"@,
{
    HealthResponse { status: "healthy".to_owned(), service: "tmkms-http-server".to_owned() }
}

/// What a registration does: a chain that could not be built or entered fails it, with
/// the cause as it was told; a chain that was built is entered; one that was entered
/// is registered.
pub proof fn registration_builds_then_enters(stage: RegisterStage, outcome: Result<(), String>)
    ensures
        outcome matches Err(cause) ==> {
            &&& register_step(stage, outcome) matches RegisterStep::Failed(error)
            &&& error.shown() == cause@
        },
        outcome is Ok && stage is Build ==> register_step(stage, outcome) is Register,
        outcome is Ok && stage is Register ==> register_step(stage, outcome) is Registered,
{
}

/// A reply of success has status 201 and names the chain; a reply of failure has the
/// status and the message that it was made with.
pub proof fn replies_say_what_they_are_for(
    reply: JsonReply,
    chain_id: Seq<char>,
    message: Seq<char>,
    status: u16,
)
    ensures
        reply.deep_view() == success_reply(chain_id) ==> {
            &&& reply.status == 201
            &&& reply.body matches ReplyBody::Added(response)
            &&& response.chain_id@ == chain_id
            &&& response.message@ == "Successfully added chain "@ + chain_id
        },
        reply.deep_view() == error_reply(message, status) ==> {
            &&& reply.status == status
            &&& reply.body matches ReplyBody::Failed(response)
            &&& response.error@ == message
        },
{
    if reply.deep_view() == success_reply(chain_id) {
        assert(reply.body.deep_view() == success_reply(chain_id).body);
    }
    if reply.deep_view() == error_reply(message, status) {
        assert(reply.body.deep_view() == error_reply(message, status).body);
    }
}

/// A request that is being served takes every outcome of what it waits for, and
/// nothing once it is over.
pub proof fn request_takes_every_outcome(stage: AddChainStage, event: AddChainEvent)
    ensures
        event.answers(stage) <==> match stage {
            AddChainStage::Updating(update) => match update.stage {
                UpdateStage::Read => event matches AddChainEvent::Update(UpdateEvent::FileRead(_)),
                UpdateStage::Parse => event matches AddChainEvent::Update(
                    UpdateEvent::ConfigParsed(_),
                ),
                UpdateStage::Serialize => event matches AddChainEvent::Update(
                    UpdateEvent::ConfigSerialized(_),
                ),
                UpdateStage::Write => event matches AddChainEvent::Update(
                    UpdateEvent::FileWritten(_),
                ),
                UpdateStage::Rename => event matches AddChainEvent::Update(
                    UpdateEvent::FileRenamed(_),
                ),
                UpdateStage::Update => false,
                UpdateStage::Done => false,
            },
            AddChainStage::Registering(RegisterStage::Build) => event is ChainBuilt,
            AddChainStage::Registering(RegisterStage::Register) => event is ChainRegistered,
            AddChainStage::Replied => false,
            AddChainStage::Aborted => false,
        },
{
}

/// A request is accepted exactly when its validator names the chain that it adds, and
/// refused with both identifiers.
pub proof fn validation_compares_identifiers(
    request: AddChainRequest,
    outcome: Result<(), ErrorResponse>,
)
    requires
        call_ensures(validate_add_chain_request, (&request,), outcome),
    ensures
        outcome is Ok <==> request.validator.chain_id@ == request.chain.id@,
        outcome matches Err(response) ==> response.error@
            == "Chain ID mismatch: validator chain_id "@ + request.validator.chain_id@
            + " != chain id "@ + request.chain.id@,
{
}

/// The list of chains holds every identifier that it was made from, in order, and no
/// other one.
pub proof fn listing_is_complete(chain_ids: Vec<String>, response: ListChainsResponse)
    requires
        call_ensures(list_chains, (&chain_ids,), response),
    ensures
        response.chains.len() == chain_ids.len(),
        forall|i: int|
            0 <= i < chain_ids.len() ==> #[trigger] response.chains[i]@ == chain_ids[i]@,
{
    assert(response.chains.deep_view().len() == chain_ids.deep_view().len());
    assert forall|i: int| 0 <= i < chain_ids.len() implies #[trigger] response.chains[i]@
        == chain_ids[i]@ by {
        assert(response.chains.deep_view()[i] == chain_ids.deep_view()[i]);
    }
}

/// Every answer to a health check is the same: this service, healthy.
pub proof fn health_is_told(response: HealthResponse)
    requires
        call_ensures(health_check, (), response),
    ensures
        response.status@ == "healthy"@,
        response.service@ == "tmkms-http-server"@,
{
}

/// Merging appends the new providers to the existing ones of their kind, entry by entry.
pub proof fn merging_adds_each_kind(existing: &mut ProviderConfig, new: ProviderConfig)
    requires
        call_ensures(merge_provider_config, (existing, &new), ()),
    ensures
        final(existing).softsign.deep_view() == old(existing).softsign.deep_view()
            + new.softsign.deep_view(),
        final(existing).yubihsm.deep_view() == old(existing).yubihsm.deep_view()
            + new.yubihsm.deep_view(),
        final(existing).ledgertm.deep_view() == old(existing).ledgertm.deep_view()
            + new.ledgertm.deep_view(),
        final(existing).fortanixdsm.deep_view() == old(existing).fortanixdsm.deep_view()
            + new.fortanixdsm.deep_view(),
{
}

/// Updating the configuration adds the chain, the validator and the providers of the
/// request after the existing ones, and changes nothing else.
pub proof fn updating_adds_the_request(config: &mut KmsConfig, request: AddChainRequest)
    requires
        call_ensures(update_config_file, (config, &request), ()),
    ensures
        final(config).chain.deep_view() == old(config).chain.deep_view().push(
            request.chain.deep_view(),
        ),
        final(config).validator.deep_view() == old(config).validator.deep_view().push(
            request.validator.deep_view(),
        ),
        final(config).providers.softsign.deep_view() == old(config).providers.softsign.deep_view()
            + request.provider.softsign.deep_view(),
        final(config).providers.yubihsm.deep_view() == old(config).providers.yubihsm.deep_view()
            + request.provider.yubihsm.deep_view(),
        final(config).providers.ledgertm.deep_view() == old(config).providers.ledgertm.deep_view()
            + request.provider.ledgertm.deep_view(),
        final(config).providers.fortanixdsm.deep_view()
            == old(config).providers.fortanixdsm.deep_view()
            + request.provider.fortanixdsm.deep_view(),
        final(config).http_server == old(config).http_server,
{
    let after = final(config).deep_view();
    assert(after.providers.softsign == final(config).providers.softsign.deep_view());
    assert(after.providers.yubihsm == final(config).providers.yubihsm.deep_view());
    assert(after.providers.ledgertm == final(config).providers.ledgertm.deep_view());
    assert(after.providers.fortanixdsm == final(config).providers.fortanixdsm.deep_view());
}

/// Serving a request goes as [`add_chain_starts`] and [`AddChain::continues`] say, its
/// registration as [`register_step`] says, and the test of events is what it says.
pub proof fn request_takes_its_steps(
    request: AddChainRequest,
    http_server: Option<HttpServerConfig>,
    app: KmsApplication,
    started: (AddChain, AddChainAction),
    served: &mut AddChain,
    event: AddChainEvent,
    action: AddChainAction,
    stage: RegisterStage,
    outcome: Result<(), String>,
    step: RegisterStep,
    answers: bool,
)
    requires
        call_ensures(add_chain, (request, &http_server, &app), started),
        call_ensures(AddChain::advance, (served, event), action),
        call_ensures(register_chain_in_memory, (stage, outcome), step),
        call_ensures(AddChainEvent::is_answer_at, (&event, &old(served).stage), answers),
    ensures
        add_chain_starts(
            request,
            crate::http_server::config_update::config_path_for(http_server, app),
            started.0,
            started.1,
        ),
        old(served).continues(event, *final(served), action),
        step == register_step(stage, outcome),
        answers <==> event.answers(old(served).stage),
{
}

/// A reply that is made of a chain or of a message says just that, with its status.
pub proof fn made_replies_say_what_they_are_for(
    chain_id: &str,
    success: JsonReply,
    message: &str,
    status: u16,
    failure: JsonReply,
)
    requires
        call_ensures(create_success_response, (chain_id,), success),
        call_ensures(create_error_response, (message, status), failure),
    ensures
        success.status == 201,
        success.body matches ReplyBody::Added(response) && response.chain_id@ == chain_id@
            && response.message@ == "Successfully added chain "@ + chain_id@,
        failure.status == status,
        failure.body matches ReplyBody::Failed(response) && response.error@ == message@,
{
}

/// A request whose chain was entered in the registry is answered with status 201 and
/// the identifier of that chain, whatever else the request holds.
pub proof fn success_names_the_chain(
    served: AddChain,
    event: AddChainEvent,
    after: AddChain,
    action: AddChainAction,
)
    requires
        served.stage == AddChainStage::Registering(RegisterStage::Register),
        event matches AddChainEvent::ChainRegistered(Ok(_)),
        served.continues(event, after, action),
    ensures
        after.stage == AddChainStage::Replied,
        action matches AddChainAction::Reply(reply) && reply.status == 201 && (
        reply.body matches ReplyBody::Added(response) && response.chain_id@
            == served.request.chain.id@ && response.message@ == "Successfully added chain "@
            + served.request.chain.id@),
{
    if let AddChainAction::Reply(reply) = action {
        replies_say_what_they_are_for(reply, served.request.chain.id@, Seq::empty(), 500);
    }
}

/// An error about a request holds the message that it was made with.
pub proof fn config_error_keeps_its_message(message: String, error: ConfigError)
    requires
        call_ensures(ConfigError::new, (message,), error),
    ensures
        error.0@ == message@,
{
}

} // verus!
