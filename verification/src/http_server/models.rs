//! What the endpoints take and what they answer.
use vstd::prelude::*;

use crate::config::ChainConfig;
use crate::config::ChainConfigView;
use crate::config::ProviderConfig;
use crate::config::ProviderConfigView;
use crate::config::ValidatorConfig;
use crate::config::ValidatorConfigView;

verus! {

/// A request to add a chain, with its validator and its signing providers.
#[derive(Debug, PartialEq, Eq)]
pub struct AddChainRequest {
    /// The chain to add.
    pub chain: ChainConfig,
    /// The validator of that chain.
    pub validator: ValidatorConfig,
    /// The providers to add.
    pub provider: ProviderConfig,
}

/// The model of an `AddChainRequest`.
#[verifier::ext_equal]
pub struct AddChainRequestView {
    pub chain: ChainConfigView,
    pub validator: ValidatorConfigView,
    pub provider: ProviderConfigView,
}

impl AddChainRequestView {
    /// Whether the validator is one of the chain to add.
    pub open spec fn is_consistent(self) -> bool {
        self.validator.chain_id == self.chain.id
    }
}

impl DeepView for AddChainRequest {
    type V = AddChainRequestView;

    open spec fn deep_view(&self) -> AddChainRequestView {
        AddChainRequestView {
            chain: self.chain.deep_view(),
            validator: self.validator.deep_view(),
            provider: self.provider.deep_view(),
        }
    }
}

/// The answer to a request that added a chain.
#[derive(Debug, PartialEq, Eq)]
pub struct AddChainResponse {
    /// What was done.
    pub message: String,
    /// The identifier of the chain.
    pub chain_id: String,
}

/// The answer to a request that failed.
#[derive(Debug, PartialEq, Eq)]
pub struct ErrorResponse {
    /// What went wrong.
    pub error: String,
}

/// The answer to a request for the list of chains.
#[derive(Debug, PartialEq, Eq)]
pub struct ListChainsResponse {
    /// The identifiers of the registered chains.
    pub chains: Vec<String>,
}

/// The answer to a health check.
#[derive(Debug, PartialEq, Eq)]
pub struct HealthResponse {
    /// How the server is.
    pub status: String,
    /// Which service answers.
    pub service: String,
}

/// What a reply to a request to add a chain holds.
#[derive(Debug, PartialEq, Eq)]
pub enum ReplyBody {
    /// The chain was added.
    Added(AddChainResponse),
    /// The request failed.
    Failed(ErrorResponse),
}

/// The model of a `ReplyBody`.
#[verifier::ext_equal]
pub enum ReplyBodyView {
    Added { message: Seq<char>, chain_id: Seq<char> },
    Failed { error: Seq<char> },
}

impl DeepView for ReplyBody {
    type V = ReplyBodyView;

    open spec fn deep_view(&self) -> ReplyBodyView {
        match self {
            ReplyBody::Added(response) => ReplyBodyView::Added {
                message: response.message@,
                chain_id: response.chain_id@,
            },
            ReplyBody::Failed(response) => ReplyBodyView::Failed { error: response.error@ },
        }
    }
}

/// A JSON reply with its HTTP status code.
#[derive(Debug, PartialEq, Eq)]
pub struct JsonReply {
    /// The HTTP status code.
    pub status: u16,
    /// The value that is sent as JSON.
    pub body: ReplyBody,
}

/// The model of a `JsonReply`.
#[verifier::ext_equal]
pub struct JsonReplyView {
    pub status: u16,
    pub body: ReplyBodyView,
}

impl DeepView for JsonReply {
    type V = JsonReplyView;

    open spec fn deep_view(&self) -> JsonReplyView {
        JsonReplyView { status: self.status, body: self.body.deep_view() }
    }
}

/// A request is consistent exactly when its validator names the chain that it adds:
/// nothing else of the request matters.
pub proof fn consistent_means_same_chain(request: AddChainRequest)
    ensures
        request.deep_view().is_consistent() <==> request.validator.chain_id@ == request.chain.id@,
{
}

/// The model of a request tells all of it.
pub proof fn request_model_is_complete(a: AddChainRequest, b: AddChainRequest)
    requires
        a.deep_view() == b.deep_view(),
    ensures
        a.chain.deep_view() == b.chain.deep_view(),
        a.validator.deep_view() == b.validator.deep_view(),
        a.provider.deep_view() == b.provider.deep_view(),
{
}

/// The model of a reply tells its status and all that its body holds.
pub proof fn reply_model_is_complete(a: JsonReply, b: JsonReply)
    requires
        a.deep_view() == b.deep_view(),
    ensures
        a.status == b.status,
        match (a.body, b.body) {
            (ReplyBody::Added(x), ReplyBody::Added(y)) => x.message@ == y.message@ && x.chain_id@
                == y.chain_id@,
            (ReplyBody::Failed(x), ReplyBody::Failed(y)) => x.error@ == y.error@,
            _ => false,
        },
{
    assert(a.body.deep_view() == b.body.deep_view());
}

} // verus!
