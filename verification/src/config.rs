//! The configuration file's contents, and what adding to them means.
//!
//! Each type has a model in which texts are sequences of characters and lists are
//! sequences; the contracts speak of the models.
use std::path::PathBuf;
use vstd::prelude::*;

use crate::http_server::config::HttpServerConfig;
use crate::http_server::config::HttpServerConfigView;

verus! {

/// How the public keys of a chain are written.
#[derive(Debug, PartialEq, Eq)]
pub enum Format {
    /// Bech32, with a prefix for account keys and one for consensus keys.
    Bech32 { account_key_prefix: String, consensus_key_prefix: String },
    /// Any other format, kept as the text of its table.
    Other { document: String },
}

/// The model of a `Format`.
#[verifier::ext_equal]
pub enum FormatView {
    Bech32 { account_key_prefix: Seq<char>, consensus_key_prefix: Seq<char> },
    Other { document: Seq<char> },
}

impl DeepView for Format {
    type V = FormatView;

    open spec fn deep_view(&self) -> FormatView {
        match self {
            Format::Bech32 { account_key_prefix, consensus_key_prefix } => FormatView::Bech32 {
                account_key_prefix: account_key_prefix@,
                consensus_key_prefix: consensus_key_prefix@,
            },
            Format::Other { document } => FormatView::Other { document: document@ },
        }
    }
}

impl Clone for Format {
    fn clone(&self) -> (copy: Self)
        ensures
            copy.deep_view() == self.deep_view(),
    {
        match self {
            Format::Bech32 { account_key_prefix, consensus_key_prefix } => Format::Bech32 {
                account_key_prefix: account_key_prefix.clone(),
                consensus_key_prefix: consensus_key_prefix.clone(),
            },
            Format::Other { document } => Format::Other { document: document.clone() },
        }
    }
}

/// A chain to sign for: one `[[chain]]` table.
#[derive(Debug, PartialEq, Eq)]
pub struct ChainConfig {
    /// The chain's identifier.
    pub id: String,
    /// How the chain's public keys are written.
    pub key_format: Format,
    /// Whether vote extensions are signed.
    pub sign_extensions: bool,
    /// Where the consensus state is kept.
    pub state_file: Option<PathBuf>,
    /// The hook that is run for the initial state, kept as the text of its table.
    pub state_hook: Option<String>,
}

/// The model of a `ChainConfig`.
#[verifier::ext_equal]
pub struct ChainConfigView {
    pub id: Seq<char>,
    pub key_format: FormatView,
    pub sign_extensions: bool,
    pub state_file: Option<PathBuf>,
    pub state_hook: Option<Seq<char>>,
}

impl DeepView for ChainConfig {
    type V = ChainConfigView;

    open spec fn deep_view(&self) -> ChainConfigView {
        ChainConfigView {
            id: self.id@,
            key_format: self.key_format.deep_view(),
            sign_extensions: self.sign_extensions,
            state_file: self.state_file,
            state_hook: self.state_hook.deep_view(),
        }
    }
}

impl Clone for ChainConfig {
    fn clone(&self) -> (copy: Self)
        ensures
            copy.deep_view() == self.deep_view(),
    {
        ChainConfig {
            id: self.id.clone(),
            key_format: self.key_format.clone(),
            sign_extensions: self.sign_extensions,
            state_file: self.state_file.clone(),
            state_hook: self.state_hook.clone(),
        }
    }
}

/// A validator to connect to: one `[[validator]]` table.
#[derive(Debug, PartialEq, Eq)]
pub struct ValidatorConfig {
    /// The validator's address.
    pub addr: String,
    /// The identifier of the chain that the validator runs.
    pub chain_id: String,
    /// Whether to connect again after the connection is lost.
    pub reconnect: bool,
    /// The connection timeout in seconds.
    pub timeout: Option<u16>,
    /// The key file of the secret connection.
    pub secret_key: Option<PathBuf>,
    /// The height at which to stop.
    pub max_height: Option<u64>,
    /// The version of the connection protocol.
    pub protocol_version: Option<String>,
}

/// The model of a `ValidatorConfig`.
#[verifier::ext_equal]
pub struct ValidatorConfigView {
    pub addr: Seq<char>,
    pub chain_id: Seq<char>,
    pub reconnect: bool,
    pub timeout: Option<u16>,
    pub secret_key: Option<PathBuf>,
    pub max_height: Option<u64>,
    pub protocol_version: Option<Seq<char>>,
}

impl DeepView for ValidatorConfig {
    type V = ValidatorConfigView;

    open spec fn deep_view(&self) -> ValidatorConfigView {
        ValidatorConfigView {
            addr: self.addr@,
            chain_id: self.chain_id@,
            reconnect: self.reconnect,
            timeout: self.timeout,
            secret_key: self.secret_key,
            max_height: self.max_height,
            protocol_version: self.protocol_version.deep_view(),
        }
    }
}

impl Clone for ValidatorConfig {
    fn clone(&self) -> (copy: Self)
        ensures
            copy.deep_view() == self.deep_view(),
    {
        ValidatorConfig {
            addr: self.addr.clone(),
            chain_id: self.chain_id.clone(),
            reconnect: self.reconnect,
            timeout: self.timeout,
            secret_key: self.secret_key.clone(),
            max_height: self.max_height,
            protocol_version: self.protocol_version.clone(),
        }
    }
}

/// What a signing key is for.
#[derive(Debug, Clone, Copy, PartialEq, Eq, Structural)]
pub enum KeyType {
    /// An account key.
    Account,
    /// A consensus key.
    Consensus,
}

/// A signing key in a file: one `[[providers.softsign]]` table.
#[derive(Debug, PartialEq, Eq)]
pub struct SoftsignConfig {
    /// The chains that the key signs for.
    pub chain_ids: Vec<String>,
    /// What the key is for.
    pub key_type: KeyType,
    /// How the key file is encoded.
    pub key_format: Option<String>,
    /// The key file.
    pub path: PathBuf,
}

/// The model of a `SoftsignConfig`.
#[verifier::ext_equal]
pub struct SoftsignConfigView {
    pub chain_ids: Seq<Seq<char>>,
    pub key_type: KeyType,
    pub key_format: Option<Seq<char>>,
    pub path: PathBuf,
}

impl DeepView for SoftsignConfig {
    type V = SoftsignConfigView;

    open spec fn deep_view(&self) -> SoftsignConfigView {
        SoftsignConfigView {
            chain_ids: self.chain_ids.deep_view(),
            key_type: self.key_type,
            key_format: self.key_format.deep_view(),
            path: self.path,
        }
    }
}

impl Clone for SoftsignConfig {
    fn clone(&self) -> (copy: Self)
        ensures
            copy.deep_view() == self.deep_view(),
    {
        let chain_ids = self.chain_ids.clone();
        assert(chain_ids.deep_view() =~= self.chain_ids.deep_view());
        SoftsignConfig {
            chain_ids,
            key_type: self.key_type,
            key_format: self.key_format.clone(),
            path: self.path.clone(),
        }
    }
}

/// A signing provider whose table is carried along and not interpreted.
#[derive(Debug, PartialEq, Eq)]
pub struct DeviceConfig {
    /// The text of the table.
    pub document: String,
}

impl DeepView for DeviceConfig {
    type V = Seq<char>;

    open spec fn deep_view(&self) -> Seq<char> {
        self.document@
    }
}

impl Clone for DeviceConfig {
    fn clone(&self) -> (copy: Self)
        ensures
            copy.deep_view() == self.deep_view(),
    {
        DeviceConfig { document: self.document.clone() }
    }
}

/// The signing providers, by kind.
#[derive(Debug, PartialEq, Eq)]
pub struct ProviderConfig {
    /// Keys in files.
    pub softsign: Vec<SoftsignConfig>,
    /// YubiHSM devices.
    pub yubihsm: Vec<DeviceConfig>,
    /// Ledger devices.
    pub ledgertm: Vec<DeviceConfig>,
    /// Fortanix DSM accounts.
    pub fortanixdsm: Vec<DeviceConfig>,
}

/// The model of a `ProviderConfig`.
#[verifier::ext_equal]
pub struct ProviderConfigView {
    pub softsign: Seq<SoftsignConfigView>,
    pub yubihsm: Seq<Seq<char>>,
    pub ledgertm: Seq<Seq<char>>,
    pub fortanixdsm: Seq<Seq<char>>,
}

impl ProviderConfigView {
    /// No provider of any kind.
    pub open spec fn empty() -> Self {
        ProviderConfigView {
            softsign: Seq::empty(),
            yubihsm: Seq::empty(),
            ledgertm: Seq::empty(),
            fortanixdsm: Seq::empty(),
        }
    }

    /// These providers, followed by those of `new`, kind by kind.
    pub open spec fn merged_with(self, new: Self) -> Self {
        ProviderConfigView {
            softsign: self.softsign + new.softsign,
            yubihsm: self.yubihsm + new.yubihsm,
            ledgertm: self.ledgertm + new.ledgertm,
            fortanixdsm: self.fortanixdsm + new.fortanixdsm,
        }
    }
}

impl DeepView for ProviderConfig {
    type V = ProviderConfigView;

    open spec fn deep_view(&self) -> ProviderConfigView {
        ProviderConfigView {
            softsign: self.softsign.deep_view(),
            yubihsm: self.yubihsm.deep_view(),
            ledgertm: self.ledgertm.deep_view(),
            fortanixdsm: self.fortanixdsm.deep_view(),
        }
    }
}

impl Default for ProviderConfig {
    fn default() -> (providers: Self)
        ensures
            providers.deep_view() == ProviderConfigView::empty(),
    {
        ProviderConfig {
            softsign: Vec::new(),
            yubihsm: Vec::new(),
            ledgertm: Vec::new(),
            fortanixdsm: Vec::new(),
        }
    }
}

/// The contents of the configuration file.
#[derive(Debug, PartialEq, Eq)]
pub struct KmsConfig {
    /// The chains to sign for.
    pub chain: Vec<ChainConfig>,
    /// The validators to connect to.
    pub validator: Vec<ValidatorConfig>,
    /// The signing providers.
    pub providers: ProviderConfig,
    /// The HTTP server, where one is to run.
    pub http_server: Option<HttpServerConfig>,
}

/// The model of a `KmsConfig`.
#[verifier::ext_equal]
pub struct KmsConfigView {
    pub chain: Seq<ChainConfigView>,
    pub validator: Seq<ValidatorConfigView>,
    pub providers: ProviderConfigView,
    pub http_server: Option<HttpServerConfigView>,
}

impl KmsConfigView {
    /// What of the configuration is kept in the file: all but the path that the HTTP
    /// server was told.
    pub open spec fn as_stored(self) -> Self {
        KmsConfigView {
            chain: self.chain,
            validator: self.validator,
            providers: self.providers,
            http_server: match self.http_server {
                Some(config) => Some(
                    HttpServerConfigView {
                        bind_address: config.bind_address,
                        port: config.port,
                        config_file_path: None,
                    },
                ),
                None => None,
            },
        }
    }
}

impl DeepView for KmsConfig {
    type V = KmsConfigView;

    open spec fn deep_view(&self) -> KmsConfigView {
        KmsConfigView {
            chain: self.chain.deep_view(),
            validator: self.validator.deep_view(),
            providers: self.providers.deep_view(),
            http_server: self.http_server.deep_view(),
        }
    }
}

/// The model of a format tells which one it is and everything in it.
pub proof fn format_model_is_complete(a: Format, b: Format)
    requires
        a.deep_view() == b.deep_view(),
    ensures
        match (a, b) {
            (
                Format::Bech32 { account_key_prefix: a1, consensus_key_prefix: a2 },
                Format::Bech32 { account_key_prefix: b1, consensus_key_prefix: b2 },
            ) => a1@ == b1@ && a2@ == b2@,
            (Format::Other { document: a1 }, Format::Other { document: b1 }) => a1@ == b1@,
            _ => false,
        },
{
}

/// The model of a chain's configuration tells every field of it.
pub proof fn chain_model_is_complete(a: ChainConfig, b: ChainConfig)
    requires
        a.deep_view() == b.deep_view(),
    ensures
        a.id@ == b.id@,
        a.key_format.deep_view() == b.key_format.deep_view(),
        a.sign_extensions == b.sign_extensions,
        a.state_file == b.state_file,
        a.state_hook is Some <==> b.state_hook is Some,
        a.state_hook is Some ==> a.state_hook->0@ == b.state_hook->0@,
{
    assert(a.state_hook.deep_view() == b.state_hook.deep_view());
}

/// The model of a validator's configuration tells every field of it.
pub proof fn validator_model_is_complete(a: ValidatorConfig, b: ValidatorConfig)
    requires
        a.deep_view() == b.deep_view(),
    ensures
        a.addr@ == b.addr@,
        a.chain_id@ == b.chain_id@,
        a.reconnect == b.reconnect,
        a.timeout == b.timeout,
        a.secret_key == b.secret_key,
        a.max_height == b.max_height,
        a.protocol_version is Some <==> b.protocol_version is Some,
        a.protocol_version is Some ==> a.protocol_version->0@ == b.protocol_version->0@,
{
    assert(a.protocol_version.deep_view() == b.protocol_version.deep_view());
}

/// The model of a signing key's configuration tells every field of it.
pub proof fn softsign_model_is_complete(a: SoftsignConfig, b: SoftsignConfig)
    requires
        a.deep_view() == b.deep_view(),
    ensures
        a.chain_ids.len() == b.chain_ids.len(),
        forall|i: int|
            0 <= i < a.chain_ids.len() ==> #[trigger] a.chain_ids[i]@ == b.chain_ids[i]@,
        a.key_type == b.key_type,
        a.key_format is Some <==> b.key_format is Some,
        a.key_format is Some ==> a.key_format->0@ == b.key_format->0@,
        a.path == b.path,
{
    assert(a.key_format.deep_view() == b.key_format.deep_view());
    assert(a.chain_ids.deep_view().len() == b.chain_ids.deep_view().len());
    assert forall|i: int| 0 <= i < a.chain_ids.len() implies #[trigger] a.chain_ids[i]@
        == b.chain_ids[i]@ by {
        assert(a.chain_ids.deep_view()[i] == b.chain_ids.deep_view()[i]);
    }
}

/// The model of the providers tells every provider of every kind, in order.
pub proof fn provider_model_is_complete(a: ProviderConfig, b: ProviderConfig)
    requires
        a.deep_view() == b.deep_view(),
    ensures
        a.softsign.deep_view() == b.softsign.deep_view(),
        a.yubihsm.len() == b.yubihsm.len(),
        a.ledgertm.len() == b.ledgertm.len(),
        a.fortanixdsm.len() == b.fortanixdsm.len(),
        forall|i: int|
            0 <= i < a.yubihsm.len() ==> (#[trigger] a.yubihsm[i]).document@
                == b.yubihsm[i].document@,
        forall|i: int|
            0 <= i < a.ledgertm.len() ==> (#[trigger] a.ledgertm[i]).document@
                == b.ledgertm[i].document@,
        forall|i: int|
            0 <= i < a.fortanixdsm.len() ==> (#[trigger] a.fortanixdsm[i]).document@
                == b.fortanixdsm[i].document@,
{
    assert(a.yubihsm.deep_view() == b.yubihsm.deep_view());
    assert(a.ledgertm.deep_view() == b.ledgertm.deep_view());
    assert(a.fortanixdsm.deep_view() == b.fortanixdsm.deep_view());
    assert(a.yubihsm.deep_view().len() == b.yubihsm.deep_view().len());
    assert(a.ledgertm.deep_view().len() == b.ledgertm.deep_view().len());
    assert(a.fortanixdsm.deep_view().len() == b.fortanixdsm.deep_view().len());
    assert forall|i: int| 0 <= i < a.yubihsm.len() implies (#[trigger] a.yubihsm[i]).document@
        == b.yubihsm[i].document@ by {
        assert(a.yubihsm.deep_view()[i] == b.yubihsm.deep_view()[i]);
    }
    assert forall|i: int| 0 <= i < a.ledgertm.len() implies (#[trigger] a.ledgertm[i]).document@
        == b.ledgertm[i].document@ by {
        assert(a.ledgertm.deep_view()[i] == b.ledgertm.deep_view()[i]);
    }
    assert forall|i: int| 0 <= i < a.fortanixdsm.len() implies (
    #[trigger] a.fortanixdsm[i]).document@ == b.fortanixdsm[i].document@ by {
        assert(a.fortanixdsm.deep_view()[i] == b.fortanixdsm.deep_view()[i]);
    }
}

/// The model of a configuration tells every chain, every validator, the providers and
/// the HTTP server.
pub proof fn config_model_is_complete(a: KmsConfig, b: KmsConfig)
    requires
        a.deep_view() == b.deep_view(),
    ensures
        a.chain.deep_view() == b.chain.deep_view(),
        a.validator.deep_view() == b.validator.deep_view(),
        a.providers.deep_view() == b.providers.deep_view(),
        a.http_server is Some <==> b.http_server is Some,
        a.http_server matches Some(x) ==> {
            let y = b.http_server->0;
            &&& x.bind_address@ == y.bind_address@
            &&& x.port == y.port
            &&& x.config_file_path == y.config_file_path
        },
{
    assert(a.http_server.deep_view() == b.http_server.deep_view());
    if a.http_server is Some {
        assert((a.http_server->0).deep_view() == (b.http_server->0).deep_view());
    }
}

/// What is kept in the file is all of the configuration but the path that the HTTP
/// server was told.
pub proof fn stored_part_is_the_rest(config: KmsConfigView)
    ensures
        config.as_stored().chain == config.chain,
        config.as_stored().validator == config.validator,
        config.as_stored().providers == config.providers,
        config.as_stored().http_server is Some <==> config.http_server is Some,
        config.http_server matches Some(server) ==> {
            let stored = config.as_stored().http_server->0;
            &&& stored.bind_address == server.bind_address
            &&& stored.port == server.port
            &&& stored.config_file_path is None
        },
{
}

/// Merging keeps every provider in its place and puts the new ones after them, kind by
/// kind, and nothing else.
pub proof fn merging_appends(existing: ProviderConfigView, new: ProviderConfigView)
    ensures
        ({
            let merged = existing.merged_with(new);
            &&& appended(existing.softsign, new.softsign, merged.softsign)
            &&& appended(existing.yubihsm, new.yubihsm, merged.yubihsm)
            &&& appended(existing.ledgertm, new.ledgertm, merged.ledgertm)
            &&& appended(existing.fortanixdsm, new.fortanixdsm, merged.fortanixdsm)
        }),
{
}

/// Whether `all` is `first` followed by `second`.
pub open spec fn appended<T>(first: Seq<T>, second: Seq<T>, all: Seq<T>) -> bool {
    &&& all.len() == first.len() + second.len()
    &&& forall|i: int| 0 <= i < first.len() ==> #[trigger] all[i] == first[i]
    &&& forall|i: int|
        first.len() <= i < all.len() ==> #[trigger] all[i] == second[i - first.len()]
}

/// By default there is no provider of any kind.
pub proof fn no_provider_by_default(providers: ProviderConfig)
    requires
        call_ensures(ProviderConfig::default, (), providers),
    ensures
        providers.softsign.len() == 0,
        providers.yubihsm.len() == 0,
        providers.ledgertm.len() == 0,
        providers.fortanixdsm.len() == 0,
{
    assert(providers.softsign.deep_view().len() == 0);
    assert(providers.yubihsm.deep_view().len() == 0);
    assert(providers.ledgertm.deep_view().len() == 0);
    assert(providers.fortanixdsm.deep_view().len() == 0);
}

} // verus!
