//! What a request to add a chain does, from its first action to its reply.
//!
//! The disk is modelled as in [`crate::http_server::atomicity`], and the registry as
//! the set of the identifiers of the registered chains, which nothing but the request
//! changes. How the registry is left by a registration that fails is not said.
use std::path::PathBuf;
use vstd::prelude::*;

use crate::config::KmsConfigView;
use crate::config::ProviderConfigView;
use crate::http_server::atomicity::performed;
use crate::http_server::atomicity::Disk;
use crate::http_server::config_update::UpdateAction;
use crate::http_server::config_update::UpdateEvent;
use crate::http_server::config_update::UpdateStage;
use crate::http_server::handlers::add_chain_starts;
use crate::http_server::handlers::config_with_chain;
use crate::error::errors_are_told;
use crate::http_server::handlers::error_reply;
use crate::http_server::handlers::event_failed;
use crate::http_server::handlers::mismatch_message;
use crate::http_server::handlers::success_reply;
use crate::http_server::handlers::AddChain;
use crate::http_server::handlers::AddChainAction;
use crate::http_server::handlers::AddChainEvent;
use crate::http_server::handlers::AddChainStage;
use crate::http_server::handlers::RegisterStage;
use crate::http_server::models::AddChainRequest;
use crate::http_server::models::AddChainRequestView;
use crate::http_server::models::JsonReply;
use crate::http_server::models::ListChainsResponse;
use crate::http_server::models::ReplyBody;
use crate::paths::path_file_name;
use crate::paths::path_join;
use crate::paths::path_parent;
use crate::paths::path_text;
use crate::paths::temp_path_of;

verus! {

/// Whether performing `action` on the disk `before` can come out as `event` and leave
/// the disk `after`. Building and registering a chain leave the disk alone.
pub open spec fn served_action(
    before: Disk,
    action: AddChainAction,
    event: AddChainEvent,
    after: Disk,
) -> bool {
    match action {
        AddChainAction::Update(update_action) => {
            &&& event matches AddChainEvent::Update(update_event)
            &&& performed(before, update_action, update_event, after)
        },
        AddChainAction::BuildChain(_) => event is ChainBuilt && after == before,
        AddChainAction::RegisterChain => event is ChainRegistered && after == before,
        AddChainAction::Reply(_) => false,
        AddChainAction::Abort(_) => false,
    }
}

/// The chains of the server.
pub struct Chains {
    /// The identifier of the chain that was built last, if one was.
    pub built: Option<Seq<char>>,
    /// The identifiers of the registered chains.
    pub registry: Set<Seq<char>>,
}

/// Whether performing `action` can come out as `event` and turn the chains `before` into
/// the chains `after`. A registration that succeeds enters the chain that was built.
pub open spec fn chains_action(
    before: Chains,
    action: AddChainAction,
    event: AddChainEvent,
    after: Chains,
) -> bool {
    match (action, event) {
        (AddChainAction::BuildChain(chain), AddChainEvent::ChainBuilt(outcome)) => {
            &&& after.registry == before.registry
            &&& outcome is Ok ==> after.built == Some(chain.id@)
        },
        (AddChainAction::RegisterChain, AddChainEvent::ChainRegistered(outcome)) => {
            outcome is Ok ==> after.registry == before.registry.insert(before.built->0)
        },
        _ => after == before,
    }
}

/// Whether a list of chains names exactly the registered ones.
pub open spec fn lists(response: ListChainsResponse, registry: Set<Seq<char>>) -> bool {
    response.chains.deep_view().to_set() == registry
}

/// A request to add a chain as it was served, up to some point: `actions[i]` was
/// pending at `states[i]` with the disk `disks[i]` and the chains `chains[i]`, and came
/// out as `events[i]`.
pub struct AddChainRun {
    pub request: AddChainRequest,
    pub config_path: Option<PathBuf>,
    pub states: Seq<AddChain>,
    pub actions: Seq<AddChainAction>,
    pub events: Seq<AddChainEvent>,
    pub disks: Seq<Disk>,
    pub chains: Seq<Chains>,
}

impl AddChainRun {
    /// Whether the request began to be served as [`add_chain_starts`] says.
    pub open spec fn starts(self) -> bool {
        &&& self.states.len() == self.events.len() + 1
        &&& self.actions.len() == self.events.len() + 1
        &&& self.disks.len() == self.events.len() + 1
        &&& self.chains.len() == self.events.len() + 1
        &&& add_chain_starts(self.request, self.config_path, self.states[0], self.actions[0])
    }

    /// Whether event `i` is an outcome of action `i`, and the request was served on from
    /// there as it must be.
    pub open spec fn follows(self, i: int) -> bool {
        &&& self.events[i].answers(self.states[i].stage)
        &&& served_action(self.disks[i], self.actions[i], self.events[i], self.disks[i + 1])
        &&& chains_action(
            self.chains[i],
            self.actions[i],
            self.events[i],
            self.chains[i + 1],
        )
        &&& self.states[i].continues(self.events[i], self.states[i + 1], self.actions[i + 1])
    }

    /// Whether this is how a request can be served.
    pub open spec fn valid(self) -> bool {
        &&& self.starts()
        &&& forall|i: int| 0 <= i < self.events.len() ==> #[trigger] self.follows(i)
    }

    /// The configuration file.
    pub open spec fn config_file(self) -> PathBuf {
        self.config_path->0
    }

    /// The temporary file.
    pub open spec fn temp_file(self) -> PathBuf {
        temp_path_of(self.config_file())->0
    }

    /// Whether disk `i` is the first disk, but for what is at the temporary file's path.
    pub open spec fn config_untouched(self, i: int) -> bool {
        self.disks[i].remove(self.temp_file()) == self.disks[0].remove(self.temp_file())
    }

    /// Whether at `i` the configuration file has been read, parsed, given the requested
    /// chain and replaced: it holds the serialized text of the parsed configuration
    /// with the chain added, the temporary file is gone, and every other file is as it
    /// was.
    pub open spec fn chain_added(self, i: int) -> bool {
        &&& 5 <= i < self.disks.len()
        &&& self.disks[0].contains_key(self.config_file())
        &&& self.events[0] matches AddChainEvent::Update(UpdateEvent::FileRead(Ok(old_text)))
        &&& self.events[1] matches AddChainEvent::Update(UpdateEvent::ConfigParsed(Ok(old_config)))
        &&& self.actions[2] matches AddChainAction::Update(
            UpdateAction::SerializeConfig { config: new_config },
        )
        &&& self.events[2] matches AddChainEvent::Update(
            UpdateEvent::ConfigSerialized(Ok(new_text)),
        )
        &&& old_text@ == self.disks[0][self.config_file()]
        &&& self.actions[1] == AddChainAction::Update(UpdateAction::ParseConfig { text: old_text })
        &&& new_config.deep_view() == config_with_chain(
            old_config.deep_view(),
            self.request.deep_view(),
        )
        &&& self.disks[i] == self.disks[0].remove(self.temp_file()).insert(
            self.config_file(),
            new_text@,
        )
    }

    /// The status of the reply to the request, by whether it tells of an added chain.
    pub open spec fn status_of(self, added: bool) -> u16 {
        if added {
            201
        } else if self.request.deep_view().is_consistent() {
            500
        } else {
            400
        }
    }

    /// Whether, by point `i`, the chain was handed over to be registered.
    pub open spec fn registration_began(self, i: int) -> bool {
        5 <= i && self.actions[5] is BuildChain
    }

    /// Whether, by point `i`, it is known what came of entering the chain in the registry.
    pub open spec fn registration_ended(self, i: int) -> bool {
        7 <= i && self.actions[6] is RegisterChain
    }

    /// What is known at point `i` of a valid run.
    spec fn known(self, i: int) -> bool {
        let state = self.states[i];
        let action = self.actions[i];
        &&& state.request == self.request
        &&& i <= 6 ==> self.chains[i].registry == self.chains[0].registry
        &&& match state.stage {
            AddChainStage::Updating(update) => {
                &&& self.request.deep_view().is_consistent()
                &&& self.config_path == Some(update.config_path)
                &&& temp_path_of(update.config_path) == Some(update.temp_path)
                &&& self.config_untouched(i)
                &&& action matches AddChainAction::Update(update_action)
                &&& match update.stage {
                    UpdateStage::Read => i == 0 && update_action == (UpdateAction::ReadFile {
                        path: self.config_file(),
                    }),
                    UpdateStage::Parse => {
                        &&& i == 1
                        &&& self.events[0] matches AddChainEvent::Update(
                            UpdateEvent::FileRead(Ok(old_text)),
                        )
                        &&& self.disks[0].contains_key(self.config_file())
                        &&& old_text@ == self.disks[0][self.config_file()]
                        &&& update_action == (UpdateAction::ParseConfig { text: old_text })
                    },
                    UpdateStage::Update => false,
                    UpdateStage::Serialize => i == 2 && update_action is SerializeConfig,
                    UpdateStage::Write => {
                        &&& i == 3
                        &&& self.events[2] matches AddChainEvent::Update(
                            UpdateEvent::ConfigSerialized(Ok(new_text)),
                        )
                        &&& update_action == (UpdateAction::WriteFile {
                            path: self.temp_file(),
                            text: new_text,
                        })
                    },
                    UpdateStage::Rename => {
                        &&& i == 4
                        &&& self.events[2] matches AddChainEvent::Update(
                            UpdateEvent::ConfigSerialized(Ok(new_text)),
                        )
                        &&& update_action == (UpdateAction::RenameFile {
                            from: self.temp_file(),
                            to: self.config_file(),
                        })
                        &&& self.disks[i].contains_key(self.temp_file())
                        &&& self.disks[i][self.temp_file()] == new_text@
                    },
                    UpdateStage::Done => false,
                }
            },
            AddChainStage::Registering(RegisterStage::Build) => {
                &&& i == 5
                &&& self.request.deep_view().is_consistent()
                &&& action matches AddChainAction::BuildChain(chain)
                &&& chain.id@ == self.request.chain.id@
                &&& self.chain_added(i)
            },
            AddChainStage::Registering(RegisterStage::Register) => {
                &&& i == 6
                &&& self.request.deep_view().is_consistent()
                &&& action is RegisterChain
                &&& self.chain_added(i)
                &&& self.events[5] matches AddChainEvent::ChainBuilt(Ok(_))
                &&& self.chains[i].built == Some(self.request.chain.id@)
            },
            AddChainStage::Replied => {
                &&& i <= 7
                &&& action is Reply
                &&& action->Reply_0.status == self.status_of(action->Reply_0.body is Added)
                &&& if i <= 5 {
                    self.config_untouched(i) && action->Reply_0.body is Failed
                } else {
                    &&& self.chain_added(i)
                    &&& action->Reply_0.body is Added ==> {
                        &&& i == 7
                        &&& self.events[5] matches AddChainEvent::ChainBuilt(Ok(_))
                        &&& self.events[6] matches AddChainEvent::ChainRegistered(Ok(_))
                        &&& action->Reply_0.deep_view() == success_reply(self.request.chain.id@)
                        &&& self.chains[i].registry == self.chains[0].registry.insert(
                            self.request.chain.id@,
                        )
                    }
                }
            },
            AddChainStage::Aborted => i == 0 && action is Abort,
        }
    }

    proof fn knows(self, i: int)
        requires
            self.valid(),
            0 <= i <= self.events.len(),
        ensures
            self.known(i),
        decreases i,
    {
        if i > 0 {
            self.knows(i - 1);
            assert(self.follows(i - 1));
            let temp = self.temp_file();
            if let AddChainStage::Updating(update) = self.states[i - 1].stage {
                if update.stage == UpdateStage::Write {
                    assert(self.disks[i].remove(temp) =~= self.disks[i - 1].remove(temp));
                }
                if update.stage == UpdateStage::Rename {
                    self.knows(1);
                    self.knows(2);
                    assert(self.follows(0));
                    assert(self.follows(1));
                    assert(self.follows(2));
                }
            }
        }
    }
}

/// A refused request changes nothing: where the validator is one of another chain,
/// the request is answered at once with status 400 and the two identifiers, and no
/// file operation and no registration is asked for.
pub proof fn refused_request_changes_nothing(run: AddChainRun)
    requires
        run.valid(),
        !run.request.deep_view().is_consistent(),
    ensures
        run.events.len() == 0,
        run.disks == seq![run.disks[0]],
        run.chains == seq![run.chains[0]],
        run.actions[0] matches AddChainAction::Reply(reply) && reply.deep_view() == error_reply(
            mismatch_message(run.request.deep_view()),
            400,
        ),
{
    if run.events.len() > 0 {
        assert(run.follows(0));
    }
    assert(run.disks =~= seq![run.disks[0]]);
    assert(run.chains =~= seq![run.chains[0]]);
}

/// A chain is added wholly or not at all: the configuration file is as it was until
/// it is replaced by the configuration with the chain added, and the chain is handed
/// over for registration exactly from then on. So a chain is never registered before
/// it is in the file, and a failed update leaves every file but the temporary one
/// alone.
pub proof fn file_changes_before_registration(run: AddChainRun, i: int)
    requires
        run.valid(),
        0 <= i <= run.events.len(),
    ensures
        run.registration_began(i) ==> run.chain_added(i),
        !run.registration_began(i) ==> run.config_untouched(i),
{
    run.knows(i);
    if i >= 5 {
        run.knows(5);
        if i > 5 {
            assert(run.follows(5));
        }
    }
}

/// Success is told only of a chain that is in the file and in the registry: then the
/// file has been replaced, no temporary file is left behind (as long as its path is
/// not the configuration file's own), and building and registering the chain have
/// succeeded.
pub proof fn success_means_added(run: AddChainRun, i: int)
    requires
        run.valid(),
        0 <= i <= run.events.len(),
        run.actions[i] matches AddChainAction::Reply(reply) && reply.status == 201,
    ensures
        run.chain_added(i),
        run.temp_file() != run.config_file() ==> !run.disks[i].contains_key(run.temp_file()),
        run.events[5] matches AddChainEvent::ChainBuilt(Ok(_)),
        run.events[6] matches AddChainEvent::ChainRegistered(Ok(_)),
        run.actions[i]->Reply_0.deep_view() == success_reply(run.request.chain.id@),
        run.chains[i].registry == run.chains[0].registry.insert(run.request.chain.id@),
{
    run.knows(i);
}

/// The registry changes only when the chain is entered in it: until then, and so
/// where a request is refused, where the update fails and where the chain cannot be
/// built, the registered chains are the same.
pub proof fn registry_changes_last(run: AddChainRun, i: int)
    requires
        run.valid(),
        0 <= i <= run.events.len(),
        !run.registration_ended(i),
    ensures
        run.chains[i].registry == run.chains[0].registry,
{
    run.knows(i);
    if i >= 7 {
        run.knows(6);
        assert(run.follows(6));
    }
}

/// A list of the chains shows what a request did: after a reply with status 201 it
/// names what it named before and the new chain; after one with status 400, or after
/// any reply before the chain was handed over for registration, it names the same.
pub proof fn listing_shows_added_chain(
    run: AddChainRun,
    i: int,
    before: ListChainsResponse,
    after: ListChainsResponse,
)
    requires
        run.valid(),
        0 <= i <= run.events.len(),
        run.actions[i] is Reply,
        lists(before, run.chains[0].registry),
        lists(after, run.chains[i].registry),
    ensures
        run.actions[i]->Reply_0.status == 201 ==> after.chains.deep_view().to_set()
            == before.chains.deep_view().to_set().insert(run.request.chain.id@),
        run.actions[i]->Reply_0.status == 400 ==> after.chains.deep_view().to_set()
            == before.chains.deep_view().to_set(),
        !run.registration_began(i) ==> after.chains.deep_view().to_set()
            == before.chains.deep_view().to_set(),
{
    run.knows(i);
    if run.actions[i]->Reply_0.status == 201 {
        success_means_added(run, i);
    }
    if run.actions[i]->Reply_0.status == 400 {
        refused_request_changes_nothing(run);
    }
    if !run.registration_began(i) {
        if i >= 6 {
            run.knows(5);
            assert(run.follows(5));
        }
    }
}

/// A chain is added only together with a validator of its own: whatever is handed
/// over for registration, and so whatever is in the new file, comes from a request
/// that names one chain.
pub proof fn added_chain_has_its_validator(run: AddChainRun, i: int)
    requires
        run.valid(),
        0 <= i <= run.events.len(),
        run.registration_began(i),
    ensures
        run.request.validator.chain_id@ == run.request.chain.id@,
{
    run.knows(5);
    assert(run.request.deep_view().is_consistent());
}

/// The status of a reply tells what happened: 201 that the chain was added, 400 that
/// the request was refused, 500 that something failed.
pub proof fn status_tells_outcome(run: AddChainRun, i: int)
    requires
        run.valid(),
        0 <= i <= run.events.len(),
        run.actions[i] is Reply,
    ensures
        run.actions[i]->Reply_0.status == run.status_of(run.actions[i]->Reply_0.body is Added),
{
    run.knows(i);
}

/// Every request comes to an end: after seven events at most there is a reply, unless
/// the configuration file's path has no file name, and nothing follows a reply.
pub proof fn requests_are_answered(run: AddChainRun)
    requires
        run.valid(),
    ensures
        run.events.len() <= 7,
        run.events.len() == 7 ==> run.actions.last() is Reply,
        forall|i: int| 0 <= i < run.events.len() ==> !(#[trigger] run.actions[i] is Reply),
        run.actions.last() is Abort ==> path_file_name(run.config_file()) is None,
{
    let last = run.events.len() as int;
    run.knows(last);
    if last > 7 {
        run.knows(7);
        assert(run.follows(7));
    }
    assert forall|i: int| 0 <= i < run.events.len() implies !(
        #[trigger] run.actions[i] is Reply) by {
        assert(run.follows(i));
    }
}

/// Adding a chain preserves the existing configuration: every chain, validator and
/// provider keeps its place and its contents, the HTTP server's table is the same,
/// and the new entries come after them.
pub proof fn adding_preserves_existing(config: KmsConfigView, request: AddChainRequestView)
    ensures
        ({
            let new = config_with_chain(config, request);
            &&& new.chain.len() == config.chain.len() + 1
            &&& new.chain.last() == request.chain
            &&& forall|i: int|
                0 <= i < config.chain.len() ==> #[trigger] new.chain[i] == config.chain[i]
            &&& new.validator.len() == config.validator.len() + 1
            &&& new.validator.last() == request.validator
            &&& forall|i: int|
                0 <= i < config.validator.len() ==> #[trigger] new.validator[i]
                    == config.validator[i]
            &&& keeps_prefix(config.providers.softsign, new.providers.softsign)
            &&& keeps_prefix(config.providers.yubihsm, new.providers.yubihsm)
            &&& keeps_prefix(config.providers.ledgertm, new.providers.ledgertm)
            &&& keeps_prefix(config.providers.fortanixdsm, new.providers.fortanixdsm)
            &&& new.providers.softsign.skip(config.providers.softsign.len() as int)
                == request.provider.softsign
            &&& new.providers.yubihsm.skip(config.providers.yubihsm.len() as int)
                == request.provider.yubihsm
            &&& new.providers.ledgertm.skip(config.providers.ledgertm.len() as int)
                == request.provider.ledgertm
            &&& new.providers.fortanixdsm.skip(config.providers.fortanixdsm.len() as int)
                == request.provider.fortanixdsm
            &&& new.http_server == config.http_server
        }),
{
    let new = config_with_chain(config, request);
    assert(new.providers.softsign.skip(config.providers.softsign.len() as int)
        =~= request.provider.softsign);
    assert(new.providers.yubihsm.skip(config.providers.yubihsm.len() as int)
        =~= request.provider.yubihsm);
    assert(new.providers.ledgertm.skip(config.providers.ledgertm.len() as int)
        =~= request.provider.ledgertm);
    assert(new.providers.fortanixdsm.skip(config.providers.fortanixdsm.len() as int)
        =~= request.provider.fortanixdsm);
}

/// Whether `new_list` begins with `old_list`.
pub open spec fn keeps_prefix<T>(old_list: Seq<T>, new_list: Seq<T>) -> bool {
    &&& old_list.len() <= new_list.len()
    &&& forall|i: int| 0 <= i < old_list.len() ==> #[trigger] new_list[i] == old_list[i]
}

/// Merging providers is associative, and merging none changes nothing.
pub proof fn merging_composes(a: ProviderConfigView, b: ProviderConfigView, c: ProviderConfigView)
    ensures
        a.merged_with(b).merged_with(c) == a.merged_with(b.merged_with(c)),
        a.merged_with(ProviderConfigView::empty()) == a,
        ProviderConfigView::empty().merged_with(a) == a,
{
    assert(a.merged_with(b).merged_with(c) =~= a.merged_with(b.merged_with(c)));
    assert(a.merged_with(ProviderConfigView::empty()) =~= a);
    assert(ProviderConfigView::empty().merged_with(a) =~= a);
}

/// Adding one chain after another keeps both: the entries of the first request come
/// after the existing ones, and those of the second after them.
pub proof fn adding_twice_keeps_both(
    config: KmsConfigView,
    first: AddChainRequestView,
    second: AddChainRequestView,
)
    ensures
        ({
            let new = config_with_chain(config_with_chain(config, first), second);
            &&& new.chain == config.chain + seq![first.chain, second.chain]
            &&& new.validator == config.validator + seq![first.validator, second.validator]
            &&& new.providers == config.providers.merged_with(
                first.provider.merged_with(second.provider),
            )
            &&& new.http_server == config.http_server
        }),
{
    let new = config_with_chain(config_with_chain(config, first), second);
    assert(new.chain =~= config.chain + seq![first.chain, second.chain]);
    assert(new.validator =~= config.validator + seq![first.validator, second.validator]);
    merging_composes(config.providers, first.provider, second.provider);
}

/// A request builds on the one before it: where both are answered with status 201, the
/// text that the second one reads is the text that the first one wrote. If that text
/// is parsed as what of the first one's configuration is kept in the file, the second
/// one writes a configuration with the entries of both.
pub proof fn request_builds_on_previous(first: AddChainRun, second: AddChainRun)
    requires
        first.valid(),
        second.valid(),
        first.actions.last() matches AddChainAction::Reply(reply) && reply.status == 201,
        second.actions.last() matches AddChainAction::Reply(reply) && reply.status == 201,
        second.config_path == first.config_path,
        second.disks[0] == first.disks.last(),
    ensures
        ({
            &&& first.events[1] matches AddChainEvent::Update(UpdateEvent::ConfigParsed(Ok(config)))
            &&& first.actions[2] matches AddChainAction::Update(
                UpdateAction::SerializeConfig { config: with_first },
            )
            &&& first.events[2] matches AddChainEvent::Update(
                UpdateEvent::ConfigSerialized(Ok(written)),
            )
            &&& second.events[0] matches AddChainEvent::Update(UpdateEvent::FileRead(Ok(read)))
            &&& second.events[1] matches AddChainEvent::Update(
                UpdateEvent::ConfigParsed(Ok(parsed)),
            )
            &&& second.actions[2] matches AddChainAction::Update(
                UpdateAction::SerializeConfig { config: with_both },
            )
            &&& read@ == written@
            &&& parsed.deep_view() == with_first.deep_view().as_stored() ==> with_both.deep_view()
                == config_with_chain(
                config_with_chain(config.deep_view(), first.request.deep_view()),
                second.request.deep_view(),
            ).as_stored()
        }),
{
    success_means_added(first, first.events.len() as int);
    success_means_added(second, second.events.len() as int);
}

/// What a request begins with: one whose validator names another chain is refused with
/// status 400 and both identifiers, whatever else it holds; any other one is answered
/// with status 500 where no configuration file is known, given up where its path has
/// no file name, and else begins by reading that file.
pub proof fn identifiers_decide_refusal(run: AddChainRun)
    requires
        run.valid(),
    ensures
        ({
            let same = run.request.validator.chain_id@ == run.request.chain.id@;
            &&& !same ==> {
                &&& run.actions[0] matches AddChainAction::Reply(reply)
                &&& reply.status == 400
                &&& reply.body matches ReplyBody::Failed(response)
                &&& response.error@ == "Chain ID mismatch: validator chain_id "@
                    + run.request.validator.chain_id@ + " != chain id "@ + run.request.chain.id@
            }
            &&& same && run.config_path is None ==> {
                &&& run.actions[0] matches AddChainAction::Reply(reply)
                &&& reply.status == 500
                &&& reply.body matches ReplyBody::Failed(response)
                &&& response.error@
                    == "Failed to update configuration: config error: No config file path available"@
            }
            &&& same && run.config_path is Some && path_file_name(run.config_path->0) is None
                ==> run.actions[0] == AddChainAction::Abort(run.config_path->0)
            &&& same && run.config_path is Some && path_file_name(run.config_path->0) is Some
                ==> run.actions[0] == AddChainAction::Update(
                UpdateAction::ReadFile { path: run.config_path->0 },
            )
        }),
{
    reveal_strlit("Failed to update configuration: ");
    reveal_strlit("config error: No config file path available");
    reveal_strlit("Failed to update configuration: config error: No config file path available");
    errors_are_told(arbitrary());
    assert("Failed to update configuration: config error: No config file path available"@
        =~= "Failed to update configuration: "@ + "config error: No config file path available"@);
    if let AddChainAction::Reply(reply) = run.actions[0] {
        assert(reply.body.deep_view() == reply.deep_view().body);
    }
}

/// A reply with status 400 comes first of all, and only to a request whose validator
/// names another chain.
pub proof fn only_mismatch_is_refused(run: AddChainRun, i: int)
    requires
        run.valid(),
        0 <= i <= run.events.len(),
        run.actions[i] matches AddChainAction::Reply(reply) && reply.status == 400,
    ensures
        i == 0,
        run.request.validator.chain_id@ != run.request.chain.id@,
{
    run.knows(i);
    if i > 0 {
        assert(run.follows(0));
    }
}

/// A request makes progress: as long as nothing fails, a request that names one chain
/// has the configuration file read, its text parsed, the configuration with the chain,
/// the validator and the providers after the existing ones serialized, its text
/// written to the temporary file, that renamed over the configuration file, the
/// requested chain built and then registered, and is answered with status 201.
pub proof fn request_makes_progress(run: AddChainRun)
    requires
        run.valid(),
        run.request.validator.chain_id@ == run.request.chain.id@,
        run.config_path is Some,
        path_file_name(run.config_path->0) is Some,
        forall|i: int|
            0 <= i < run.events.len() ==> match #[trigger] run.events[i] {
                AddChainEvent::Update(UpdateEvent::FileRead(outcome)) => outcome is Ok,
                AddChainEvent::Update(UpdateEvent::ConfigParsed(outcome)) => outcome is Ok,
                AddChainEvent::Update(UpdateEvent::UpdateApplied(outcome)) => outcome is Ok,
                AddChainEvent::Update(UpdateEvent::ConfigSerialized(outcome)) => outcome is Ok,
                AddChainEvent::Update(UpdateEvent::FileWritten(outcome)) => outcome is Ok,
                AddChainEvent::Update(UpdateEvent::FileRenamed(outcome)) => outcome is Ok,
                AddChainEvent::ChainBuilt(outcome) => outcome is Ok,
                AddChainEvent::ChainRegistered(outcome) => outcome is Ok,
            },
    ensures
        run.events.len() <= 7,
        run.actions[0] == AddChainAction::Update(
            UpdateAction::ReadFile { path: run.config_path->0 },
        ),
        run.events.len() >= 1 ==> {
            &&& run.events[0] matches AddChainEvent::Update(UpdateEvent::FileRead(Ok(text)))
            &&& run.actions[1] == AddChainAction::Update(UpdateAction::ParseConfig { text })
        },
        run.events.len() >= 2 ==> {
            &&& run.events[1] matches AddChainEvent::Update(UpdateEvent::ConfigParsed(Ok(config)))
            &&& run.actions[2] matches AddChainAction::Update(
                UpdateAction::SerializeConfig { config: new },
            )
            &&& new.chain.deep_view() == config.chain.deep_view().push(
                run.request.chain.deep_view(),
            )
            &&& new.validator.deep_view() == config.validator.deep_view().push(
                run.request.validator.deep_view(),
            )
            &&& new.providers.softsign.deep_view() == config.providers.softsign.deep_view()
                + run.request.provider.softsign.deep_view()
            &&& new.providers.yubihsm.deep_view() == config.providers.yubihsm.deep_view()
                + run.request.provider.yubihsm.deep_view()
            &&& new.providers.ledgertm.deep_view() == config.providers.ledgertm.deep_view()
                + run.request.provider.ledgertm.deep_view()
            &&& new.providers.fortanixdsm.deep_view() == config.providers.fortanixdsm.deep_view()
                + run.request.provider.fortanixdsm.deep_view()
            &&& new.http_server.deep_view() == config.http_server.deep_view()
        },
        run.events.len() >= 3 ==> {
            &&& run.events[2] matches AddChainEvent::Update(UpdateEvent::ConfigSerialized(Ok(text)))
            &&& run.actions[3] == AddChainAction::Update(
                UpdateAction::WriteFile {
                    path: path_join(
                        path_parent(run.config_path->0)->0,
                        path_text(path_file_name(run.config_path->0)->0) + ".tmp"@,
                    ),
                    text,
                },
            )
        },
        run.events.len() >= 4 ==> run.actions[4] == AddChainAction::Update(
            UpdateAction::RenameFile {
                from: path_join(
                    path_parent(run.config_path->0)->0,
                    path_text(path_file_name(run.config_path->0)->0) + ".tmp"@,
                ),
                to: run.config_path->0,
            },
        ),
        run.events.len() >= 5 ==> run.actions[5] is BuildChain,
        run.events.len() >= 6 ==> run.actions[6] is RegisterChain,
        run.events.len() >= 7 ==> {
            &&& run.actions[7] matches AddChainAction::Reply(reply)
            &&& reply.status == 201
            &&& reply.body matches ReplyBody::Added(response)
            &&& response.chain_id@ == run.request.chain.id@
            &&& response.message@ == "Successfully added chain "@ + run.request.chain.id@
        },
{
    let n = run.events.len() as int;
    requests_are_answered(run);
    if n >= 1 {
        assert(run.follows(0));
        assert(!event_failed(run.events[0]));
    }
    if n >= 2 {
        assert(run.follows(1));
        assert(!event_failed(run.events[1]));
        let new = run.actions[2]->Update_0->SerializeConfig_config;
        let model = new.deep_view();
        assert(model.providers.softsign == new.providers.softsign.deep_view());
        assert(model.providers.yubihsm == new.providers.yubihsm.deep_view());
        assert(model.providers.ledgertm == new.providers.ledgertm.deep_view());
        assert(model.providers.fortanixdsm == new.providers.fortanixdsm.deep_view());
    }
    if n >= 3 {
        assert(run.follows(2));
        assert(!event_failed(run.events[2]));
    }
    if n >= 4 {
        assert(run.follows(3));
        assert(!event_failed(run.events[3]));
    }
    if n >= 5 {
        assert(run.follows(4));
        assert(!event_failed(run.events[4]));
    }
    if n >= 6 {
        assert(run.follows(5));
        assert(!event_failed(run.events[5]));
    }
    if n >= 7 {
        assert(run.follows(6));
        assert(!event_failed(run.events[6]));
        let reply = run.actions[7]->Reply_0;
        assert(reply.body.deep_view() == reply.deep_view().body);
    }
}

/// Whether a reply has status 500 and says `what`, followed by `cause`.
pub open spec fn blames(reply: JsonReply, what: Seq<char>, cause: Seq<char>) -> bool {
    &&& reply.status == 500
    &&& reply.body matches ReplyBody::Failed(response)
    &&& response.error@ == what + cause
}

/// The first failure ends a request, with status 500, the name of what failed and its
/// cause.
pub proof fn failure_is_answered(run: AddChainRun, i: int)
    requires
        run.valid(),
        0 <= i < run.events.len(),
        event_failed(run.events[i]),
    ensures
        i + 1 == run.events.len(),
        run.actions[i + 1] matches AddChainAction::Reply(reply) && match run.events[i] {
            AddChainEvent::Update(UpdateEvent::FileRead(outcome)) => blames(
                reply,
                "Failed to update configuration: config error: failed to read config file: "@,
                outcome->Err_0@,
            ),
            AddChainEvent::Update(UpdateEvent::ConfigParsed(outcome)) => blames(
                reply,
                "Failed to update configuration: config error: failed to parse config: "@,
                outcome->Err_0@,
            ),
            AddChainEvent::Update(UpdateEvent::UpdateApplied(_)) => false,
            AddChainEvent::Update(UpdateEvent::ConfigSerialized(outcome)) => blames(
                reply,
                "Failed to update configuration: config error: failed to serialize config: "@,
                outcome->Err_0@,
            ),
            AddChainEvent::Update(UpdateEvent::FileWritten(outcome)) => blames(
                reply,
                "Failed to update configuration: config error: failed to write temp config: "@,
                outcome->Err_0@,
            ),
            AddChainEvent::Update(UpdateEvent::FileRenamed(outcome)) => blames(
                reply,
                "Failed to update configuration: config error: failed to rename config file: "@,
                outcome->Err_0@,
            ),
            AddChainEvent::ChainBuilt(outcome) => blames(
                reply,
                "Failed to register chain in memory: "@,
                outcome->Err_0@,
            ),
            AddChainEvent::ChainRegistered(outcome) => blames(
                reply,
                "Failed to register chain in memory: "@,
                outcome->Err_0@,
            ),
        },
{
    assert(run.follows(i));
    if i + 1 < run.events.len() {
        assert(run.follows(i + 1));
    }
    let reply = run.actions[i + 1]->Reply_0;
    assert(reply.body.deep_view() == reply.deep_view().body);
    let error = reply.body->Failed_0.error@;
    reveal_strlit("Failed to update configuration: ");
    match run.events[i] {
        AddChainEvent::Update(UpdateEvent::FileRead(Err(cause))) => {
            errors_are_told(cause);
            reveal_strlit("config error: failed to read config file: ");
            reveal_strlit(
                "Failed to update configuration: config error: failed to read config file: ",
            );
            assert(error
                =~= "Failed to update configuration: config error: failed to read config file: "@
                + cause@);
        },
        AddChainEvent::Update(UpdateEvent::ConfigParsed(Err(cause))) => {
            errors_are_told(cause);
            reveal_strlit("config error: failed to parse config: ");
            reveal_strlit("Failed to update configuration: config error: failed to parse config: ");
            assert(error
                =~= "Failed to update configuration: config error: failed to parse config: "@
                + cause@);
        },
        AddChainEvent::Update(UpdateEvent::ConfigSerialized(Err(cause))) => {
            errors_are_told(cause);
            reveal_strlit("config error: failed to serialize config: ");
            reveal_strlit(
                "Failed to update configuration: config error: failed to serialize config: ",
            );
            assert(error
                =~= "Failed to update configuration: config error: failed to serialize config: "@
                + cause@);
        },
        AddChainEvent::Update(UpdateEvent::FileWritten(Err(cause))) => {
            errors_are_told(cause);
            reveal_strlit("config error: failed to write temp config: ");
            reveal_strlit(
                "Failed to update configuration: config error: failed to write temp config: ",
            );
            assert(error
                =~= "Failed to update configuration: config error: failed to write temp config: "@
                + cause@);
        },
        AddChainEvent::Update(UpdateEvent::FileRenamed(Err(cause))) => {
            errors_are_told(cause);
            reveal_strlit("config error: failed to rename config file: ");
            reveal_strlit(
                "Failed to update configuration: config error: failed to rename config file: ",
            );
            assert(error
                =~= "Failed to update configuration: config error: failed to rename config file: "@
                + cause@);
        },
        _ => {},
    }
}

/// No request fails without a cause: a reply with another status than 201 comes at once
/// where the identifiers differ or no configuration file is known, and else right after
/// something failed.
pub proof fn failure_has_a_cause(run: AddChainRun, i: int)
    requires
        run.valid(),
        0 <= i <= run.events.len(),
        run.actions[i] matches AddChainAction::Reply(reply) && reply.status != 201,
    ensures
        i == 0 ==> run.request.validator.chain_id@ != run.request.chain.id@ || run.config_path
            is None,
        i > 0 ==> event_failed(run.events[i - 1]),
{
    if i > 0 {
        assert(run.follows(i - 1));
    }
}

/// The chain that is built is the requested one, field by field, and the one that was
/// added at the end of the chains in the configuration file: what is registered in
/// memory agrees with what is stored.
pub proof fn built_chain_is_stored_chain(run: AddChainRun, i: int)
    requires
        run.valid(),
        0 <= i <= run.events.len(),
        run.actions[i] is BuildChain,
    ensures
        ({
            let chain = run.actions[i]->BuildChain_0;
            let requested = run.request.chain;
            &&& chain.id@ == requested.id@
            &&& chain.key_format.deep_view() == requested.key_format.deep_view()
            &&& chain.sign_extensions == requested.sign_extensions
            &&& chain.state_file == requested.state_file
            &&& chain.state_hook.deep_view() == requested.state_hook.deep_view()
            &&& i == 5
            &&& run.actions[2] matches AddChainAction::Update(
                UpdateAction::SerializeConfig { config },
            )
            &&& config.chain.deep_view().len() > 0
            &&& config.chain.deep_view().last() == chain.deep_view()
        }),
{
    run.knows(i);
    if i > 0 {
        assert(run.follows(i - 1));
    }
    let chain = run.actions[i]->BuildChain_0;
    assert(chain.deep_view() == run.request.chain.deep_view());
    crate::config::chain_model_is_complete(chain, run.request.chain);
    let config = run.actions[2]->Update_0->SerializeConfig_config;
    assert(config.chain.deep_view() == config.deep_view().chain);
}

} // verus!
