//! What an update does to the files on disk.
//!
//! The disk is modelled as a map from paths to texts that nothing but the update
//! changes, with a file of its own at each path. A file operation that succeeds does
//! exactly what it says; a write that fails may leave anything at the path it was
//! for.
use std::path::PathBuf;
use vstd::prelude::*;

use crate::config::KmsConfigView;
use crate::error::errors_are_told;
use crate::http_server::config_update::ConfigUpdate;
use crate::http_server::config_update::UpdateAction;
use crate::http_server::config_update::UpdateEvent;
use crate::http_server::config_update::UpdateStage;

verus! {

/// The files and their texts.
pub type Disk = Map<PathBuf, Seq<char>>;

/// Whether two disks hold the same at every path but `path`.
pub open spec fn same_except(before: Disk, after: Disk, path: PathBuf) -> bool {
    before.remove(path) == after.remove(path)
}

/// Whether performing `action` on the disk `before` can come out as `event` and leave
/// the disk `after`.
pub open spec fn performed(
    before: Disk,
    action: UpdateAction,
    event: UpdateEvent,
    after: Disk,
) -> bool {
    match action {
        UpdateAction::ReadFile { path } => {
            &&& after == before
            &&& event matches UpdateEvent::FileRead(outcome)
            &&& outcome matches Ok(text) ==> before.contains_key(path) && before[path] == text@
        },
        UpdateAction::WriteFile { path, text } => {
            &&& event matches UpdateEvent::FileWritten(outcome)
            &&& match outcome {
                Ok(_) => after == before.insert(path, text@),
                Err(_) => same_except(before, after, path),
            }
        },
        UpdateAction::RenameFile { from, to } => {
            &&& event matches UpdateEvent::FileRenamed(outcome)
            &&& match outcome {
                Ok(_) => before.contains_key(from) && after == before.remove(from).insert(
                    to,
                    before[from],
                ),
                Err(_) => after == before,
            }
        },
        UpdateAction::ParseConfig { .. } => event is ConfigParsed && after == before,
        UpdateAction::ApplyUpdate { .. } => event is UpdateApplied && after == before,
        UpdateAction::SerializeConfig { .. } => event is ConfigSerialized && after == before,
        UpdateAction::Finish { .. } => false,
    }
}

/// An update as it was carried out, up to some point: `actions[i]` was pending at
/// `updates[i]` with the disk `disks[i]`, and came out as `events[i]`.
pub struct UpdateRun {
    pub updates: Seq<ConfigUpdate>,
    pub actions: Seq<UpdateAction>,
    pub events: Seq<UpdateEvent>,
    pub disks: Seq<Disk>,
}

impl UpdateRun {
    /// The configuration file of the update.
    pub open spec fn config_path(self) -> PathBuf {
        self.updates[0].config_path
    }

    /// The temporary file of the update.
    pub open spec fn temp_path(self) -> PathBuf {
        self.updates[0].temp_path
    }

    /// Whether the update started as every update does.
    pub open spec fn starts(self) -> bool {
        &&& self.updates.len() == self.events.len() + 1
        &&& self.actions.len() == self.events.len() + 1
        &&& self.disks.len() == self.events.len() + 1
        &&& self.updates[0].stage == UpdateStage::Read
        &&& self.actions[0] == (UpdateAction::ReadFile { path: self.config_path() })
    }

    /// Whether event `i` is an outcome of action `i`, and the update went on from there
    /// as it must.
    pub open spec fn follows(self, i: int) -> bool {
        &&& self.events[i].answers(self.updates[i].stage)
        &&& performed(self.disks[i], self.actions[i], self.events[i], self.disks[i + 1])
        &&& (self.updates[i + 1], self.actions[i + 1]) == self.updates[i].step(self.events[i])
    }

    /// Whether this is how an update can go.
    pub open spec fn valid(self) -> bool {
        &&& self.starts()
        &&& forall|i: int| 0 <= i < self.events.len() ==> #[trigger] self.follows(i)
    }

    /// Whether disk `i` is the first disk, but for what is at the temporary file's path.
    pub open spec fn config_untouched(self, i: int) -> bool {
        self.disks[i].remove(self.temp_path()) == self.disks[0].remove(self.temp_path())
    }

    /// Whether the configuration file has been replaced at `i`: it holds the whole text
    /// that was serialized, the temporary file is gone, and every other file is as it
    /// was.
    pub open spec fn config_replaced(self, i: int) -> bool {
        &&& 3 <= i < self.disks.len()
        &&& self.events[i - 3] matches UpdateEvent::ConfigSerialized(Ok(text))
        &&& self.disks[i] == self.disks[0].remove(self.temp_path()).insert(
            self.config_path(),
            text@,
        )
    }

    /// What is known at point `i` of a valid run.
    spec fn known(self, i: int) -> bool {
        let update = self.updates[i];
        let action = self.actions[i];
        &&& update.config_path == self.config_path()
        &&& update.temp_path == self.temp_path()
        &&& match update.stage {
            UpdateStage::Read => i == 0 && action is ReadFile && self.config_untouched(i),
            UpdateStage::Parse => i == 1 && action is ParseConfig && self.config_untouched(i),
            UpdateStage::Update => i == 2 && action is ApplyUpdate && self.config_untouched(i),
            UpdateStage::Serialize => i == 3 && action is SerializeConfig && self.config_untouched(
                i,
            ),
            UpdateStage::Write => {
                &&& i == 4
                &&& self.events[3] matches UpdateEvent::ConfigSerialized(Ok(text))
                &&& action == (UpdateAction::WriteFile { path: self.temp_path(), text })
                &&& self.config_untouched(i)
            },
            UpdateStage::Rename => {
                &&& i == 5
                &&& self.events[3] matches UpdateEvent::ConfigSerialized(Ok(text))
                &&& action == (UpdateAction::RenameFile {
                    from: self.temp_path(),
                    to: self.config_path(),
                })
                &&& self.config_untouched(i)
                &&& self.disks[i].contains_key(self.temp_path())
                &&& self.disks[i][self.temp_path()] == text@
            },
            UpdateStage::Done => {
                &&& action is Finish
                &&& if action.is_success() {
                    i == 6 && self.config_replaced(i)
                } else {
                    self.config_untouched(i)
                }
            },
        }
    }

    proof fn knows(self, i: int)
        requires
            self.valid(),
            0 <= i <= self.events.len(),
        ensures
            self.known(i),
        decreases i,
    {
        if i > 0 {
            self.knows(i - 1);
            assert(self.follows(i - 1));
            let temp = self.temp_path();
            assert(self.config_untouched(0));
            if self.updates[i - 1].stage == UpdateStage::Write {
                assert(self.disks[i].remove(temp) =~= self.disks[i - 1].remove(temp));
            }
            if self.actions[i].is_success() {
                assert(self.events[3] == self.events[i - 3]);
                assert(self.disks[i - 1].remove(temp) == self.disks[0].remove(temp));
            }
        }
    }
}

/// An update is atomic: at every point the configuration file is either as it was
/// before the update, or wholly replaced by the text of the new configuration, and
/// then no temporary file is left behind. It is replaced exactly when the update
/// ends with success; an update that fails leaves it alone. No other file but the
/// temporary one is ever touched. What is said of the single files holds as long as
/// the temporary file's path is not the configuration file's own.
pub proof fn update_is_atomic(run: UpdateRun, i: int)
    requires
        run.valid(),
        0 <= i <= run.events.len(),
    ensures
        run.actions[i].is_success() ==> run.config_replaced(i),
        !run.actions[i].is_success() ==> run.config_untouched(i),
        run.temp_path() != run.config_path() ==> {
            let config = run.config_path();
            &&& run.actions[i].is_success() ==> !run.disks[i].contains_key(run.temp_path())
            &&& !run.actions[i].is_success() ==> {
                &&& run.disks[i].contains_key(config) == run.disks[0].contains_key(config)
                &&& run.disks[0].contains_key(config) ==> run.disks[i][config]
                    == run.disks[0][config]
            }
        },
{
    run.knows(i);
    let temp = run.temp_path();
    let config = run.config_path();
    if temp != config && run.config_untouched(i) {
        assert(run.disks[i].contains_key(config) == run.disks[i].remove(temp).contains_key(config));
        assert(run.disks[0].contains_key(config) == run.disks[0].remove(temp).contains_key(config));
        if run.disks[0].contains_key(config) {
            assert(run.disks[i].remove(temp)[config] == run.disks[0].remove(temp)[config]);
        }
    }
}

/// What an update writes comes from what was on disk: the new text is the
/// serializer's answer for the changed configuration, that is the updater's answer
/// for the parsed one, and that is the parser's answer for the text that the
/// configuration file held when the update began.
pub proof fn update_builds_on_file(run: UpdateRun)
    requires
        run.valid(),
        run.actions.last().is_success(),
    ensures
        run.events.len() == 6,
        run.disks[0].contains_key(run.config_path()),
        ({
            &&& run.events[0] matches UpdateEvent::FileRead(Ok(old_text))
            &&& run.events[1] matches UpdateEvent::ConfigParsed(Ok(old_config))
            &&& run.events[2] matches UpdateEvent::UpdateApplied(Ok(new_config))
            &&& run.events[3] matches UpdateEvent::ConfigSerialized(Ok(new_text))
            &&& old_text@ == run.disks[0][run.config_path()]
            &&& run.actions[1] == (UpdateAction::ParseConfig { text: old_text })
            &&& run.actions[2] == (UpdateAction::ApplyUpdate { config: old_config })
            &&& run.actions[3] == (UpdateAction::SerializeConfig { config: new_config })
            &&& run.disks[6][run.config_path()] == new_text@
        }),
{
    let last = run.events.len() as int;
    run.knows(last);
    assert(run.follows(0));
    assert(run.follows(1));
    assert(run.follows(2));
    assert(run.follows(3));
    run.knows(1);
    run.knows(2);
    run.knows(3);
    run.knows(4);
    run.knows(5);
}

/// Every update ends: after six events at most it waits for nothing.
pub proof fn update_ends(run: UpdateRun)
    requires
        run.valid(),
    ensures
        run.events.len() <= 6,
        run.events.len() == 6 ==> run.actions.last() is Finish,
{
    let last = run.events.len() as int;
    run.knows(last);
    if last > 6 {
        run.knows(6);
        assert(run.follows(6));
    }
}

/// How configurations are read from text and written as text.
pub struct Codec {
    pub parse: spec_fn(Seq<char>) -> KmsConfigView,
    pub serialize: spec_fn(KmsConfigView) -> Seq<char>,
}

impl Codec {
    /// Whether the text of `config` stands for what of it is kept in the file: reading
    /// the text gives that back, and the rest does not show in the text.
    pub open spec fn keeps(self, config: KmsConfigView) -> bool {
        &&& (self.parse)((self.serialize)(config)) == config.as_stored()
        &&& (self.serialize)(config.as_stored()) == (self.serialize)(config)
    }
}

/// Whether a change to the configuration takes no notice of what is not kept in the
/// file.
pub open spec fn ignores_unstored(change: spec_fn(KmsConfigView) -> KmsConfigView) -> bool {
    forall|config: KmsConfigView|
        #![trigger change(config)]
        change(config.as_stored()) == change(config).as_stored()
}

impl UpdateRun {
    /// Whether event `i` is what `codec` and `change` give, where it is theirs to give.
    pub open spec fn computed(
        self,
        codec: Codec,
        change: spec_fn(KmsConfigView) -> KmsConfigView,
        i: int,
    ) -> bool {
        match (self.actions[i], self.events[i]) {
            (
                UpdateAction::ParseConfig { text },
                UpdateEvent::ConfigParsed(Ok(config)),
            ) => config.deep_view() == (codec.parse)(text@),
            (
                UpdateAction::ApplyUpdate { config },
                UpdateEvent::UpdateApplied(Ok(changed)),
            ) => changed.deep_view() == change(config.deep_view()),
            (
                UpdateAction::SerializeConfig { config },
                UpdateEvent::ConfigSerialized(Ok(text)),
            ) => text@ == (codec.serialize)(config.deep_view()),
            _ => true,
        }
    }

    /// Whether the update reads and writes configurations by `codec` and makes `change`.
    pub open spec fn makes(
        self,
        codec: Codec,
        change: spec_fn(KmsConfigView) -> KmsConfigView,
    ) -> bool {
        forall|i: int| 0 <= i < self.events.len() ==> #[trigger] self.computed(codec, change, i)
    }

    /// The text that the configuration file held when the update began.
    pub open spec fn old_text(self) -> Seq<char> {
        self.disks[0][self.config_path()]
    }
}

/// An update that succeeds makes its change to what the file held: afterwards the file
/// holds the text of the changed configuration, and no other file but the temporary
/// one is different.
pub proof fn update_makes_change(
    run: UpdateRun,
    codec: Codec,
    change: spec_fn(KmsConfigView) -> KmsConfigView,
)
    requires
        run.valid(),
        run.makes(codec, change),
        run.actions.last().is_success(),
    ensures
        run.disks.last() == run.disks[0].remove(run.temp_path()).insert(
            run.config_path(),
            (codec.serialize)(change((codec.parse)(run.old_text()))),
        ),
{
    update_builds_on_file(run);
    run.knows(6);
    assert(run.computed(codec, change, 1));
    assert(run.computed(codec, change, 2));
    assert(run.computed(codec, change, 3));
}

/// An update reads what the update before it wrote: the text that the second one
/// parses is the text that the first one serialized.
pub proof fn update_reads_previous(first: UpdateRun, second: UpdateRun)
    requires
        first.valid(),
        second.valid(),
        first.actions.last().is_success(),
        second.actions.last().is_success(),
        second.config_path() == first.config_path(),
        second.disks[0] == first.disks.last(),
    ensures
        ({
            &&& first.events[3] matches UpdateEvent::ConfigSerialized(Ok(written))
            &&& second.events[0] matches UpdateEvent::FileRead(Ok(read))
            &&& read@ == written@
        }),
{
    update_builds_on_file(first);
    update_builds_on_file(second);
}

/// No update is lost: two updates of a file in a row leave the disk as one update
/// would that makes both changes, the first one first. The second change must take
/// no notice of what is not kept in the file, and the texts of the configurations
/// that the two changes give must stand for them.
pub proof fn no_update_is_lost(
    first: UpdateRun,
    second: UpdateRun,
    joint: UpdateRun,
    codec: Codec,
    change: spec_fn(KmsConfigView) -> KmsConfigView,
    next_change: spec_fn(KmsConfigView) -> KmsConfigView,
)
    requires
        first.valid(),
        second.valid(),
        joint.valid(),
        first.actions.last().is_success(),
        second.actions.last().is_success(),
        joint.actions.last().is_success(),
        first.makes(codec, change),
        second.makes(codec, next_change),
        joint.makes(codec, |config: KmsConfigView| next_change(change(config))),
        second.config_path() == first.config_path(),
        second.temp_path() == first.temp_path(),
        joint.config_path() == first.config_path(),
        joint.temp_path() == first.temp_path(),
        second.disks[0] == first.disks.last(),
        joint.disks[0] == first.disks[0],
        ignores_unstored(next_change),
        codec.keeps(change((codec.parse)(first.old_text()))),
        codec.keeps(next_change(change((codec.parse)(first.old_text())))),
    ensures
        second.disks.last() == joint.disks.last(),
{
    let both = |config: KmsConfigView| next_change(change(config));
    update_makes_change(first, codec, change);
    update_makes_change(second, codec, next_change);
    update_makes_change(joint, codec, both);
    let changed = change((codec.parse)(first.old_text()));
    assert(next_change(changed.as_stored()) == next_change(changed).as_stored());
    assert(second.disks.last() =~= joint.disks.last());
}

/// Whether an action of an update failed.
pub open spec fn update_event_failed(event: UpdateEvent) -> bool {
    match event {
        UpdateEvent::FileRead(outcome) => outcome is Err,
        UpdateEvent::ConfigParsed(outcome) => outcome is Err,
        UpdateEvent::UpdateApplied(outcome) => outcome is Err,
        UpdateEvent::ConfigSerialized(outcome) => outcome is Err,
        UpdateEvent::FileWritten(outcome) => outcome is Err,
        UpdateEvent::FileRenamed(outcome) => outcome is Err,
    }
}

/// An update makes progress: as long as nothing fails, the file is read, its text is
/// parsed, the configuration is changed, the changed one is serialized, its text is
/// written to the temporary file, that is renamed over the configuration file, and the
/// update ends with success.
pub proof fn update_makes_progress(run: UpdateRun)
    requires
        run.valid(),
        forall|i: int| 0 <= i < run.events.len() ==> !update_event_failed(#[trigger] run.events[i]),
    ensures
        run.events.len() <= 6,
        run.actions[0] == (UpdateAction::ReadFile { path: run.updates[0].config_path }),
        run.events.len() >= 1 ==> {
            &&& run.events[0] matches UpdateEvent::FileRead(Ok(text))
            &&& run.actions[1] == (UpdateAction::ParseConfig { text })
        },
        run.events.len() >= 2 ==> {
            &&& run.events[1] matches UpdateEvent::ConfigParsed(Ok(config))
            &&& run.actions[2] == (UpdateAction::ApplyUpdate { config })
        },
        run.events.len() >= 3 ==> {
            &&& run.events[2] matches UpdateEvent::UpdateApplied(Ok(config))
            &&& run.actions[3] == (UpdateAction::SerializeConfig { config })
        },
        run.events.len() >= 4 ==> {
            &&& run.events[3] matches UpdateEvent::ConfigSerialized(Ok(text))
            &&& run.actions[4] == (UpdateAction::WriteFile { path: run.updates[0].temp_path, text })
        },
        run.events.len() >= 5 ==> run.actions[5] == (UpdateAction::RenameFile {
            from: run.updates[0].temp_path,
            to: run.updates[0].config_path,
        }),
        run.events.len() >= 6 ==> {
            &&& run.actions[6] matches UpdateAction::Finish { result }
            &&& result is Ok
        },
{
    let n = run.events.len() as int;
    update_ends(run);
    if n >= 1 {
        assert(run.follows(0));
        assert(!update_event_failed(run.events[0]));
    }
    if n >= 2 {
        assert(run.follows(1));
        assert(!update_event_failed(run.events[1]));
    }
    if n >= 3 {
        assert(run.follows(2));
        assert(!update_event_failed(run.events[2]));
    }
    if n >= 4 {
        assert(run.follows(3));
        assert(!update_event_failed(run.events[3]));
    }
    if n >= 5 {
        assert(run.follows(4));
        assert(!update_event_failed(run.events[4]));
    }
    if n >= 6 {
        assert(run.follows(5));
        assert(!update_event_failed(run.events[5]));
    }
}

/// The first failure ends an update, with the name of the step and its cause, and
/// nothing but a failure ends it without success.
pub proof fn update_fails_by_its_cause(run: UpdateRun, i: int)
    requires
        run.valid(),
        0 <= i < run.events.len(),
    ensures
        update_event_failed(run.events[i]) <==> {
            &&& run.actions[i + 1] matches UpdateAction::Finish { result }
            &&& result is Err
        },
        update_event_failed(run.events[i]) ==> {
            let error = run.actions[i + 1]->Finish_result->Err_0;
            &&& i + 1 == run.events.len()
            &&& match run.events[i] {
                UpdateEvent::FileRead(outcome) => error.shown()
                    == "config error: failed to read config file: "@ + outcome->Err_0@,
                UpdateEvent::ConfigParsed(outcome) => error.shown()
                    == "config error: failed to parse config: "@ + outcome->Err_0@,
                UpdateEvent::UpdateApplied(outcome) => error == outcome->Err_0,
                UpdateEvent::ConfigSerialized(outcome) => error.shown()
                    == "config error: failed to serialize config: "@ + outcome->Err_0@,
                UpdateEvent::FileWritten(outcome) => error.shown()
                    == "config error: failed to write temp config: "@ + outcome->Err_0@,
                UpdateEvent::FileRenamed(outcome) => error.shown()
                    == "config error: failed to rename config file: "@ + outcome->Err_0@,
            }
        },
{
    assert(run.follows(i));
    if update_event_failed(run.events[i]) {
        if i + 1 < run.events.len() {
            assert(run.follows(i + 1));
        }
        match run.events[i] {
            UpdateEvent::FileRead(Err(cause)) => errors_are_told(cause),
            UpdateEvent::ConfigParsed(Err(cause)) => errors_are_told(cause),
            UpdateEvent::ConfigSerialized(Err(cause)) => errors_are_told(cause),
            UpdateEvent::FileWritten(Err(cause)) => errors_are_told(cause),
            UpdateEvent::FileRenamed(Err(cause)) => errors_are_told(cause),
            _ => {},
        }
    }
}

} // verus!
