//! The update pipeline, as an explicit state machine.
//!
//! One machine drives one package. The unverified shell performs each
//! requested [`Action`] (a file read, a subprocess, a network fetch) and
//! reports what happened as an [`Event`]; every decision between two outside
//! steps — update or skip, reset the release counter or not, pass or fail
//! the version gate, publish or stop after persisting — is taken here, and
//! the transition relation is pinned down by [`spec_step`].

use crate::gate::pattern_accepted;
use crate::gate::pattern_matches;
use crate::gate::VersionGate;
use crate::metadata::metadata_base_version;
use crate::recipe::spec_rewrite;
use crate::recipe::views_of;
use crate::state::spec_encode_record;
use crate::state::VersionRecord;
use crate::text::copy_bytes;
use crate::text::literal_bytes;
use crate::text::push_bytes;
use vstd::prelude::*;
use vstd::string::StringSliceAdditionalSpecFns;

verus! {

/// The run-wide options, as given on the command line.
#[derive(Clone, Copy, PartialEq, Eq, Structural, Debug)]
pub struct Options {
    /// Proceed even when the candidate equals the applied version.
    pub force: bool,
    /// Stop after persisting; do not commit or push.
    pub dryrun: bool,
    /// Do not ask for confirmation when the build resolves dependencies.
    pub noconfirm: bool,
}

/// What went wrong, by kind.
#[derive(Clone, Copy, PartialEq, Eq, Structural, Debug)]
pub enum ErrorKind {
    /// The configuration file is absent.
    ConfigMissing,
    /// The configuration file does not decode, or holds unrecognized fields.
    ConfigInvalid,
    /// The state file exists but does not decode.
    StateCorrupt,
    /// A transport or HTTP failure while asking the provider.
    NetworkError,
    /// A collaborator's response or output could not be decoded into the
    /// expected shape (including a provider payload with unrecognized
    /// fields, an empty tag list, or unusable build-tool output).
    ProtocolError,
    /// The recipe file could not be read or written.
    RecipeIOError,
    /// The external build tool exited unsuccessfully.
    BuildToolError { exit_code: i32 },
    /// The configured version-format pattern does not compile.
    InvalidPattern,
    /// The computed version does not match the configured pattern.
    VersionFormatError,
    /// Staging, committing or pushing failed.
    PublishError,
}

/// Where the machine stands between two events.
#[derive(Clone, Copy, PartialEq, Eq, Structural, Debug)]
pub enum Stage {
    LoadState,
    LoadConfig,
    LoadMetadata,
    FetchTags,
    ReadRecipe,
    WriteRecipe,
    SyncChecksums,
    Regenerate,
    ReadRecipeReset,
    WriteRecipeReset,
    RegenerateReset,
    WriteMetadata,
    VerifyBuild,
    SaveState,
    Publish,
    Done,
}

/// How a package's run ended.
#[derive(Clone, Copy, PartialEq, Eq, Structural, Debug)]
pub enum Outcome {
    /// The update ran through (in dry-run mode: through persistence).
    Updated,
    /// The candidate equals the applied version; nothing was touched.
    UpToDate,
    /// The run failed at `stage` for reason `kind`; later stages did not run.
    Failed { stage: Stage, kind: ErrorKind },
}

/// What the outside world reports back to the machine.
pub enum Event {
    /// The persisted record was read (an absent file reads as empty).
    StateLoaded { tag: Vec<u8> },
    /// The configuration was read and strictly decoded.
    ConfigLoaded { pattern: String },
    /// The previous metadata file was read, if it exists.
    MetadataLoaded { content: Option<Vec<u8>> },
    /// The provider answered with an ordered tag list, newest first.
    TagsFetched { tags: Vec<Vec<u8>> },
    /// The recipe file was read.
    RecipeRead { content: Vec<u8> },
    /// The recipe file was written.
    RecipeWritten,
    /// The checksum synchronization tool finished successfully.
    ChecksumsSynced,
    /// The build tool regenerated the metadata document.
    MetadataRegenerated { output: Vec<u8> },
    /// The metadata file was written.
    MetadataWritten,
    /// The verifying build finished successfully.
    BuildVerified,
    /// The state file was written.
    StateSaved,
    /// The changes were committed and pushed.
    Published,
    /// The requested action failed; the machine absorbs the failure.
    Failed { kind: ErrorKind },
}

/// What the machine asks the outside world to do next.
pub enum Action {
    /// Read the persisted record.
    LoadState,
    /// Read and strictly decode the configuration.
    LoadConfig,
    /// Read the previous metadata file, if any.
    LoadMetadata,
    /// Ask the configured provider for its tag list.
    FetchTags,
    /// Read the recipe file.
    ReadRecipe,
    /// Overwrite the recipe file with exactly these bytes.
    WriteRecipe { content: Vec<u8> },
    /// Run the checksum synchronization tool.
    SyncChecksums,
    /// Run the build tool in metadata-only mode.
    RegenerateMetadata,
    /// Overwrite the metadata file with exactly these bytes.
    WriteMetadata { content: Vec<u8> },
    /// Run the verifying build.
    RunBuild { noconfirm: bool },
    /// Overwrite the state file with exactly these bytes.
    SaveState { content: Vec<u8> },
    /// Stage, commit (with exactly this message) and push.
    Publish { message: Vec<u8> },
    /// The run is over.
    Stop { outcome: Outcome },
}

/// The machine driving one package's update.
pub struct Pipeline {
    pub options: Options,
    pub stage: Stage,
    pub applied: Vec<u8>,
    pub pattern: String,
    pub old_build: Option<Vec<u8>>,
    pub candidate: Vec<u8>,
    pub computed: Vec<u8>,
}

/// The mathematical value of a [`Pipeline`].
pub struct PipelineModel {
    pub options: Options,
    pub stage: Stage,
    /// The version named by the persisted record.
    pub applied: Seq<u8>,
    /// The configured version-format pattern.
    pub pattern: Seq<char>,
    /// The build version recorded by the previous metadata, if any.
    pub old_build: Option<Seq<u8>>,
    /// The provider's first tag.
    pub candidate: Seq<u8>,
    /// The build version computed from the regenerated metadata.
    pub computed: Seq<u8>,
}

/// The mathematical value of an [`Event`].
pub enum EventModel {
    StateLoaded { tag: Seq<u8> },
    ConfigLoaded { pattern: Seq<char> },
    MetadataLoaded { content: Option<Seq<u8>> },
    TagsFetched { tags: Seq<Seq<u8>> },
    RecipeRead { content: Seq<u8> },
    RecipeWritten,
    ChecksumsSynced,
    MetadataRegenerated { output: Seq<u8> },
    MetadataWritten,
    BuildVerified,
    StateSaved,
    Published,
    Failed { kind: ErrorKind },
}

/// The mathematical value of an [`Action`].
pub enum ActionModel {
    LoadState,
    LoadConfig,
    LoadMetadata,
    FetchTags,
    ReadRecipe,
    WriteRecipe { content: Seq<u8> },
    SyncChecksums,
    RegenerateMetadata,
    WriteMetadata { content: Seq<u8> },
    RunBuild { noconfirm: bool },
    SaveState { content: Seq<u8> },
    Publish { message: Seq<u8> },
    Stop { outcome: Outcome },
}

impl View for Pipeline {
    type V = PipelineModel;

    open spec fn view(&self) -> PipelineModel {
        PipelineModel {
            options: self.options,
            stage: self.stage,
            applied: self.applied@,
            pattern: self.pattern@,
            old_build: match self.old_build {
                Option::None => Option::<Seq<u8>>::None,
                Option::Some(v) => Option::Some(v@),
            },
            candidate: self.candidate@,
            computed: self.computed@,
        }
    }
}

impl View for Event {
    type V = EventModel;

    open spec fn view(&self) -> EventModel {
        match self {
            Event::StateLoaded { tag } => EventModel::StateLoaded { tag: tag@ },
            Event::ConfigLoaded { pattern } => EventModel::ConfigLoaded { pattern: pattern@ },
            Event::MetadataLoaded { content } => EventModel::MetadataLoaded {
                content: match content {
                    Option::None => Option::<Seq<u8>>::None,
                    Option::Some(v) => Option::Some(v@),
                },
            },
            Event::TagsFetched { tags } => EventModel::TagsFetched { tags: views_of(tags@) },
            Event::RecipeRead { content } => EventModel::RecipeRead { content: content@ },
            Event::RecipeWritten => EventModel::RecipeWritten,
            Event::ChecksumsSynced => EventModel::ChecksumsSynced,
            Event::MetadataRegenerated { output } => EventModel::MetadataRegenerated {
                output: output@,
            },
            Event::MetadataWritten => EventModel::MetadataWritten,
            Event::BuildVerified => EventModel::BuildVerified,
            Event::StateSaved => EventModel::StateSaved,
            Event::Published => EventModel::Published,
            Event::Failed { kind } => EventModel::Failed { kind: *kind },
        }
    }
}

impl View for Action {
    type V = ActionModel;

    open spec fn view(&self) -> ActionModel {
        match self {
            Action::LoadState => ActionModel::LoadState,
            Action::LoadConfig => ActionModel::LoadConfig,
            Action::LoadMetadata => ActionModel::LoadMetadata,
            Action::FetchTags => ActionModel::FetchTags,
            Action::ReadRecipe => ActionModel::ReadRecipe,
            Action::WriteRecipe { content } => ActionModel::WriteRecipe { content: content@ },
            Action::SyncChecksums => ActionModel::SyncChecksums,
            Action::RegenerateMetadata => ActionModel::RegenerateMetadata,
            Action::WriteMetadata { content } => ActionModel::WriteMetadata { content: content@ },
            Action::RunBuild { noconfirm } => ActionModel::RunBuild { noconfirm: *noconfirm },
            Action::SaveState { content } => ActionModel::SaveState { content: content@ },
            Action::Publish { message } => ActionModel::Publish { message: message@ },
            Action::Stop { outcome } => ActionModel::Stop { outcome: *outcome },
        }
    }
}

/// The exact prefix that marks the version-tag assignment.
pub open spec fn version_key() -> Seq<u8> {
    "_pkgtag=".spec_bytes()
}

/// The exact prefix that marks the release-counter assignment.
pub open spec fn release_key() -> Seq<u8> {
    "pkgrel=".spec_bytes()
}

/// The replacement version-tag line, annotated as automation-generated.
pub open spec fn version_line_of(tag: Seq<u8>) -> Seq<u8> {
    "_pkgtag=".spec_bytes() + tag + " #auto updated by CI".spec_bytes()
}

/// The replacement release-counter line: the literal reset value 1.
pub open spec fn release_reset_line() -> Seq<u8> {
    "pkgrel=1 #auto reset by CI".spec_bytes()
}

/// The commit message naming the computed version.
pub open spec fn commit_message_of(version: Seq<u8>) -> Seq<u8> {
    "auto update to ".spec_bytes() + version
}

fn make_version_line(tag: &Vec<u8>) -> (r: Vec<u8>)
    ensures
        r@ == version_line_of(tag@),
{
    let mut line = literal_bytes("_pkgtag=");
    push_bytes(&mut line, tag);
    let tail = literal_bytes(" #auto updated by CI");
    push_bytes(&mut line, &tail);
    proof {
        assert(line@ =~= version_line_of(tag@));
    }
    line
}

fn make_commit_message(version: &Vec<u8>) -> (r: Vec<u8>)
    ensures
        r@ == commit_message_of(version@),
{
    let mut message = literal_bytes("auto update to ");
    push_bytes(&mut message, version);
    message
}

/// Which events a stage can answer to. `Failed` fits every stage but `Done`;
/// `Done` answers to nothing.
pub open spec fn event_fits(stage: Stage, e: EventModel) -> bool {
    match e {
        EventModel::Failed { .. } => !(stage is Done),
        EventModel::StateLoaded { .. } => stage is LoadState,
        EventModel::ConfigLoaded { .. } => stage is LoadConfig,
        EventModel::MetadataLoaded { .. } => stage is LoadMetadata,
        EventModel::TagsFetched { .. } => stage is FetchTags,
        EventModel::RecipeRead { .. } => stage is ReadRecipe || stage is ReadRecipeReset,
        EventModel::RecipeWritten => stage is WriteRecipe || stage is WriteRecipeReset,
        EventModel::ChecksumsSynced => stage is SyncChecksums,
        EventModel::MetadataRegenerated { .. } => stage is Regenerate || stage is RegenerateReset,
        EventModel::MetadataWritten => stage is WriteMetadata,
        EventModel::BuildVerified => stage is VerifyBuild,
        EventModel::StateSaved => stage is SaveState,
        EventModel::Published => stage is Publish,
    }
}

/// The version gate: the computed version must match the configured pattern
/// before the regenerated metadata may be written back.
pub open spec fn spec_gate(m: PipelineModel, output: Seq<u8>) -> (PipelineModel, ActionModel) {
    if !pattern_accepted(m.pattern) {
        (
            PipelineModel { stage: Stage::Done, ..m },
            ActionModel::Stop {
                outcome: Outcome::Failed { stage: m.stage, kind: ErrorKind::InvalidPattern },
            },
        )
    } else if pattern_matches(m.pattern, m.computed) {
        (
            PipelineModel { stage: Stage::WriteMetadata, ..m },
            ActionModel::WriteMetadata { content: output },
        )
    } else {
        (
            PipelineModel { stage: Stage::Done, ..m },
            ActionModel::Stop {
                outcome: Outcome::Failed { stage: m.stage, kind: ErrorKind::VersionFormatError },
            },
        )
    }
}

/// The transition relation of the pipeline. For an event that fits the
/// stage, this says exactly which stage comes next and which action the
/// outside world is asked to take.
pub open spec fn spec_step(m: PipelineModel, e: EventModel) -> (PipelineModel, ActionModel) {
    match e {
        EventModel::Failed { kind } => (
            PipelineModel { stage: Stage::Done, ..m },
            ActionModel::Stop { outcome: Outcome::Failed { stage: m.stage, kind } },
        ),
        EventModel::StateLoaded { tag } => (
            PipelineModel { stage: Stage::LoadConfig, applied: tag, ..m },
            ActionModel::LoadConfig,
        ),
        EventModel::ConfigLoaded { pattern } => if pattern_accepted(pattern) {
            (PipelineModel { stage: Stage::LoadMetadata, pattern, ..m }, ActionModel::LoadMetadata)
        } else {
            (
                PipelineModel { stage: Stage::Done, pattern, ..m },
                ActionModel::Stop {
                    outcome: Outcome::Failed { stage: m.stage, kind: ErrorKind::InvalidPattern },
                },
            )
        },
        EventModel::MetadataLoaded { content } => match content {
            Option::None => (
                PipelineModel { stage: Stage::FetchTags, old_build: Option::None, ..m },
                ActionModel::FetchTags,
            ),
            Option::Some(doc) => match metadata_base_version(doc) {
                Option::Some(v) => (
                    PipelineModel { stage: Stage::FetchTags, old_build: Option::Some(v), ..m },
                    ActionModel::FetchTags,
                ),
                Option::None => (
                    PipelineModel { stage: Stage::Done, ..m },
                    ActionModel::Stop {
                        outcome: Outcome::Failed { stage: m.stage, kind: ErrorKind::ProtocolError },
                    },
                ),
            },
        },
        EventModel::TagsFetched { tags } => if tags.len() == 0 {
            (
                PipelineModel { stage: Stage::Done, ..m },
                ActionModel::Stop {
                    outcome: Outcome::Failed { stage: m.stage, kind: ErrorKind::ProtocolError },
                },
            )
        } else if tags[0] == m.applied && !m.options.force {
            (
                PipelineModel { stage: Stage::Done, candidate: tags[0], ..m },
                ActionModel::Stop { outcome: Outcome::UpToDate },
            )
        } else {
            (
                PipelineModel { stage: Stage::ReadRecipe, candidate: tags[0], ..m },
                ActionModel::ReadRecipe,
            )
        },
        EventModel::RecipeRead { content } => if m.stage is ReadRecipe {
            (
                PipelineModel { stage: Stage::WriteRecipe, ..m },
                ActionModel::WriteRecipe {
                    content: spec_rewrite(content, version_key(), version_line_of(m.candidate)),
                },
            )
        } else {
            (
                PipelineModel { stage: Stage::WriteRecipeReset, ..m },
                ActionModel::WriteRecipe {
                    content: spec_rewrite(content, release_key(), release_reset_line()),
                },
            )
        },
        EventModel::RecipeWritten => if m.stage is WriteRecipe {
            (PipelineModel { stage: Stage::SyncChecksums, ..m }, ActionModel::SyncChecksums)
        } else {
            (PipelineModel { stage: Stage::RegenerateReset, ..m }, ActionModel::RegenerateMetadata)
        },
        EventModel::ChecksumsSynced => (
            PipelineModel { stage: Stage::Regenerate, ..m },
            ActionModel::RegenerateMetadata,
        ),
        EventModel::MetadataRegenerated { output } => if m.stage is Regenerate {
            match metadata_base_version(output) {
                Option::None => (
                    PipelineModel { stage: Stage::Done, ..m },
                    ActionModel::Stop {
                        outcome: Outcome::Failed { stage: m.stage, kind: ErrorKind::ProtocolError },
                    },
                ),
                Option::Some(v) => if m.old_build != Option::Some(v) {
                    (
                        PipelineModel { stage: Stage::ReadRecipeReset, computed: v, ..m },
                        ActionModel::ReadRecipe,
                    )
                } else {
                    spec_gate(PipelineModel { computed: v, ..m }, output)
                },
            }
        } else {
            spec_gate(m, output)
        },
        EventModel::MetadataWritten => (
            PipelineModel { stage: Stage::VerifyBuild, ..m },
            ActionModel::RunBuild { noconfirm: m.options.noconfirm },
        ),
        EventModel::BuildVerified => (
            PipelineModel { stage: Stage::SaveState, ..m },
            ActionModel::SaveState { content: spec_encode_record(m.candidate) },
        ),
        EventModel::StateSaved => if m.options.dryrun {
            (
                PipelineModel { stage: Stage::Done, ..m },
                ActionModel::Stop { outcome: Outcome::Updated },
            )
        } else {
            (
                PipelineModel { stage: Stage::Publish, ..m },
                ActionModel::Publish { message: commit_message_of(m.computed) },
            )
        },
        EventModel::Published => (
            PipelineModel { stage: Stage::Done, ..m },
            ActionModel::Stop { outcome: Outcome::Updated },
        ),
    }
}

impl Pipeline {
    /// A fresh machine for one package, waiting for its state to be loaded.
    pub fn new(options: Options) -> (r: Pipeline)
        ensures
            r@ == (PipelineModel {
                options,
                stage: Stage::LoadState,
                applied: Seq::<u8>::empty(),
                pattern: Seq::<char>::empty(),
                old_build: Option::<Seq<u8>>::None,
                candidate: Seq::<u8>::empty(),
                computed: Seq::<u8>::empty(),
            }),
    {
        let r = Pipeline {
            options,
            stage: Stage::LoadState,
            applied: Vec::new(),
            pattern: String::new(),
            old_build: Option::None,
            candidate: Vec::new(),
            computed: Vec::new(),
        };
        proof {
            assert(r@.applied =~= Seq::<u8>::empty());
            assert(r@.pattern =~= Seq::<char>::empty());
            assert(r@.candidate =~= Seq::<u8>::empty());
            assert(r@.computed =~= Seq::<u8>::empty());
        }
        r
    }

    /// The machine's first request: read the persisted record.
    pub fn first_action(&self) -> (a: Action)
        requires
            self@.stage is LoadState,
        ensures
            a@ == ActionModel::LoadState,
    {
        Action::LoadState
    }

    fn gate(&mut self, output: Vec<u8>) -> (a: Action)
        ensures
            (final(self)@, a@) == spec_gate(old(self)@, output@),
    {
        match crate::gate::check_version(self.pattern.as_str(), &self.computed) {
            VersionGate::BadPattern => {
                let st = self.stage;
                self.stage = Stage::Done;
                Action::Stop {
                    outcome: Outcome::Failed { stage: st, kind: ErrorKind::InvalidPattern },
                }
            },
            VersionGate::Match => {
                self.stage = Stage::WriteMetadata;
                Action::WriteMetadata { content: output }
            },
            VersionGate::NoMatch => {
                let st = self.stage;
                self.stage = Stage::Done;
                Action::Stop {
                    outcome: Outcome::Failed { stage: st, kind: ErrorKind::VersionFormatError },
                }
            },
        }
    }

    /// One transition: absorb what the outside world reports, take the next
    /// decision, and ask for the next piece of outside work.
    pub fn step(&mut self, event: Event) -> (action: Action)
        requires
            event_fits(old(self)@.stage, event@),
        ensures
            (final(self)@, action@) == spec_step(old(self)@, event@),
    {
        match event {
            Event::Failed { kind } => {
                let st = self.stage;
                self.stage = Stage::Done;
                Action::Stop { outcome: Outcome::Failed { stage: st, kind } }
            },
            Event::StateLoaded { tag } => {
                self.applied = tag;
                self.stage = Stage::LoadConfig;
                Action::LoadConfig
            },
            Event::ConfigLoaded { pattern } => {
                let ok = crate::gate::pattern_is_valid(pattern.as_str());
                self.pattern = pattern;
                if ok {
                    self.stage = Stage::LoadMetadata;
                    Action::LoadMetadata
                } else {
                    let st = self.stage;
                    self.stage = Stage::Done;
                    Action::Stop {
                        outcome: Outcome::Failed { stage: st, kind: ErrorKind::InvalidPattern },
                    }
                }
            },
            Event::MetadataLoaded { content } => {
                match content {
                    Option::None => {
                        self.old_build = Option::None;
                        self.stage = Stage::FetchTags;
                        Action::FetchTags
                    },
                    Option::Some(doc) => {
                        match crate::metadata::parse_base_version(&doc) {
                            Option::Some(v) => {
                                self.old_build = Option::Some(v);
                                self.stage = Stage::FetchTags;
                                Action::FetchTags
                            },
                            Option::None => {
                                let st = self.stage;
                                self.stage = Stage::Done;
                                Action::Stop {
                                    outcome: Outcome::Failed {
                                        stage: st,
                                        kind: ErrorKind::ProtocolError,
                                    },
                                }
                            },
                        }
                    },
                }
            },
            Event::TagsFetched { tags } => {
                if tags.len() == 0 {
                    let st = self.stage;
                    self.stage = Stage::Done;
                    Action::Stop {
                        outcome: Outcome::Failed { stage: st, kind: ErrorKind::ProtocolError },
                    }
                } else {
                    let candidate = copy_bytes(&tags[0]);
                    let go = crate::should_update(&self.applied, &candidate, self.options.force);
                    self.candidate = candidate;
                    if go {
                        self.stage = Stage::ReadRecipe;
                        Action::ReadRecipe
                    } else {
                        self.stage = Stage::Done;
                        Action::Stop { outcome: Outcome::UpToDate }
                    }
                }
            },
            Event::RecipeRead { content } => {
                match self.stage {
                    Stage::ReadRecipe => {
                        let key = literal_bytes("_pkgtag=");
                        let line = make_version_line(&self.candidate);
                        let updated = crate::recipe::rewrite_assignment(&content, &key, &line);
                        self.stage = Stage::WriteRecipe;
                        Action::WriteRecipe { content: updated }
                    },
                    _ => {
                        let key = literal_bytes("pkgrel=");
                        let line = literal_bytes("pkgrel=1 #auto reset by CI");
                        let updated = crate::recipe::rewrite_assignment(&content, &key, &line);
                        self.stage = Stage::WriteRecipeReset;
                        Action::WriteRecipe { content: updated }
                    },
                }
            },
            Event::RecipeWritten => {
                match self.stage {
                    Stage::WriteRecipe => {
                        self.stage = Stage::SyncChecksums;
                        Action::SyncChecksums
                    },
                    _ => {
                        self.stage = Stage::RegenerateReset;
                        Action::RegenerateMetadata
                    },
                }
            },
            Event::ChecksumsSynced => {
                self.stage = Stage::Regenerate;
                Action::RegenerateMetadata
            },
            Event::MetadataRegenerated { output } => {
                match self.stage {
                    Stage::Regenerate => {
                        match crate::metadata::parse_base_version(&output) {
                            Option::None => {
                                let st = self.stage;
                                self.stage = Stage::Done;
                                Action::Stop {
                                    outcome: Outcome::Failed {
                                        stage: st,
                                        kind: ErrorKind::ProtocolError,
                                    },
                                }
                            },
                            Option::Some(v) => {
                                let same = match &self.old_build {
                                    Option::Some(ob) => crate::text::bytes_eq(ob, &v),
                                    Option::None => false,
                                };
                                self.computed = v;
                                if !same {
                                    self.stage = Stage::ReadRecipeReset;
                                    Action::ReadRecipe
                                } else {
                                    self.gate(output)
                                }
                            },
                        }
                    },
                    _ => self.gate(output),
                }
            },
            Event::MetadataWritten => {
                self.stage = Stage::VerifyBuild;
                Action::RunBuild { noconfirm: self.options.noconfirm }
            },
            Event::BuildVerified => {
                let record = VersionRecord { applied_version: copy_bytes(&self.candidate) };
                let content = record.encode_json();
                self.stage = Stage::SaveState;
                Action::SaveState { content }
            },
            Event::StateSaved => {
                if self.options.dryrun {
                    self.stage = Stage::Done;
                    Action::Stop { outcome: Outcome::Updated }
                } else {
                    let message = make_commit_message(&self.computed);
                    self.stage = Stage::Publish;
                    Action::Publish { message }
                }
            },
            Event::Published => {
                self.stage = Stage::Done;
                Action::Stop { outcome: Outcome::Updated }
            },
        }
    }
}

/// A whole run, one event after the other: the final machine and the
/// actions it asked for, in order.
pub open spec fn run_steps(m: PipelineModel, events: Seq<EventModel>) -> (
    PipelineModel,
    Seq<ActionModel>,
)
    decreases events.len(),
{
    if events.len() == 0 {
        (m, Seq::<ActionModel>::empty())
    } else {
        let first = spec_step(m, events[0]);
        let rest = run_steps(first.0, events.drop_first());
        (rest.0, seq![first.1] + rest.1)
    }
}

/// Whether an action changes anything outside the machine: a file write, a
/// tool run, a commit. Reads and the final stop are not mutations.
pub open spec fn mutating_action(a: ActionModel) -> bool {
    ||| a is WriteRecipe
    ||| a is SyncChecksums
    ||| a is RegenerateMetadata
    ||| a is WriteMetadata
    ||| a is RunBuild
    ||| a is SaveState
    ||| a is Publish
}

/// Law (skip short-circuit, and the second half of idempotence): when the
/// provider's first tag equals the version the persisted record names and no
/// force flag is set, the run loads its inputs, asks for nothing that
/// mutates a file or runs a tool, and ends successfully up to date.
pub proof fn lemma_skip_short_circuit(
    m0: PipelineModel,
    tag: Seq<u8>,
    pattern: Seq<char>,
    metadata: Option<Seq<u8>>,
    tags: Seq<Seq<u8>>,
)
    requires
        m0.stage is LoadState,
        !m0.options.force,
        pattern_accepted(pattern),
        (match metadata {
            Option::Some(doc) => metadata_base_version(doc) is Some,
            Option::None => true,
        }),
        tags.len() > 0,
        tags[0] == tag,
    ensures
        ({
            let events = seq![
                EventModel::StateLoaded { tag },
                EventModel::ConfigLoaded { pattern },
                EventModel::MetadataLoaded { content: metadata },
                EventModel::TagsFetched { tags },
            ];
            let (mf, actions) = run_steps(m0, events);
            &&& mf.stage is Done
            &&& actions == seq![
                ActionModel::LoadConfig,
                ActionModel::LoadMetadata,
                ActionModel::FetchTags,
                ActionModel::Stop { outcome: Outcome::UpToDate },
            ]
            &&& forall|i: int| 0 <= i < actions.len() ==> !mutating_action(#[trigger] actions[i])
        }),
{
    let e0 = EventModel::StateLoaded { tag };
    let e1 = EventModel::ConfigLoaded { pattern };
    let e2 = EventModel::MetadataLoaded { content: metadata };
    let e3 = EventModel::TagsFetched { tags };
    let events = seq![e0, e1, e2, e3];
    let s1 = spec_step(m0, e0);
    let s2 = spec_step(s1.0, e1);
    let s3 = spec_step(s2.0, e2);
    let s4 = spec_step(s3.0, e3);
    assert(s1.0.stage is LoadConfig && s1.1 == ActionModel::LoadConfig);
    assert(s2.0.stage is LoadMetadata && s2.1 == ActionModel::LoadMetadata);
    assert(s3.0.stage is FetchTags && s3.1 == ActionModel::FetchTags);
    assert(s3.0.applied == tag && !s3.0.options.force);
    assert(s4.0.stage is Done && s4.1 == (ActionModel::Stop { outcome: Outcome::UpToDate }));
    assert(events[0] == e0);
    assert(events.drop_first() =~= seq![e1, e2, e3]);
    assert(seq![e1, e2, e3].drop_first() =~= seq![e2, e3]);
    assert(seq![e2, e3].drop_first() =~= seq![e3]);
    assert(seq![e3].drop_first() =~= Seq::<EventModel>::empty());
    assert(run_steps(s4.0, Seq::<EventModel>::empty()) == (s4.0, Seq::<ActionModel>::empty()));
    assert(run_steps(s3.0, seq![e3]).0 == s4.0);
    assert(run_steps(s3.0, seq![e3]).1 =~= seq![s4.1]);
    assert(run_steps(s2.0, seq![e2, e3]).0 == s4.0);
    assert(run_steps(s2.0, seq![e2, e3]).1 =~= seq![s3.1, s4.1]);
    assert(run_steps(s1.0, seq![e1, e2, e3]).0 == s4.0);
    assert(run_steps(s1.0, seq![e1, e2, e3]).1 =~= seq![s2.1, s3.1, s4.1]);
    let (mf, actions) = run_steps(m0, events);
    assert(mf == s4.0);
    assert(actions =~= seq![s1.1, s2.1, s3.1, s4.1]);
    assert(forall|i: int| 0 <= i < actions.len() ==> !mutating_action(#[trigger] actions[i]));
}

/// Law (persistence exactness, the first half of idempotence): whenever the
/// machine asks for the state file to be saved, the bytes are exactly the
/// record naming the current candidate — so a later run that fetches the
/// same candidate loads a record equal to it and short-circuits.
pub proof fn lemma_save_names_candidate(m: PipelineModel, e: EventModel)
    ensures
        (spec_step(m, e).1 matches ActionModel::SaveState { content } ==> content
            == spec_encode_record(m.candidate)),
        (spec_step(m, e).1 is SaveState ==> spec_step(m, e).0.candidate == m.candidate),
{
}

/// Law (candidate stability): only the provider's answer sets the candidate;
/// every other transition carries it unchanged.
pub proof fn lemma_candidate_stable(m: PipelineModel, e: EventModel)
    ensures
        !(e is TagsFetched) ==> spec_step(m, e).0.candidate == m.candidate,
{
}

/// Law (release reset): when the regenerated metadata's build version
/// differs from the previously recorded one, the machine reads the recipe
/// again and rewrites exactly the release-counter assignment to the literal
/// reset line; when the two are equal, the recipe is not touched again and
/// the machine goes straight to the version gate.
pub proof fn lemma_release_reset(m: PipelineModel, output: Seq<u8>, v: Seq<u8>, recipe: Seq<u8>)
    requires
        m.stage is Regenerate,
        metadata_base_version(output) == Option::Some(v),
    ensures
        ({
            let (m1, a1) = spec_step(m, EventModel::MetadataRegenerated { output });
            &&& (m.old_build != Option::Some(v) ==> {
                &&& m1.stage is ReadRecipeReset
                &&& a1 == ActionModel::ReadRecipe
                &&& spec_step(m1, EventModel::RecipeRead { content: recipe }).1
                    == (ActionModel::WriteRecipe {
                    content: spec_rewrite(recipe, release_key(), release_reset_line()),
                })
            })
            &&& (m.old_build == Option::Some(v) ==> !(a1 is WriteRecipe) && !(a1 is ReadRecipe) && (
            a1 is WriteMetadata || a1 is Stop))
        }),
{
}

/// How many packages of a run failed.
pub open spec fn spec_failure_count(outcomes: Seq<Outcome>) -> int
    decreases outcomes.len(),
{
    if outcomes.len() == 0 {
        0
    } else {
        (if outcomes[0] is Failed {
            1int
        } else {
            0int
        }) + spec_failure_count(outcomes.drop_first())
    }
}

proof fn lemma_failure_count_push(outcomes: Seq<Outcome>, o: Outcome)
    ensures
        spec_failure_count(outcomes.push(o)) == spec_failure_count(outcomes) + (
        if o is Failed {
            1int
        } else {
            0int
        }),
    decreases outcomes.len(),
{
    let p = outcomes.push(o);
    if outcomes.len() == 0 {
        assert(p.drop_first() =~= Seq::<Outcome>::empty());
        assert(p[0] == o);
        assert(spec_failure_count(p.drop_first()) == 0);
        assert(spec_failure_count(outcomes) == 0);
    } else {
        lemma_failure_count_push(outcomes.drop_first(), o);
        assert(p.drop_first() =~= outcomes.drop_first().push(o));
        assert(p[0] == outcomes[0]);
    }
}

proof fn lemma_failure_count_bounds(outcomes: Seq<Outcome>)
    ensures
        0 <= spec_failure_count(outcomes) <= outcomes.len(),
    decreases outcomes.len(),
{
    if outcomes.len() > 0 {
        lemma_failure_count_bounds(outcomes.drop_first());
    }
}

/// Law (aggregate exit status): a run fails as a whole exactly when some
/// package's run failed; one package's failure is visible in the count and
/// nowhere else.
pub proof fn lemma_failure_count_zero(outcomes: Seq<Outcome>)
    ensures
        spec_failure_count(outcomes) == 0 <==> (forall|i: int|
            0 <= i < outcomes.len() ==> !(#[trigger] outcomes[i] is Failed)),
    decreases outcomes.len(),
{
    if outcomes.len() > 0 {
        lemma_failure_count_zero(outcomes.drop_first());
        lemma_failure_count_bounds(outcomes.drop_first());
        assert forall|i: int| 0 <= i < outcomes.len() && spec_failure_count(outcomes) == 0 implies !(
        #[trigger] outcomes[i] is Failed) by {
            if i > 0 {
                assert(outcomes.drop_first()[i - 1] == outcomes[i]);
            }
        }
        if forall|i: int| 0 <= i < outcomes.len() ==> !(#[trigger] outcomes[i] is Failed) {
            assert(forall|i: int|
                0 <= i < outcomes.drop_first().len() ==> !(#[trigger] outcomes.drop_first()[i]
                    is Failed));
        }
    }
}

/// Counts the packages whose run failed.
pub fn count_failures(outcomes: &Vec<Outcome>) -> (n: usize)
    ensures
        n as int == spec_failure_count(outcomes@),
        n <= outcomes@.len(),
{
    let total = outcomes.len();
    let mut n: usize = 0;
    let mut i: usize = 0;
    proof {
        assert(outcomes@.subrange(0, 0) =~= Seq::<Outcome>::empty());
        lemma_failure_count_bounds(outcomes@.subrange(0, 0));
    }
    while i < total
        invariant
            i <= total,
            total == outcomes@.len(),
            n as int == spec_failure_count(outcomes@.subrange(0, i as int)),
            n <= i,
        decreases total - i,
    {
        let failed = match outcomes[i] {
            Outcome::Failed { .. } => true,
            _ => false,
        };
        proof {
            assert(outcomes@.subrange(0, i as int + 1) =~= outcomes@.subrange(0, i as int).push(
                outcomes@[i as int],
            ));
            lemma_failure_count_push(outcomes@.subrange(0, i as int), outcomes@[i as int]);
        }
        if failed {
            n = n + 1;
        }
        i = i + 1;
    }
    proof {
        assert(outcomes@.subrange(0, total as int) =~= outcomes@);
    }
    n
}

/// The process exit code of a whole run: zero exactly when every package
/// succeeded or was already up to date.
pub fn aggregate_exit_code(outcomes: &Vec<Outcome>) -> (code: i32)
    ensures
        code == 0 <==> spec_failure_count(outcomes@) == 0,
        code == 0 || code == 1,
{
    if count_failures(outcomes) == 0 {
        0
    } else {
        1
    }
}

} // verus!
