//! The asset server: listing, fetching and storing avatar models.
//!
//! The server keeps its models as the files of one flat directory. This
//! module touches no file. It is a step machine: [`begin`] turns a request
//! into the first step, a step is either a file operation to perform inside
//! the model directory or the reply to send, and [`resume`] turns the outcome
//! of an operation into the next step. Whoever drives the machine performs
//! each operation and hands back what happened, nothing more.
//!
//! | request | operations | reply |
//! |---|---|---|
//! | list | list the directory; create it if that failed | the model names, none after a creation |
//! | fetch | read the file | its bytes, or not found |
//! | store | write a staging file, rename it over the target; remove it if either failed | stored, or a storage failure |
//!
//! Every name in an operation is a plain name, so no operation leaves the
//! model directory. A request is answered after at most three operations.

use crate::name::{file_name, final_component, has_model_suffix, is_model_name, is_plain_name};
use crate::name::lemma_final_component_is_plain;
use crate::staging::{lemma_staging_name_is_plain, staging_file, staging_name};
use vstd::prelude::*;

verus! {

/// Name of the model directory inside the application's data directory.
pub const MODEL_DIR: &'static str = "vrm";

/// Address the server listens on: the local machine only.
pub const SERVER_HOST: &'static str = "127.0.0.1";

/// TCP port the server listens on.
pub const SERVER_PORT: u16 = 8108;

/// Largest upload the server takes, in bytes: 1 GiB.
pub const MAX_UPLOAD_BYTES: usize = 1073741824;

/// HTTP status of a reply that carries what was asked for.
pub const STATUS_OK: u16 = 200;

/// HTTP status of a fetch that found no file.
pub const STATUS_NOT_FOUND: u16 = 404;

/// HTTP status of a store that could not be completed.
pub const STATUS_STORAGE_FAILURE: u16 = 500;

/// What a caller asks of the asset server.
#[derive(Clone, Debug, PartialEq, Eq)]
pub enum Request {
    /// The names of the stored models.
    List,
    /// The bytes of the model that `name` stands for.
    Fetch { name: String },
    /// Keep `bytes` as the model that `name` stands for, replacing what was
    /// there. `ticket` is a number that no other upload in flight holds.
    Store { name: String, bytes: Vec<u8>, ticket: u64 },
}

/// A file operation inside the model directory. Names are names of files
/// directly in that directory.
#[derive(Clone, Debug, PartialEq, Eq)]
pub enum FileOp {
    /// Read the names of the directory's entries.
    ListDir,
    /// Create the directory, with the directories above it.
    CreateDir,
    /// Read the whole file.
    Read { name: String },
    /// Create or empty the file, write all of `bytes` to it and make them
    /// durable.
    Write { name: String, bytes: Vec<u8> },
    /// Rename `from` to `to` in one step, replacing `to` if it exists.
    Rename { from: String, to: String },
    /// Remove the file.
    Remove { name: String },
}

/// What became of a file operation.
#[derive(Clone, Debug, PartialEq, Eq)]
pub enum Outcome {
    /// The operation failed, for whatever reason.
    Failed,
    /// A creation, write, rename or removal succeeded.
    Done,
    /// The entries that a listing found.
    Entries(Vec<String>),
    /// The bytes that a read found.
    Bytes(Vec<u8>),
}

/// What the asset server answers.
#[derive(Clone, Debug, PartialEq, Eq)]
pub enum Reply {
    /// The names of the stored models.
    Models(Vec<String>),
    /// The bytes of the model asked for.
    Asset(Vec<u8>),
    /// The upload is stored.
    Stored,
    /// No such model is stored.
    NotFound,
    /// The upload could not be stored.
    StorageFailure,
}

/// The body of an HTTP response.
#[derive(Clone, Debug, PartialEq, Eq)]
pub enum Body {
    /// No bytes at all.
    Empty,
    /// These bytes, as they are.
    Bytes(Vec<u8>),
    /// A JSON document whose member `models` is the array of these names.
    Models(Vec<String>),
}

/// Where a request stands while one of its file operations is under way.
#[derive(Debug, PartialEq, Eq)]
enum Stage {
    Listing,
    CreatingDir,
    Fetching,
    Staging { staging: String, target: String },
    Publishing { staging: String },
    Discarding,
}

/// What the machine remembers of a request while one of its file operations
/// is under way. Only [`begin`] and [`resume`] make one.
#[derive(Debug, PartialEq, Eq)]
pub struct Pending {
    stage: Stage,
}

/// What the driver of the machine does next.
#[derive(Debug, PartialEq, Eq)]
pub enum Step {
    /// Perform `op`, then call [`resume`] with `then` and the outcome.
    Perform { op: FileOp, then: Pending },
    /// Send this reply; the request is done.
    Respond(Reply),
}

/// [`Request`] as a mathematical value.
pub enum RequestView {
    List,
    Fetch { name: Seq<char> },
    Store { name: Seq<char>, bytes: Seq<u8>, ticket: u64 },
}

/// [`FileOp`] as a mathematical value.
pub enum FileOpView {
    ListDir,
    CreateDir,
    Read { name: Seq<char> },
    Write { name: Seq<char>, bytes: Seq<u8> },
    Rename { from: Seq<char>, to: Seq<char> },
    Remove { name: Seq<char> },
}

/// [`Outcome`] as a mathematical value.
pub enum OutcomeView {
    Failed,
    Done,
    Entries(Seq<Seq<char>>),
    Bytes(Seq<u8>),
}

/// [`Reply`] as a mathematical value.
pub enum ReplyView {
    Models(Seq<Seq<char>>),
    Asset(Seq<u8>),
    Stored,
    NotFound,
    StorageFailure,
}

/// [`Body`] as a mathematical value.
pub enum BodyView {
    Empty,
    Bytes(Seq<u8>),
    Models(Seq<Seq<char>>),
}

/// [`Pending`] as a mathematical value.
pub enum PendingView {
    /// The directory is being listed.
    Listing,
    /// The directory is being created, after a listing failed.
    CreatingDir,
    /// The file asked for is being read.
    Fetching,
    /// The upload is being written to `staging`, to be published as `target`.
    Staging { staging: Seq<char>, target: Seq<char> },
    /// The staging file is being renamed over the target.
    Publishing { staging: Seq<char> },
    /// The staging file of a failed upload is being removed.
    Discarding,
}

/// [`Step`] as a mathematical value.
pub enum StepView {
    Perform { op: FileOpView, then: PendingView },
    Respond(ReplyView),
}

impl View for Request {
    type V = RequestView;

    open spec fn view(&self) -> RequestView {
        match *self {
            Request::List => RequestView::List,
            Request::Fetch { name } => RequestView::Fetch { name: name@ },
            Request::Store { name, bytes, ticket } => RequestView::Store {
                name: name@,
                bytes: bytes@,
                ticket,
            },
        }
    }
}

impl View for FileOp {
    type V = FileOpView;

    open spec fn view(&self) -> FileOpView {
        match *self {
            FileOp::ListDir => FileOpView::ListDir,
            FileOp::CreateDir => FileOpView::CreateDir,
            FileOp::Read { name } => FileOpView::Read { name: name@ },
            FileOp::Write { name, bytes } => FileOpView::Write { name: name@, bytes: bytes@ },
            FileOp::Rename { from, to } => FileOpView::Rename { from: from@, to: to@ },
            FileOp::Remove { name } => FileOpView::Remove { name: name@ },
        }
    }
}

impl View for Outcome {
    type V = OutcomeView;

    open spec fn view(&self) -> OutcomeView {
        match *self {
            Outcome::Failed => OutcomeView::Failed,
            Outcome::Done => OutcomeView::Done,
            Outcome::Entries(entries) => OutcomeView::Entries(entries.deep_view()),
            Outcome::Bytes(bytes) => OutcomeView::Bytes(bytes@),
        }
    }
}

impl View for Reply {
    type V = ReplyView;

    open spec fn view(&self) -> ReplyView {
        match *self {
            Reply::Models(models) => ReplyView::Models(models.deep_view()),
            Reply::Asset(bytes) => ReplyView::Asset(bytes@),
            Reply::Stored => ReplyView::Stored,
            Reply::NotFound => ReplyView::NotFound,
            Reply::StorageFailure => ReplyView::StorageFailure,
        }
    }
}

impl View for Body {
    type V = BodyView;

    open spec fn view(&self) -> BodyView {
        match *self {
            Body::Empty => BodyView::Empty,
            Body::Bytes(bytes) => BodyView::Bytes(bytes@),
            Body::Models(models) => BodyView::Models(models.deep_view()),
        }
    }
}

impl View for Pending {
    type V = PendingView;

    closed spec fn view(&self) -> PendingView {
        match self.stage {
            Stage::Listing => PendingView::Listing,
            Stage::CreatingDir => PendingView::CreatingDir,
            Stage::Fetching => PendingView::Fetching,
            Stage::Staging { staging, target } => PendingView::Staging {
                staging: staging@,
                target: target@,
            },
            Stage::Publishing { staging } => PendingView::Publishing { staging: staging@ },
            Stage::Discarding => PendingView::Discarding,
        }
    }
}

impl View for Step {
    type V = StepView;

    open spec fn view(&self) -> StepView {
        match *self {
            Step::Perform { op, then } => StepView::Perform { op: op@, then: then@ },
            Step::Respond(reply) => StepView::Respond(reply@),
        }
    }
}

impl FileOpView {
    /// Whether the operation stays inside the model directory: every name in
    /// it is a plain name.
    pub open spec fn contained(self) -> bool {
        match self {
            FileOpView::ListDir => true,
            FileOpView::CreateDir => true,
            FileOpView::Read { name } => is_plain_name(name),
            FileOpView::Write { name, bytes } => is_plain_name(name),
            FileOpView::Rename { from, to } => is_plain_name(from) && is_plain_name(to),
            FileOpView::Remove { name } => is_plain_name(name),
        }
    }
}

impl PendingView {
    /// Whether the names that the request goes on with are plain names, and
    /// the staging file is another file than the target.
    pub open spec fn contained(self) -> bool {
        match self {
            PendingView::Staging { staging, target } => {
                &&& is_plain_name(staging)
                &&& is_plain_name(target)
                &&& staging != target
            },
            PendingView::Publishing { staging } => is_plain_name(staging),
            _ => true,
        }
    }

    /// An upper bound on the file operations still to come, the one under
    /// way included.
    pub open spec fn steps_left(self) -> nat {
        match self {
            PendingView::Listing => 2,
            PendingView::CreatingDir => 1,
            PendingView::Fetching => 1,
            PendingView::Staging { staging, target } => 3,
            PendingView::Publishing { staging } => 2,
            PendingView::Discarding => 1,
        }
    }
}

impl StepView {
    /// Whether the step stays inside the model directory, now and in what it
    /// goes on with.
    pub open spec fn contained(self) -> bool {
        match self {
            StepView::Perform { op, then } => op.contained() && then.contained(),
            StepView::Respond(reply) => true,
        }
    }

    /// An upper bound on the file operations still to come.
    pub open spec fn steps_left(self) -> nat {
        match self {
            StepView::Perform { op, then } => then.steps_left(),
            StepView::Respond(reply) => 0,
        }
    }
}

impl ReplyView {
    /// The HTTP status that the reply is sent with.
    pub open spec fn status(self) -> u16 {
        match self {
            ReplyView::Models(models) => STATUS_OK,
            ReplyView::Asset(bytes) => STATUS_OK,
            ReplyView::Stored => STATUS_OK,
            ReplyView::NotFound => STATUS_NOT_FOUND,
            ReplyView::StorageFailure => STATUS_STORAGE_FAILURE,
        }
    }

    /// The body that the reply is sent with: the model names as a document,
    /// a model's bytes as they are, and nothing in every other case.
    pub open spec fn body(self) -> BodyView {
        match self {
            ReplyView::Models(models) => BodyView::Models(models),
            ReplyView::Asset(bytes) => BodyView::Bytes(bytes),
            ReplyView::Stored => BodyView::Empty,
            ReplyView::NotFound => BodyView::Empty,
            ReplyView::StorageFailure => BodyView::Empty,
        }
    }
}

/// The entries that are models, in the order of the entries.
pub open spec fn model_names(entries: Seq<Seq<char>>) -> Seq<Seq<char>> {
    entries.filter(|name: Seq<char>| has_model_suffix(name))
}

/// The first step of a request.
///
/// A listing starts by reading the directory. A fetch reads the file that
/// the name's final component stands for, a store writes the staging file
/// for it; a name without a final component stands for no file, so the fetch
/// finds nothing and the store fails, and neither touches a file.
pub open spec fn begin_model(request: RequestView) -> StepView {
    match request {
        RequestView::List => StepView::Perform {
            op: FileOpView::ListDir,
            then: PendingView::Listing,
        },
        RequestView::Fetch { name } => match final_component(name) {
            Some(file) => StepView::Perform {
                op: FileOpView::Read { name: file },
                then: PendingView::Fetching,
            },
            None => StepView::Respond(ReplyView::NotFound),
        },
        RequestView::Store { name, bytes, ticket } => match final_component(name) {
            Some(target) => StepView::Perform {
                op: FileOpView::Write { name: staging_name(target, ticket as nat), bytes },
                then: PendingView::Staging {
                    staging: staging_name(target, ticket as nat),
                    target,
                },
            },
            None => StepView::Respond(ReplyView::StorageFailure),
        },
    }
}

/// The step that follows the outcome of a file operation.
///
/// * A listing replies with the models among the entries. Where the listing
///   failed, the directory is created, and whether or not that succeeds the
///   reply holds no model.
/// * A fetch replies with the bytes read, and with not found where the read
///   gave none, whatever the reason.
/// * A store renames the staging file over the target once it is written,
///   and replies that the upload is stored once it is renamed. Where the
///   write or the rename did not succeed, the staging file is removed and
///   the reply is a storage failure.
pub open spec fn resume_model(pending: PendingView, outcome: OutcomeView) -> StepView {
    match pending {
        PendingView::Listing => match outcome {
            OutcomeView::Entries(entries) => StepView::Respond(
                ReplyView::Models(model_names(entries)),
            ),
            _ => StepView::Perform { op: FileOpView::CreateDir, then: PendingView::CreatingDir },
        },
        PendingView::CreatingDir => StepView::Respond(ReplyView::Models(Seq::empty())),
        PendingView::Fetching => match outcome {
            OutcomeView::Bytes(bytes) => StepView::Respond(ReplyView::Asset(bytes)),
            _ => StepView::Respond(ReplyView::NotFound),
        },
        PendingView::Staging { staging, target } => match outcome {
            OutcomeView::Done => StepView::Perform {
                op: FileOpView::Rename { from: staging, to: target },
                then: PendingView::Publishing { staging },
            },
            _ => StepView::Perform {
                op: FileOpView::Remove { name: staging },
                then: PendingView::Discarding,
            },
        },
        PendingView::Publishing { staging } => match outcome {
            OutcomeView::Done => StepView::Respond(ReplyView::Stored),
            _ => StepView::Perform {
                op: FileOpView::Remove { name: staging },
                then: PendingView::Discarding,
            },
        },
        PendingView::Discarding => StepView::Respond(ReplyView::StorageFailure),
    }
}

/// Containment: a request starts with a step that stays inside the model
/// directory, and a fetch or a store touches no file but the one that the
/// name's final component stands for, and that file's staging file.
pub proof fn lemma_begin_contained(request: RequestView)
    ensures
        begin_model(request).contained(),
{
    match request {
        RequestView::List => {},
        RequestView::Fetch { name } => {
            lemma_final_component_is_plain(name);
        },
        RequestView::Store { name, bytes, ticket } => {
            lemma_final_component_is_plain(name);
            match final_component(name) {
                Some(target) => lemma_staging_name_is_plain(target, ticket as nat),
                None => {},
            }
        },
    }
}

/// Containment and progress: whatever the outcome, a request that stayed
/// inside the model directory goes on with a step that stays inside it, and
/// has fewer file operations left than before.
pub proof fn lemma_resume_contained(pending: PendingView, outcome: OutcomeView)
    requires
        pending.contained(),
    ensures
        resume_model(pending, outcome).contained(),
        resume_model(pending, outcome).steps_left() < pending.steps_left(),
{
}

impl Pending {
    #[verifier::type_invariant]
    spec fn stays_contained(self) -> bool {
        self@.contained()
    }
}

/// The entries that are models, in the order of the entries.
pub fn models_among(entries: Vec<String>) -> (models: Vec<String>)
    ensures
        models.deep_view() == model_names(entries.deep_view()),
{
    let ghost is_model = |name: Seq<char>| has_model_suffix(name);
    let mut models: Vec<String> = Vec::new();
    let mut i: usize = 0;
    while i < entries.len()
        invariant
            i <= entries.len(),
            is_model == |name: Seq<char>| has_model_suffix(name),
            models.deep_view() == entries.deep_view().take(i as int).filter(is_model),
        decreases entries.len() - i,
    {
        let ghost before = entries.deep_view().take(i as int);
        let ghost kept = models.deep_view();
        if is_model_name(entries[i].as_str()) {
            models.push(entries[i].clone());
            assert(models.deep_view() == kept.push(entries[i as int]@));
        }
        proof {
            assert(entries.deep_view().take(i + 1) == before.push(entries[i as int]@));
            before.lemma_filter_push(entries[i as int]@, is_model);
        }
        i += 1;
    }
    assert(entries.deep_view().take(i as int) == entries.deep_view());
    models
}

/// Starts on a request: the file operation to perform first, or the reply
/// where none is needed.
pub fn begin(request: Request) -> (step: Step)
    ensures
        step@ == begin_model(request@),
        step@.contained(),
{
    proof {
        lemma_begin_contained(request@);
    }
    match request {
        Request::List => Step::Perform { op: FileOp::ListDir, then: Pending { stage: Stage::Listing } },
        Request::Fetch { name } => match file_name(name.as_str()) {
            Some(file) => Step::Perform {
                op: FileOp::Read { name: file },
                then: Pending { stage: Stage::Fetching },
            },
            None => Step::Respond(Reply::NotFound),
        },
        Request::Store { name, bytes, ticket } => match file_name(name.as_str()) {
            Some(target) => {
                let staging = staging_file(target.as_str(), ticket);
                Step::Perform {
                    op: FileOp::Write { name: staging.clone(), bytes },
                    then: Pending { stage: Stage::Staging { staging, target } },
                }
            },
            None => Step::Respond(Reply::StorageFailure),
        },
    }
}

/// Goes on with a request after a file operation: the next operation to
/// perform, or the reply.
pub fn resume(pending: Pending, outcome: Outcome) -> (step: Step)
    ensures
        step@ == resume_model(pending@, outcome@),
        step@.contained(),
        step@.steps_left() < pending@.steps_left(),
{
    proof {
        use_type_invariant(&pending);
        lemma_resume_contained(pending@, outcome@);
    }
    match pending.stage {
        Stage::Listing => match outcome {
            Outcome::Entries(entries) => Step::Respond(Reply::Models(models_among(entries))),
            _ => Step::Perform { op: FileOp::CreateDir, then: Pending { stage: Stage::CreatingDir } },
        },
        Stage::CreatingDir => {
            let models: Vec<String> = Vec::new();
            assert(models.deep_view() == Seq::<Seq<char>>::empty());
            Step::Respond(Reply::Models(models))
        },
        Stage::Fetching => match outcome {
            Outcome::Bytes(bytes) => Step::Respond(Reply::Asset(bytes)),
            _ => Step::Respond(Reply::NotFound),
        },
        Stage::Staging { staging, target } => match outcome {
            Outcome::Done => Step::Perform {
                op: FileOp::Rename { from: staging.clone(), to: target },
                then: Pending { stage: Stage::Publishing { staging } },
            },
            _ => Step::Perform {
                op: FileOp::Remove { name: staging },
                then: Pending { stage: Stage::Discarding },
            },
        },
        Stage::Publishing { staging } => match outcome {
            Outcome::Done => Step::Respond(Reply::Stored),
            _ => Step::Perform {
                op: FileOp::Remove { name: staging },
                then: Pending { stage: Stage::Discarding },
            },
        },
        Stage::Discarding => Step::Respond(Reply::StorageFailure),
    }
}

impl Reply {
    /// The HTTP status to send the reply with: 200 for what was asked for,
    /// 404 for a model that is not stored, 500 for an upload that failed.
    pub fn status(&self) -> (code: u16)
        ensures
            code == self@.status(),
    {
        match self {
            Reply::Models(_) => STATUS_OK,
            Reply::Asset(_) => STATUS_OK,
            Reply::Stored => STATUS_OK,
            Reply::NotFound => STATUS_NOT_FOUND,
            Reply::StorageFailure => STATUS_STORAGE_FAILURE,
        }
    }

    /// The HTTP body to send the reply with.
    pub fn into_body(self) -> (body: Body)
        ensures
            body@ == self@.body(),
    {
        match self {
            Reply::Models(models) => Body::Models(models),
            Reply::Asset(bytes) => Body::Bytes(bytes),
            Reply::Stored => Body::Empty,
            Reply::NotFound => Body::Empty,
            Reply::StorageFailure => Body::Empty,
        }
    }
}

} // verus!
