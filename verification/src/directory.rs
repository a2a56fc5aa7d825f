//! A model of the model directory, and what the asset server guarantees
//! over it.
//!
//! The step machine of [`crate::asset`] decides; a file system acts. This
//! module says what the two achieve together. [`Directory`] is the model
//! directory as a mathematical value, [`allows`] says how a file system may
//! answer an operation, failures included, and [`perform`] picks the answer of
//! a file system on which nothing fails that could succeed. The laws below
//! are stated over these: what a request leaves behind when nothing fails,
//! and what a reader can find whatever fails.

use crate::asset::{begin_model, model_names, resume_model};
use crate::asset::{FileOpView, OutcomeView, PendingView, ReplyView, RequestView, StepView};
use crate::asset::{STATUS_NOT_FOUND, STATUS_OK};
use crate::asset::BodyView;
use crate::name::{final_component, has_model_suffix};
use crate::name::{lemma_final_component_is_plain, lemma_model_name_has_final_component};
use crate::staging::{lemma_staging_name_is_plain, staging_name};
use vstd::prelude::*;

verus! {

/// The model directory: whether it exists, and the bytes of each file in it
/// by the file's name.
pub struct Directory {
    pub present: bool,
    pub files: Map<Seq<char>, Seq<u8>>,
}

impl Directory {
    /// A directory is well formed if it holds finitely many files, and none
    /// while it does not exist.
    pub open spec fn wf(self) -> bool {
        &&& self.files.dom().finite()
        &&& !self.present ==> self.files.dom() =~= Set::empty()
    }

    /// The bytes that a reader finds under a name, if there is such a file.
    pub open spec fn lookup(self, name: Seq<char>) -> Option<Seq<u8>> {
        if self.files.contains_key(name) {
            Some(self.files[name])
        } else {
            None
        }
    }

    /// The directory with `bytes` as the file `name`.
    pub open spec fn with(self, name: Seq<char>, bytes: Seq<u8>) -> Directory {
        Directory { present: self.present, files: self.files.insert(name, bytes) }
    }

    /// The directory without the file `name`.
    pub open spec fn without(self, name: Seq<char>) -> Directory {
        Directory { present: self.present, files: self.files.remove(name) }
    }

    /// The directory once it has been created: it exists, with the files it
    /// had.
    pub open spec fn created(self) -> Directory {
        Directory { present: true, files: self.files }
    }
}

/// Whether a file system may answer `op` on `before` with `outcome` and leave
/// `after`.
///
/// Every operation may fail. A reader is not disturbed by a failure, with one
/// exception: a write that fails may leave any part of its bytes in the
/// file it wrote to. A rename is one step: it has happened or it has not.
/// What a reader can find while an operation is under way is what it would
/// find had the operation failed at that moment.
pub open spec fn allows(
    before: Directory,
    op: FileOpView,
    outcome: OutcomeView,
    after: Directory,
) -> bool {
    match op {
        FileOpView::ListDir => {
            &&& after == before
            &&& match outcome {
                OutcomeView::Failed => true,
                OutcomeView::Entries(entries) => {
                    &&& before.present
                    &&& forall|i: int|
                        0 <= i < entries.len() ==> before.files.contains_key(#[trigger] entries[i])
                },
                _ => false,
            }
        },
        FileOpView::CreateDir => match outcome {
            OutcomeView::Failed => after == before,
            OutcomeView::Done => after == before.created(),
            _ => false,
        },
        FileOpView::Read { name } => {
            &&& after == before
            &&& match outcome {
                OutcomeView::Failed => true,
                OutcomeView::Bytes(bytes) => before.lookup(name) == Some(bytes),
                _ => false,
            }
        },
        FileOpView::Write { name, bytes } => match outcome {
            OutcomeView::Failed => {
                ||| after == before
                ||| exists|k: int|
                    0 <= k <= bytes.len() && after == #[trigger] before.with(name, bytes.take(k))
            },
            OutcomeView::Done => before.present && after == before.with(name, bytes),
            _ => false,
        },
        FileOpView::Rename { from, to } => match outcome {
            OutcomeView::Failed => after == before,
            OutcomeView::Done => {
                &&& before.files.contains_key(from)
                &&& after == before.without(from).with(to, before.files[from])
            },
            _ => false,
        },
        FileOpView::Remove { name } => match outcome {
            OutcomeView::Failed => after == before,
            OutcomeView::Done => before.files.contains_key(name) && after == before.without(name),
            _ => false,
        },
    }
}

/// How a file system on which nothing fails that could succeed answers `op`
/// on `dir`, and what it leaves. A listing names every file once, in no
/// order that a caller may rely on.
pub open spec fn perform(dir: Directory, op: FileOpView) -> (OutcomeView, Directory) {
    match op {
        FileOpView::ListDir => if dir.present {
            (OutcomeView::Entries(dir.files.dom().to_seq()), dir)
        } else {
            (OutcomeView::Failed, dir)
        },
        FileOpView::CreateDir => (OutcomeView::Done, dir.created()),
        FileOpView::Read { name } => match dir.lookup(name) {
            Some(bytes) => (OutcomeView::Bytes(bytes), dir),
            None => (OutcomeView::Failed, dir),
        },
        FileOpView::Write { name, bytes } => if dir.present {
            (OutcomeView::Done, dir.with(name, bytes))
        } else {
            (OutcomeView::Failed, dir)
        },
        FileOpView::Rename { from, to } => if dir.files.contains_key(from) {
            (OutcomeView::Done, dir.without(from).with(to, dir.files[from]))
        } else {
            (OutcomeView::Failed, dir)
        },
        FileOpView::Remove { name } => if dir.files.contains_key(name) {
            (OutcomeView::Done, dir.without(name))
        } else {
            (OutcomeView::Failed, dir)
        },
    }
}

/// The reply that a step leads to, and the directory it leaves, on a file
/// system on which nothing fails that could succeed.
pub open spec fn settle(dir: Directory, step: StepView) -> (ReplyView, Directory)
    decreases step.steps_left(),
{
    match step {
        StepView::Respond(reply) => (reply, dir),
        StepView::Perform { op, then } => {
            let (outcome, next) = perform(dir, op);
            settle(next, resume_model(then, outcome))
        },
    }
}

/// The reply to a request, and the directory it leaves, on a file system on
/// which nothing fails that could succeed.
pub open spec fn serve(dir: Directory, request: RequestView) -> (ReplyView, Directory) {
    settle(dir, begin_model(request))
}

/// The answers of a file system on which nothing fails are among those that
/// a file system may give.
pub proof fn lemma_perform_is_allowed(dir: Directory, op: FileOpView)
    requires
        dir.wf(),
    ensures
        allows(dir, op, perform(dir, op).0, perform(dir, op).1),
        perform(dir, op).1.wf(),
{
    match op {
        FileOpView::ListDir => {
            if dir.present {
                let entries = dir.files.dom().to_seq();
                dir.files.dom().lemma_to_seq_to_set_id();
                assert forall|i: int| 0 <= i < entries.len() implies dir.files.contains_key(
                    #[trigger] entries[i],
                ) by {
                    assert(entries.to_set().contains(entries[i]));
                }
            }
        },
        _ => {},
    }
}

/// Idempotent listing: a listing leaves the directory in existence, with the
/// files it had, and a second listing gives the reply of the first. A
/// directory that did not exist is created, and both replies hold no model.
pub proof fn lemma_listing_is_idempotent(dir: Directory)
    requires
        dir.wf(),
    ensures
        serve(dir, RequestView::List).1 == dir.created(),
        serve(dir.created(), RequestView::List) == serve(dir, RequestView::List),
        !dir.present ==> serve(dir, RequestView::List).0 == ReplyView::Models(Seq::empty()),
{
    reveal_with_fuel(settle, 3);
    if !dir.present {
        assert(dir.files.dom().len() == 0);
        assert(dir.files.dom().to_seq() == Seq::<Seq<char>>::empty());
        assert(model_names(Seq::empty()) == Seq::<Seq<char>>::empty());
    }
}

/// A listing of a directory that exists names exactly its models: the files
/// whose name ends in the model suffix.
pub proof fn lemma_listing_names_the_models(dir: Directory)
    requires
        dir.wf(),
        dir.present,
    ensures
        serve(dir, RequestView::List).0 matches ReplyView::Models(models) && forall|
            name: Seq<char>,
        |
            models.contains(name) <==> dir.files.contains_key(name) && has_model_suffix(name),
{
    reveal_with_fuel(settle, 3);
    let entries = dir.files.dom().to_seq();
    let is_model = |name: Seq<char>| has_model_suffix(name);
    let models = entries.filter(is_model);
    dir.files.dom().lemma_to_seq_to_set_id();
    assert forall|name: Seq<char>|
        models.contains(name) <==> dir.files.contains_key(name) && has_model_suffix(
            name,
        ) by {
        if models.contains(name) {
            entries.lemma_filter_contains_rev(is_model, name);
            assert(entries.to_set().contains(name));
        }
        if dir.files.contains_key(name) && has_model_suffix(name) {
            assert(entries.to_set().contains(name));
            let i = choose|i: int| 0 <= i < entries.len() && entries[i] == name;
            entries.lemma_filter_contains(is_model, i);
        }
    }
}

/// Round trip: in a directory that exists, a store under a name that has a
/// final component succeeds, and a fetch under the same name then replies
/// with exactly the bytes stored. The store leaves every other file as it
/// was, and no staging file behind.
pub proof fn lemma_store_then_fetch(
    dir: Directory,
    name: Seq<char>,
    bytes: Seq<u8>,
    ticket: u64,
)
    requires
        dir.present,
        final_component(name) is Some,
    ensures
        ({
            let target = final_component(name)->0;
            let staging = staging_name(target, ticket as nat);
            let (reply, after) = serve(dir, RequestView::Store { name, bytes, ticket });
            &&& reply == ReplyView::Stored
            &&& after == dir.without(staging).with(target, bytes)
            &&& serve(after, RequestView::Fetch { name }) == (ReplyView::Asset(bytes), after)
        }),
{
    reveal_with_fuel(settle, 4);
    let target = final_component(name)->0;
    let staging = staging_name(target, ticket as nat);
    lemma_final_component_is_plain(name);
    lemma_staging_name_is_plain(target, ticket as nat);
    let staged = dir.with(staging, bytes);
    let published = staged.without(staging).with(target, bytes);
    assert(perform(dir, FileOpView::Write { name: staging, bytes }) == (OutcomeView::Done, staged));
    assert(perform(staged, FileOpView::Rename { from: staging, to: target }) == (
        OutcomeView::Done,
        published,
    ));
    assert(published.files =~= dir.without(staging).with(target, bytes).files);
    assert(serve(dir, RequestView::Store { name, bytes, ticket }) == (
        ReplyView::Stored,
        published,
    ));
    assert(published.lookup(target) == Some(bytes));
}

/// A model that was stored is listed: after a store under a name that ends
/// in the model suffix, in a directory that exists, a listing names the file
/// that the name stands for.
pub proof fn lemma_stored_model_is_listed(
    dir: Directory,
    name: Seq<char>,
    bytes: Seq<u8>,
    ticket: u64,
)
    requires
        dir.wf(),
        dir.present,
        has_model_suffix(name),
    ensures
        ({
            let after = serve(dir, RequestView::Store { name, bytes, ticket }).1;
            &&& final_component(name) matches Some(target)
            &&& serve(after, RequestView::List).0 matches ReplyView::Models(models)
            &&& models.contains(target)
        }),
{
    lemma_model_name_has_final_component(name);
    lemma_store_then_fetch(dir, name, bytes, ticket);
    let after = serve(dir, RequestView::Store { name, bytes, ticket }).1;
    lemma_listing_names_the_models(after);
}

/// Missing file: a fetch under a name that stands for no stored file replies
/// not found, with status 404 and an empty body, and changes nothing.
pub proof fn lemma_fetch_of_missing(dir: Directory, name: Seq<char>)
    requires
        final_component(name) matches Some(target) ==> dir.lookup(target) is None,
    ensures
        serve(dir, RequestView::Fetch { name }) == (ReplyView::NotFound, dir),
        ReplyView::NotFound.status() == STATUS_NOT_FOUND,
        ReplyView::NotFound.body() == BodyView::Empty,
{
    reveal_with_fuel(settle, 2);
}

/// A fetch of a stored file replies with its bytes, whole, and with status
/// 200.
pub proof fn lemma_fetch_of_stored(dir: Directory, name: Seq<char>)
    requires
        final_component(name) is Some,
        dir.lookup(final_component(name)->0) is Some,
    ensures
        ({
            let bytes = dir.lookup(final_component(name)->0)->0;
            let reply = ReplyView::Asset(bytes);
            &&& serve(dir, RequestView::Fetch { name }) == (reply, dir)
            &&& reply.status() == STATUS_OK
            &&& reply.body() == BodyView::Bytes(bytes)
        }),
{
    reveal_with_fuel(settle, 2);
}

/// What holds of the directory at every step of a store of `bytes` under
/// `target` that is staged in `staging` and found the directory as `origin`.
///
/// * The staging file is another file than the target, and no model.
/// * No file but the target and the staging file has changed.
/// * Until the reply is that the upload is stored, the target is as it was
///   found. From then on it holds the new bytes, whole.
/// * When the staging file is about to be renamed over the target, it holds
///   the new bytes, whole.
pub open spec fn store_holds(
    origin: Directory,
    now: Directory,
    step: StepView,
    target: Seq<char>,
    staging: Seq<char>,
    bytes: Seq<u8>,
) -> bool {
    &&& staging != target
    &&& !has_model_suffix(staging)
    &&& forall|other: Seq<char>|
        other != target && other != staging ==> now.lookup(other) == origin.lookup(other)
    &&& match step {
        StepView::Perform { op, then } => {
            &&& now.lookup(target) == origin.lookup(target)
            &&& match then {
                PendingView::Staging { staging: s, target: t } => {
                    &&& s == staging
                    &&& t == target
                    &&& op == FileOpView::Write { name: staging, bytes }
                },
                PendingView::Publishing { staging: s } => {
                    &&& s == staging
                    &&& op == FileOpView::Rename { from: staging, to: target }
                    &&& now.lookup(staging) == Some(bytes)
                },
                PendingView::Discarding => op == FileOpView::Remove { name: staging },
                _ => false,
            }
        },
        StepView::Respond(reply) => match reply {
            ReplyView::Stored => now.lookup(target) == Some(bytes),
            ReplyView::StorageFailure => now.lookup(target) == origin.lookup(target),
            _ => false,
        },
    }
}

/// A store starts in a state that [`store_holds`] describes.
pub proof fn lemma_store_starts(origin: Directory, name: Seq<char>, bytes: Seq<u8>, ticket: u64)
    requires
        final_component(name) is Some,
    ensures
        store_holds(
            origin,
            origin,
            begin_model(RequestView::Store { name, bytes, ticket }),
            final_component(name)->0,
            staging_name(final_component(name)->0, ticket as nat),
            bytes,
        ),
{
    lemma_final_component_is_plain(name);
    lemma_staging_name_is_plain(final_component(name)->0, ticket as nat);
}

/// No partial visibility: however the file system answers an operation of a
/// store, failures and partial writes included, the store goes on in a state
/// that [`store_holds`] describes.
pub proof fn lemma_store_goes_on(
    origin: Directory,
    now: Directory,
    op: FileOpView,
    then: PendingView,
    outcome: OutcomeView,
    after: Directory,
    target: Seq<char>,
    staging: Seq<char>,
    bytes: Seq<u8>,
)
    requires
        store_holds(origin, now, StepView::Perform { op, then }, target, staging, bytes),
        allows(now, op, outcome, after),
    ensures
        store_holds(origin, after, resume_model(then, outcome), target, staging, bytes),
{
}

/// No partial visibility, as a reader sees it: at every step of a store, the
/// target holds what it held before the store or the new bytes, whole, and
/// never anything else. It holds the new bytes once the reply is that the
/// upload is stored, and what it held before when the reply is a storage
/// failure. No other model has changed, so a listing of the models shows
/// nothing of a store but its target.
pub proof fn lemma_store_shows_old_or_new(
    origin: Directory,
    now: Directory,
    step: StepView,
    target: Seq<char>,
    staging: Seq<char>,
    bytes: Seq<u8>,
)
    requires
        store_holds(origin, now, step, target, staging, bytes),
    ensures
        now.lookup(target) == origin.lookup(target) || now.lookup(target) == Some(bytes),
        step == StepView::Respond(ReplyView::Stored) ==> now.lookup(target) == Some(bytes),
        step == StepView::Respond(ReplyView::StorageFailure) ==> now.lookup(target)
            == origin.lookup(target),
        forall|other: Seq<char>|
            has_model_suffix(other) && other != target ==> now.lookup(other) == origin.lookup(
                other,
            ),
{
}

/// No partial visibility, as a caller sees it: a fetch made at any step of a
/// store under the same name is answered as it would have been before the
/// store, or with the new bytes, whole.
pub proof fn lemma_fetch_during_store(
    origin: Directory,
    now: Directory,
    step: StepView,
    name: Seq<char>,
    bytes: Seq<u8>,
    ticket: u64,
)
    requires
        final_component(name) is Some,
        store_holds(
            origin,
            now,
            step,
            final_component(name)->0,
            staging_name(final_component(name)->0, ticket as nat),
            bytes,
        ),
    ensures
        ({
            let reply = serve(now, RequestView::Fetch { name }).0;
            ||| reply == serve(origin, RequestView::Fetch { name }).0
            ||| reply == ReplyView::Asset(bytes)
        }),
{
    reveal_with_fuel(settle, 2);
}

} // verus!
