//! The lifecycle of one upload request, as a state machine.
//!
//! The session decides; its driver performs. The driver hands each thing that
//! happened (the directory is ready, a field arrived, a chunk arrived, a write
//! failed) to [`UploadSession::step`] and carries out the action that comes
//! back: create the uploads directory, fetch the next field, create a file,
//! append a chunk and fetch the next one, or finish with an outcome.

use vstd::prelude::*;
use crate::naming::{
    artifact_name, artifact_name_spec, destination_path, destination_spec, inside_root,
    lemma_safe_component_stays_inside_root,
};

verus! {

/// Why a request failed.
#[derive(Clone, Copy, Debug, PartialEq, Eq, Structural)]
pub enum FailureKind {
    /// The uploads directory could not be created or reached.
    StorageUnavailable,
    /// The multipart body could not be decoded.
    Decode,
    /// A destination file could not be created or written.
    Io,
}

/// What one request came to.
#[derive(Clone, Copy, Debug, PartialEq, Eq, Structural)]
pub enum UploadOutcome {
    /// This many files were written; never zero.
    Success(u64),
    /// The body held no field.
    NoFilesWritten,
    Failure(FailureKind),
}

/// Where a session stands.
#[derive(Clone, Copy, Debug, PartialEq, Eq, Structural)]
pub enum Stage {
    EnsuringDirectory,
    AwaitingField,
    Writing,
    Finished(UploadOutcome),
}

/// Something that happened while the driver carried out the last action.
#[derive(Debug, PartialEq, Eq)]
pub enum Event {
    DirectoryReady,
    DirectoryFailed,
    /// A new field, with the file name that it declared, if any.
    FieldArrived(Option<String>),
    FieldsExhausted,
    /// The next chunk of the current field.
    ChunkArrived(Vec<u8>),
    /// The current field has no more chunks.
    FieldEnded,
    DecodeFailed,
    /// Creating or writing the current file failed.
    IoFailed,
}

/// What the driver is to do next.
#[derive(Debug, PartialEq, Eq)]
pub enum Action {
    /// Create this directory and its parents if absent.
    EnsureDirectory(String),
    /// Fetch the next field of the body.
    NextField,
    /// Create (or truncate) the file at this path, then fetch the field's
    /// first chunk.
    CreateFile(String),
    /// Append these bytes to the current file, then fetch the next chunk.
    Append(Vec<u8>),
    /// Stop; the request came to this outcome.
    Finish(UploadOutcome),
}

/// The outcome of a request whose fields ran out after `written` files.
pub open spec fn outcome_after(written: u64) -> UploadOutcome {
    if written == 0 {
        UploadOutcome::NoFilesWritten
    } else {
        UploadOutcome::Success(written)
    }
}

/// `n + 1`, held at the largest `u64`.
pub open spec fn saturating_succ(n: u64) -> u64 {
    if n < u64::MAX {
        (n + 1) as u64
    } else {
        n
    }
}

/// `n` as a `u64`, held at the largest one.
pub open spec fn saturating_len(n: nat) -> u64 {
    if n <= u64::MAX {
        n as u64
    } else {
        u64::MAX
    }
}

/// Which events a stage can meet.
pub open spec fn stage_accepts(stage: Stage, event: &Event) -> bool {
    match stage {
        Stage::EnsuringDirectory => event is DirectoryReady || event is DirectoryFailed,
        Stage::AwaitingField => {
            ||| event is FieldArrived
            ||| event is FieldsExhausted
            ||| event is DecodeFailed
        },
        Stage::Writing => {
            ||| event is ChunkArrived
            ||| event is FieldEnded
            ||| event is DecodeFailed
            ||| event is IoFailed
        },
        Stage::Finished(_) => false,
    }
}

pub open spec fn option_view(name: Option<String>) -> Option<Seq<char>> {
    match name {
        Some(n) => Some(n@),
        None => None,
    }
}

/// How one event moves a session from `pre` to `post`, and the action that
/// the driver is given. Identity and root never change; a failure or the end
/// of the fields finishes the session.
pub open spec fn steps_to(pre: UploadSession, event: Event, post: UploadSession, action: Action) -> bool {
    &&& post.root() == pre.root()
    &&& post.resource_id() == pre.resource_id()
    &&& post.category() == pre.category()
    &&& match event {
        Event::DirectoryReady => {
            &&& post.stage_spec() == Stage::AwaitingField
            &&& post.files_written_spec() == pre.files_written_spec()
            &&& action is NextField
        },
        Event::DirectoryFailed => finishes(
            pre,
            post,
            action,
            UploadOutcome::Failure(FailureKind::StorageUnavailable),
        ),
        Event::FieldArrived(name) => {
            &&& post.stage_spec() == Stage::Writing
            &&& post.files_written_spec() == pre.files_written_spec()
            &&& post.field_content() == Seq::<u8>::empty()
            &&& action matches Action::CreateFile(path) && path@ == destination_spec(
                pre.root(),
                artifact_name_spec(option_view(name), pre.resource_id(), pre.category()),
            ) && inside_root(pre.root(), path@)
        },
        Event::FieldsExhausted => finishes(pre, post, action, outcome_after(pre.files_written_spec())),
        Event::ChunkArrived(chunk) => {
            &&& post.stage_spec() == Stage::Writing
            &&& post.files_written_spec() == pre.files_written_spec()
            &&& post.field_content() == pre.field_content() + chunk@
            &&& action matches Action::Append(bytes) && bytes@ == chunk@
        },
        Event::FieldEnded => {
            &&& post.stage_spec() == Stage::AwaitingField
            &&& post.files_written_spec() == saturating_succ(pre.files_written_spec())
            &&& action is NextField
        },
        Event::DecodeFailed => finishes(pre, post, action, UploadOutcome::Failure(FailureKind::Decode)),
        Event::IoFailed => finishes(pre, post, action, UploadOutcome::Failure(FailureKind::Io)),
    }
}

pub open spec fn finishes(pre: UploadSession, post: UploadSession, action: Action, outcome: UploadOutcome) -> bool {
    &&& post.stage_spec() == Stage::Finished(outcome)
    &&& post.files_written_spec() == pre.files_written_spec()
    &&& action == Action::Finish(outcome)
}

/// The state of one request: where it stands, how many files it has written,
/// and what has been handed out for the current file.
pub struct UploadSession {
    root: String,
    resource_id: String,
    category: String,
    stage: Stage,
    files_written: u64,
    field_bytes: u64,
    field_content: Ghost<Seq<u8>>,
}

impl UploadSession {
    pub closed spec fn root(&self) -> Seq<char> {
        self.root@
    }

    pub closed spec fn resource_id(&self) -> Seq<char> {
        self.resource_id@
    }

    pub closed spec fn category(&self) -> Seq<char> {
        self.category@
    }

    pub closed spec fn stage_spec(&self) -> Stage {
        self.stage
    }

    pub closed spec fn files_written_spec(&self) -> u64 {
        self.files_written
    }

    /// The bytes handed out, in order, for appending to the current file.
    pub closed spec fn field_content(&self) -> Seq<u8> {
        self.field_content@
    }

    pub closed spec fn field_bytes_spec(&self) -> u64 {
        self.field_bytes
    }

    pub closed spec fn wf(&self) -> bool {
        &&& self.field_bytes == saturating_len(self.field_content@.len())
        &&& self.stage matches Stage::Finished(UploadOutcome::Success(n)) ==> n >= 1
    }

    /// A session for one request to `resource_id` and `category`, writing
    /// under `root`; the first action is to ensure that the root exists.
    pub fn start(root: &str, resource_id: &str, category: &str) -> (r: (UploadSession, Action))
        ensures
            r.0.wf(),
            r.0.root() == root@,
            r.0.resource_id() == resource_id@,
            r.0.category() == category@,
            r.0.stage_spec() == Stage::EnsuringDirectory,
            r.0.files_written_spec() == 0,
            r.1 matches Action::EnsureDirectory(d) && d@ == root@,
    {
        let session = UploadSession {
            root: String::from_str(root),
            resource_id: String::from_str(resource_id),
            category: String::from_str(category),
            stage: Stage::EnsuringDirectory,
            files_written: 0,
            field_bytes: 0,
            field_content: Ghost(Seq::empty()),
        };
        (session, Action::EnsureDirectory(String::from_str(root)))
    }

    pub fn stage(&self) -> (r: Stage)
        ensures
            r == self.stage_spec(),
    {
        self.stage
    }

    /// How many files this request has written in full.
    pub fn files_written(&self) -> (r: u64)
        ensures
            r == self.files_written_spec(),
    {
        self.files_written
    }

    /// How many bytes have been handed out for the current file.
    pub fn field_bytes(&self) -> (r: u64)
        requires
            self.wf(),
        ensures
            r == self.field_bytes_spec(),
            r == saturating_len(self.field_content().len()),
    {
        self.field_bytes
    }

    /// Whether the session, in its stage, can take `event`.
    pub fn accepts(&self, event: &Event) -> (r: bool)
        ensures
            r == stage_accepts(self.stage_spec(), event),
    {
        match self.stage {
            Stage::EnsuringDirectory => match event {
                Event::DirectoryReady | Event::DirectoryFailed => true,
                _ => false,
            },
            Stage::AwaitingField => match event {
                Event::FieldArrived(_) | Event::FieldsExhausted | Event::DecodeFailed => true,
                _ => false,
            },
            Stage::Writing => match event {
                Event::ChunkArrived(_) | Event::FieldEnded | Event::DecodeFailed
                | Event::IoFailed => true,
                _ => false,
            },
            Stage::Finished(_) => false,
        }
    }

    /// Takes one event and says what to do next (see [`steps_to`]). A field
    /// is named from its declared file name, the resource id and the category,
    /// and placed directly under the root; each chunk is handed back for
    /// appending, in arrival order; the first failure ends the request.
    pub fn step(&mut self, event: Event) -> (a: Action)
        requires
            old(self).wf(),
            stage_accepts(old(self).stage_spec(), &event),
        ensures
            final(self).wf(),
            steps_to(*old(self), event, *final(self), a),
    {
        match event {
            Event::DirectoryReady => {
                self.stage = Stage::AwaitingField;
                Action::NextField
            },
            Event::DirectoryFailed => self.finish(UploadOutcome::Failure(FailureKind::StorageUnavailable)),
            Event::FieldArrived(name) => {
                let file_name = match &name {
                    Some(n) => artifact_name(Some(n.as_str()), self.resource_id.as_str(), self.category.as_str()),
                    None => artifact_name(None, self.resource_id.as_str(), self.category.as_str()),
                };
                let path = destination_path(self.root.as_str(), file_name.as_str());
                proof {
                    lemma_safe_component_stays_inside_root(self.root@, file_name@);
                }
                self.stage = Stage::Writing;
                self.field_bytes = 0;
                self.field_content = Ghost(Seq::empty());
                Action::CreateFile(path)
            },
            Event::FieldsExhausted => {
                if self.files_written == 0 {
                    self.finish(UploadOutcome::NoFilesWritten)
                } else {
                    self.finish(UploadOutcome::Success(self.files_written))
                }
            },
            Event::ChunkArrived(chunk) => {
                let len = chunk.len() as u64;
                self.field_bytes = self.field_bytes.saturating_add(len);
                self.field_content = Ghost(self.field_content@ + chunk@);
                Action::Append(chunk)
            },
            Event::FieldEnded => {
                self.files_written = self.files_written.saturating_add(1);
                self.stage = Stage::AwaitingField;
                Action::NextField
            },
            Event::DecodeFailed => self.finish(UploadOutcome::Failure(FailureKind::Decode)),
            Event::IoFailed => self.finish(UploadOutcome::Failure(FailureKind::Io)),
        }
    }

    fn finish(&mut self, outcome: UploadOutcome) -> (a: Action)
        requires
            outcome matches UploadOutcome::Success(n) ==> n >= 1,
            old(self).wf(),
        ensures
            final(self).wf(),
            final(self).stage_spec() == Stage::Finished(outcome),
            a == Action::Finish(outcome),
            final(self).root() == old(self).root(),
            final(self).resource_id() == old(self).resource_id(),
            final(self).category() == old(self).category(),
            final(self).files_written_spec() == old(self).files_written_spec(),
            final(self).field_content() == old(self).field_content(),
    {
        self.stage = Stage::Finished(outcome);
        Action::Finish(outcome)
    }
}

} // verus!
