use vstd::prelude::*;

use crate::scheduler::Scope;

verus! {

/// tokio's one-shot sender, carried as an opaque value: the completion signal
/// of a command. Nothing is assumed of its behaviour.
#[verifier::external_type_specification]
#[verifier::external_body]
#[verifier::reject_recursive_types(T)]
pub struct ExOneshotSender<T>(tokio::sync::oneshot::Sender<T>);

/// anyhow's error, carried as an opaque value in the outcome a command's
/// completion signal sends. Nothing is assumed of it.
#[verifier::external_type_specification]
#[verifier::external_body]
pub struct ExAnyhowError(anyhow::Error);

/// The completion signal of a command: it carries the outcome of the pass the
/// command asked for, once.
pub type Reply = tokio::sync::oneshot::Sender<Result<(), anyhow::Error>>;

/// A request to check series for new chapters, with its completion signal.
pub enum ChapterUpdateCommand {
    /// Check every series in any user's library.
    All(Reply),
    /// Check the series with this id.
    Manga(i64, Reply),
    /// Check the series in the library of the user with this id.
    Library(i64, Reply),
}

/// The series a command covers.
pub open spec fn command_scope(c: &ChapterUpdateCommand) -> Scope {
    match c {
        ChapterUpdateCommand::All(_) => Scope::All,
        ChapterUpdateCommand::Manga(id, _) => Scope::Manga(*id),
        ChapterUpdateCommand::Library(id, _) => Scope::Library(*id),
    }
}

impl ChapterUpdateCommand {
    /// The series this command covers.
    pub fn scope(&self) -> (r: Scope)
        ensures
            r == command_scope(self),
    {
        match self {
            ChapterUpdateCommand::All(_) => Scope::All,
            ChapterUpdateCommand::Manga(id, _) => Scope::Manga(*id),
            ChapterUpdateCommand::Library(id, _) => Scope::Library(*id),
        }
    }

    /// Splits the command into its scope and its completion signal.
    pub fn into_parts(self) -> (r: (Scope, Reply))
        ensures
            r.0 == command_scope(&self),
    {
        match self {
            ChapterUpdateCommand::All(tx) => (Scope::All, tx),
            ChapterUpdateCommand::Manga(id, tx) => (Scope::Manga(id), tx),
            ChapterUpdateCommand::Library(id, tx) => (Scope::Library(id), tx),
        }
    }
}

} // verus!
