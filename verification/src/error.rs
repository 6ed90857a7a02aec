//! The errors that the engine reports.

use vstd::prelude::*;
use vstd::string::*;

verus! {

/// Why a version request was turned down.
#[derive(Clone, Copy, Debug, PartialEq, Eq, Structural)]
pub enum StringErrorKind {
    /// The request is empty: there is nothing to look up.
    InvalidVersion,
    /// The request is well formed and the catalog has no entry for it.
    UnsupportedVersion,
}

/// An error that is reported to the user as a sentence.
#[derive(Debug, PartialEq, Eq)]
pub struct StringError {
    pub kind: StringErrorKind,
    pub message: String,
}

pub struct StringErrorView {
    pub kind: StringErrorKind,
    pub message: Seq<char>,
}

impl View for StringError {
    type V = StringErrorView;

    open spec fn view(&self) -> StringErrorView {
        StringErrorView { kind: self.kind, message: self.message@ }
    }
}

impl Clone for StringError {
    fn clone(&self) -> (copy: StringError)
        ensures
            copy@ == self@,
    {
        StringError { kind: self.kind, message: self.message.clone() }
    }
}

impl StringError {
    pub fn new(kind: StringErrorKind, message: String) -> (error: StringError)
        ensures
            error@ == (StringErrorView { kind, message: message@ }),
    {
        StringError { kind, message }
    }
}

/// What went wrong, in the broadest terms.
#[derive(Clone, Copy, Debug, PartialEq, Eq, Structural)]
pub enum EngineErrorCause {
    /// A tool failed, a workload did not become ready, or a collaborator
    /// could not be built.
    Internal,
    /// The request itself was at fault.
    User,
    /// The action was called off.
    Canceled,
    /// The lifecycle hook has no behaviour yet.
    NotImplemented,
}

/// The entity or subsystem that an error belongs to.
#[derive(Debug, PartialEq, Eq)]
pub enum EngineErrorScope {
    Engine,
    /// A container registry, by id and name.
    ContainerRegistry(String, String),
    /// A database, by id and name.
    Database(String, String),
}

pub enum EngineErrorScopeView {
    Engine,
    ContainerRegistry(Seq<char>, Seq<char>),
    Database(Seq<char>, Seq<char>),
}

impl View for EngineErrorScope {
    type V = EngineErrorScopeView;

    open spec fn view(&self) -> EngineErrorScopeView {
        match self {
            EngineErrorScope::Engine => EngineErrorScopeView::Engine,
            EngineErrorScope::ContainerRegistry(id, name) => EngineErrorScopeView::ContainerRegistry(
                id@,
                name@,
            ),
            EngineErrorScope::Database(id, name) => EngineErrorScopeView::Database(id@, name@),
        }
    }
}

impl Clone for EngineErrorScope {
    fn clone(&self) -> (copy: EngineErrorScope)
        ensures
            copy@ == self@,
    {
        match self {
            EngineErrorScope::Engine => EngineErrorScope::Engine,
            EngineErrorScope::ContainerRegistry(id, name) => EngineErrorScope::ContainerRegistry(
                id.clone(),
                name.clone(),
            ),
            EngineErrorScope::Database(id, name) => EngineErrorScope::Database(
                id.clone(),
                name.clone(),
            ),
        }
    }
}

/// The view of an optional text.
pub open spec fn optional_text(text: Option<String>) -> Option<Seq<char>> {
    match text {
        Some(t) => Some(t@),
        None => None,
    }
}

/// An error as every component of the engine reports it.
#[derive(Debug, PartialEq, Eq)]
pub struct EngineError {
    pub cause: EngineErrorCause,
    pub scope: EngineErrorScope,
    pub execution_id: String,
    pub message: Option<String>,
}

pub struct EngineErrorView {
    pub cause: EngineErrorCause,
    pub scope: EngineErrorScopeView,
    pub execution_id: Seq<char>,
    pub message: Option<Seq<char>>,
}

impl View for EngineError {
    type V = EngineErrorView;

    open spec fn view(&self) -> EngineErrorView {
        EngineErrorView {
            cause: self.cause,
            scope: self.scope@,
            execution_id: self.execution_id@,
            message: optional_text(self.message),
        }
    }
}

/// A copy of an optional text.
pub fn clone_text(text: &Option<String>) -> (copy: Option<String>)
    ensures
        optional_text(copy) == optional_text(*text),
{
    match text {
        Some(t) => Some(t.clone()),
        None => None,
    }
}

impl Clone for EngineError {
    fn clone(&self) -> (copy: EngineError)
        ensures
            copy@ == self@,
    {
        EngineError {
            cause: self.cause,
            scope: self.scope.clone(),
            execution_id: self.execution_id.clone(),
            message: clone_text(&self.message),
        }
    }
}

impl EngineError {
    pub fn new(
        cause: EngineErrorCause,
        scope: EngineErrorScope,
        execution_id: &str,
        message: Option<String>,
    ) -> (error: EngineError)
        ensures
            error@ == (EngineErrorView {
                cause,
                scope: scope@,
                execution_id: execution_id@,
                message: optional_text(message),
            }),
    {
        EngineError { cause, scope, execution_id: String::from_str(execution_id), message }
    }
}

} // verus!
