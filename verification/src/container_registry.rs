//! Registries of container images.

use crate::build_platform::Image;
use crate::error::{
    EngineError, EngineErrorCause, EngineErrorScope, EngineErrorScopeView, EngineErrorView,
};
use crate::models::{ExecutionContext, Listener};
use vstd::prelude::*;
use vstd::string::*;

verus! {

/// The registries that images can be pushed to.
#[derive(Clone, Copy, Debug, PartialEq, Eq, Structural)]
pub enum Kind {
    DockerHub,
    ECR,
    DOCR,
}

/// What a push reports: the image as it is kept in the registry.
#[derive(Debug, PartialEq, Eq)]
pub struct PushResult {
    pub image: Image,
}

/// How a registry is named for a reader: its name, then its id in brackets.
pub open spec fn name_with_id_text(name: Seq<char>, id: Seq<char>) -> Seq<char> {
    name + " ("@ + id + ")"@
}

/// Names a registry for a reader.
pub fn registry_name_with_id(name: &str, id: &str) -> (text: String)
    ensures
        text@ == name_with_id_text(name@, id@),
{
    let mut text = String::from_str(name);
    text.append(" (");
    text.append(id);
    text.append(")");
    text
}

/// The scope of a registry's errors: the registry, by id and name.
pub fn registry_error_scope(id: &str, name: &str) -> (scope: EngineErrorScope)
    ensures
        scope@ == EngineErrorScopeView::ContainerRegistry(id@, name@),
{
    EngineErrorScope::ContainerRegistry(String::from_str(id), String::from_str(name))
}

/// An error of a registry, with the cause and the message given.
pub fn registry_error(
    cause: EngineErrorCause,
    id: &str,
    name: &str,
    execution_id: &str,
    message: String,
) -> (error: EngineError)
    ensures
        error@ == (EngineErrorView {
            cause,
            scope: EngineErrorScopeView::ContainerRegistry(id@, name@),
            execution_id: execution_id@,
            message: Some(message@),
        }),
{
    EngineError::new(cause, registry_error_scope(id, name), execution_id, Some(message))
}

/// A registry of container images. Each provider has its own; the engine
/// drives them all through this trait. The methods with a body say what they
/// make of the registry's own answers; a registry that gives one of them a
/// body of its own answers for that body itself.
pub trait ContainerRegistry {
    fn context(&self) -> &ExecutionContext;

    fn kind(&self) -> Kind;

    fn id(&self) -> &str;

    fn name(&self) -> &str;

    /// The registry as it is named for a reader: what `name` returns, then
    /// what `id` returns in brackets.
    fn name_with_id(&self) -> (text: String)
        default_ensures
            exists|name: &str, id: &str|
                {
                    &&& #[trigger] call_ensures(Self::name, (self,), name)
                    &&& #[trigger] call_ensures(Self::id, (self,), id)
                    &&& text@ == name_with_id_text(name@, id@)
                },
    {
        registry_name_with_id(self.name(), self.id())
    }

    fn is_valid(&self) -> Result<(), EngineError>;

    fn add_listener(&mut self, listener: Listener);

    fn on_create(&self) -> Result<(), EngineError>;

    fn on_create_error(&self) -> Result<(), EngineError>;

    fn on_delete(&self) -> Result<(), EngineError>;

    fn on_delete_error(&self) -> Result<(), EngineError>;

    fn does_image_exists(&self, image: &Image) -> bool;

    fn push(&self, image: &Image, force_push: bool) -> Result<PushResult, EngineError>;

    fn push_error(&self, image: &Image) -> Result<PushResult, EngineError>;

    /// The scope of the registry's errors: the registry, by what `id` and
    /// `name` return.
    fn engine_error_scope(&self) -> (scope: EngineErrorScope)
        default_ensures
            exists|id: &str, name: &str|
                {
                    &&& #[trigger] call_ensures(Self::id, (self,), id)
                    &&& #[trigger] call_ensures(Self::name, (self,), name)
                    &&& scope@ == EngineErrorScopeView::ContainerRegistry(id@, name@)
                },
    {
        registry_error_scope(self.id(), self.name())
    }

    /// An error of the registry: the cause and the message as they are
    /// given, the scope that `engine_error_scope` returns, and the id of the
    /// execution of the context that `context` returns.
    fn engine_error(&self, cause: EngineErrorCause, message: String) -> (error: EngineError)
        default_ensures
            exists|scope: EngineErrorScope, context: &ExecutionContext|
                {
                    &&& #[trigger] call_ensures(Self::engine_error_scope, (self,), scope)
                    &&& #[trigger] call_ensures(Self::context, (self,), context)
                    &&& error@ == (EngineErrorView {
                        cause,
                        scope: scope@,
                        execution_id: context.execution_id@,
                        message: Some(message@),
                    })
                },
    {
        EngineError::new(
            cause,
            self.engine_error_scope(),
            self.context().execution_id(),
            Some(message),
        )
    }
}

} // verus!
