//! What holds of every creation and deletion of a MySQL database.

use crate::cloud_provider::aws::databases::mysql::{
    CreateProgressView, CreateStageView, DeleteProgressView, DeleteStageView, MySQL,
};
use crate::cloud_provider::DeploymentTarget;
use crate::cmd::{CommandView, OutcomeView};
use vstd::prelude::*;

verus! {

/// Whether an outcome answers the call that a creation awaits at a stage.
pub open spec fn create_awaits(stage: CreateStageView, outcome: OutcomeView) -> bool {
    match stage {
        CreateStageView::ContextKubeconfig | CreateStageView::Kubeconfig => outcome is Path
            || outcome is Failed,
        CreateStageView::Release(_) => outcome is History || outcome is Failed,
        CreateStageView::Readiness(_) => outcome is Ready || outcome is Failed,
        CreateStageView::Succeeded | CreateStageView::Failed(_) => false,
        _ => outcome is Done || outcome is Failed,
    }
}

/// The most calls that a creation can still make from a stage.
pub open spec fn create_calls_left(stage: CreateStageView) -> nat {
    match stage {
        CreateStageView::ContextKubeconfig => 8,
        CreateStageView::ContextNamespace(_) => 7,
        CreateStageView::Kubeconfig => 6,
        CreateStageView::RenderCommon | CreateStageView::RenderChart(_) => 5,
        CreateStageView::RenderEngine | CreateStageView::RenderValues(_) => 4,
        CreateStageView::RenderShim | CreateStageView::Namespace(_) => 3,
        CreateStageView::RenderShimInPlace | CreateStageView::Release(_) => 2,
        CreateStageView::Terraform | CreateStageView::Readiness(_) => 1,
        CreateStageView::Succeeded | CreateStageView::Failed(_) => 0,
    }
}

/// Every outcome that answers the awaited call takes a creation nearer to
/// its end, so that it ends after eight calls at most; any other outcome
/// leaves it where it was.
pub proof fn lemma_creation_ends(
    service: &MySQL,
    managed: bool,
    progress: CreateProgressView,
    outcome: OutcomeView,
)
    ensures
        create_awaits(progress.stage, outcome) ==> create_calls_left(
            service.create_next(managed, progress, outcome).stage,
        ) < create_calls_left(progress.stage),
        !create_awaits(progress.stage, outcome) ==> service.create_next(
            managed,
            progress,
            outcome,
        ) == progress,
{
}

/// A creation that has failed asks for nothing more: it finishes with its
/// error, and no outcome changes that.
pub proof fn lemma_failed_creation_is_final(
    service: &MySQL,
    target: &DeploymentTarget,
    progress: CreateProgressView,
    outcome: OutcomeView,
)
    requires
        progress.stage is Failed,
    ensures
        service.create_next(target.is_managed(), progress, outcome) == progress,
        service.create_command_model(target, progress) == CommandView::Finish(
            Err(progress.stage->Failed_0),
        ),
{
}

/// The only failures that do not fail a creation are those of the two calls
/// that prepare the templates' context.
pub proof fn lemma_failure_fails_the_creation(
    service: &MySQL,
    managed: bool,
    progress: CreateProgressView,
    outcome: OutcomeView,
)
    requires
        outcome is Failed,
        create_awaits(progress.stage, outcome),
        !(progress.stage is ContextKubeconfig),
        !(progress.stage is ContextNamespace),
    ensures
        service.create_next(managed, progress, outcome).stage is Failed,
{
}

/// The pods are awaited only after a release whose latest history entry
/// reports success.
pub proof fn lemma_pods_are_awaited_after_a_successful_release(
    service: &MySQL,
    managed: bool,
    progress: CreateProgressView,
    outcome: OutcomeView,
)
    requires
        service.create_next(managed, progress, outcome).stage is Readiness,
        !(progress.stage is Readiness),
    ensures
        progress.stage is Release,
        outcome == OutcomeView::History(Some(true)),
{
}

/// Whether an outcome answers the call that a deletion awaits at a stage.
pub open spec fn delete_awaits(stage: DeleteStageView, outcome: OutcomeView) -> bool {
    match stage {
        DeleteStageView::ContextKubeconfig => outcome is Path || outcome is Failed,
        DeleteStageView::Succeeded | DeleteStageView::Failed(_) => false,
        _ => outcome is Done || outcome is Failed,
    }
}

/// The most calls that a deletion can still make from a stage.
pub open spec fn delete_calls_left(stage: DeleteStageView) -> nat {
    match stage {
        DeleteStageView::ContextKubeconfig => 8,
        DeleteStageView::ContextNamespace(_) => 7,
        DeleteStageView::RenderCommon => 6,
        DeleteStageView::RenderEngine => 5,
        DeleteStageView::RenderShim => 4,
        DeleteStageView::RenderShimInPlace => 3,
        DeleteStageView::Destroy => 2,
        DeleteStageView::StateSecret | DeleteStageView::Cleanup => 1,
        DeleteStageView::Succeeded | DeleteStageView::Failed(_) => 0,
    }
}

/// Every outcome that answers the awaited call takes a deletion nearer to
/// its end, so that it ends after eight calls at most; any other outcome
/// leaves it where it was.
pub proof fn lemma_deletion_ends(
    service: &MySQL,
    progress: DeleteProgressView,
    outcome: OutcomeView,
)
    ensures
        delete_awaits(progress.stage, outcome) ==> delete_calls_left(
            service.delete_next(progress, outcome).stage,
        ) < delete_calls_left(progress.stage),
        !delete_awaits(progress.stage, outcome) ==> service.delete_next(progress, outcome)
            == progress,
{
}

/// The secret that holds the remote state is removed only after the
/// infrastructure was destroyed, and a failure to remove it does not fail
/// the deletion.
pub proof fn lemma_state_is_removed_after_destruction(
    service: &MySQL,
    progress: DeleteProgressView,
    outcome: OutcomeView,
)
    ensures
        service.delete_next(progress, outcome).stage is StateSecret && !(progress.stage
            is StateSecret) ==> progress.stage is Destroy && outcome is Done,
        progress.stage is StateSecret && delete_awaits(progress.stage, outcome)
            ==> service.delete_next(progress, outcome).stage is Succeeded,
{
}

} // verus!
