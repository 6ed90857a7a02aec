//! The calls that the engine asks its caller to make, and their outcomes.

use crate::error::{optional_text, EngineError, EngineErrorView};
use crate::template::{context_entries, TemplateValue};
use vstd::prelude::*;

verus! {

/// How long the package manager may take.
#[derive(Clone, Copy, Debug, PartialEq, Eq, Structural)]
pub enum Timeout {
    Default,
    /// A number of seconds.
    Value(u32),
}

/// A label that is put on a namespace.
#[derive(Debug, PartialEq, Eq)]
pub struct LabelsContent {
    pub name: String,
    pub value: String,
}

/// Names and values, as texts.
pub open spec fn pairs(list: Vec<(String, String)>) -> Seq<(Seq<char>, Seq<char>)> {
    list@.map_values(|pair: (String, String)| (pair.0@, pair.1@))
}

/// The labels of a namespace as names and values, if there are any.
pub open spec fn labels(list: Option<Vec<LabelsContent>>) -> Option<Seq<(Seq<char>, Seq<char>)>> {
    match list {
        Some(labels) => Some(
            labels@.map_values(|label: LabelsContent| (label.name@, label.value@)),
        ),
        None => None,
    }
}

/// One call on a collaborator outside the engine, with all that it is given.
/// The engine decides on the call; its caller makes it and reports how it
/// ended.
#[derive(Debug, PartialEq)]
pub enum Command {
    /// Write the cluster's configuration file under the working directory
    /// and report its path.
    Kubeconfig {
        workspace_dir: String,
        organization_id: String,
        cluster_id: String,
        access_key_id: String,
        secret_access_key: String,
        region: String,
    },
    /// Create the namespace unless it exists.
    CreateNamespace {
        kubeconfig: String,
        namespace: String,
        labels: Option<Vec<LabelsContent>>,
        envs: Vec<(String, String)>,
    },
    /// Render every template of a directory into another directory.
    Render { from_dir: String, to_dir: String, context: tera::Context },
    /// Run the provisioning tool through init, validate, plan and apply.
    TerraformApply { dir: String, dry_run: bool },
    /// Run the provisioning tool through init, plan, apply and destroy.
    TerraformDestroy { dir: String },
    /// Remove the secret that holds the remote state.
    DeleteStateSecret { state_name: String, workspace_dir: String },
    /// Upgrade the release and report the latest entry of its history.
    HelmUpgrade {
        kubeconfig: String,
        namespace: String,
        release_name: String,
        chart_dir: String,
        timeout: Timeout,
        envs: Vec<(String, String)>,
    },
    /// Uninstall the release.
    HelmCleanup { workspace_dir: String, release_name: String },
    /// Wait until the pods that the selector picks are ready.
    WaitPodReady {
        kubeconfig: String,
        namespace: String,
        selector: String,
        envs: Vec<(String, String)>,
    },
    /// Nothing is left to do: the action ended with this result.
    Finish(Result<(), EngineError>),
}

pub enum CommandView {
    Kubeconfig {
        workspace_dir: Seq<char>,
        organization_id: Seq<char>,
        cluster_id: Seq<char>,
        access_key_id: Seq<char>,
        secret_access_key: Seq<char>,
        region: Seq<char>,
    },
    CreateNamespace {
        kubeconfig: Seq<char>,
        namespace: Seq<char>,
        labels: Option<Seq<(Seq<char>, Seq<char>)>>,
        envs: Seq<(Seq<char>, Seq<char>)>,
    },
    Render { from_dir: Seq<char>, to_dir: Seq<char>, context: Map<Seq<char>, TemplateValue> },
    TerraformApply { dir: Seq<char>, dry_run: bool },
    TerraformDestroy { dir: Seq<char> },
    DeleteStateSecret { state_name: Seq<char>, workspace_dir: Seq<char> },
    HelmUpgrade {
        kubeconfig: Seq<char>,
        namespace: Seq<char>,
        release_name: Seq<char>,
        chart_dir: Seq<char>,
        timeout: Timeout,
        envs: Seq<(Seq<char>, Seq<char>)>,
    },
    HelmCleanup { workspace_dir: Seq<char>, release_name: Seq<char> },
    WaitPodReady {
        kubeconfig: Seq<char>,
        namespace: Seq<char>,
        selector: Seq<char>,
        envs: Seq<(Seq<char>, Seq<char>)>,
    },
    Finish(Result<(), EngineErrorView>),
}

impl View for Command {
    type V = CommandView;

    open spec fn view(&self) -> CommandView {
        match self {
            Command::Kubeconfig {
                workspace_dir,
                organization_id,
                cluster_id,
                access_key_id,
                secret_access_key,
                region,
            } => CommandView::Kubeconfig {
                workspace_dir: workspace_dir@,
                organization_id: organization_id@,
                cluster_id: cluster_id@,
                access_key_id: access_key_id@,
                secret_access_key: secret_access_key@,
                region: region@,
            },
            Command::CreateNamespace {
                kubeconfig,
                namespace,
                labels: namespace_labels,
                envs,
            } => CommandView::CreateNamespace {
                kubeconfig: kubeconfig@,
                namespace: namespace@,
                labels: labels(*namespace_labels),
                envs: pairs(*envs),
            },
            Command::Render { from_dir, to_dir, context } => CommandView::Render {
                from_dir: from_dir@,
                to_dir: to_dir@,
                context: context_entries(*context),
            },
            Command::TerraformApply { dir, dry_run } => CommandView::TerraformApply {
                dir: dir@,
                dry_run: *dry_run,
            },
            Command::TerraformDestroy { dir } => CommandView::TerraformDestroy { dir: dir@ },
            Command::DeleteStateSecret {
                state_name,
                workspace_dir,
            } => CommandView::DeleteStateSecret {
                state_name: state_name@,
                workspace_dir: workspace_dir@,
            },
            Command::HelmUpgrade {
                kubeconfig,
                namespace,
                release_name,
                chart_dir,
                timeout,
                envs,
            } => CommandView::HelmUpgrade {
                kubeconfig: kubeconfig@,
                namespace: namespace@,
                release_name: release_name@,
                chart_dir: chart_dir@,
                timeout: *timeout,
                envs: pairs(*envs),
            },
            Command::HelmCleanup { workspace_dir, release_name } => CommandView::HelmCleanup {
                workspace_dir: workspace_dir@,
                release_name: release_name@,
            },
            Command::WaitPodReady {
                kubeconfig,
                namespace,
                selector,
                envs,
            } => CommandView::WaitPodReady {
                kubeconfig: kubeconfig@,
                namespace: namespace@,
                selector: selector@,
                envs: pairs(*envs),
            },
            Command::Finish(result) => CommandView::Finish(
                match result {
                    Ok(_) => Ok(()),
                    Err(error) => Err(error@),
                },
            ),
        }
    }
}

/// How a call on a collaborator ended.
#[derive(Debug, PartialEq, Eq)]
pub enum Outcome {
    /// It succeeded and has nothing to report.
    Done,
    /// It failed, with the collaborator's message where it gave one.
    Failed(Option<String>),
    /// The configuration file was written at this path.
    Path(String),
    /// The release was upgraded; the latest entry of its history, if it has
    /// one, reports success or not.
    History(Option<bool>),
    /// The wait ended: with every pod ready, with some pod not ready, or
    /// without any pod.
    Ready(Option<bool>),
}

pub enum OutcomeView {
    Done,
    Failed(Option<Seq<char>>),
    Path(Seq<char>),
    History(Option<bool>),
    Ready(Option<bool>),
}

impl View for Outcome {
    type V = OutcomeView;

    open spec fn view(&self) -> OutcomeView {
        match self {
            Outcome::Done => OutcomeView::Done,
            Outcome::Failed(message) => OutcomeView::Failed(optional_text(*message)),
            Outcome::Path(path) => OutcomeView::Path(path@),
            Outcome::History(entry) => OutcomeView::History(*entry),
            Outcome::Ready(ready) => OutcomeView::Ready(*ready),
        }
    }
}

} // verus!
