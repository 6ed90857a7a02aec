//! The execution context and the progress events.

use crate::error::optional_text;
use vstd::prelude::*;
use vstd::string::*;

verus! {

/// What one execution of the engine works with: where it reads its
/// templates, where it may write, and how it was asked to run.
#[derive(Debug, PartialEq, Eq)]
pub struct ExecutionContext {
    pub execution_id: String,
    pub workspace_root_dir: String,
    pub lib_root_dir: String,
    pub dry_run_deploy: bool,
    pub test_cluster: bool,
    pub resource_expiration_in_seconds: Option<u32>,
}

impl ExecutionContext {
    pub fn new(
        execution_id: &str,
        workspace_root_dir: &str,
        lib_root_dir: &str,
        dry_run_deploy: bool,
        test_cluster: bool,
        resource_expiration_in_seconds: Option<u32>,
    ) -> (context: ExecutionContext)
        ensures
            context.execution_id@ == execution_id@,
            context.workspace_root_dir@ == workspace_root_dir@,
            context.lib_root_dir@ == lib_root_dir@,
            context.dry_run_deploy == dry_run_deploy,
            context.test_cluster == test_cluster,
            context.resource_expiration_in_seconds == resource_expiration_in_seconds,
    {
        ExecutionContext {
            execution_id: String::from_str(execution_id),
            workspace_root_dir: String::from_str(workspace_root_dir),
            lib_root_dir: String::from_str(lib_root_dir),
            dry_run_deploy,
            test_cluster,
            resource_expiration_in_seconds,
        }
    }

    pub fn execution_id(&self) -> (id: &str)
        ensures
            id@ == self.execution_id@,
    {
        self.execution_id.as_str()
    }

    pub fn workspace_root_dir(&self) -> (dir: &str)
        ensures
            dir@ == self.workspace_root_dir@,
    {
        self.workspace_root_dir.as_str()
    }

    pub fn lib_root_dir(&self) -> (dir: &str)
        ensures
            dir@ == self.lib_root_dir@,
    {
        self.lib_root_dir.as_str()
    }

    pub fn is_dry_run_deploy(&self) -> (dry_run: bool)
        ensures
            dry_run == self.dry_run_deploy,
    {
        self.dry_run_deploy
    }

    pub fn is_test_cluster(&self) -> (test_cluster: bool)
        ensures
            test_cluster == self.test_cluster,
    {
        self.test_cluster
    }

    pub fn resource_expiration_in_seconds(&self) -> (seconds: Option<u32>)
        ensures
            seconds == self.resource_expiration_in_seconds,
    {
        self.resource_expiration_in_seconds
    }
}

impl Clone for ExecutionContext {
    fn clone(&self) -> (copy: ExecutionContext)
        ensures
            copy.execution_id@ == self.execution_id@,
            copy.workspace_root_dir@ == self.workspace_root_dir@,
            copy.lib_root_dir@ == self.lib_root_dir@,
            copy.dry_run_deploy == self.dry_run_deploy,
            copy.test_cluster == self.test_cluster,
            copy.resource_expiration_in_seconds == self.resource_expiration_in_seconds,
    {
        ExecutionContext {
            execution_id: self.execution_id.clone(),
            workspace_root_dir: self.workspace_root_dir.clone(),
            lib_root_dir: self.lib_root_dir.clone(),
            dry_run_deploy: self.dry_run_deploy,
            test_cluster: self.test_cluster,
            resource_expiration_in_seconds: self.resource_expiration_in_seconds,
        }
    }
}

/// How much a progress event matters.
#[derive(Clone, Copy, Debug, PartialEq, Eq, Structural)]
pub enum ProgressLevel {
    Info,
    Warn,
    Error,
}

/// What a progress event is about.
#[derive(Debug, PartialEq, Eq)]
pub enum ProgressScope {
    Environment { id: String },
    Router { id: String },
}

pub enum ProgressScopeView {
    Environment { id: Seq<char> },
    Router { id: Seq<char> },
}

impl View for ProgressScope {
    type V = ProgressScopeView;

    open spec fn view(&self) -> ProgressScopeView {
        match self {
            ProgressScope::Environment { id } => ProgressScopeView::Environment { id: id@ },
            ProgressScope::Router { id } => ProgressScopeView::Router { id: id@ },
        }
    }
}

/// One progress event. It is handed to the listeners and not kept.
#[derive(Debug, PartialEq, Eq)]
pub struct ProgressInfo {
    pub scope: ProgressScope,
    pub level: ProgressLevel,
    pub message: Option<String>,
    pub execution_id: String,
}

pub struct ProgressInfoView {
    pub scope: ProgressScopeView,
    pub level: ProgressLevel,
    pub message: Option<Seq<char>>,
    pub execution_id: Seq<char>,
}

impl View for ProgressInfo {
    type V = ProgressInfoView;

    open spec fn view(&self) -> ProgressInfoView {
        ProgressInfoView {
            scope: self.scope@,
            level: self.level,
            message: optional_text(self.message),
            execution_id: self.execution_id@,
        }
    }
}

impl ProgressInfo {
    pub fn new(
        scope: ProgressScope,
        level: ProgressLevel,
        message: Option<String>,
        execution_id: &str,
    ) -> (info: ProgressInfo)
        ensures
            info@ == (ProgressInfoView {
                scope: scope@,
                level,
                message: optional_text(message),
                execution_id: execution_id@,
            }),
    {
        ProgressInfo { scope, level, message, execution_id: String::from_str(execution_id) }
    }
}

/// What the listeners are told: that work is under way, that it came to a
/// good end, or that it did not.
#[derive(Debug, PartialEq, Eq)]
pub enum Notification {
    StartInProgress(ProgressInfo),
    Started(ProgressInfo),
    Error(ProgressInfo),
}

pub enum NotificationView {
    StartInProgress(ProgressInfoView),
    Started(ProgressInfoView),
    Error(ProgressInfoView),
}

impl View for Notification {
    type V = NotificationView;

    open spec fn view(&self) -> NotificationView {
        match self {
            Notification::StartInProgress(info) => NotificationView::StartInProgress(info@),
            Notification::Started(info) => NotificationView::Started(info@),
            Notification::Error(info) => NotificationView::Error(info@),
        }
    }
}

/// Who is told of progress. A listener takes each notification as it
/// comes and answers nothing.
pub trait ProgressListener {
    fn notify(&self, notification: &Notification);
}

pub type Listener = std::rc::Rc<Box<dyn ProgressListener>>;

} // verus!
