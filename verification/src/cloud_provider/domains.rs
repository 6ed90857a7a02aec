//! The check that domains resolve: a bounded number of lookups of each
//! domain, a fixed time apart, of which the listeners are kept informed.

use crate::error::{
    EngineError, EngineErrorCause, EngineErrorScope, EngineErrorScopeView, EngineErrorView,
};
use crate::models::{
    Notification, NotificationView, ProgressInfo, ProgressInfoView, ProgressLevel, ProgressScope,
    ProgressScopeView,
};
use crate::string::{join, joined_texts, texts};
use retry::delay::Fixed;
use vstd::prelude::*;
use vstd::string::*;

verus! {

/// The time between two lookups of one domain, in milliseconds.
pub const LOOKUP_DELAY_MILLIS: u64 = 3000;

/// How often one domain is looked up at most.
pub const LOOKUP_ATTEMPTS: usize = 100;

/// A schedule of `count` waits of `millis` milliseconds each.
pub open spec fn fixed_schedule(millis: u64, count: nat) -> Seq<u64> {
    Seq::new(count, |i: int| millis)
}

/// `retry::delay::Fixed::from_millis`, of which the first `count` delays are
/// taken: each of them is `millis` milliseconds long.
#[verifier::external_body]
fn fixed_delays(millis: u64, count: usize) -> (delays: Vec<u64>)
    ensures
        delays@ == fixed_schedule(millis, count as nat),
{
    Fixed::from_millis(millis).take(count).map(|delay| delay.as_millis() as u64).collect()
}

/// Where a check of domains stands.
#[derive(Debug, PartialEq, Eq)]
pub enum DomainCheckStage {
    /// The resolver is being built.
    Resolver,
    /// A domain is being looked up, after a wait unless it is the first
    /// lookup of that domain. `waits_left` are the waits before the lookups
    /// that may still follow.
    Lookup { domain: String, wait_millis: Option<u64>, waits_left: Vec<u64> },
    /// The check ended with this result.
    Finished(Result<(), EngineError>),
}

pub enum DomainCheckStageView {
    Resolver,
    Lookup { domain: Seq<char>, wait_millis: Option<u64>, waits_left: Seq<u64> },
    Finished(Result<(), EngineErrorView>),
}

impl View for DomainCheckStage {
    type V = DomainCheckStageView;

    open spec fn view(&self) -> DomainCheckStageView {
        match self {
            DomainCheckStage::Resolver => DomainCheckStageView::Resolver,
            DomainCheckStage::Lookup {
                domain,
                wait_millis,
                waits_left,
            } => DomainCheckStageView::Lookup {
                domain: domain@,
                wait_millis: *wait_millis,
                waits_left: waits_left@,
            },
            DomainCheckStage::Finished(result) => DomainCheckStageView::Finished(
                match result {
                    Ok(_) => Ok(()),
                    Err(error) => Err(error@),
                },
            ),
        }
    }
}

/// A check of domains under way. `remaining` are the domains that were not
/// looked up yet.
#[derive(Debug, PartialEq, Eq)]
pub struct DomainCheck {
    pub stage: DomainCheckStage,
    pub remaining: Vec<String>,
    pub execution_id: String,
    pub context_id: String,
}

pub struct DomainCheckView {
    pub stage: DomainCheckStageView,
    pub remaining: Seq<Seq<char>>,
    pub execution_id: Seq<char>,
    pub context_id: Seq<char>,
}

impl View for DomainCheck {
    type V = DomainCheckView;

    open spec fn view(&self) -> DomainCheckView {
        DomainCheckView {
            stage: self.stage@,
            remaining: texts(self.remaining),
            execution_id: self.execution_id@,
            context_id: self.context_id@,
        }
    }
}

/// What the caller of a check has to do next.
#[derive(Debug, PartialEq, Eq)]
pub enum DomainCheckAction {
    /// Build the resolver and report whether that worked.
    BuildResolver,
    /// Wait, where a wait is given, then look the domain up and report
    /// whether it resolved.
    Lookup { domain: String, wait_millis: Option<u64> },
    /// Nothing: the check ended with this result.
    Finish(Result<(), EngineError>),
}

pub enum DomainCheckActionView {
    BuildResolver,
    Lookup { domain: Seq<char>, wait_millis: Option<u64> },
    Finish(Result<(), EngineErrorView>),
}

impl View for DomainCheckAction {
    type V = DomainCheckActionView;

    open spec fn view(&self) -> DomainCheckActionView {
        match self {
            DomainCheckAction::BuildResolver => DomainCheckActionView::BuildResolver,
            DomainCheckAction::Lookup { domain, wait_millis } => DomainCheckActionView::Lookup {
                domain: domain@,
                wait_millis: *wait_millis,
            },
            DomainCheckAction::Finish(result) => DomainCheckActionView::Finish(
                match result {
                    Ok(_) => Ok(()),
                    Err(error) => Err(error@),
                },
            ),
        }
    }
}

/// The notifications of a list.
pub open spec fn notes(list: Vec<Notification>) -> Seq<NotificationView> {
    list@.map_values(|notification: Notification| notification@)
}

/// A step of a check: where it stands now, and what the listeners are to be
/// told, in this order, before the next action is taken.
#[derive(Debug, PartialEq, Eq)]
pub struct DomainCheckStep {
    pub check: DomainCheck,
    pub notifications: Vec<Notification>,
}

pub struct DomainCheckStepView {
    pub check: DomainCheckView,
    pub notifications: Seq<NotificationView>,
}

impl View for DomainCheckStep {
    type V = DomainCheckStepView;

    open spec fn view(&self) -> DomainCheckStepView {
        DomainCheckStepView { check: self.check@, notifications: notes(self.notifications) }
    }
}

/// The sentence that announces the lookups of `domains`.
pub open spec fn announcement(domains: Seq<char>) -> Seq<char> {
    "Let's check domain resolution for '"@ + domains + "'. Please wait, it can take some time..."@
}

/// The listeners are told that the lookups of `domain` begin.
pub open spec fn announced(execution_id: Seq<char>, domain: Seq<char>) -> NotificationView {
    NotificationView::StartInProgress(
        ProgressInfoView {
            scope: ProgressScopeView::Environment { id: execution_id },
            level: ProgressLevel::Info,
            message: Some(announcement(domain)),
            execution_id,
        },
    )
}

/// The listeners are told that `domain` did not resolve yet.
pub open spec fn still_in_progress(execution_id: Seq<char>, domain: Seq<char>) -> NotificationView {
    NotificationView::StartInProgress(
        ProgressInfoView {
            scope: ProgressScopeView::Environment { id: execution_id },
            level: ProgressLevel::Info,
            message: Some(
                "Domain resolution check for '"@ + domain + "' is still in progress..."@,
            ),
            execution_id,
        },
    )
}

/// The listeners are told that `domain` resolved.
pub open spec fn ready(context_id: Seq<char>, domain: Seq<char>) -> NotificationView {
    NotificationView::Started(
        ProgressInfoView {
            scope: ProgressScopeView::Router { id: domain },
            level: ProgressLevel::Info,
            message: Some("Domain "@ + domain + " is ready! \u{26a1}\u{fe0f}"@),
            execution_id: context_id,
        },
    )
}

/// The listeners are warned that `domain` did not resolve in all its
/// lookups. This is a warning and no failure of the check.
pub open spec fn given_up(
    execution_id: Seq<char>,
    context_id: Seq<char>,
    domain: Seq<char>,
) -> NotificationView {
    NotificationView::Error(
        ProgressInfoView {
            scope: ProgressScopeView::Environment { id: execution_id },
            level: ProgressLevel::Warn,
            message: Some(
                "Unable to check domain availability for '"@ + domain
                    + "'. It can be due to a too long domain propagation. Note: this is not critical."@,
            ),
            execution_id: context_id,
        },
    )
}

/// The error of a check whose resolver could not be built. It names all the
/// domains that were to be looked up.
pub open spec fn resolver_failure(check: DomainCheckView) -> EngineErrorView {
    EngineErrorView {
        cause: EngineErrorCause::Internal,
        scope: EngineErrorScopeView::Engine,
        execution_id: check.execution_id,
        message: Some(announcement(joined_texts(check.remaining, ","@))),
    }
}

/// The schedule of one domain: a wait before every lookup but the first.
pub open spec fn lookup_schedule() -> Seq<u64> {
    fixed_schedule(LOOKUP_DELAY_MILLIS, (LOOKUP_ATTEMPTS - 1) as nat)
}

/// The check turns to the next domain, which it announces, or ends well
/// where none remains.
pub open spec fn next_domain(check: DomainCheckView) -> DomainCheckStepView {
    if check.remaining.len() == 0 {
        DomainCheckStepView {
            check: DomainCheckView { stage: DomainCheckStageView::Finished(Ok(())), ..check },
            notifications: Seq::empty(),
        }
    } else {
        DomainCheckStepView {
            check: DomainCheckView {
                stage: DomainCheckStageView::Lookup {
                    domain: check.remaining[0],
                    wait_millis: None,
                    waits_left: lookup_schedule(),
                },
                remaining: check.remaining.remove(0),
                ..check
            },
            notifications: seq![announced(check.execution_id, check.remaining[0])],
        }
    }
}

/// A step of `first` notifications, then `step`.
pub open spec fn told_first(
    first: Seq<NotificationView>,
    step: DomainCheckStepView,
) -> DomainCheckStepView {
    DomainCheckStepView { check: step.check, notifications: first + step.notifications }
}

/// Where a check goes when the action it asked for succeeded or failed.
///
/// Without a resolver the check fails, and this is the only way it fails.
/// A domain that resolved is reported ready. One that did not is looked up
/// again after the next wait of its schedule; when no wait is left the
/// listeners are warned. Either way the check goes on with the next
/// domain, and it ends well after the last. Once it has ended nothing
/// changes it.
pub open spec fn domain_check_next(check: DomainCheckView, succeeded: bool) -> DomainCheckStepView {
    match check.stage {
        DomainCheckStageView::Resolver => if succeeded {
            next_domain(check)
        } else {
            DomainCheckStepView {
                check: DomainCheckView {
                    stage: DomainCheckStageView::Finished(Err(resolver_failure(check))),
                    ..check
                },
                notifications: Seq::empty(),
            }
        },
        DomainCheckStageView::Lookup { domain, wait_millis, waits_left } => if succeeded {
            told_first(seq![ready(check.context_id, domain)], next_domain(check))
        } else if waits_left.len() > 0 {
            DomainCheckStepView {
                check: DomainCheckView {
                    stage: DomainCheckStageView::Lookup {
                        domain,
                        wait_millis: Some(waits_left[0]),
                        waits_left: waits_left.remove(0),
                    },
                    ..check
                },
                notifications: seq![still_in_progress(check.execution_id, domain)],
            }
        } else {
            told_first(
                seq![
                    still_in_progress(check.execution_id, domain),
                    given_up(check.execution_id, check.context_id, domain),
                ],
                next_domain(check),
            )
        },
        DomainCheckStageView::Finished(_) => DomainCheckStepView {
            check,
            notifications: Seq::empty(),
        },
    }
}

/// What a check asks of its caller at each stage.
pub open spec fn domain_check_action(check: DomainCheckView) -> DomainCheckActionView {
    match check.stage {
        DomainCheckStageView::Resolver => DomainCheckActionView::BuildResolver,
        DomainCheckStageView::Lookup { domain, wait_millis, waits_left } => DomainCheckActionView::Lookup {
            domain,
            wait_millis,
        },
        DomainCheckStageView::Finished(result) => DomainCheckActionView::Finish(result),
    }
}

/// A check of `domains` of which nothing is done yet.
pub open spec fn domain_check_start(
    domains: Seq<Seq<char>>,
    execution_id: Seq<char>,
    context_id: Seq<char>,
) -> DomainCheckView {
    DomainCheckView {
        stage: DomainCheckStageView::Resolver,
        remaining: domains,
        execution_id,
        context_id,
    }
}

/// Begins a check that the domains resolve. The check asks for a resolver
/// first, then looks the domains up in their order.
pub fn check_domain_for(
    domains_to_check: Vec<String>,
    execution_id: &str,
    context_id: &str,
) -> (check: DomainCheck)
    ensures
        check@ == domain_check_start(texts(domains_to_check), execution_id@, context_id@),
{
    DomainCheck {
        stage: DomainCheckStage::Resolver,
        remaining: domains_to_check,
        execution_id: String::from_str(execution_id),
        context_id: String::from_str(context_id),
    }
}

fn environment_info(
    execution_id: &str,
    level: ProgressLevel,
    message: String,
    listed_under: &str,
) -> (info: ProgressInfo)
    ensures
        info@ == (ProgressInfoView {
            scope: ProgressScopeView::Environment { id: execution_id@ },
            level,
            message: Some(message@),
            execution_id: listed_under@,
        }),
{
    ProgressInfo::new(
        ProgressScope::Environment { id: String::from_str(execution_id) },
        level,
        Some(message),
        listed_under,
    )
}

fn framed(before: &str, text: &str, after: &str) -> (sentence: String)
    ensures
        sentence@ == before@ + text@ + after@,
{
    let mut sentence = String::from_str(before);
    sentence.append(text);
    sentence.append(after);
    sentence
}

fn announce(execution_id: &str, domain: &str) -> (notification: Notification)
    ensures
        notification@ == announced(execution_id@, domain@),
{
    Notification::StartInProgress(
        environment_info(
            execution_id,
            ProgressLevel::Info,
            framed(
                "Let's check domain resolution for '",
                domain,
                "'. Please wait, it can take some time...",
            ),
            execution_id,
        ),
    )
}

fn report_still_in_progress(execution_id: &str, domain: &str) -> (notification: Notification)
    ensures
        notification@ == still_in_progress(execution_id@, domain@),
{
    Notification::StartInProgress(
        environment_info(
            execution_id,
            ProgressLevel::Info,
            framed("Domain resolution check for '", domain, "' is still in progress..."),
            execution_id,
        ),
    )
}

fn report_ready(context_id: &str, domain: &str) -> (notification: Notification)
    ensures
        notification@ == ready(context_id@, domain@),
{
    Notification::Started(
        ProgressInfo::new(
            ProgressScope::Router { id: String::from_str(domain) },
            ProgressLevel::Info,
            Some(framed("Domain ", domain, " is ready! \u{26a1}\u{fe0f}")),
            context_id,
        ),
    )
}

fn report_given_up(execution_id: &str, context_id: &str, domain: &str) -> (notification:
    Notification)
    ensures
        notification@ == given_up(execution_id@, context_id@, domain@),
{
    Notification::Error(
        environment_info(
            execution_id,
            ProgressLevel::Warn,
            framed(
                "Unable to check domain availability for '",
                domain,
                "'. It can be due to a too long domain propagation. Note: this is not critical.",
            ),
            context_id,
        ),
    )
}

fn turn_to_next_domain(
    remaining: Vec<String>,
    execution_id: String,
    context_id: String,
    notifications: Vec<Notification>,
) -> (step: DomainCheckStep)
    ensures
        step@ == told_first(
            notes(notifications),
            next_domain(
                DomainCheckView {
                    stage: DomainCheckStageView::Resolver,
                    remaining: texts(remaining),
                    execution_id: execution_id@,
                    context_id: context_id@,
                },
            ),
        ),
{
    let mut notifications = notifications;
    let mut remaining = remaining;
    let ghost told = notes(notifications);
    let ghost domains = texts(remaining);
    if remaining.len() == 0 {
        let step = DomainCheckStep {
            check: DomainCheck {
                stage: DomainCheckStage::Finished(Ok(())),
                remaining,
                execution_id,
                context_id,
            },
            notifications,
        };
        assert(step@.notifications =~= told + Seq::<NotificationView>::empty());
        step
    } else {
        let domain = remaining.remove(0);
        assert(texts(remaining) =~= domains.remove(0));
        notifications.push(announce(execution_id.as_str(), domain.as_str()));
        assert(notes(notifications) =~= told + seq![announced(execution_id@, domains[0])]);
        let waits_left = fixed_delays(LOOKUP_DELAY_MILLIS, LOOKUP_ATTEMPTS - 1);
        DomainCheckStep {
            check: DomainCheck {
                stage: DomainCheckStage::Lookup { domain, wait_millis: None, waits_left },
                remaining,
                execution_id,
                context_id,
            },
            notifications,
        }
    }
}

impl DomainCheck {
    /// What the caller has to do next.
    pub fn action(&self) -> (action: DomainCheckAction)
        ensures
            action@ == domain_check_action(self@),
    {
        match &self.stage {
            DomainCheckStage::Resolver => DomainCheckAction::BuildResolver,
            DomainCheckStage::Lookup { domain, wait_millis, waits_left } => DomainCheckAction::Lookup {
                domain: domain.clone(),
                wait_millis: *wait_millis,
            },
            DomainCheckStage::Finished(result) => DomainCheckAction::Finish(
                match result {
                    Ok(_) => Ok(()),
                    Err(error) => Err(error.clone()),
                },
            ),
        }
    }

    /// Takes the check one step on, from whether the action it asked for
    /// succeeded.
    pub fn advance(self, succeeded: bool) -> (step: DomainCheckStep)
        ensures
            step@ == domain_check_next(self@, succeeded),
    {
        let DomainCheck { stage, remaining, execution_id, context_id } = self;
        let mut notifications: Vec<Notification> = Vec::new();
        assert(notes(notifications) =~= Seq::<NotificationView>::empty());
        match stage {
            DomainCheckStage::Resolver => {
                if succeeded {
                    let step = turn_to_next_domain(
                        remaining,
                        execution_id,
                        context_id,
                        notifications,
                    );
                    assert(step@.notifications =~= next_domain(self@).notifications);
                    step
                } else {
                    let error = EngineError::new(
                        EngineErrorCause::Internal,
                        EngineErrorScope::Engine,
                        execution_id.as_str(),
                        Some(
                            framed(
                                "Let's check domain resolution for '",
                                join(&remaining, ",").as_str(),
                                "'. Please wait, it can take some time...",
                            ),
                        ),
                    );
                    DomainCheckStep {
                        check: DomainCheck {
                            stage: DomainCheckStage::Finished(Err(error)),
                            remaining,
                            execution_id,
                            context_id,
                        },
                        notifications,
                    }
                }
            },
            DomainCheckStage::Lookup { domain, wait_millis, waits_left } => {
                if succeeded {
                    notifications.push(report_ready(context_id.as_str(), domain.as_str()));
                    assert(notes(notifications) =~= seq![ready(context_id@, domain@)]);
                    turn_to_next_domain(remaining, execution_id, context_id, notifications)
                } else if waits_left.len() > 0 {
                    notifications.push(
                        report_still_in_progress(execution_id.as_str(), domain.as_str()),
                    );
                    assert(notes(notifications) =~= seq![
                        still_in_progress(execution_id@, domain@),
                    ]);
                    let mut waits_left = waits_left;
                    let wait = waits_left.remove(0);
                    DomainCheckStep {
                        check: DomainCheck {
                            stage: DomainCheckStage::Lookup {
                                domain,
                                wait_millis: Some(wait),
                                waits_left,
                            },
                            remaining,
                            execution_id,
                            context_id,
                        },
                        notifications,
                    }
                } else {
                    notifications.push(
                        report_still_in_progress(execution_id.as_str(), domain.as_str()),
                    );
                    notifications.push(
                        report_given_up(
                            execution_id.as_str(),
                            context_id.as_str(),
                            domain.as_str(),
                        ),
                    );
                    assert(notes(notifications) =~= seq![
                        still_in_progress(execution_id@, domain@),
                        given_up(execution_id@, context_id@, domain@),
                    ]);
                    turn_to_next_domain(remaining, execution_id, context_id, notifications)
                }
            },
            DomainCheckStage::Finished(result) => DomainCheckStep {
                check: DomainCheck {
                    stage: DomainCheckStage::Finished(result),
                    remaining,
                    execution_id,
                    context_id,
                },
                notifications,
            },
        }
    }
}

} // verus!
