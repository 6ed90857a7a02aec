//! What holds of every check of domains.

use crate::cloud_provider::domains::{
    domain_check_next, domain_check_start, next_domain, DomainCheckStageView, DomainCheckView,
    LOOKUP_ATTEMPTS, LOOKUP_DELAY_MILLIS,
};
use vstd::prelude::*;

verus! {

/// Whether a check has ended with an error.
pub open spec fn has_failed(check: DomainCheckView) -> bool {
    check.stage matches DomainCheckStageView::Finished(result) && result is Err
}

/// Whether a check has ended.
pub open spec fn has_ended(check: DomainCheckView) -> bool {
    check.stage is Finished
}

/// Where a check stands after the outcomes of its actions, one after the
/// other.
pub open spec fn domain_check_after(check: DomainCheckView, outcomes: Seq<bool>) -> DomainCheckView
    decreases outcomes.len(),
{
    if outcomes.len() == 0 {
        check
    } else {
        domain_check_after(domain_check_next(check, outcomes[0]).check, outcomes.drop_first())
    }
}

/// A step ends a check with an error only where the resolver could not be
/// built, or where the check had failed before.
pub proof fn lemma_step_fails_only_without_resolver(check: DomainCheckView, succeeded: bool)
    ensures
        has_failed(domain_check_next(check, succeeded).check) <==> (check.stage is Resolver
            && !succeeded) || has_failed(check),
{
}

/// Once the resolver is there, no outcome of any lookup fails the check.
pub proof fn lemma_lookups_never_fail(check: DomainCheckView, outcomes: Seq<bool>)
    requires
        !(check.stage is Resolver),
        !has_failed(check),
    ensures
        !has_failed(domain_check_after(check, outcomes)),
        !(domain_check_after(check, outcomes).stage is Resolver),
    decreases outcomes.len(),
{
    if outcomes.len() > 0 {
        lemma_lookups_never_fail(
            domain_check_next(check, outcomes[0]).check,
            outcomes.drop_first(),
        );
    }
}

/// A check that has failed stays failed.
pub proof fn lemma_failure_stays(check: DomainCheckView, outcomes: Seq<bool>)
    requires
        has_failed(check),
    ensures
        domain_check_after(check, outcomes) == check,
    decreases outcomes.len(),
{
    if outcomes.len() > 0 {
        lemma_failure_stays(check, outcomes.drop_first());
    }
}

/// Whatever the lookups give, a check fails exactly where its resolver
/// could not be built: lookups that never succeed do not fail it.
pub proof fn lemma_check_fails_only_without_resolver(
    domains: Seq<Seq<char>>,
    execution_id: Seq<char>,
    context_id: Seq<char>,
    outcomes: Seq<bool>,
)
    ensures
        has_failed(
            domain_check_after(domain_check_start(domains, execution_id, context_id), outcomes),
        ) <==> outcomes.len() > 0 && !outcomes[0],
{
    let start = domain_check_start(domains, execution_id, context_id);
    if outcomes.len() > 0 {
        let first = domain_check_next(start, outcomes[0]).check;
        if outcomes[0] {
            lemma_lookups_never_fail(first, outcomes.drop_first());
        } else {
            lemma_failure_stays(first, outcomes.drop_first());
        }
    }
}

/// Whether a check keeps to the schedule: before the first lookup of a
/// domain there is no wait, every other wait is the fixed delay, and the
/// waits that are left allow no more lookups than one domain may have.
pub open spec fn keeps_schedule(check: DomainCheckView) -> bool {
    check.stage matches DomainCheckStageView::Lookup { domain, wait_millis, waits_left } ==> {
        &&& wait_millis is Some ==> wait_millis == Some(LOOKUP_DELAY_MILLIS)
        &&& waits_left.len() < LOOKUP_ATTEMPTS
        &&& wait_millis is None ==> waits_left.len() == LOOKUP_ATTEMPTS - 1
        &&& forall|i: int| 0 <= i < waits_left.len() ==> waits_left[i] == LOOKUP_DELAY_MILLIS
    }
}

/// The most outcomes that a check can still take before it ends: one for
/// the resolver, and for each domain as many as it has lookups.
pub open spec fn outcomes_left(check: DomainCheckView) -> nat {
    match check.stage {
        DomainCheckStageView::Resolver => 1 + LOOKUP_ATTEMPTS as nat * check.remaining.len(),
        DomainCheckStageView::Lookup { domain, wait_millis, waits_left } => 1 + waits_left.len()
            + LOOKUP_ATTEMPTS as nat * check.remaining.len(),
        DomainCheckStageView::Finished(_) => 0,
    }
}

/// Every step keeps the check to its schedule, and takes it nearer to its
/// end unless it has ended.
pub proof fn lemma_step_keeps_schedule(check: DomainCheckView, succeeded: bool)
    requires
        keeps_schedule(check),
    ensures
        keeps_schedule(domain_check_next(check, succeeded).check),
        !has_ended(check) ==> outcomes_left(domain_check_next(check, succeeded).check)
            < outcomes_left(check),
        has_ended(check) ==> domain_check_next(check, succeeded).check == check,
{
    let next = domain_check_next(check, succeeded).check;
    assert(keeps_schedule(next_domain(check).check));
    if check.remaining.len() > 0 {
        assert(next_domain(check).check.remaining.len() == check.remaining.len() - 1);
    }
}

/// A check ends: after one outcome for the resolver and, for each domain,
/// as many as it may have lookups, it has ended whatever the outcomes were.
pub proof fn lemma_check_ends(check: DomainCheckView, outcomes: Seq<bool>)
    requires
        keeps_schedule(check),
        outcomes.len() >= outcomes_left(check),
    ensures
        has_ended(domain_check_after(check, outcomes)),
    decreases outcomes.len(),
{
    if outcomes.len() > 0 {
        lemma_step_keeps_schedule(check, outcomes[0]);
        lemma_check_ends(domain_check_next(check, outcomes[0]).check, outcomes.drop_first());
    }
}

/// A check of any domains ends after one outcome for the resolver and, for
/// each domain, as many as it may have lookups.
pub proof fn lemma_started_check_ends(
    domains: Seq<Seq<char>>,
    execution_id: Seq<char>,
    context_id: Seq<char>,
    outcomes: Seq<bool>,
)
    requires
        outcomes.len() >= 1 + LOOKUP_ATTEMPTS as nat * domains.len(),
    ensures
        has_ended(
            domain_check_after(domain_check_start(domains, execution_id, context_id), outcomes),
        ),
{
    lemma_check_ends(domain_check_start(domains, execution_id, context_id), outcomes);
}

} // verus!
