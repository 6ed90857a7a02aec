use qovery_engine::cloud_provider::domains::{
    check_domain_for, DomainCheck, DomainCheckAction, DomainCheckStage, LOOKUP_ATTEMPTS,
    LOOKUP_DELAY_MILLIS,
};
use qovery_engine::error::{EngineError, EngineErrorCause, EngineErrorScope};
use qovery_engine::models::{Notification, ProgressInfo, ProgressLevel, ProgressScope};

fn domains(names: &[&str]) -> Vec<String> {
    names.iter().map(|name| name.to_string()).collect()
}

fn info(level: ProgressLevel, message: String, listed_under: &str) -> ProgressInfo {
    ProgressInfo {
        scope: ProgressScope::Environment { id: "exec".to_string() },
        level,
        message: Some(message),
        execution_id: listed_under.to_string(),
    }
}

fn announced(domain: &str) -> Notification {
    Notification::StartInProgress(info(
        ProgressLevel::Info,
        format!(
            "Let's check domain resolution for '{}'. Please wait, it can take some time...",
            domain
        ),
        "exec",
    ))
}

fn still_in_progress(domain: &str) -> Notification {
    Notification::StartInProgress(info(
        ProgressLevel::Info,
        format!("Domain resolution check for '{}' is still in progress...", domain),
        "exec",
    ))
}

fn ready(domain: &str) -> Notification {
    Notification::Started(ProgressInfo {
        scope: ProgressScope::Router { id: domain.to_string() },
        level: ProgressLevel::Info,
        message: Some(format!("Domain {} is ready! \u{26a1}\u{fe0f}", domain)),
        execution_id: "ctx".to_string(),
    })
}

fn given_up(domain: &str) -> Notification {
    Notification::Error(info(
        ProgressLevel::Warn,
        format!(
            "Unable to check domain availability for '{}'. It can be due to a too long domain propagation. Note: this is not critical.",
            domain
        ),
        "ctx",
    ))
}

fn start(names: &[&str]) -> DomainCheck {
    check_domain_for(domains(names), "exec", "ctx")
}

#[test]
fn check_asks_for_a_resolver_first() {
    let check = start(&["a.example.com"]);
    assert_eq!(check.action(), DomainCheckAction::BuildResolver);
    assert_eq!(check.stage, DomainCheckStage::Resolver);
    assert_eq!(check.remaining, domains(&["a.example.com"]));
}

#[test]
fn check_without_resolver_fails_and_names_every_domain() {
    let step = start(&["a.example.com", "b.example.com", "c.example.com"]).advance(false);
    assert!(step.notifications.is_empty());
    let error = EngineError {
        cause: EngineErrorCause::Internal,
        scope: EngineErrorScope::Engine,
        execution_id: "exec".to_string(),
        message: Some(
            "Let's check domain resolution for 'a.example.com,b.example.com,c.example.com'. Please wait, it can take some time..."
                .to_string(),
        ),
    };
    assert_eq!(step.check.action(), DomainCheckAction::Finish(Err(error.clone())));
    let later = step.check.advance(true);
    assert!(later.notifications.is_empty());
    assert_eq!(later.check.action(), DomainCheckAction::Finish(Err(error)));
}

#[test]
fn check_without_resolver_fails_even_without_domains() {
    let step = start(&[]).advance(false);
    match step.check.action() {
        DomainCheckAction::Finish(Err(error)) => assert_eq!(
            error.message.as_deref(),
            Some("Let's check domain resolution for ''. Please wait, it can take some time...")
        ),
        other => panic!("the check went on: {:?}", other),
    }
    let one = start(&["only.example.com"]).advance(false);
    match one.check.action() {
        DomainCheckAction::Finish(Err(error)) => assert_eq!(
            error.message.as_deref(),
            Some(
                "Let's check domain resolution for 'only.example.com'. Please wait, it can take some time..."
            )
        ),
        other => panic!("the check went on: {:?}", other),
    }
}

#[test]
fn check_without_domains_ends_well() {
    let step = start(&[]).advance(true);
    assert!(step.notifications.is_empty());
    assert_eq!(step.check.action(), DomainCheckAction::Finish(Ok(())));
}

#[test]
fn domains_that_resolve_are_reported_ready_in_their_order() {
    let step = start(&["a.example.com", "b.example.com"]).advance(true);
    assert_eq!(step.notifications, vec![announced("a.example.com")]);
    assert_eq!(
        step.check.action(),
        DomainCheckAction::Lookup { domain: "a.example.com".to_string(), wait_millis: None }
    );
    let step = step.check.advance(true);
    assert_eq!(step.notifications, vec![ready("a.example.com"), announced("b.example.com")]);
    assert_eq!(
        step.check.action(),
        DomainCheckAction::Lookup { domain: "b.example.com".to_string(), wait_millis: None }
    );
    let step = step.check.advance(true);
    assert_eq!(step.notifications, vec![ready("b.example.com")]);
    assert_eq!(step.check.action(), DomainCheckAction::Finish(Ok(())));
    let step = step.check.advance(false);
    assert!(step.notifications.is_empty());
    assert_eq!(step.check.action(), DomainCheckAction::Finish(Ok(())));
}

#[test]
fn domain_that_does_not_resolve_is_looked_up_again_after_the_delay() {
    let step = start(&["a.example.com"]).advance(true);
    let step = step.check.advance(false);
    assert_eq!(step.notifications, vec![still_in_progress("a.example.com")]);
    assert_eq!(
        step.check.action(),
        DomainCheckAction::Lookup { domain: "a.example.com".to_string(), wait_millis: Some(3000) }
    );
    let step = step.check.advance(true);
    assert_eq!(step.notifications, vec![ready("a.example.com")]);
    assert_eq!(step.check.action(), DomainCheckAction::Finish(Ok(())));
}

#[test]
fn domain_that_never_resolves_is_given_up_with_a_warning_and_the_check_goes_on() {
    assert_eq!(LOOKUP_ATTEMPTS, 100);
    assert_eq!(LOOKUP_DELAY_MILLIS, 3000);
    let mut step = start(&["slow.example.com", "b.example.com"]).advance(true);
    let mut lookups = 0;
    let mut waited: u64 = 0;
    loop {
        match step.check.action() {
            DomainCheckAction::Lookup { domain, wait_millis } if domain == "slow.example.com" => {
                lookups += 1;
                assert_eq!(wait_millis, if lookups == 1 { None } else { Some(3000) });
                waited += wait_millis.unwrap_or(0);
                step = step.check.advance(false);
                if lookups < 100 {
                    assert_eq!(step.notifications, vec![still_in_progress("slow.example.com")]);
                }
            }
            _ => break,
        }
    }
    assert_eq!(lookups, 100);
    assert_eq!(waited, 99 * 3000);
    assert_eq!(
        step.notifications,
        vec![
            still_in_progress("slow.example.com"),
            given_up("slow.example.com"),
            announced("b.example.com"),
        ]
    );
    assert_eq!(
        step.check.action(),
        DomainCheckAction::Lookup { domain: "b.example.com".to_string(), wait_millis: None }
    );
}

#[test]
fn check_whose_lookups_all_fail_still_ends_well() {
    let names = ["a.example.com", "b.example.com", "c.example.com"];
    let mut step = start(&names).advance(true);
    let mut outcomes = 1;
    let mut warnings = 0;
    while !matches!(step.check.action(), DomainCheckAction::Finish(_)) {
        step = step.check.advance(false);
        outcomes += 1;
        warnings += step
            .notifications
            .iter()
            .filter(|notification| matches!(notification, Notification::Error(_)))
            .count();
        assert!(outcomes <= 1 + 100 * names.len());
    }
    assert_eq!(outcomes, 1 + 100 * names.len());
    assert_eq!(warnings, names.len());
    assert_eq!(step.check.action(), DomainCheckAction::Finish(Ok(())));
}
