use apollo_puller::config::{default_log_level, prepare_launch, AppSpec, LogLevel, StartupConfig};
use apollo_puller::identity::{resolve, HostIdentity, ResolveError, TargetingValue};

#[test]
fn default_log_level_is_info() {
    assert_eq!(default_log_level(), LogLevel::Info);
}

#[test]
fn hostname_identity_resolves() {
    let resolved = resolve(&HostIdentity::HostName).unwrap();
    assert!(matches!(resolved, TargetingValue::HostName));
}

#[test]
fn custom_identity_passes_through() {
    let resolved = resolve(&HostIdentity::Custom { custom: "rack-42".to_string() }).unwrap();
    match resolved {
        TargetingValue::Custom(value) => assert_eq!(value, "rack-42"),
        _ => panic!("expected a custom targeting value"),
    }
}

#[test]
fn valid_cidr_resolves_to_block() {
    let resolved = resolve(&HostIdentity::HostCidr { cidr: "10.3.0.0/16".to_string() }).unwrap();
    assert!(matches!(resolved, TargetingValue::HostCidr(_)));
}

#[test]
fn invalid_cidr_is_a_fatal_error() {
    let outcome = resolve(&HostIdentity::HostCidr { cidr: "not-a-cidr".to_string() });
    assert_eq!(outcome.unwrap_err(), ResolveError::InvalidHostSpec);
}

fn startup(host: Option<HostIdentity>) -> StartupConfig {
    StartupConfig {
        log_level: default_log_level(),
        worker_threads: Some(2),
        dir: "/etc/conf".to_string(),
        config_service_url: "http://localhost:8080".to_string(),
        host,
        apps: vec![AppSpec {
            app_id: "order-service".to_string(),
            namespaces: vec!["application.properties".to_string()],
        }],
    }
}

#[test]
fn launch_plan_without_identity_has_no_targeting() {
    let plan = prepare_launch(startup(None)).unwrap();
    assert!(plan.targeting.is_none());
    assert_eq!(plan.dir, "/etc/conf");
    assert_eq!(plan.apps.len(), 1);
    assert_eq!(plan.apps[0].app_id, "order-service");
    assert_eq!(plan.apps[0].namespaces, vec!["application.properties".to_string()]);
}

#[test]
fn launch_plan_resolves_identity_once() {
    let plan = prepare_launch(startup(Some(HostIdentity::Custom {
        custom: "cohort-a".to_string(),
    })))
    .unwrap();
    match plan.targeting {
        Some(TargetingValue::Custom(value)) => assert_eq!(value, "cohort-a"),
        _ => panic!("expected a custom targeting value"),
    }
}

#[test]
fn launch_with_bad_cidr_does_not_start() {
    let outcome = prepare_launch(startup(Some(HostIdentity::HostCidr {
        cidr: "300.0.0.0/40".to_string(),
    })));
    assert_eq!(outcome.unwrap_err(), ResolveError::InvalidHostSpec);
}
