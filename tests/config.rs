use edge_runtime::config::{
    check_inspector_policy, get_decorator_option, get_inspector_option, graceful_exit_deadline,
    DecoratorType, InspectorNeedsOneshot, InspectorOption,
};
use edge_runtime::policy::SupervisorPolicy;
use edge_runtime::text::{contains, str_equal};

#[test]
fn decorator_names_any_case() {
    assert_eq!(get_decorator_option(Some("tc39")), Some(DecoratorType::Tc39));
    assert_eq!(get_decorator_option(Some("TypeScript")), Some(DecoratorType::Typescript));
    assert_eq!(
        get_decorator_option(Some("TYPESCRIPT_WITH_METADATA")),
        Some(DecoratorType::TypescriptWithMetadata)
    );
    assert_eq!(get_decorator_option(Some("babel")), None);
    assert_eq!(get_decorator_option(None), None);
    assert_eq!(DecoratorType::from_lowered("TC39"), None);
}

#[test]
fn inspector_keys() {
    assert_eq!(get_inspector_option("inspect", 9229u16), Ok(InspectorOption::Inspect(9229)));
    assert_eq!(get_inspector_option("inspect-brk", 1u16), Ok(InspectorOption::WithBreak(1)));
    assert_eq!(get_inspector_option("inspect-wait", 2u16), Ok(InspectorOption::WithWait(2)));
    let e = get_inspector_option("inspect-main", 3u16).unwrap_err();
    assert_eq!(e.key, "inspect-main");
    assert_eq!(e.message(), "invalid inspector key: inspect-main");
}

#[test]
fn inspector_needs_oneshot() {
    assert_eq!(check_inspector_policy(true, Some(SupervisorPolicy::Oneshot)), Ok(()));
    assert_eq!(
        check_inspector_policy(true, Some(SupervisorPolicy::PerWorker)),
        Err(InspectorNeedsOneshot)
    );
    assert_eq!(check_inspector_policy(true, None), Err(InspectorNeedsOneshot));
    assert_eq!(check_inspector_policy(false, None), Ok(()));
}

#[test]
fn deadline_defaults_to_zero() {
    assert_eq!(graceful_exit_deadline(None), 0);
    assert_eq!(graceful_exit_deadline(Some(30)), 30);
}

#[test]
fn text_helpers() {
    assert!(str_equal("héllo", "héllo"));
    assert!(!str_equal("hello", "hell"));
    assert!(contains("x execution terminated", "execution terminated"));
    assert!(contains("execution terminated by host", "execution terminated"));
    assert!(contains("abc", ""));
    assert!(contains("", ""));
    assert!(contains("abc", "c"));
    assert!(!contains("terminated", "execution terminated"));
    assert!(!contains("abd", "abc"));
}
