use authz_policy::attributes::AttributeSet;
use authz_policy::policy::{
    evaluate, process_authorization_request, Decision, AUTHENTICATED_KEY, DEPARTMENT_KEY,
    EMAIL_KEY, GROUPS_KEY, ROLE_KEY,
};
use authz_policy::text::{has_substring, has_suffix, same_text};

fn attrs(pairs: &[(&str, &str)]) -> AttributeSet {
    let mut set = AttributeSet::new();
    for (k, v) in pairs {
        set.insert(k.to_string(), v.to_string());
    }
    set
}

#[test]
fn admin_is_authorized() {
    let a = attrs(&[(AUTHENTICATED_KEY, "true"), (ROLE_KEY, "admin")]);
    assert_eq!(evaluate(&a), Decision::Authorized);
    assert_eq!(process_authorization_request(&a), "authorized");
}

#[test]
fn engineering_developer_is_authorized() {
    let a = attrs(&[
        (AUTHENTICATED_KEY, "true"),
        (DEPARTMENT_KEY, "Engineering"),
        (GROUPS_KEY, "developers,qa"),
    ]);
    assert_eq!(process_authorization_request(&a), "authorized");
}

#[test]
fn example_user_is_authorized() {
    let a = attrs(&[
        (AUTHENTICATED_KEY, "true"),
        (ROLE_KEY, "user"),
        (EMAIL_KEY, "a@example.com"),
    ]);
    assert_eq!(process_authorization_request(&a), "authorized");
}

#[test]
fn unauthenticated_admin_is_denied() {
    let a = attrs(&[(AUTHENTICATED_KEY, "false"), (ROLE_KEY, "admin")]);
    assert_eq!(process_authorization_request(&a), "unauthorized");
}

#[test]
fn sales_user_is_denied() {
    let a = attrs(&[
        (AUTHENTICATED_KEY, "true"),
        (ROLE_KEY, "user"),
        (DEPARTMENT_KEY, "Sales"),
    ]);
    assert_eq!(process_authorization_request(&a), "unauthorized");
}

#[test]
fn authentication_flag_is_exact() {
    for flag in ["True", "1", "", "yes", "true "] {
        let a = attrs(&[(AUTHENTICATED_KEY, flag), (ROLE_KEY, "admin")]);
        assert_eq!(evaluate(&a), Decision::Unauthorized);
    }
}

#[test]
fn missing_attributes_read_as_empty() {
    assert_eq!(evaluate(&AttributeSet::new()), Decision::Unauthorized);
    let a = attrs(&[(AUTHENTICATED_KEY, "true")]);
    assert_eq!(evaluate(&a), Decision::Unauthorized);
    assert_eq!(a.value(ROLE_KEY), "");
}

#[test]
fn admin_wins_whatever_else() {
    let a = attrs(&[
        (AUTHENTICATED_KEY, "true"),
        (ROLE_KEY, "admin"),
        (DEPARTMENT_KEY, "Sales"),
        (EMAIL_KEY, "x@other.org"),
    ]);
    assert_eq!(evaluate(&a), Decision::Authorized);
}

#[test]
fn groups_match_by_substring() {
    for groups in ["developers-team", "xdevelopersx", "non-developers", "qa,developers"] {
        let a = attrs(&[
            (AUTHENTICATED_KEY, "true"),
            (DEPARTMENT_KEY, "Engineering"),
            (GROUPS_KEY, groups),
        ]);
        assert_eq!(evaluate(&a), Decision::Authorized);
    }
    let a = attrs(&[
        (AUTHENTICATED_KEY, "true"),
        (DEPARTMENT_KEY, "Engineering"),
        (GROUPS_KEY, "developer,qa"),
    ]);
    assert_eq!(evaluate(&a), Decision::Unauthorized);
}

#[test]
fn developers_outside_engineering_are_denied() {
    let a = attrs(&[
        (AUTHENTICATED_KEY, "true"),
        (DEPARTMENT_KEY, "engineering"),
        (GROUPS_KEY, "developers"),
    ]);
    assert_eq!(evaluate(&a), Decision::Unauthorized);
}

#[test]
fn example_email_needs_user_role() {
    let a = attrs(&[
        (AUTHENTICATED_KEY, "true"),
        (ROLE_KEY, "guest"),
        (EMAIL_KEY, "a@example.com"),
    ]);
    assert_eq!(evaluate(&a), Decision::Unauthorized);
    let b = attrs(&[
        (AUTHENTICATED_KEY, "true"),
        (ROLE_KEY, "user"),
        (EMAIL_KEY, "a@example.com.evil"),
    ]);
    assert_eq!(evaluate(&b), Decision::Unauthorized);
    let c = attrs(&[
        (AUTHENTICATED_KEY, "true"),
        (ROLE_KEY, "user"),
        (EMAIL_KEY, "@example.com"),
    ]);
    assert_eq!(evaluate(&c), Decision::Authorized);
}

#[test]
fn evaluation_is_deterministic() {
    let a = attrs(&[
        (AUTHENTICATED_KEY, "true"),
        (ROLE_KEY, "user"),
        (EMAIL_KEY, "b@example.com"),
    ]);
    let b = attrs(&[
        (EMAIL_KEY, "b@example.com"),
        (ROLE_KEY, "user"),
        (AUTHENTICATED_KEY, "true"),
    ]);
    let first = evaluate(&a);
    for _ in 0..5 {
        assert_eq!(evaluate(&a), first);
        assert_eq!(evaluate(&b), first);
    }
    assert_eq!(first, Decision::Authorized);
}

#[test]
fn later_value_replaces_earlier() {
    let a = attrs(&[(AUTHENTICATED_KEY, "true"), (ROLE_KEY, "admin"), (ROLE_KEY, "guest")]);
    assert_eq!(a.value(ROLE_KEY), "guest");
    assert_eq!(evaluate(&a), Decision::Unauthorized);
}

#[test]
fn decision_words() {
    assert_eq!(Decision::Authorized.as_str(), "authorized");
    assert_eq!(Decision::Unauthorized.as_str(), "unauthorized");
}

#[test]
fn text_comparisons() {
    assert!(same_text("abc", "abc"));
    assert!(!same_text("abc", "abd"));
    assert!(!same_text("abc", "ab"));
    assert!(has_suffix("x@example.com", "@example.com"));
    assert!(!has_suffix("example.com", "@example.com"));
    assert!(has_suffix("", ""));
    assert!(has_substring("a,developers,b", "developers"));
    assert!(!has_substring("devel", "developers"));
    assert!(has_substring("", ""));
    assert!(has_substring("é-developers", "developers"));
}
