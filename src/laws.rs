//! General facts about the policy, proved from the evaluator's contract.

use vstd::prelude::*;
use vstd::string::*;

use crate::attributes::{value_of, AttributeSet};
use crate::policy::{
    is_admin, is_authenticated, is_engineering_developer, is_example_user, policy, Decision,
    AUTHENTICATED_KEY, DEPARTMENT_KEY, EMAIL_KEY, GROUPS_KEY, ROLE_KEY,
};
use crate::text::{is_suffix, occurs_in};

verus! {

/// A request whose authentication flag is anything but exactly `true` is
/// denied, whatever its other attributes.
pub proof fn lemma_unauthenticated_denied(attrs: AttributeSet)
    requires
        value_of(attrs@, AUTHENTICATED_KEY@) != "true"@,
    ensures
        policy(attrs@) == Decision::Unauthorized,
{
}

/// An authenticated administrator is authorized, whatever the other attributes.
pub proof fn lemma_admin_authorized(attrs: AttributeSet)
    requires
        value_of(attrs@, AUTHENTICATED_KEY@) == "true"@,
        value_of(attrs@, ROLE_KEY@) == "admin"@,
    ensures
        policy(attrs@) == Decision::Authorized,
{
}

/// An authenticated member of Engineering whose groups mention `developers`
/// is authorized.
pub proof fn lemma_engineering_developer_authorized(attrs: AttributeSet)
    requires
        value_of(attrs@, AUTHENTICATED_KEY@) == "true"@,
        value_of(attrs@, DEPARTMENT_KEY@) == "Engineering"@,
        occurs_in("developers"@, value_of(attrs@, GROUPS_KEY@)),
    ensures
        policy(attrs@) == Decision::Authorized,
{
}

/// An authenticated requester with the user role and an `@example.com`
/// email address is authorized.
pub proof fn lemma_example_user_authorized(attrs: AttributeSet)
    requires
        value_of(attrs@, AUTHENTICATED_KEY@) == "true"@,
        is_suffix(value_of(attrs@, EMAIL_KEY@), "@example.com"@),
        value_of(attrs@, ROLE_KEY@) == "user"@,
    ensures
        policy(attrs@) == Decision::Authorized,
{
}

/// A request that none of the three granting rules covers is denied.
pub proof fn lemma_otherwise_denied(attrs: AttributeSet)
    requires
        !(is_authenticated(attrs@) && is_admin(attrs@)),
        !(is_authenticated(attrs@) && is_engineering_developer(attrs@)),
        !(is_authenticated(attrs@) && is_example_user(attrs@)),
    ensures
        policy(attrs@) == Decision::Unauthorized,
{
}

/// The decision depends on the attributes alone: two attribute sets that map
/// the same keys to the same values get the same decision, however often and
/// in whatever order they are evaluated.
pub proof fn lemma_decision_deterministic(a: AttributeSet, b: AttributeSet)
    requires
        a@ == b@,
    ensures
        policy(a@) == policy(b@),
{
}

} // verus!
