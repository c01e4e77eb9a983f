//! The authorization policy: an ordered list of rules over the attributes of
//! one request, the first that applies deciding.

use vstd::prelude::*;
use vstd::string::*;

use crate::attributes::{value_of, AttributeSet};
use crate::text::{has_substring, has_suffix, is_suffix, occurs_in, same_text};

verus! {

/// Key of the flag that says whether the requester is authenticated.
pub const AUTHENTICATED_KEY: &'static str = "azure.authenticated";

/// Key of the requester's role.
pub const ROLE_KEY: &'static str = "azure.role";

/// Key of the requester's department.
pub const DEPARTMENT_KEY: &'static str = "azure.department";

/// Key of the requester's group memberships.
pub const GROUPS_KEY: &'static str = "azure.groups";

/// Key of the requester's email address.
pub const EMAIL_KEY: &'static str = "azure.email";

/// The outcome of evaluating the policy on one request.
#[derive(Clone, Copy, Debug, PartialEq, Eq, Structural)]
pub enum Decision {
    Authorized,
    Unauthorized,
}

impl Decision {
    /// The word that stands for the decision on the output stream.
    pub open spec fn text(self) -> Seq<char> {
        match self {
            Decision::Authorized => "authorized"@,
            Decision::Unauthorized => "unauthorized"@,
        }
    }

    /// The word that stands for the decision on the output stream.
    pub fn as_str(&self) -> (r: &'static str)
        ensures
            r@ == self.text(),
    {
        match self {
            Decision::Authorized => "authorized",
            Decision::Unauthorized => "unauthorized",
        }
    }
}

/// The requester is authenticated: the flag is exactly `true`.
pub open spec fn is_authenticated(attrs: Map<Seq<char>, Seq<char>>) -> bool {
    value_of(attrs, AUTHENTICATED_KEY@) == "true"@
}

/// The requester has the administrator role.
pub open spec fn is_admin(attrs: Map<Seq<char>, Seq<char>>) -> bool {
    value_of(attrs, ROLE_KEY@) == "admin"@
}

/// The requester is in the Engineering department and in a group whose
/// listing mentions `developers`.
pub open spec fn is_engineering_developer(attrs: Map<Seq<char>, Seq<char>>) -> bool {
    value_of(attrs, DEPARTMENT_KEY@) == "Engineering"@ && occurs_in(
        "developers"@,
        value_of(attrs, GROUPS_KEY@),
    )
}

/// The requester has the user role and an `@example.com` email address.
pub open spec fn is_example_user(attrs: Map<Seq<char>, Seq<char>>) -> bool {
    is_suffix(value_of(attrs, EMAIL_KEY@), "@example.com"@) && value_of(attrs, ROLE_KEY@)
        == "user"@
}

/// The decision of the policy on `attrs`: the rules in order, the first that
/// applies deciding.
pub open spec fn policy(attrs: Map<Seq<char>, Seq<char>>) -> Decision {
    if !is_authenticated(attrs) {
        Decision::Unauthorized
    } else if is_admin(attrs) {
        Decision::Authorized
    } else if is_engineering_developer(attrs) {
        Decision::Authorized
    } else if is_example_user(attrs) {
        Decision::Authorized
    } else {
        Decision::Unauthorized
    }
}

/// Evaluates the policy on the attributes of one request.
pub fn evaluate(attrs: &AttributeSet) -> (r: Decision)
    ensures
        r == policy(attrs@),
{
    if !same_text(attrs.value(AUTHENTICATED_KEY), "true") {
        return Decision::Unauthorized;
    }
    let role = attrs.value(ROLE_KEY);
    if same_text(role, "admin") {
        return Decision::Authorized;
    }
    let department = attrs.value(DEPARTMENT_KEY);
    let groups = attrs.value(GROUPS_KEY);
    if same_text(department, "Engineering") && has_substring(groups, "developers") {
        return Decision::Authorized;
    }
    let email = attrs.value(EMAIL_KEY);
    if has_suffix(email, "@example.com") && same_text(role, "user") {
        return Decision::Authorized;
    }
    Decision::Unauthorized
}

/// Evaluates the policy on the attributes of one request and gives the
/// decision as its output word, `authorized` or `unauthorized`.
pub fn process_authorization_request(input: &AttributeSet) -> (r: &'static str)
    ensures
        r@ == policy(input@).text(),
{
    evaluate(input).as_str()
}

} // verus!
