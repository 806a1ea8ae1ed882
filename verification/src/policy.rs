//! The host's signature policy for container images, and the audit of its
//! default rule. See `containers-policy.json(5)`.

use vstd::prelude::*;
use crate::error::{Failure, ImageError};
use crate::json::{json_of_text, json_of_value, member, parse_json, Json};
use crate::text::str_eq;

verus! {

/// Where the host keeps its policy.
pub const POLICY_PATH: &'static str = "/etc/containers/policy.json";

/// The type of the rule that accepts any image.
pub const INSECURE_ACCEPT_ANYTHING: &'static str = "insecureAcceptAnything";

/// One rule of a policy, of which only the type is read.
#[derive(Debug, PartialEq, Eq)]
pub struct PolicyEntry {
    pub ty: String,
}

/// A policy, of which only the default rules are read.
#[derive(Debug, PartialEq, Eq)]
pub struct ContainerPolicy {
    pub default: Option<Vec<PolicyEntry>>,
}

/// What a [`ContainerPolicy`] says: the types of its default rules, in
/// order, where it has default rules.
pub struct PolicyView {
    pub default: Option<Seq<Seq<char>>>,
}

impl PolicyView {
    /// A policy's default is insecure when it is exactly one rule, and that
    /// the rule that accepts anything.
    pub open spec fn is_default_insecure(self) -> bool {
        self.default matches Some(rules) && rules.len() == 1 && rules[0]
            == INSECURE_ACCEPT_ANYTHING@
    }
}

impl View for ContainerPolicy {
    type V = PolicyView;

    open spec fn view(&self) -> PolicyView {
        PolicyView {
            default: match self.default {
                Some(rules) => Some(rules@.map_values(|e: PolicyEntry| e.ty@)),
                None => None,
            },
        }
    }
}

/// The type of the rule that a JSON value gives: it must be an object with a
/// member `type` that is a string.
pub open spec fn rule_type(j: Json) -> Option<Seq<char>> {
    if j.has_member("type"@) && j.member("type"@) is Text {
        Some(j.member("type"@)->Text_0)
    } else {
        None
    }
}

/// The policy that a JSON value gives. It must be an object. Where it has no
/// member `default`, or `null` for it, the policy has no default rules;
/// else the member must be an array, and each of its items a rule.
pub open spec fn policy_of(j: Json) -> Option<PolicyView> {
    if !(j is Object) {
        None
    } else if !j.has_member("default"@) || j.member("default"@) is Null {
        Some(PolicyView { default: None })
    } else {
        match j.member("default"@) {
            Json::Array(items) => if forall|i: int|
                0 <= i < items.len() ==> rule_type(#[trigger] items[i]) is Some {
                Some(PolicyView { default: Some(items.map_values(|x: Json| rule_type(x)->Some_0)) })
            } else {
                None
            },
            _ => None,
        }
    }
}

/// The policy that a text gives: it must be JSON, and that a policy.
pub open spec fn policy_in_text(text: Seq<char>) -> Option<PolicyView> {
    match json_of_text(text) {
        Some(j) => policy_of(j),
        None => None,
    }
}

/// A policy document's default is insecure exactly when its member `default`
/// is an array of one item, and that a rule of the type that accepts
/// anything. So it is secure where the document has no such member, where
/// the one rule is of another type, and where there are more rules than one.
pub proof fn law_insecure_default(j: Json)
    requires
        policy_of(j) is Some,
    ensures
        policy_of(j).unwrap().is_default_insecure() <==> (j.has_member("default"@) && (j.member(
            "default"@,
        ) matches Json::Array(items) && items.len() == 1 && rule_type(items[0]) == Some(
            INSECURE_ACCEPT_ANYTHING@,
        ))),
{
}

impl PolicyEntry {
    /// The rule that a JSON value gives, if it gives one.
    pub fn from_json(v: &serde_json::Value) -> (r: Option<PolicyEntry>)
        ensures
            r is Some <==> rule_type(json_of_value(*v)) is Some,
            r matches Some(e) ==> Some(e.ty@) == rule_type(json_of_value(*v)),
    {
        let ty = match member(v, "type") {
            Some(t) => t.as_str(),
            None => None,
        };
        match ty {
            Some(s) => Some(PolicyEntry { ty: s.to_owned() }),
            None => None,
        }
    }
}

impl ContainerPolicy {
    /// Whether the default rules accept any image: whether they are exactly
    /// one rule of the type `insecureAcceptAnything`.
    pub fn is_default_insecure(&self) -> (r: bool)
        ensures
            r == self@.is_default_insecure(),
    {
        match &self.default {
            Some(rules) => rules.len() == 1 && str_eq(
                rules[0].ty.as_str(),
                INSECURE_ACCEPT_ANYTHING,
            ),
            None => false,
        }
    }

    /// The policy that a JSON value gives, if it gives one.
    pub fn from_json(v: &serde_json::Value) -> (r: Option<ContainerPolicy>)
        ensures
            r is Some <==> policy_of(json_of_value(*v)) is Some,
            r matches Some(p) ==> Some(p@) == policy_of(json_of_value(*v)),
    {
        if !v.is_object() {
            return None;
        }
        let default = match member(v, "default") {
            Some(d) => d,
            None => {
                return Some(ContainerPolicy { default: None });
            },
        };
        if default.is_null() {
            return Some(ContainerPolicy { default: None });
        }
        let items = match default.as_array() {
            Some(items) => items,
            None => {
                return None;
            },
        };
        let ghost j = json_of_value(*v);
        let ghost models = items@.map_values(|x: serde_json::Value| json_of_value(x));
        let mut rules: Vec<PolicyEntry> = Vec::new();
        let mut i: usize = 0;
        while i < items.len()
            invariant
                i <= items.len(),
                j == json_of_value(*v),
                j is Object,
                j.has_member("default"@),
                j.member("default"@) == Json::Array(models),
                models == items@.map_values(|x: serde_json::Value| json_of_value(x)),
                rules@.len() == i,
                forall|k: int|
                    0 <= k < i ==> Some((#[trigger] rules@[k]).ty@) == rule_type(models[k]),
            decreases items.len() - i,
        {
            assert(models[i as int] == json_of_value(items@[i as int]));
            match PolicyEntry::from_json(&items[i]) {
                Some(e) => rules.push(e),
                None => {
                    return None;
                },
            }
            i += 1;
        }
        let r = ContainerPolicy { default: Some(rules) };
        proof {
            assert forall|k: int| 0 <= k < models.len() implies rule_type(
                #[trigger] models[k],
            ) is Some by {
                assert(Some(rules@[k].ty@) == rule_type(models[k]));
            }
            assert(r@.default->Some_0 =~= models.map_values(|x: Json| rule_type(x)->Some_0)) by {
                assert forall|k: int| 0 <= k < models.len() implies r@.default->Some_0[k]
                    == rule_type(models[k])->Some_0 by {
                    assert(Some(rules@[k].ty@) == rule_type(models[k]));
                }
            }
        }
        Some(r)
    }

    /// Reads a policy from the text of a policy document.
    pub fn parse(text: &str) -> (r: Result<ContainerPolicy, ImageError>)
        ensures
            r is Ok <==> policy_in_text(text@) is Some,
            r matches Ok(p) ==> Some(p@) == policy_in_text(text@),
            r matches Err(e) ==> e@ == Failure::PolicyParse(text@),
    {
        let parsed = match parse_json(text) {
            Ok(v) => ContainerPolicy::from_json(&v),
            Err(_) => None,
        };
        match parsed {
            Some(p) => Ok(p),
            None => Err(ImageError::PolicyParse(text.to_owned())),
        }
    }
}

/// Audits the host's policy, given what reading the document at
/// [`POLICY_PATH`] gave: its text, or the reason why it could not be read.
/// Answers whether the default rules accept any image.
pub fn container_policy_is_default_insecure(contents: Result<String, String>) -> (r: Result<
    bool,
    ImageError,
>)
    ensures
        match contents {
            Ok(text) => match policy_in_text(text@) {
                Some(p) => r == Ok::<bool, ImageError>(p.is_default_insecure()),
                None => r matches Err(e) && e@ == Failure::PolicyParse(text@),
            },
            Err(reason) => r matches Err(e) && e@ == Failure::PolicyRead(reason@),
        },
{
    match contents {
        Ok(text) => match ContainerPolicy::parse(text.as_str()) {
            Ok(policy) => Ok(policy.is_default_insecure()),
            Err(e) => Err(e),
        },
        Err(reason) => Err(ImageError::PolicyRead(reason)),
    }
}

} // verus!
