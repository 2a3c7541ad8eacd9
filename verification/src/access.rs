//! The access policy of a dapp: a time window and a required token.

use vstd::prelude::*;
use crate::text::text_eq;
use crate::types::TimestampMills;

verus! {

/// The policy that gates the public operations on a dapp.
#[derive(Debug, PartialEq, Eq)]
pub struct DappAccess {
    /// The earliest time at which the dapp may be used; open if absent.
    pub earliest: Option<TimestampMills>,
    /// The latest time at which the dapp may be used; open if absent.
    pub latest: Option<TimestampMills>,
    /// The token that a caller has to present, if one is required.
    pub token: Option<String>,
}

/// A token that a caller presents, already validated elsewhere.
#[derive(Debug, PartialEq, Eq)]
pub struct DappVerified {
    /// The token itself.
    pub token: String,
}

/// What the public may learn of a policy: the window, and whether a token
/// is required.
#[derive(Debug, PartialEq, Eq)]
pub struct DappAccessView {
    /// The earliest time at which the dapp may be used; open if absent.
    pub earliest: Option<TimestampMills>,
    /// The latest time at which the dapp may be used; open if absent.
    pub latest: Option<TimestampMills>,
    /// Whether a token is required.
    pub token: bool,
}

/// A policy as a mathematical value.
pub struct AccessModel {
    pub earliest: Option<i64>,
    pub latest: Option<i64>,
    pub token: Option<Seq<char>>,
}

/// The public part of a policy as a mathematical value.
pub struct AccessViewModel {
    pub earliest: Option<i64>,
    pub latest: Option<i64>,
    pub token: bool,
}

/// A time that may be absent, as a mathematical value.
pub open spec fn time_model(t: Option<TimestampMills>) -> Option<i64> {
    match t {
        Some(t) => Some(t.0),
        None => None,
    }
}

/// The token that a caller presents, if any, as a mathematical value.
pub open spec fn presented_token(verified: Option<&DappVerified>) -> Option<Seq<char>> {
    match verified {
        Some(v) => Some(v.token@),
        None => None,
    }
}

/// The token that a caller presents, if any, as a mathematical value.
pub open spec fn presented(verified: Option<DappVerified>) -> Option<Seq<char>> {
    match verified {
        Some(v) => Some(v.token@),
        None => None,
    }
}

impl AccessModel {
    /// `now` lies in the window, both ends included; an absent end is open.
    pub open spec fn time_ok(self, now: i64) -> bool {
        &&& (self.earliest matches Some(t0) ==> t0 <= now)
        &&& (self.latest matches Some(t1) ==> now <= t1)
    }

    /// No token is required, or the one presented is the one required.
    pub open spec fn token_ok(self, presented: Option<Seq<char>>) -> bool {
        self.token matches Some(required) ==> presented == Some(required)
    }

    /// The policy lets the caller through.
    pub open spec fn allows(self, now: i64, presented: Option<Seq<char>>) -> bool {
        self.time_ok(now) && self.token_ok(presented)
    }

    /// What the public may learn of the policy.
    pub open spec fn public(self) -> AccessViewModel {
        AccessViewModel { earliest: self.earliest, latest: self.latest, token: self.token is Some }
    }
}

/// The access predicate: without a stored policy everyone is let through,
/// with one the policy decides.
pub open spec fn access_allowed(policy: Option<AccessModel>, now: i64, presented: Option<Seq<char>>) -> bool {
    match policy {
        Some(p) => p.allows(now, presented),
        None => true,
    }
}

impl View for DappAccess {
    type V = AccessModel;

    open spec fn view(&self) -> AccessModel {
        AccessModel {
            earliest: time_model(self.earliest),
            latest: time_model(self.latest),
            token: match self.token {
                Some(t) => Some(t@),
                None => None,
            },
        }
    }
}

impl View for DappAccessView {
    type V = AccessViewModel;

    open spec fn view(&self) -> AccessViewModel {
        AccessViewModel {
            earliest: time_model(self.earliest),
            latest: time_model(self.latest),
            token: self.token,
        }
    }
}

impl DappAccess {
    /// Whether the policy lets through a caller who comes at `now` and
    /// presents `verified`.
    pub fn access_by_timestamp_and_token(&self, now: TimestampMills, verified: Option<&DappVerified>) -> (allowed: bool)
        ensures
            allowed == self@.allows(now.0, presented_token(verified)),
    {
        let after_start = match self.earliest {
            Some(t0) => t0.0 <= now.0,
            None => true,
        };
        let before_end = match self.latest {
            Some(t1) => now.0 <= t1.0,
            None => true,
        };
        let token_ok = match &self.token {
            Some(required) => match verified {
                Some(v) => text_eq(&v.token, required),
                None => false,
            },
            None => true,
        };
        after_start && before_end && token_ok
    }

    /// What the public may learn of the policy.
    pub fn to_view(&self) -> (view: DappAccessView)
        ensures
            view@ == self@.public(),
    {
        DappAccessView { earliest: self.earliest, latest: self.latest, token: self.token.is_some() }
    }
}

/// Without a stored policy every caller is let through, at any time and
/// with any token or none.
pub proof fn lemma_no_policy_allows(now: i64, presented: Option<Seq<char>>)
    ensures
        access_allowed(None, now, presented),
{
}

/// A policy with a window and no required token lets through exactly the
/// callers who come inside the window, its two ends included.
pub proof fn lemma_window_decides(t0: i64, t1: i64, now: i64, presented: Option<Seq<char>>)
    ensures
        ({
            let policy = AccessModel { earliest: Some(t0), latest: Some(t1), token: None };
            &&& access_allowed(Some(policy), now, presented) <==> t0 <= now <= t1
            &&& now < t0 ==> !access_allowed(Some(policy), now, presented)
            &&& now > t1 ==> !access_allowed(Some(policy), now, presented)
        }),
{
}

/// A policy with a required token and no window lets through exactly the
/// callers who present that token; a wrong token or none is turned away,
/// whatever the window.
pub proof fn lemma_token_decides(policy: AccessModel, required: Seq<char>, now: i64, presented: Option<Seq<char>>)
    requires
        policy.token == Some(required),
    ensures
        presented != Some(required) ==> !access_allowed(Some(policy), now, presented),
        policy.earliest is None && policy.latest is None ==> (access_allowed(Some(policy), now, presented) <==> presented
            == Some(required)),
        presented == Some(required) ==> (access_allowed(Some(policy), now, presented) <==> policy.time_ok(now)),
{
}

} // verus!
