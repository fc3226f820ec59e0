//! Subscription plans and trial periods.
//!
//! Build time is counted in milliseconds; timestamps are microseconds
//! since the Unix epoch.

use vstd::prelude::*;
use crate::clock::{now_micros, MICROS_PER_DAY};
use crate::ids::{is_random_id, new_id};
use crate::text::{ascii_lower, chars_of, join2, lowered};

verus! {

/// Length of the trial, in days.
pub const TRIAL_DAYS: u32 = 7;

/// Minutes of build time that the Pro plan includes each month.
pub const PRO_INCLUDED_MINUTES: u32 = 300;

/// Milliseconds in one minute.
pub const MILLIS_PER_MINUTE: u64 = 60_000;

/// Subscription plan tiers.
#[derive(Debug, Clone, Copy, PartialEq, Eq, Structural)]
pub enum SubscriptionPlan {
    Pro,
    Team,
}

impl Default for SubscriptionPlan {
    fn default() -> (r: SubscriptionPlan)
        ensures
            r == SubscriptionPlan::Pro,
    {
        SubscriptionPlan::Pro
    }
}

impl SubscriptionPlan {
    /// Minutes included each month: 300 for Pro, unlimited (`None`) for Team.
    #[must_use]
    pub fn included_minutes(&self) -> (r: Option<u32>)
        ensures
            r == match *self {
                SubscriptionPlan::Pro => Some(300u32),
                SubscriptionPlan::Team => None,
            },
    {
        match self {
            SubscriptionPlan::Pro => Some(PRO_INCLUDED_MINUTES),
            SubscriptionPlan::Team => None,
        }
    }

    /// Monthly price in cents: 2000 for Pro, 20000 for Team.
    #[must_use]
    pub fn price_cents(&self) -> (r: u32)
        ensures
            r == match *self {
                SubscriptionPlan::Pro => 2000u32,
                SubscriptionPlan::Team => 20000u32,
            },
    {
        match self {
            SubscriptionPlan::Pro => 2000,
            SubscriptionPlan::Team => 20000,
        }
    }

    /// Whether overages are billed by the minute: only on Pro.
    #[must_use]
    pub fn has_metered_billing(&self) -> (r: bool)
        ensures
            r == (*self == SubscriptionPlan::Pro),
    {
        match self {
            SubscriptionPlan::Pro => true,
            SubscriptionPlan::Team => false,
        }
    }

    /// Trial duration in days: seven, on every plan.
    #[must_use]
    pub fn trial_days(&self) -> (r: u32)
        ensures
            r == 7,
    {
        TRIAL_DAYS
    }

    /// The lower-case name of the plan.
    pub open spec fn spec_name(self) -> Seq<char> {
        match self {
            SubscriptionPlan::Pro => "pro"@,
            SubscriptionPlan::Team => "team"@,
        }
    }

    /// The lower-case name of the plan.
    pub fn name(&self) -> (r: &'static str)
        ensures
            r@ == self.spec_name(),
    {
        match self {
            SubscriptionPlan::Pro => "pro",
            SubscriptionPlan::Team => "team",
        }
    }

    /// What a text names: a plan, whatever the case of its ASCII letters.
    pub open spec fn named_by(text: Seq<char>) -> Option<SubscriptionPlan> {
        if lowered(text) == "pro"@ {
            Some(SubscriptionPlan::Pro)
        } else if lowered(text) == "team"@ {
            Some(SubscriptionPlan::Team)
        } else {
            None
        }
    }

    /// Reads a plan from its name, in any letter case. Any other text is
    /// refused with the message `Unknown plan: ` and the text.
    pub fn parse(text: &str) -> (r: Result<SubscriptionPlan, String>)
        ensures
            match r {
                Ok(plan) => Self::named_by(text@) == Some(plan),
                Err(msg) => Self::named_by(text@) is None && msg@ == "Unknown plan: "@ + text@,
            },
    {
        let low = ascii_lower(text);
        let cs = chars_of(low.as_str());
        proof {
            reveal_strlit("pro");
            reveal_strlit("team");
        }
        if cs.len() == 3 && cs[0] == 'p' && cs[1] == 'r' && cs[2] == 'o' {
            assert(cs@ =~= "pro"@);
            Ok(SubscriptionPlan::Pro)
        } else if cs.len() == 4 && cs[0] == 't' && cs[1] == 'e' && cs[2] == 'a' && cs[3] == 'm' {
            assert(cs@ =~= "team"@);
            Ok(SubscriptionPlan::Team)
        } else {
            Err(join2("Unknown plan: ", text))
        }
    }
}

/// Subscription status.
#[derive(Debug, Clone, Copy, PartialEq, Eq, Structural)]
pub enum SubscriptionStatus {
    Active,
    PastDue,
    Canceled,
    Trialing,
}

impl Default for SubscriptionStatus {
    fn default() -> (r: SubscriptionStatus)
        ensures
            r == SubscriptionStatus::Active,
    {
        SubscriptionStatus::Active
    }
}

impl SubscriptionStatus {
    /// The snake_case name of the status.
    pub open spec fn spec_name(self) -> Seq<char> {
        match self {
            SubscriptionStatus::Active => "active"@,
            SubscriptionStatus::PastDue => "past_due"@,
            SubscriptionStatus::Canceled => "canceled"@,
            SubscriptionStatus::Trialing => "trialing"@,
        }
    }

    /// The snake_case name of the status.
    pub fn name(&self) -> (r: &'static str)
        ensures
            r@ == self.spec_name(),
    {
        match self {
            SubscriptionStatus::Active => "active",
            SubscriptionStatus::PastDue => "past_due",
            SubscriptionStatus::Canceled => "canceled",
            SubscriptionStatus::Trialing => "trialing",
        }
    }
}

/// A user's subscription.
#[derive(Debug, Clone)]
pub struct Subscription {
    pub id: u128,
    pub user_id: u128,
    pub plan: SubscriptionPlan,
    pub status: SubscriptionStatus,
    pub stripe_customer_id: Option<String>,
    pub stripe_subscription_id: Option<String>,
    pub current_period_start: Option<i64>,
    pub current_period_end: Option<i64>,
    /// When the trial ends, for a subscription on trial.
    pub trial_ends_at: Option<i64>,
    /// Minutes included in the plan.
    pub minutes_included: Option<u32>,
    /// Build time used in the current period, in milliseconds.
    pub used_millis: u64,
    pub created_at: i64,
    pub updated_at: i64,
}

/// The instant seven days after `now`, or the last representable instant
/// where that lies beyond it.
pub open spec fn trial_end(now: i64) -> i64 {
    if now + 7 * MICROS_PER_DAY <= i64::MAX {
        (now + 7 * MICROS_PER_DAY) as i64
    } else {
        i64::MAX
    }
}

impl Subscription {
    /// A seven-day Pro trial for a user, starting at `now`.
    pub fn new_trial_at(id: u128, user_id: u128, now: i64) -> (s: Subscription)
        ensures
            s.id == id,
            s.user_id == user_id,
            s.plan == SubscriptionPlan::Pro,
            s.status == SubscriptionStatus::Trialing,
            s.stripe_customer_id is None,
            s.stripe_subscription_id is None,
            s.current_period_start == Some(now),
            s.current_period_end is None,
            s.trial_ends_at == Some(trial_end(now)),
            s.minutes_included == Some(300u32),
            s.used_millis == 0,
            s.created_at == now,
            s.updated_at == now,
    {
        let end = if now <= i64::MAX - 7 * MICROS_PER_DAY {
            now + 7 * MICROS_PER_DAY
        } else {
            i64::MAX
        };
        Subscription {
            id,
            user_id,
            plan: SubscriptionPlan::Pro,
            status: SubscriptionStatus::Trialing,
            stripe_customer_id: None,
            stripe_subscription_id: None,
            current_period_start: Some(now),
            current_period_end: None,
            trial_ends_at: Some(end),
            minutes_included: Some(PRO_INCLUDED_MINUTES),
            used_millis: 0,
            created_at: now,
            updated_at: now,
        }
    }

    /// A seven-day Pro trial for a user, starting now, under a freshly
    /// minted identifier.
    #[must_use]
    pub fn new_trial(user_id: u128) -> (s: Subscription)
        ensures
            s.user_id == user_id,
            s.plan == SubscriptionPlan::Pro,
            s.status == SubscriptionStatus::Trialing,
            s.stripe_customer_id is None,
            s.stripe_subscription_id is None,
            s.current_period_start == Some(s.created_at),
            s.current_period_end is None,
            s.trial_ends_at == Some(trial_end(s.created_at)),
            s.minutes_included == Some(300u32),
            s.used_millis == 0,
            s.updated_at == s.created_at,
            is_random_id(s.id),
            0 <= s.created_at,
    {
        let id = new_id();
        let now = now_micros();
        Subscription::new_trial_at(id, user_id, now)
    }

    /// Whether the subscription is on a trial that has not ended at `now`.
    pub open spec fn trial_active_at(&self, now: i64) -> bool {
        self.status == SubscriptionStatus::Trialing && self.trial_ends_at is Some && now
            < self.trial_ends_at->0
    }

    /// Whether the subscription is on a trial that has ended at `now`.
    pub open spec fn trial_expired_at(&self, now: i64) -> bool {
        self.status == SubscriptionStatus::Trialing && self.trial_ends_at is Some && now
            >= self.trial_ends_at->0
    }

    /// Whether the subscription is on a trial that has not ended at `now`.
    pub fn is_trial_active_at(&self, now: i64) -> (r: bool)
        ensures
            r == self.trial_active_at(now),
    {
        match self.status {
            SubscriptionStatus::Trialing => match self.trial_ends_at {
                Some(end) => now < end,
                None => false,
            },
            _ => false,
        }
    }

    /// Whether the subscription is on a trial that has ended at `now`.
    pub fn is_trial_expired_at(&self, now: i64) -> (r: bool)
        ensures
            r == self.trial_expired_at(now),
    {
        match self.status {
            SubscriptionStatus::Trialing => match self.trial_ends_at {
                Some(end) => now >= end,
                None => false,
            },
            _ => false,
        }
    }

    /// Whether the trial is running, by the clock. A subscription that is
    /// not on trial, or has no trial end, is never in an active trial.
    #[must_use]
    pub fn is_trial_active(&self) -> (r: bool)
        ensures
            r ==> self.status == SubscriptionStatus::Trialing && self.trial_ends_at is Some,
            exists|now: i64| r == self.trial_active_at(now),
    {
        let now = now_micros();
        self.is_trial_active_at(now)
    }

    /// Whether the trial has run out, by the clock. A subscription that is
    /// not on trial, or has no trial end, never has an expired trial.
    #[must_use]
    pub fn is_trial_expired(&self) -> (r: bool)
        ensures
            r ==> self.status == SubscriptionStatus::Trialing && self.trial_ends_at is Some,
            exists|now: i64| r == self.trial_expired_at(now),
    {
        let now = now_micros();
        self.is_trial_expired_at(now)
    }

    /// Whether the user may run a job at `now`: always, unless the trial
    /// has run out.
    pub fn can_run_job_at(&self, now: i64) -> (r: bool)
        ensures
            r == !self.trial_expired_at(now),
    {
        !self.is_trial_expired_at(now)
    }

    /// Whether the user may run a job, by the clock. A subscription that is
    /// not on trial may always run jobs.
    #[must_use]
    pub fn can_run_job(&self) -> (r: bool)
        ensures
            !(self.status == SubscriptionStatus::Trialing && self.trial_ends_at is Some) ==> r,
            exists|now: i64| r == !self.trial_expired_at(now),
    {
        let now = now_micros();
        self.can_run_job_at(now)
    }

    /// The build time left in the period, in milliseconds.
    pub open spec fn spec_remaining(&self) -> Option<u64> {
        match self.plan {
            SubscriptionPlan::Team => None,
            SubscriptionPlan::Pro => {
                let included = match self.minutes_included {
                    Some(m) => m as int,
                    None => 300,
                } * 60_000;
                if included > self.used_millis {
                    Some((included - self.used_millis) as u64)
                } else {
                    Some(0u64)
                }
            },
        }
    }

    /// The build time left in the period, in milliseconds: nothing
    /// (`None`) on the unlimited Team plan; on Pro the included minutes (300
    /// where the record names none) less what was used, and never less
    /// than zero.
    #[must_use]
    pub fn remaining_minutes(&self) -> (r: Option<u64>)
        ensures
            r == self.spec_remaining(),
    {
        match self.plan {
            SubscriptionPlan::Team => None,
            SubscriptionPlan::Pro => {
                let minutes: u64 = match self.minutes_included {
                    Some(m) => m as u64,
                    None => PRO_INCLUDED_MINUTES as u64,
                };
                let included: u64 = minutes * MILLIS_PER_MINUTE;
                if included > self.used_millis {
                    Some(included - self.used_millis)
                } else {
                    Some(0)
                }
            },
        }
    }

    /// Whole days of trial left at `now`.
    pub open spec fn spec_days_remaining(&self, now: i64) -> Option<i64> {
        if self.status != SubscriptionStatus::Trialing {
            None
        } else {
            match self.trial_ends_at {
                Some(end) => if end <= now {
                    Some(0i64)
                } else {
                    Some(((end - now) / (MICROS_PER_DAY as int)) as i64)
                },
                None => None,
            }
        }
    }

    /// Whole days of trial left at `now`: `None` off trial or without a
    /// trial end, otherwise the days from `now` to the end, rounded down
    /// and never less than zero.
    pub fn trial_days_remaining_at(&self, now: i64) -> (r: Option<i64>)
        ensures
            r == self.spec_days_remaining(now),
    {
        match self.status {
            SubscriptionStatus::Trialing => match self.trial_ends_at {
                Some(end) => {
                    if end <= now {
                        Some(0)
                    } else {
                        let span: i128 = end as i128 - now as i128;
                        let days: i128 = span / (MICROS_PER_DAY as i128);
                        Some(days as i64)
                    }
                },
                None => None,
            },
            _ => None,
        }
    }

    /// Whole days of trial left, by the clock.
    #[must_use]
    pub fn trial_days_remaining(&self) -> (r: Option<i64>)
        ensures
            r is Some <==> self.status == SubscriptionStatus::Trialing && self.trial_ends_at
                is Some,
            exists|now: i64| r == self.spec_days_remaining(now),
    {
        let now = now_micros();
        self.trial_days_remaining_at(now)
    }
}

/// The build time that one job used, in milliseconds.
#[derive(Debug, Clone, Copy)]
pub struct UsageRecord {
    pub id: u128,
    pub subscription_id: u128,
    pub job_id: u128,
    pub used_millis: u64,
    pub recorded_at: i64,
}

/// The billing status of a user. Times are in milliseconds.
#[derive(Debug, Clone)]
pub struct BillingStatusResponse {
    pub subscription: Subscription,
    pub usage_this_period: u64,
    pub quota_remaining: Option<u64>,
    pub can_run_jobs: bool,
    pub upgrade_required: bool,
}

/// A request for a checkout session that upgrades the plan.
#[derive(Debug, Clone)]
pub struct CreateCheckoutRequest {
    pub plan: SubscriptionPlan,
    pub success_url: String,
    pub cancel_url: String,
}

/// A checkout session.
#[derive(Debug, Clone)]
pub struct CheckoutSessionResponse {
    pub checkout_url: String,
    pub session_id: String,
}

/// A customer portal session.
#[derive(Debug, Clone)]
pub struct PortalSessionResponse {
    pub portal_url: String,
}

} // verus!
