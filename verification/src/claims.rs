//! The claims of a token: three optional timestamps and the caller's own payload.

use crate::error::ValidationError;
use vstd::prelude::*;

verus! {

/// How claims are checked against the time: where the time comes from, and how far clocks
/// may differ.
///
/// Times are seconds since the Unix epoch. The clock is any function of the caller's; it is
/// asked once for each check that needs the time.
#[derive(Debug, Clone, Copy)]
pub struct TimeOptions<F> {
    /// The tolerance, in seconds, by which each check is relaxed.
    pub leeway: i64,
    /// The source of the current time.
    pub clock_fn: F,
}

/// A payload without fields.
#[derive(Debug, Clone, Copy, PartialEq, Eq, Structural)]
pub struct Empty {}

/// The claims of a token.
///
/// Each timestamp may be absent, and an absent one constrains nothing.
#[derive(Debug, Clone, PartialEq)]
pub struct Claims<T> {
    /// When the token expires (`exp`).
    pub expiration_date: Option<i64>,
    /// From when the token is valid (`nbf`).
    pub not_before: Option<i64>,
    /// When the token was issued (`iat`).
    pub issued_at: Option<i64>,
    /// The caller's claims, on the same level as the three above.
    pub custom: T,
}

impl<F: Fn() -> i64> TimeOptions<F> {
    /// Options with a tolerance of `leeway` seconds and the clock `clock_fn`.
    pub fn new(leeway: i64, clock_fn: F) -> (r: Self)
        ensures
            r.leeway == leeway,
            r.clock_fn == clock_fn,
    {
        TimeOptions { leeway, clock_fn }
    }

    /// Options without tolerance and with the clock `clock_fn`.
    pub fn from_clock(clock_fn: F) -> (r: Self)
        ensures
            r.leeway == 0,
            r.clock_fn == clock_fn,
    {
        TimeOptions { leeway: 0, clock_fn }
    }
}

impl Claims<Empty> {
    /// Claims that state nothing.
    pub fn empty() -> (r: Self)
        ensures
            r == Claims::<Empty>::spec_new(Empty {  }),
    {
        Claims::new(Empty {  })
    }
}

impl<T> Claims<T> {
    /// The claims that hold `custom` and no timestamp.
    pub open spec fn spec_new(custom: T) -> Self {
        Claims { expiration_date: None, not_before: None, issued_at: None, custom }
    }

    /// The claims have an expiration date, and the time `now` less `leeway` has reached it.
    pub open spec fn is_expired(&self, now: i64, leeway: i64) -> bool {
        self.expiration_date matches Some(expiration) && now - leeway >= expiration
    }

    /// The claims have a not-before time, and the time `now` plus `leeway` is still before
    /// it.
    pub open spec fn is_immature(&self, now: i64, leeway: i64) -> bool {
        self.not_before matches Some(start) && now + leeway < start
    }

    /// Claims that hold `custom` and no timestamp.
    pub fn new(custom: T) -> (r: Self)
        ensures
            r == Self::spec_new(custom),
    {
        Claims { expiration_date: None, not_before: None, issued_at: None, custom }
    }

    /// Lets the claims expire `duration` seconds after `now`.
    pub fn set_duration(self, now: i64, duration: i64) -> (r: Self)
        requires
            i64::MIN <= now + duration <= i64::MAX,
        ensures
            r == (Claims { expiration_date: Some((now + duration) as i64), ..self }),
    {
        Claims { expiration_date: Some(now + duration), ..self }
    }

    /// Marks the claims as issued at `now`, and lets them expire `duration` seconds later.
    pub fn set_duration_and_issuance(self, now: i64, duration: i64) -> (r: Self)
        requires
            i64::MIN <= now + duration <= i64::MAX,
        ensures
            r == (Claims {
                expiration_date: Some((now + duration) as i64),
                issued_at: Some(now),
                ..self
            }),
    {
        Claims { expiration_date: Some(now + duration), issued_at: Some(now), ..self }
    }

    /// Makes the claims valid from `moment` on.
    pub fn set_not_before(self, moment: i64) -> (r: Self)
        ensures
            r == (Claims { not_before: Some(moment), ..self }),
    {
        Claims { not_before: Some(moment), ..self }
    }

    /// Says whether the claims have expired at the time `now`, with a tolerance of `leeway`
    /// seconds. Claims without an expiration date never expire.
    pub fn has_expired(&self, now: i64, leeway: i64) -> (r: bool)
        ensures
            r == self.is_expired(now, leeway),
    {
        match self.expiration_date {
            Some(expiration) => {
                let edge: i128 = now as i128 - leeway as i128;
                edge >= expiration as i128
            },
            None => false,
        }
    }

    /// Says whether the claims are not valid yet at the time `now`, with a tolerance of
    /// `leeway` seconds. Claims without a not-before time are valid from the start.
    pub fn is_not_mature(&self, now: i64, leeway: i64) -> (r: bool)
        ensures
            r == self.is_immature(now, leeway),
    {
        match self.not_before {
            Some(start) => {
                let edge: i128 = now as i128 + leeway as i128;
                edge < start as i128
            },
            None => false,
        }
    }

    /// Checks that the claims have not expired.
    ///
    /// Claims without an expiration date pass, and the clock is not asked. For the others
    /// the clock is asked once, and the claims pass unless the time that it tells, less the
    /// leeway, has reached the expiration date.
    pub fn validate_expiration<F: Fn() -> i64>(&self, options: &TimeOptions<F>) -> (r: Result<
        &Self,
        ValidationError,
    >)
        requires
            self.expiration_date is Some ==> call_requires(options.clock_fn, ()),
        ensures
            match r {
                Ok(claims) => claims == self && (self.expiration_date is None || exists|now: i64|
                    #[trigger] call_ensures(options.clock_fn, (), now) && !self.is_expired(
                        now,
                        options.leeway,
                    )),
                Err(e) => e is Expired && exists|now: i64|
                    #[trigger] call_ensures(options.clock_fn, (), now) && self.is_expired(
                        now,
                        options.leeway,
                    ),
            },
    {
        if self.expiration_date.is_none() {
            return Ok(self);
        }
        let now = (options.clock_fn)();
        if self.has_expired(now, options.leeway) {
            Err(ValidationError::Expired)
        } else {
            Ok(self)
        }
    }

    /// Checks that the claims are valid already.
    ///
    /// Claims without a not-before time pass, and the clock is not asked. For the others
    /// the clock is asked once, and the claims pass unless the time that it tells, plus the
    /// leeway, is still before the not-before time.
    pub fn validate_maturity<F: Fn() -> i64>(&self, options: &TimeOptions<F>) -> (r: Result<
        &Self,
        ValidationError,
    >)
        requires
            self.not_before is Some ==> call_requires(options.clock_fn, ()),
        ensures
            match r {
                Ok(claims) => claims == self && (self.not_before is None || exists|now: i64|
                    #[trigger] call_ensures(options.clock_fn, (), now) && !self.is_immature(
                        now,
                        options.leeway,
                    )),
                Err(e) => e is NotMature && exists|now: i64|
                    #[trigger] call_ensures(options.clock_fn, (), now) && self.is_immature(
                        now,
                        options.leeway,
                    ),
            },
    {
        if self.not_before.is_none() {
            return Ok(self);
        }
        let now = (options.clock_fn)();
        if self.is_not_mature(now, options.leeway) {
            Err(ValidationError::NotMature)
        } else {
            Ok(self)
        }
    }
}

} // verus!
