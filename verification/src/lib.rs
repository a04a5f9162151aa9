//! Dark-theme detection with a resilient fallback chain.
//!
//! A platform-native theme source (the primary) is authoritative when it can
//! answer; when it cannot, an optional time-of-day fallback answers instead,
//! and when neither is available a configured default closes the chain.
//! Writes, in contrast, go to the primary alone: silently "succeeding"
//! against a local time model would desynchronize the reported theme from
//! the true system theme.

use vstd::prelude::*;

mod time;

pub mod linux;
pub mod macos;
pub mod windows;

pub use crate::time::Mode;
pub use crate::time::SmartTime;

verus! {

/// The single error kind shared by every theme source, so that the fallback
/// chain can catch and fall through uniformly.
#[derive(Clone, Copy, Debug, PartialEq, Eq, Structural)]
pub enum ThemeError {
    /// A process spawn or registry access failed in a platform reader.
    IoFailure,
    /// A native read produced malformed output (non-UTF8 or unparseable).
    DecodeFailure,
    /// The source has no way to answer and says so rather than guessing.
    UnsupportedOperation,
}

/// The capability implemented by every theme source: fallible read and write
/// of the binary dark/light preference.
pub trait IsItDark where Self: Sized {
    /// Error returned by theme handling.
    type Error;

    /// Detect if theme is currently set to dark; read-only, safe to repeat.
    fn is_dark(&self) -> Result<bool, Self::Error>;

    /// Detect if theme is currently set to light; by default the negation of
    /// `is_dark`, propagating its failure unchanged.
    fn is_light(&self) -> Result<bool, Self::Error> {
        match self.is_dark() {
            Ok(d) => Ok(!d),
            Err(e) => Err(e),
        }
    }

    /// Set current theme to light, reporting the achieved state.
    fn set_light(&mut self) -> Result<bool, Self::Error>;

    /// Set current theme to dark, reporting the achieved state.
    fn set_dark(&mut self) -> Result<bool, Self::Error>;
}

/// The light answer derived from a dark answer: negation on success, the
/// same failure unchanged otherwise.
pub open spec fn spec_negate(r: Result<bool, ThemeError>) -> Result<bool, ThemeError> {
    match r {
        Ok(b) => Ok(!b),
        Err(e) => Err(e),
    }
}

/// How a read resolves along the fallback chain: the primary's answer is
/// returned verbatim when it has one; on primary failure a present secondary
/// answers for the instant `now`; with no secondary the configured default
/// closes the chain, and the primary's error is swallowed.
pub open spec fn spec_resolve_dark(
    primary: Result<bool, ThemeError>,
    secondary: Option<SmartTime>,
    now: i64,
    default_dark: bool,
) -> Result<bool, ThemeError> {
    match primary {
        Ok(b) => Ok(b),
        Err(_) => match secondary {
            Some(t) => t.spec_is_dark_at(now),
            None => Ok(default_dark),
        },
    }
}

/// Composes a platform-native primary capability with an optional time-based
/// secondary. Reads consult the primary first and fall through on its
/// failure; writes go to the primary alone.
///
/// This detector is the permissive-default configuration: when the primary
/// fails and no secondary is present, reads return the configured default as
/// a guaranteed success instead of propagating the primary's error, and the
/// policy is the same for `is_dark` and `is_light`.
pub struct GenericDetectDark<P> {
    /// The platform-native primary capability, authoritative when it answers.
    pub sys: P,
    /// The optional time-based fallback, consulted only when the primary
    /// fails a read; never written to.
    pub smart_time: Option<SmartTime>,
    /// The process-wide default answer when neither source can answer.
    pub default_dark: bool,
}

impl<P> GenericDetectDark<P> {
    /// Binds a primary capability and an optional time-based fallback, with
    /// the default answer left at its build default, light.
    pub fn new(sys: P, time_fallback: Option<SmartTime>) -> (d: Self)
        ensures
            d == (GenericDetectDark { sys, smart_time: time_fallback, default_dark: false }),
    {
        GenericDetectDark { sys, smart_time: time_fallback, default_dark: false }
    }

    /// Binds a primary capability and an optional time-based fallback, with
    /// an explicitly chosen default answer for when neither can answer.
    pub fn with_default(sys: P, time_fallback: Option<SmartTime>, default_dark: bool) -> (d: Self)
        ensures
            d == (GenericDetectDark { sys, smart_time: time_fallback, default_dark }),
    {
        GenericDetectDark { sys, smart_time: time_fallback, default_dark }
    }

    /// Resolves a read along the fallback chain, given the primary's answer
    /// and the current instant.
    pub fn resolve_dark(&self, primary: Result<bool, ThemeError>, now: i64) -> (r: Result<
        bool,
        ThemeError,
    >)
        ensures
            r == spec_resolve_dark(primary, self.smart_time, now, self.default_dark),
    {
        match primary {
            Ok(b) => Ok(b),
            Err(_) => match &self.smart_time {
                Some(t) => t.is_dark_at(now),
                None => Ok(self.default_dark),
            },
        }
    }
}

impl<P: IsItDark<Error = ThemeError>> IsItDark for GenericDetectDark<P> {
    type Error = ThemeError;

    fn is_dark(&self) -> (r: Result<bool, ThemeError>)
        ensures
            exists|primary: Result<bool, ThemeError>, now: i64|
                r == spec_resolve_dark(primary, self.smart_time, now, self.default_dark),
            self.smart_time is None ==> r is Ok,
            (self.smart_time matches Some(t) && !t.spec_is_smart()) ==> r is Ok,
    {
        let primary = self.sys.is_dark();
        let now = crate::time::now_local_seconds();
        self.resolve_dark(primary, now)
    }

    fn is_light(&self) -> (r: Result<bool, ThemeError>)
        ensures
            exists|primary: Result<bool, ThemeError>, now: i64|
                r == spec_negate(spec_resolve_dark(primary, self.smart_time, now, self.default_dark)),
            self.smart_time is None ==> r is Ok,
            (self.smart_time matches Some(t) && !t.spec_is_smart()) ==> r is Ok,
    {
        let primary = self.sys.is_dark();
        let now = crate::time::now_local_seconds();
        let rd = self.resolve_dark(primary, now);
        match rd {
            Ok(d) => Ok(!d),
            Err(e) => Err(e),
        }
    }

    fn set_dark(&mut self) -> (r: Result<bool, ThemeError>)
        ensures
            final(self).smart_time == old(self).smart_time,
            final(self).default_dark == old(self).default_dark,
    {
        self.sys.set_dark()
    }

    fn set_light(&mut self) -> (r: Result<bool, ThemeError>)
        ensures
            final(self).smart_time == old(self).smart_time,
            final(self).default_dark == old(self).default_dark,
    {
        self.sys.set_light()
    }
}

/// With a present secondary, a failing primary resolves to exactly the
/// secondary's answer for the instant asked about; the configured default is
/// never consulted, whichever way it was configured.
pub proof fn lemma_failed_primary_uses_secondary(
    e: ThemeError,
    t: SmartTime,
    now: i64,
    default_dark: bool,
)
    ensures
        spec_resolve_dark(Err(e), Some(t), now, default_dark) == t.spec_is_dark_at(now),
        forall|d1: bool, d2: bool|
            spec_resolve_dark(Err(e), Some(t), now, d1) == spec_resolve_dark(
                Err(e),
                Some(t),
                now,
                d2,
            ),
{
}

/// With no secondary, a failing primary resolves to the configured default,
/// whatever the failure was and whenever it is asked: repeated reads are
/// deterministic.
pub proof fn lemma_failed_primary_uses_default(e: ThemeError, now: i64, default_dark: bool)
    ensures
        spec_resolve_dark(Err(e), None, now, default_dark) == Ok::<bool, ThemeError>(default_dark),
{
}

/// Whenever a resolved read succeeds, its derived light answer is its exact
/// negation, and the two fail in exactly the same cases.
pub proof fn lemma_resolved_light_negates_dark(
    primary: Result<bool, ThemeError>,
    secondary: Option<SmartTime>,
    now: i64,
    default_dark: bool,
)
    ensures
        spec_resolve_dark(primary, secondary, now, default_dark) matches Ok(d) ==> spec_negate(
            spec_resolve_dark(primary, secondary, now, default_dark),
        ) == Ok::<bool, ThemeError>(!d),
        spec_resolve_dark(primary, secondary, now, default_dark) is Err <==> spec_negate(
            spec_resolve_dark(primary, secondary, now, default_dark),
        ) is Err,
{
}

} // verus!
