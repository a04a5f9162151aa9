//! The time-based theme source: a dark/light decision synthesized from the
//! time of day when no native signal exists.
//!
//! Instants are naive local wall-clock times encoded as whole seconds, with
//! no time zone attached; only their order matters here. Coordinates are
//! scaled integers — longitude and latitude in microdegrees, elevation in
//! millimetres — and all-zero coordinates are the sentinel for "not
//! geo-aware". The solar-position calculation itself is an external
//! collaborator: callers that want daily sunrise/sunset boundaries run it
//! themselves and hand the two resulting instants in.

use vstd::prelude::*;

use crate::IsItDark;
use crate::ThemeError;

verus! {

/// Whether `now` falls strictly between `dark` and `light` in that order:
/// inside the night window that begins where nighttime begins and runs —
/// wrapping past midnight when the pair calls for it — to where daytime
/// begins. It is the complement of the daytime window, both boundary
/// instants belonging to neither window; when the two boundaries coincide
/// the night window is empty.
pub open spec fn spec_night_between(dark: i64, light: i64, now: i64) -> bool {
    if dark < light {
        dark < now < light
    } else if dark > light {
        now > dark || now < light
    } else {
        false
    }
}

/// Decides whether `now` falls strictly between `dark` and `light` in that
/// order, the night window wrapping past midnight when the pair calls for
/// it.
pub fn night_between(dark: i64, light: i64, now: i64) -> (r: bool)
    ensures
        r == spec_night_between(dark, light, now),
{
    if dark < light {
        dark < now && now < light
    } else if dark > light {
        now > dark || now < light
    } else {
        false
    }
}

/// The override state of the time-based source: an explicit `Dark` or
/// `Light` pin beats all time computation, `Auto` derives the answer from
/// the time boundaries.
#[derive(Clone, Copy, Debug, PartialEq, Eq, Structural)]
pub enum Mode {
    Dark,
    Light,
    Auto,
}

/// A theme source that answers from the time of day. `light` and `dark` mark
/// where daytime and nighttime begin; in `Auto` mode the current instant is
/// held against them, geo-aware sources recomputing the pair daily from a
/// solar-position calculation supplied by the caller.
#[derive(Clone, Copy, Debug, PartialEq, Eq, Structural)]
pub struct SmartTime {
    /// The instant at which daytime begins (sunrise), in seconds.
    pub light: i64,
    /// The instant at which nighttime begins (sunset), in seconds.
    pub dark: i64,
    /// Longitude in microdegrees.
    pub longitude: i64,
    /// Latitude in microdegrees.
    pub latitude: i64,
    /// Elevation in millimetres.
    pub elevation: i64,
    /// The override state; construction always starts in `Auto`.
    pub mode: Mode,
}

impl SmartTime {
    /// Whether this source is geo-aware: any non-zero coordinate counts.
    /// A true zero/zero/zero location is indistinguishable from "unset" and
    /// is treated as unset — a known coarse-grained encoding.
    pub open spec fn spec_is_smart(self) -> bool {
        self.longitude != 0 || self.latitude != 0 || self.elevation != 0
    }

    /// The dark decision at the instant `now`, given the freshly recomputed
    /// boundary pair for today. An override answers by itself; otherwise a
    /// `now` strictly inside the stored daytime window is daytime, and
    /// failing that, the night window — from `dark` to `light` in that
    /// order, the complement of the daytime window — is held against the
    /// fresh pair for a geo-aware source and against the stored pair
    /// otherwise.
    pub open spec fn spec_is_dark_given(self, now: i64, fresh_light: i64, fresh_dark: i64) -> bool {
        if self.mode !is Auto {
            self.mode is Dark
        } else if self.light < now < self.dark {
            false
        } else if self.spec_is_smart() {
            spec_night_between(fresh_dark, fresh_light, now)
        } else {
            spec_night_between(self.dark, self.light, now)
        }
    }

    /// The dark decision at the instant `now` when no solar-position result
    /// is on hand: a geo-aware source that cannot certify daytime from its
    /// stored window must recompute before asserting dark, so it reports
    /// `UnsupportedOperation` rather than answer from possibly stale
    /// boundaries.
    pub open spec fn spec_is_dark_at(self, now: i64) -> Result<bool, ThemeError> {
        if self.mode !is Auto {
            Ok(self.mode is Dark)
        } else if self.light < now < self.dark {
            Ok(false)
        } else if self.spec_is_smart() {
            Err(ThemeError::UnsupportedOperation)
        } else {
            Ok(spec_night_between(self.dark, self.light, now))
        }
    }

    /// The light decision at the instant `now`: the exact negation of the
    /// dark decision, failing in the same cases.
    pub open spec fn spec_is_light_at(self, now: i64) -> Result<bool, ThemeError> {
        crate::spec_negate(self.spec_is_dark_at(now))
    }

    /// A geo-aware source. The caller runs the external solar-position
    /// calculation for today at these coordinates and hands in the sunrise
    /// and sunset instants it produced.
    pub fn new(longitude: i64, latitude: i64, elevation: i64, light: i64, dark: i64) -> (st: Self)
        ensures
            st == (SmartTime { light, dark, longitude, latitude, elevation, mode: Mode::Auto }),
    {
        SmartTime { light, dark, longitude, latitude, elevation, mode: Mode::Auto }
    }

    /// A source with fixed boundary instants and no solar recomputation:
    /// coordinates are zeroed, so it is never geo-aware.
    pub fn set_time(light: i64, dark: i64) -> (st: Self)
        ensures
            st == (SmartTime {
                light,
                dark,
                longitude: 0,
                latitude: 0,
                elevation: 0,
                mode: Mode::Auto,
            }),
    {
        SmartTime { light, dark, longitude: 0, latitude: 0, elevation: 0, mode: Mode::Auto }
    }

    /// Whether this source is geo-aware.
    pub fn is_smart(&self) -> (r: bool)
        ensures
            r == self.spec_is_smart(),
    {
        self.longitude != 0 || self.latitude != 0 || self.elevation != 0
    }

    /// Replaces the boundary instants wholesale with a freshly computed
    /// pair, keeping the coordinates; the result starts over in `Auto`.
    pub fn recalc(&self, light: i64, dark: i64) -> (st: Self)
        ensures
            st == (SmartTime {
                light,
                dark,
                longitude: self.longitude,
                latitude: self.latitude,
                elevation: self.elevation,
                mode: Mode::Auto,
            }),
    {
        SmartTime {
            light,
            dark,
            longitude: self.longitude,
            latitude: self.latitude,
            elevation: self.elevation,
            mode: Mode::Auto,
        }
    }

    /// The dark decision at the instant `now` without a solar-position
    /// result on hand; `Err(UnsupportedOperation)` exactly when a geo-aware
    /// recomputation would be needed first.
    pub fn is_dark_at(&self, now: i64) -> (r: Result<bool, ThemeError>)
        ensures
            r == self.spec_is_dark_at(now),
    {
        match self.mode {
            Mode::Dark => Ok(true),
            Mode::Light => Ok(false),
            Mode::Auto => {
                if self.light < now && now < self.dark {
                    Ok(false)
                } else if self.is_smart() {
                    Err(ThemeError::UnsupportedOperation)
                } else {
                    Ok(night_between(self.dark, self.light, now))
                }
            },
        }
    }

    /// The light decision at the instant `now`: the negation of
    /// `is_dark_at`, failing in the same cases.
    pub fn is_light_at(&self, now: i64) -> (r: Result<bool, ThemeError>)
        ensures
            r == self.spec_is_light_at(now),
    {
        match self.is_dark_at(now) {
            Ok(d) => Ok(!d),
            Err(e) => Err(e),
        }
    }

    /// The dark decision at the instant `now`, completed with the sunrise
    /// and sunset instants that the external solar-position calculation
    /// produced for today. A source that is not geo-aware ignores the fresh
    /// pair and reuses its stored instants unchanged.
    pub fn is_dark_given(&self, now: i64, fresh_light: i64, fresh_dark: i64) -> (r: bool)
        ensures
            r == self.spec_is_dark_given(now, fresh_light, fresh_dark),
    {
        match self.mode {
            Mode::Dark => true,
            Mode::Light => false,
            Mode::Auto => {
                if self.light < now && now < self.dark {
                    false
                } else {
                    let t = if self.is_smart() {
                        self.recalc(fresh_light, fresh_dark)
                    } else {
                        *self
                    };
                    night_between(t.dark, t.light, now)
                }
            },
        }
    }
}

impl IsItDark for SmartTime {
    type Error = ThemeError;

    fn is_dark(&self) -> (r: Result<bool, ThemeError>)
        ensures
            exists|now: i64| r == self.spec_is_dark_at(now),
            self.mode is Dark ==> r == Ok::<bool, ThemeError>(true),
            self.mode is Light ==> r == Ok::<bool, ThemeError>(false),
            !self.spec_is_smart() ==> r is Ok,
    {
        let now = now_local_seconds();
        self.is_dark_at(now)
    }

    fn is_light(&self) -> (r: Result<bool, ThemeError>)
        ensures
            exists|now: i64| r == self.spec_is_light_at(now),
            self.mode is Dark ==> r == Ok::<bool, ThemeError>(false),
            self.mode is Light ==> r == Ok::<bool, ThemeError>(true),
            !self.spec_is_smart() ==> r is Ok,
    {
        let now = now_local_seconds();
        self.is_light_at(now)
    }

    fn set_light(&mut self) -> (r: Result<bool, ThemeError>)
        ensures
            r == Ok::<bool, ThemeError>(true),
            *final(self) == (SmartTime { mode: Mode::Light, ..*old(self) }),
    {
        self.mode = Mode::Light;
        Ok(true)
    }

    fn set_dark(&mut self) -> (r: Result<bool, ThemeError>)
        ensures
            r == Ok::<bool, ThemeError>(true),
            *final(self) == (SmartTime { mode: Mode::Dark, ..*old(self) }),
    {
        self.mode = Mode::Dark;
        Ok(true)
    }
}

impl Default for SmartTime {
    /// The degenerate default: both boundaries at 08:00:00, no coordinates,
    /// `Auto` — it reports light at every instant unless forced.
    fn default() -> (st: Self)
        ensures
            st == (SmartTime {
                light: 28800,
                dark: 28800,
                longitude: 0,
                latitude: 0,
                elevation: 0,
                mode: Mode::Auto,
            }),
    {
        SmartTime {
            light: 28800,
            dark: 28800,
            longitude: 0,
            latitude: 0,
            elevation: 0,
            mode: Mode::Auto,
        }
    }
}

/// Relies on chrono's `Local::now` for the current wall-clock time; the
/// naive local datetime is encoded as whole seconds by `and_utc().timestamp`,
/// which preserves its order. The result depends on the clock and on the
/// machine's time zone, so nothing is promised of it.
#[verifier::external_body]
pub(crate) fn now_local_seconds() -> i64 {
    chrono::Local::now().naive_local().and_utc().timestamp()
}

/// An explicit override beats all time computation: whenever the mode is not
/// `Auto`, the source answers dark exactly when the mode is `Dark`,
/// regardless of the current instant, of the stored boundaries and of any
/// freshly computed pair.
pub proof fn lemma_override_dominates(st: SmartTime, now: i64, fresh_light: i64, fresh_dark: i64)
    requires
        st.mode !is Auto,
    ensures
        st.spec_is_dark_at(now) == Ok::<bool, ThemeError>(st.mode is Dark),
        st.spec_is_dark_given(now, fresh_light, fresh_dark) == (st.mode is Dark),
{
}

/// Pinning dark wins from any prior state: the state that `set_dark` leaves
/// behind answers dark at every instant, and pinning light likewise answers
/// light.
pub proof fn lemma_pinned_mode_dominates(prior: SmartTime, now: i64)
    ensures
        (SmartTime { mode: Mode::Dark, ..prior }).spec_is_dark_at(now) == Ok::<
            bool,
            ThemeError,
        >(true),
        (SmartTime { mode: Mode::Light, ..prior }).spec_is_dark_at(now) == Ok::<
            bool,
            ThemeError,
        >(false),
{
}

/// The light decision is the exact negation of the dark decision at the
/// same instant: whenever both answer they answer opposite booleans, and
/// they fail in exactly the same cases.
pub proof fn lemma_light_negates_dark(st: SmartTime, now: i64)
    ensures
        st.spec_is_dark_at(now) matches Ok(d) ==> st.spec_is_light_at(now) == Ok::<
            bool,
            ThemeError,
        >(!d),
        st.spec_is_dark_at(now) is Err <==> st.spec_is_light_at(now) is Err,
{
}

/// All-zero coordinates are the geo-unaware sentinel: such a source never
/// needs a solar-position computation — its decision always succeeds and
/// ignores any freshly computed pair, answering from its stored boundaries
/// alone.
pub proof fn lemma_zero_coordinates_geo_unaware(st: SmartTime, now: i64)
    requires
        st.longitude == 0,
        st.latitude == 0,
        st.elevation == 0,
    ensures
        !st.spec_is_smart(),
        st.spec_is_dark_at(now) is Ok,
        forall|fresh_light: i64, fresh_dark: i64|
            Ok::<bool, ThemeError>(
                #[trigger] st.spec_is_dark_given(now, fresh_light, fresh_dark),
            ) == st.spec_is_dark_at(now),
{
}

} // verus!
