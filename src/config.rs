//! Settings that every task reads: per-source enable switches and the
//! intervals the user can adjust within a fixed range.
use vstd::prelude::*;

verus! {

/// Shortest interval, in seconds, a source can be set to.
pub const MIN_INTERVAL_SECS: u8 = 2;

/// Longest interval, in seconds, a source can be set to.
pub const MAX_INTERVAL_SECS: u8 = 30;

/// The things the user can switch on and off: the temperature/humidity
/// sensor, the motion sensor, the contact sensor and publishing. All but
/// publishing also have an interval.
#[derive(Debug, Clone, Copy, PartialEq, Eq, Structural)]
pub enum DelaySelection {
    DHT,
    Motion,
    Contact,
    MQTT,
}

/// The settings as plain values.
#[derive(Debug, Clone, Copy, PartialEq, Eq, Structural)]
pub struct SharedConfig {
    sensor_enabled: bool,
    motion_enabled: bool,
    contact_enabled: bool,
    publishing_enabled: bool,
    sensor_secs: u8,
    motion_secs: u8,
    contact_secs: u8,
}

/// What a configuration holds.
pub struct ConfigView {
    pub sensor_enabled: bool,
    pub motion_enabled: bool,
    pub contact_enabled: bool,
    pub publishing_enabled: bool,
    pub sensor_secs: u8,
    pub motion_secs: u8,
    pub contact_secs: u8,
}

/// Whether the item `s` is switched on in `v`.
pub open spec fn enabled_in(v: ConfigView, s: DelaySelection) -> bool {
    match s {
        DelaySelection::DHT => v.sensor_enabled,
        DelaySelection::Motion => v.motion_enabled,
        DelaySelection::Contact => v.contact_enabled,
        DelaySelection::MQTT => v.publishing_enabled,
    }
}

/// The interval of the item `s` in `v`; publishing has none.
pub open spec fn interval_in(v: ConfigView, s: DelaySelection) -> Option<u8> {
    match s {
        DelaySelection::DHT => Some(v.sensor_secs),
        DelaySelection::Motion => Some(v.motion_secs),
        DelaySelection::Contact => Some(v.contact_secs),
        DelaySelection::MQTT => None,
    }
}

/// Whether `secs` lies in the range an interval may take.
pub open spec fn interval_in_range(secs: int) -> bool {
    MIN_INTERVAL_SECS <= secs <= MAX_INTERVAL_SECS
}

/// `v` with the switch of `s` flipped.
pub open spec fn toggled(v: ConfigView, s: DelaySelection) -> ConfigView {
    match s {
        DelaySelection::DHT => ConfigView { sensor_enabled: !v.sensor_enabled, ..v },
        DelaySelection::Motion => ConfigView { motion_enabled: !v.motion_enabled, ..v },
        DelaySelection::Contact => ConfigView { contact_enabled: !v.contact_enabled, ..v },
        DelaySelection::MQTT => ConfigView { publishing_enabled: !v.publishing_enabled, ..v },
    }
}

/// Whether an interval of `secs` for `s` is accepted: `s` has an interval
/// and `secs` is in range.
pub open spec fn interval_accepted(s: DelaySelection, secs: int) -> bool {
    s != DelaySelection::MQTT && interval_in_range(secs)
}

/// `v` after asking to set the interval of `s` to `secs`: stored when
/// accepted, otherwise nothing changes.
pub open spec fn interval_set(v: ConfigView, s: DelaySelection, secs: u8) -> ConfigView {
    if !interval_accepted(s, secs as int) {
        v
    } else {
        match s {
            DelaySelection::DHT => ConfigView { sensor_secs: secs, ..v },
            DelaySelection::Motion => ConfigView { motion_secs: secs, ..v },
            DelaySelection::Contact => ConfigView { contact_secs: secs, ..v },
            DelaySelection::MQTT => v,
        }
    }
}

/// Every interval lies in range.
pub open spec fn config_wf(v: ConfigView) -> bool {
    &&& interval_in_range(v.sensor_secs as int)
    &&& interval_in_range(v.motion_secs as int)
    &&& interval_in_range(v.contact_secs as int)
}

fn in_range(secs: u8) -> (r: bool)
    ensures
        r == interval_in_range(secs as int),
{
    MIN_INTERVAL_SECS <= secs && secs <= MAX_INTERVAL_SECS
}

impl View for SharedConfig {
    type V = ConfigView;

    closed spec fn view(&self) -> ConfigView {
        ConfigView {
            sensor_enabled: self.sensor_enabled,
            motion_enabled: self.motion_enabled,
            contact_enabled: self.contact_enabled,
            publishing_enabled: self.publishing_enabled,
            sensor_secs: self.sensor_secs,
            motion_secs: self.motion_secs,
            contact_secs: self.contact_secs,
        }
    }
}

impl SharedConfig {
    /// Every interval stays in range.
    #[verifier::type_invariant]
    spec fn intervals_in_range(&self) -> bool {
        config_wf(self@)
    }

    /// Everything switched on, every interval at its minimum.
    pub fn new() -> (r: SharedConfig)
        ensures
            config_wf(r@),
            r@.sensor_enabled && r@.motion_enabled && r@.contact_enabled && r@.publishing_enabled,
            r@.sensor_secs == MIN_INTERVAL_SECS,
            r@.motion_secs == MIN_INTERVAL_SECS,
            r@.contact_secs == MIN_INTERVAL_SECS,
    {
        SharedConfig {
            sensor_enabled: true,
            motion_enabled: true,
            contact_enabled: true,
            publishing_enabled: true,
            sensor_secs: MIN_INTERVAL_SECS,
            motion_secs: MIN_INTERVAL_SECS,
            contact_secs: MIN_INTERVAL_SECS,
        }
    }

    /// A configuration holding the values given, or `None` when an interval
    /// is out of range.
    pub fn with_settings(
        sensor_enabled: bool,
        motion_enabled: bool,
        contact_enabled: bool,
        publishing_enabled: bool,
        sensor_secs: u8,
        motion_secs: u8,
        contact_secs: u8,
    ) -> (r: Option<SharedConfig>)
        ensures
            r is Some <==> config_wf(
                ConfigView {
                    sensor_enabled,
                    motion_enabled,
                    contact_enabled,
                    publishing_enabled,
                    sensor_secs,
                    motion_secs,
                    contact_secs,
                },
            ),
            r is Some ==> r->0@ == (ConfigView {
                sensor_enabled,
                motion_enabled,
                contact_enabled,
                publishing_enabled,
                sensor_secs,
                motion_secs,
                contact_secs,
            }),
    {
        if in_range(sensor_secs) && in_range(motion_secs) && in_range(contact_secs) {
            Some(
                SharedConfig {
                    sensor_enabled,
                    motion_enabled,
                    contact_enabled,
                    publishing_enabled,
                    sensor_secs,
                    motion_secs,
                    contact_secs,
                },
            )
        } else {
            None
        }
    }

    /// Whether `s` is switched on.
    pub fn is_enabled(&self, s: DelaySelection) -> (r: bool)
        ensures
            r == enabled_in(self@, s),
    {
        match s {
            DelaySelection::DHT => self.sensor_enabled,
            DelaySelection::Motion => self.motion_enabled,
            DelaySelection::Contact => self.contact_enabled,
            DelaySelection::MQTT => self.publishing_enabled,
        }
    }

    /// Flips the switch of `s`, leaving the rest as it is.
    pub fn toggle(&mut self, s: DelaySelection)
        ensures
            final(self)@ == toggled(old(self)@, s),
    {
        proof {
            use_type_invariant(&*self);
        }
        match s {
            DelaySelection::DHT => self.sensor_enabled = !self.sensor_enabled,
            DelaySelection::Motion => self.motion_enabled = !self.motion_enabled,
            DelaySelection::Contact => self.contact_enabled = !self.contact_enabled,
            DelaySelection::MQTT => self.publishing_enabled = !self.publishing_enabled,
        }
    }

    /// The interval of `s` in seconds; `None` for publishing.
    pub fn interval(&self, s: DelaySelection) -> (r: Option<u8>)
        ensures
            r == interval_in(self@, s),
            r is Some ==> interval_in_range(r->0 as int),
    {
        proof {
            use_type_invariant(self);
        }
        match s {
            DelaySelection::DHT => Some(self.sensor_secs),
            DelaySelection::Motion => Some(self.motion_secs),
            DelaySelection::Contact => Some(self.contact_secs),
            DelaySelection::MQTT => None,
        }
    }

    /// Sets the interval of `s` to `secs` if that is accepted, and says
    /// whether it was. A rejected value is never stored.
    pub fn set_interval(&mut self, s: DelaySelection, secs: u8) -> (r: bool)
        ensures
            r == interval_accepted(s, secs as int),
            final(self)@ == interval_set(old(self)@, s, secs),
    {
        proof {
            use_type_invariant(&*self);
        }
        if secs < MIN_INTERVAL_SECS || secs > MAX_INTERVAL_SECS {
            return false;
        }
        match s {
            DelaySelection::DHT => {
                self.sensor_secs = secs;
                true
            },
            DelaySelection::Motion => {
                self.motion_secs = secs;
                true
            },
            DelaySelection::Contact => {
                self.contact_secs = secs;
                true
            },
            DelaySelection::MQTT => false,
        }
    }
}

/// An interval set within range reads back as set, and the other items keep
/// their intervals; one out of range, or one for publishing, is rejected and
/// changes nothing.
pub proof fn lemma_interval_round_trip(v: ConfigView, s: DelaySelection, secs: u8)
    ensures
        interval_accepted(s, secs as int) ==> interval_in(interval_set(v, s, secs), s) == Some(secs),
        forall|o: DelaySelection| o != s ==> interval_in(#[trigger] interval_set(v, s, secs), o) == interval_in(v, o),
        !interval_accepted(s, secs as int) ==> interval_set(v, s, secs) == v,
        (secs < MIN_INTERVAL_SECS || secs > MAX_INTERVAL_SECS) ==> !interval_accepted(s, secs as int),
{
}

} // verus!
