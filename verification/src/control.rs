//! The controller: three relays and the rules that switch them.
//!
//! The rules compare the latest measurement with the current targets:
//!
//! - ventilation runs while the temperature lies above its target by more
//!   than the temperature tolerance, or the humidity above its target by
//!   more than the humidity tolerance;
//! - heating runs while the temperature lies below its target;
//! - lighting runs while the light intensity lies below its target.
//!
//! A relay is held as the level that its pin was last set to. Every command
//! yields a `Transition`, also one that leaves the level as it was, so that
//! the caller can drive the pin and keep its audit trail.

use vstd::prelude::*;
use crate::database::{
    get_control_settings,
    get_latest_measurements,
    ControlSettings,
    Logs,
    Measurement,
    Store,
    StoreError,
};
use crate::quantity::Quantity;
use crate::schedule::Interval;

verus! {

/// Default temperature tolerance: 1 degree Celsius.
pub const DEFAULT_TEMPERATURE_TOLERANCE: i64 = 1_000;

/// Default humidity tolerance: 5 percent.
pub const DEFAULT_HUMIDITY_TOLERANCE: i64 = 5_000;

/// How far a measured value may lie above its target before ventilation
/// starts.
#[derive(Clone, Copy, Debug, PartialEq, Eq, Structural)]
pub struct Tolerance {
    pub temperature: Quantity,
    pub humidity: Quantity,
}

/// The record of one command to a relay.
#[derive(Clone, Copy, Debug, PartialEq, Eq, Structural)]
pub struct Transition {
    /// The identity of the actuator.
    pub actuator: i32,
    /// The pin that its relay hangs on.
    pub pin: u8,
    /// The level that was commanded.
    pub on: bool,
    /// Whether the command changed the level.
    pub changed: bool,
}

/// The output pin of a relay, as the level it was last set to.
#[derive(Clone, Copy, Debug, PartialEq, Eq, Structural)]
pub struct Relay {
    pub pin: u8,
    pub high: bool,
}

impl Relay {
    /// This relay at level `high`.
    pub open spec fn at_level(self, high: bool) -> Relay {
        Relay { pin: self.pin, high }
    }

    /// The relay on `pin`, at low level.
    pub fn new(pin: u8) -> (relay: Relay)
        ensures
            relay == (Relay { pin, high: false }),
    {
        Relay { pin, high: false }
    }

    /// Sets the level high, and says whether that changed it.
    pub fn set_high(&mut self) -> (changed: bool)
        ensures
            *final(self) == old(self).at_level(true),
            changed == !old(self).high,
    {
        let changed = !self.high;
        self.high = true;
        changed
    }

    /// Sets the level low, and says whether that changed it.
    pub fn set_low(&mut self) -> (changed: bool)
        ensures
            *final(self) == old(self).at_level(false),
            changed == old(self).high,
    {
        let changed = self.high;
        self.high = false;
        changed
    }
}

/// Setting a relay to the level it has leaves it as it is, and setting it
/// twice to one level is setting it once.
pub proof fn setting_is_idempotent(relay: Relay, high: bool)
    ensures
        relay.high == high ==> relay.at_level(high) == relay,
        relay.at_level(high).at_level(high) == relay.at_level(high),
{
}

/// The fans.
#[derive(Debug, PartialEq, Eq)]
pub struct VentilationSystem {
    pub id: i32,
    pub name: String,
    pub relay: Relay,
}

impl Clone for VentilationSystem {
    fn clone(&self) -> (res: Self)
        ensures
            res == *self,
    {
        Self { id: self.id, name: self.name.clone(), relay: self.relay }
    }
}

impl VentilationSystem {
    /// This system with its relay at level `on`.
    pub open spec fn switched(self, on: bool) -> Self {
        Self { relay: self.relay.at_level(on), ..self }
    }

    /// The record of commanding level `on` to this system.
    pub open spec fn transition(self, on: bool) -> Transition {
        Transition {
            actuator: self.id,
            pin: self.relay.pin,
            on,
            changed: self.relay.high != on,
        }
    }

    /// A system with its relay on `pin`, switched off.
    pub fn new(id: i32, name: &str, pin: u8) -> (system: Self)
        ensures
            system.id == id,
            system.name@ == name@,
            system.relay == (Relay { pin, high: false }),
    {
        Self { id, name: name.to_owned(), relay: Relay::new(pin) }
    }

    /// Commands the relay on. On a system that is on already this changes
    /// nothing and still yields its record.
    pub fn turn_on(&mut self) -> (t: Transition)
        ensures
            *final(self) == old(self).switched(true),
            t == old(self).transition(true),
            old(self).relay.high ==> *final(self) == *old(self) && !t.changed,
    {
        let changed = self.relay.set_high();
        Transition { actuator: self.id, pin: self.relay.pin, on: true, changed }
    }

    /// Commands the relay off. On a system that is off already this
    /// changes nothing and still yields its record.
    pub fn turn_off(&mut self) -> (t: Transition)
        ensures
            *final(self) == old(self).switched(false),
            t == old(self).transition(false),
            !old(self).relay.high ==> *final(self) == *old(self) && !t.changed,
    {
        let changed = self.relay.set_low();
        Transition { actuator: self.id, pin: self.relay.pin, on: false, changed }
    }
}

/// The heater.
#[derive(Debug, PartialEq, Eq)]
pub struct HeatingSystem {
    pub id: i32,
    pub name: String,
    pub relay: Relay,
}

impl Clone for HeatingSystem {
    fn clone(&self) -> (res: Self)
        ensures
            res == *self,
    {
        Self { id: self.id, name: self.name.clone(), relay: self.relay }
    }
}

impl HeatingSystem {
    /// This system with its relay at level `on`.
    pub open spec fn switched(self, on: bool) -> Self {
        Self { relay: self.relay.at_level(on), ..self }
    }

    /// The record of commanding level `on` to this system.
    pub open spec fn transition(self, on: bool) -> Transition {
        Transition {
            actuator: self.id,
            pin: self.relay.pin,
            on,
            changed: self.relay.high != on,
        }
    }

    /// A system with its relay on `pin`, switched off.
    pub fn new(id: i32, name: &str, pin: u8) -> (system: Self)
        ensures
            system.id == id,
            system.name@ == name@,
            system.relay == (Relay { pin, high: false }),
    {
        Self { id, name: name.to_owned(), relay: Relay::new(pin) }
    }

    /// Commands the relay on. On a system that is on already this changes
    /// nothing and still yields its record.
    pub fn turn_on(&mut self) -> (t: Transition)
        ensures
            *final(self) == old(self).switched(true),
            t == old(self).transition(true),
            old(self).relay.high ==> *final(self) == *old(self) && !t.changed,
    {
        let changed = self.relay.set_high();
        Transition { actuator: self.id, pin: self.relay.pin, on: true, changed }
    }

    /// Commands the relay off. On a system that is off already this
    /// changes nothing and still yields its record.
    pub fn turn_off(&mut self) -> (t: Transition)
        ensures
            *final(self) == old(self).switched(false),
            t == old(self).transition(false),
            !old(self).relay.high ==> *final(self) == *old(self) && !t.changed,
    {
        let changed = self.relay.set_low();
        Transition { actuator: self.id, pin: self.relay.pin, on: false, changed }
    }
}

/// The lamps.
#[derive(Debug, PartialEq, Eq)]
pub struct LightingSystem {
    pub id: i32,
    pub name: String,
    pub relay: Relay,
}

impl Clone for LightingSystem {
    fn clone(&self) -> (res: Self)
        ensures
            res == *self,
    {
        Self { id: self.id, name: self.name.clone(), relay: self.relay }
    }
}

impl LightingSystem {
    /// This system with its relay at level `on`.
    pub open spec fn switched(self, on: bool) -> Self {
        Self { relay: self.relay.at_level(on), ..self }
    }

    /// The record of commanding level `on` to this system.
    pub open spec fn transition(self, on: bool) -> Transition {
        Transition {
            actuator: self.id,
            pin: self.relay.pin,
            on,
            changed: self.relay.high != on,
        }
    }

    /// A system with its relay on `pin`, switched off.
    pub fn new(id: i32, name: &str, pin: u8) -> (system: Self)
        ensures
            system.id == id,
            system.name@ == name@,
            system.relay == (Relay { pin, high: false }),
    {
        Self { id, name: name.to_owned(), relay: Relay::new(pin) }
    }

    /// Commands the relay on. On a system that is on already this changes
    /// nothing and still yields its record.
    pub fn turn_on(&mut self) -> (t: Transition)
        ensures
            *final(self) == old(self).switched(true),
            t == old(self).transition(true),
            old(self).relay.high ==> *final(self) == *old(self) && !t.changed,
    {
        let changed = self.relay.set_high();
        Transition { actuator: self.id, pin: self.relay.pin, on: true, changed }
    }

    /// Commands the relay off. On a system that is off already this
    /// changes nothing and still yields its record.
    pub fn turn_off(&mut self) -> (t: Transition)
        ensures
            *final(self) == old(self).switched(false),
            t == old(self).transition(false),
            !old(self).relay.high ==> *final(self) == *old(self) && !t.changed,
    {
        let changed = self.relay.set_low();
        Transition { actuator: self.id, pin: self.relay.pin, on: false, changed }
    }
}

/// Whether ventilation is to run.
pub open spec fn ventilation_wanted(
    temperature: Quantity,
    humidity: Quantity,
    settings: ControlSettings,
    tolerance: Tolerance,
) -> bool {
    temperature.above_band(settings.target_temperature, tolerance.temperature)
        || humidity.above_band(settings.target_humidity, tolerance.humidity)
}

/// Whether heating is to run.
pub open spec fn heating_wanted(temperature: Quantity, settings: ControlSettings) -> bool {
    temperature.below(settings.target_temperature)
}

/// Whether lighting is to run.
pub open spec fn lighting_wanted(light_intensity: Quantity, settings: ControlSettings) -> bool {
    light_intensity.below(settings.target_light_intensity)
}

/// The three records of one actuation.
#[derive(Clone, Copy, Debug, PartialEq, Eq, Structural)]
pub struct Actuation {
    pub ventilation: Transition,
    pub heating: Transition,
    pub lighting: Transition,
}

/// How one wake-up of the controller ended.
#[derive(Clone, Copy, Debug, PartialEq, Eq, Structural)]
pub enum ControlOutcome {
    /// The timer was not due; nothing was read or switched.
    Idle,
    /// The settings or the latest measurement could not be had; no relay
    /// was commanded.
    Skipped(StoreError),
    /// All three relays were commanded.
    Actuated(Actuation),
}

/// The three actuators of the chamber and the tolerance of its ventilation.
#[derive(Debug, PartialEq, Eq)]
pub struct Manager {
    pub ventilation_system: VentilationSystem,
    pub heating_system: HeatingSystem,
    pub lighting_system: LightingSystem,
    pub tolerance: Tolerance,
}

impl Clone for Manager {
    fn clone(&self) -> (res: Self)
        ensures
            res == *self,
    {
        Self { ventilation_system: self.ventilation_system.clone(), heating_system: self.heating_system.clone(), lighting_system: self.lighting_system.clone(), tolerance: self.tolerance }
    }
}

impl Manager {
    /// This manager after it has acted on `measurement` under `settings`.
    pub open spec fn acted(self, settings: ControlSettings, measurement: Measurement) -> Manager {
        Manager {
            ventilation_system: self.ventilation_system.switched(
                ventilation_wanted(
                    measurement.temperature,
                    measurement.humidity,
                    settings,
                    self.tolerance,
                ),
            ),
            heating_system: self.heating_system.switched(
                heating_wanted(measurement.temperature, settings),
            ),
            lighting_system: self.lighting_system.switched(
                lighting_wanted(measurement.light_intensity, settings),
            ),
            tolerance: self.tolerance,
        }
    }

    /// The records of this manager acting on `measurement` under
    /// `settings`.
    pub open spec fn actuation(self, settings: ControlSettings, measurement: Measurement) -> Actuation {
        Actuation {
            ventilation: self.ventilation_system.transition(
                ventilation_wanted(
                    measurement.temperature,
                    measurement.humidity,
                    settings,
                    self.tolerance,
                ),
            ),
            heating: self.heating_system.transition(
                heating_wanted(measurement.temperature, settings),
            ),
            lighting: self.lighting_system.transition(
                lighting_wanted(measurement.light_intensity, settings),
            ),
        }
    }

    /// What one tick makes of this manager, and how it ends, given what
    /// the reads of the settings and of the latest measurement gave. A tick
    /// that lacks either commands no relay.
    pub open spec fn ticked(
        self,
        settings: Result<ControlSettings, StoreError>,
        latest: Result<Measurement, StoreError>,
    ) -> (Manager, ControlOutcome) {
        match settings {
            Err(e) => (self, ControlOutcome::Skipped(e)),
            Ok(s) => match latest {
                Err(e) => (self, ControlOutcome::Skipped(e)),
                Ok(m) => (self.acted(s, m), ControlOutcome::Actuated(self.actuation(s, m))),
            },
        }
    }

    /// What one tick against a store makes of this manager, and how it
    /// ends. The settings are read first, then the latest measurement.
    pub open spec fn ticked_on(self, store: Logs) -> (Manager, ControlOutcome) {
        self.ticked(Ok(store.current()), store.latest_measurement())
    }

    /// Whether this manager holds the chamber's actuators as they start:
    /// ventilation under identity 1 on pin 23, heating under identity 2 on
    /// pin 24, lighting under identity 3 on pin 25, all off.
    pub open spec fn wired_as_documented(self) -> bool {
        &&& self.ventilation_system.id == 1
        &&& self.ventilation_system.name@ == "Ventilation System"@
        &&& self.ventilation_system.relay == (Relay { pin: 23, high: false })
        &&& self.heating_system.id == 2
        &&& self.heating_system.name@ == "Heating System"@
        &&& self.heating_system.relay == (Relay { pin: 24, high: false })
        &&& self.lighting_system.id == 3
        &&& self.lighting_system.name@ == "Lighting System"@
        &&& self.lighting_system.relay == (Relay { pin: 25, high: false })
    }

    /// The chamber's actuators, all off, with the default tolerance.
    pub fn new() -> (manager: Self)
        ensures
            manager.wired_as_documented(),
            manager.tolerance.temperature@ == DEFAULT_TEMPERATURE_TOLERANCE,
            manager.tolerance.humidity@ == DEFAULT_HUMIDITY_TOLERANCE,
    {
        Self {
            ventilation_system: VentilationSystem::new(1, "Ventilation System", 23),
            heating_system: HeatingSystem::new(2, "Heating System", 24),
            lighting_system: LightingSystem::new(3, "Lighting System", 25),
            tolerance: Tolerance {
                temperature: Quantity { milli: DEFAULT_TEMPERATURE_TOLERANCE },
                humidity: Quantity { milli: DEFAULT_HUMIDITY_TOLERANCE },
            },
        }
    }

    /// The chamber's actuators as `new` gives them, with `tolerance` in
    /// place of the default one.
    pub fn with_tolerance(tolerance: Tolerance) -> (manager: Self)
        ensures
            manager.wired_as_documented(),
            manager.tolerance == tolerance,
    {
        let mut manager = Self::new();
        manager.tolerance = tolerance;
        manager
    }

    /// Switches ventilation on where `ventilation_wanted` holds, off where
    /// it does not.
    pub fn control_ventilation(
        &mut self,
        temperature: Quantity,
        humidity: Quantity,
        settings: &ControlSettings,
    ) -> (t: Transition)
        ensures
            *final(self) == (Manager {
                ventilation_system: old(self).ventilation_system.switched(
                    ventilation_wanted(temperature, humidity, *settings, old(self).tolerance),
                ),
                ..*old(self)
            }),
            t == old(self).ventilation_system.transition(
                ventilation_wanted(temperature, humidity, *settings, old(self).tolerance),
            ),
    {
        if temperature.is_above_band(settings.target_temperature, self.tolerance.temperature)
            || humidity.is_above_band(settings.target_humidity, self.tolerance.humidity) {
            self.ventilation_system.turn_on()
        } else {
            self.ventilation_system.turn_off()
        }
    }

    /// Switches heating on where `heating_wanted` holds, off where it does
    /// not.
    pub fn control_heating(&mut self, temperature: Quantity, settings: &ControlSettings) -> (t:
        Transition)
        ensures
            *final(self) == (Manager {
                heating_system: old(self).heating_system.switched(
                    heating_wanted(temperature, *settings),
                ),
                ..*old(self)
            }),
            t == old(self).heating_system.transition(heating_wanted(temperature, *settings)),
    {
        if temperature.is_below(settings.target_temperature) {
            self.heating_system.turn_on()
        } else {
            self.heating_system.turn_off()
        }
    }

    /// Switches lighting on where `lighting_wanted` holds, off where it
    /// does not.
    pub fn control_lighting(&mut self, light_intensity: Quantity, settings: &ControlSettings) -> (t:
        Transition)
        ensures
            *final(self) == (Manager {
                lighting_system: old(self).lighting_system.switched(
                    lighting_wanted(light_intensity, *settings),
                ),
                ..*old(self)
            }),
            t == old(self).lighting_system.transition(lighting_wanted(light_intensity, *settings)),
    {
        if light_intensity.is_below(settings.target_light_intensity) {
            self.lighting_system.turn_on()
        } else {
            self.lighting_system.turn_off()
        }
    }

    /// One tick of the controller on what the two reads gave. With both in
    /// hand all three relays are commanded; with either missing, none is,
    /// and the outcome carries the reason, the one of the settings first.
    pub fn tick(
        &mut self,
        settings: Result<ControlSettings, StoreError>,
        latest: Result<Measurement, StoreError>,
    ) -> (outcome: ControlOutcome)
        ensures
            (*final(self), outcome) == old(self).ticked(settings, latest),
            settings is Err || latest is Err ==> *final(self) == *old(self) && outcome
                is Skipped,
    {
        let settings = match settings {
            Ok(row) => row,
            Err(e) => {
                return ControlOutcome::Skipped(e);
            },
        };
        let measurement = match latest {
            Ok(row) => row,
            Err(e) => {
                return ControlOutcome::Skipped(e);
            },
        };
        let ventilation = self.control_ventilation(
            measurement.temperature,
            measurement.humidity,
            &settings,
        );
        let heating = self.control_heating(measurement.temperature, &settings);
        let lighting = self.control_lighting(measurement.light_intensity, &settings);
        ControlOutcome::Actuated(Actuation { ventilation, heating, lighting })
    }
}

/// Under a tolerance that is not negative, heating and ventilation never
/// work against each other over the temperature: a temperature that calls
/// for heating lies below its target, and so not above the band.
pub proof fn heating_excludes_cooling(
    temperature: Quantity,
    settings: ControlSettings,
    tolerance: Tolerance,
)
    requires
        tolerance.temperature@ >= 0,
    ensures
        !(heating_wanted(temperature, settings) && temperature.above_band(
            settings.target_temperature,
            tolerance.temperature,
        )),
{
}

/// Without a measurement there is no actuation: a tick against a store that
/// holds none is skipped as `NotFound` and leaves every relay as it was.
pub proof fn no_measurement_no_actuation(manager: Manager, store: Logs)
    requires
        store.measurements.len() == 0,
    ensures
        manager.ticked_on(store) == (manager, ControlOutcome::Skipped(StoreError::NotFound)),
{
}

/// One wake-up of the control activity at `now` on the timer's clock.
/// Where the timer is not due, nothing happens. Where it is, it fires, the
/// current settings are read, which seeds them if none are stored, then the
/// latest measurement, and one tick runs on the two. A store without any
/// measurement ends the wake-up with `Skipped(NotFound)` and every relay as
/// it was.
pub fn run(manager: &mut Manager, store: &mut Store, timer: &mut Interval, now: u64) -> (outcome:
    ControlOutcome)
    requires
        old(store)@.wf(),
    ensures
        final(store)@.wf(),
        final(timer)@ == old(timer)@.asked(now).0,
        if now >= old(timer)@.due {
            &&& final(store)@ == old(store)@.seeded()
            &&& (*final(manager), outcome) == old(manager).ticked_on(old(store)@)
        } else {
            &&& final(store)@ == old(store)@
            &&& *final(manager) == *old(manager)
            &&& outcome == ControlOutcome::Idle
        },
        old(store)@.measurements.len() == 0 ==> *final(manager) == *old(manager) && (outcome
            == ControlOutcome::Idle || outcome == ControlOutcome::Skipped(StoreError::NotFound)),
{
    if !timer.tick(now) {
        return ControlOutcome::Idle;
    }
    let settings = get_control_settings(store);
    let latest = get_latest_measurements(store);
    manager.tick(Ok(settings), latest)
}

} // verus!
