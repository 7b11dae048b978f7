//! The sampler: three sensor channels and the row they give.
//!
//! The drivers stay with the caller. What a driver returned for a channel
//! comes in as `Some(word)`, the single-precision word of the reading, and a
//! read that the driver reported as failed comes in as `None`. A word that
//! does not decode to a quantity counts as a failed read too. A failed
//! channel fails the whole sample: nothing is put in its place, and nothing
//! is recorded.

use vstd::prelude::*;
use crate::binary32::decoded;
use crate::database::{insert_measurement, Logs, Store, StoreError};
use crate::quantity::Quantity;
use crate::schedule::Interval;
use crate::timestamp::Timestamp;

verus! {

/// A channel read that the driver reported as failed, named by the
/// identity of its sensor.
#[derive(Clone, Copy, Debug, PartialEq, Eq, Structural)]
pub struct SensorFault {
    pub sensor: i32,
}

/// What a channel read gives: the quantity that the word decodes to, or
/// the fault of sensor `sensor` where the read failed or the word decodes to
/// none.
pub open spec fn channel_result(sensor: i32, raw: Option<u32>) -> Result<Quantity, SensorFault> {
    match raw {
        Some(word) => match decoded(word) {
            Some(value) => Ok(value),
            None => Err(SensorFault { sensor }),
        },
        None => Err(SensorFault { sensor }),
    }
}

/// Computes `channel_result(sensor, raw)`.
fn read_channel(sensor: i32, raw: Option<u32>) -> (r: Result<Quantity, SensorFault>)
    ensures
        r == channel_result(sensor, raw),
{
    match raw {
        Some(word) => match Quantity::from_binary32(word) {
            Some(value) => Ok(value),
            None => Err(SensorFault { sensor }),
        },
        None => Err(SensorFault { sensor }),
    }
}

/// The temperature channel.
#[derive(Debug, PartialEq, Eq)]
pub struct TemperatureSensor {
    pub id: i32,
    pub name: String,
    pub sensor_type: String,
}

impl Clone for TemperatureSensor {
    fn clone(&self) -> (res: Self)
        ensures
            res == *self,
    {
        Self { id: self.id, name: self.name.clone(), sensor_type: self.sensor_type.clone() }
    }
}

impl TemperatureSensor {
    /// A temperature sensor of the given identity, name and type.
    pub fn new(id: i32, name: &str, sensor_type: &str) -> (sensor: Self)
        ensures
            sensor.id == id,
            sensor.name@ == name@,
            sensor.sensor_type@ == sensor_type@,
    {
        Self { id, name: name.to_owned(), sensor_type: sensor_type.to_owned() }
    }

    /// Decodes a temperature reading, or names this sensor as the one that
    /// failed.
    pub fn read_temperature(&self, raw: Option<u32>) -> (r: Result<Quantity, SensorFault>)
        ensures
            r == channel_result(self.id, raw),
    {
        read_channel(self.id, raw)
    }
}

/// The humidity channel.
#[derive(Debug, PartialEq, Eq)]
pub struct HumiditySensor {
    pub id: i32,
    pub name: String,
    pub sensor_type: String,
}

impl Clone for HumiditySensor {
    fn clone(&self) -> (res: Self)
        ensures
            res == *self,
    {
        Self { id: self.id, name: self.name.clone(), sensor_type: self.sensor_type.clone() }
    }
}

impl HumiditySensor {
    /// A humidity sensor of the given identity, name and type.
    pub fn new(id: i32, name: &str, sensor_type: &str) -> (sensor: Self)
        ensures
            sensor.id == id,
            sensor.name@ == name@,
            sensor.sensor_type@ == sensor_type@,
    {
        Self { id, name: name.to_owned(), sensor_type: sensor_type.to_owned() }
    }

    /// Decodes a humidity reading, or names this sensor as the one that
    /// failed.
    pub fn read_humidity(&self, raw: Option<u32>) -> (r: Result<Quantity, SensorFault>)
        ensures
            r == channel_result(self.id, raw),
    {
        read_channel(self.id, raw)
    }
}

/// The light channel.
#[derive(Debug, PartialEq, Eq)]
pub struct LightSensor {
    pub id: i32,
    pub name: String,
    pub sensor_type: String,
}

impl Clone for LightSensor {
    fn clone(&self) -> (res: Self)
        ensures
            res == *self,
    {
        Self { id: self.id, name: self.name.clone(), sensor_type: self.sensor_type.clone() }
    }
}

impl LightSensor {
    /// A light sensor of the given identity, name and type.
    pub fn new(id: i32, name: &str, sensor_type: &str) -> (sensor: Self)
        ensures
            sensor.id == id,
            sensor.name@ == name@,
            sensor.sensor_type@ == sensor_type@,
    {
        Self { id, name: name.to_owned(), sensor_type: sensor_type.to_owned() }
    }

    /// Decodes a light intensity reading, or names this sensor as the one that
    /// failed.
    pub fn read_light_intensity(&self, raw: Option<u32>) -> (r: Result<Quantity, SensorFault>)
        ensures
            r == channel_result(self.id, raw),
    {
        read_channel(self.id, raw)
    }
}

/// How one wake-up of the sampler ended.
#[derive(Clone, Copy, Debug, PartialEq, Eq, Structural)]
pub enum SampleOutcome {
    /// The timer was not due; nothing was read or written.
    Idle,
    /// The sample was recorded.
    Recorded,
    /// A channel failed; nothing was recorded.
    SensorFailed(SensorFault),
    /// The store refused the row.
    StoreFailed(StoreError),
}

/// The three sensors of the chamber.
#[derive(Debug, PartialEq, Eq)]
pub struct Manager {
    pub temperature_sensor: TemperatureSensor,
    pub humidity_sensor: HumiditySensor,
    pub light_sensor: LightSensor,
}

impl Clone for Manager {
    fn clone(&self) -> (res: Self)
        ensures
            res == *self,
    {
        Self { temperature_sensor: self.temperature_sensor.clone(), humidity_sensor: self.humidity_sensor.clone(), light_sensor: self.light_sensor.clone() }
    }
}

impl Manager {
    /// The sample that three channel reads give: all three quantities
    /// where all three reads succeeded, else the fault of the first channel
    /// that failed, in the order temperature, humidity, light.
    pub open spec fn sample(
        &self,
        temperature: Option<u32>,
        humidity: Option<u32>,
        light: Option<u32>,
    ) -> Result<(Quantity, Quantity, Quantity), SensorFault> {
        match channel_result(self.temperature_sensor.id, temperature) {
            Err(fault) => Err(fault),
            Ok(t) => match channel_result(self.humidity_sensor.id, humidity) {
                Err(fault) => Err(fault),
                Ok(h) => match channel_result(self.light_sensor.id, light) {
                    Err(fault) => Err(fault),
                    Ok(l) => Ok((t, h, l)),
                },
            },
        }
    }

    /// What one tick at instant `at` makes of a store, and how it ends:
    /// the sample is recorded, or a failed channel or a full log leaves the
    /// store as it was.
    pub open spec fn ticked(
        &self,
        store: Logs,
        temperature: Option<u32>,
        humidity: Option<u32>,
        light: Option<u32>,
        at: Timestamp,
    ) -> (Logs, SampleOutcome) {
        match self.sample(temperature, humidity, light) {
            Err(fault) => (store, SampleOutcome::SensorFailed(fault)),
            Ok((t, h, l)) => if store.can_record() {
                (store.record(t, h, l, at), SampleOutcome::Recorded)
            } else {
                (store, SampleOutcome::StoreFailed(StoreError::Full))
            },
        }
    }

    /// The chamber's sensors: a DHT22 for temperature under identity 1, a
    /// DHT22 for humidity under identity 2 and a BH1750 for light under
    /// identity 3.
    pub fn new() -> (manager: Self)
        ensures
            manager.temperature_sensor.id == 1,
            manager.temperature_sensor.name@ == "Temperature Sensor"@,
            manager.temperature_sensor.sensor_type@ == "DHT22"@,
            manager.humidity_sensor.id == 2,
            manager.humidity_sensor.name@ == "Humidity Sensor"@,
            manager.humidity_sensor.sensor_type@ == "DHT22"@,
            manager.light_sensor.id == 3,
            manager.light_sensor.name@ == "Light Sensor"@,
            manager.light_sensor.sensor_type@ == "BH1750"@,
    {
        Self {
            temperature_sensor: TemperatureSensor::new(1, "Temperature Sensor", "DHT22"),
            humidity_sensor: HumiditySensor::new(2, "Humidity Sensor", "DHT22"),
            light_sensor: LightSensor::new(3, "Light Sensor", "BH1750"),
        }
    }

    /// Puts the three channel reads together into one sample.
    pub fn read_sensors(
        &self,
        temperature: Option<u32>,
        humidity: Option<u32>,
        light: Option<u32>,
    ) -> (r: Result<(Quantity, Quantity, Quantity), SensorFault>)
        ensures
            r == self.sample(temperature, humidity, light),
    {
        let t = match self.temperature_sensor.read_temperature(temperature) {
            Ok(value) => value,
            Err(fault) => {
                return Err(fault);
            },
        };
        let h = match self.humidity_sensor.read_humidity(humidity) {
            Ok(value) => value,
            Err(fault) => {
                return Err(fault);
            },
        };
        let l = match self.light_sensor.read_light_intensity(light) {
            Ok(value) => value,
            Err(fault) => {
                return Err(fault);
            },
        };
        Ok((t, h, l))
    }

    /// One tick of the sampler: takes the sample and records it under the
    /// timestamp that the system clock gives, which is the one of the last
    /// row afterwards.
    pub fn tick(
        &self,
        store: &mut Store,
        temperature: Option<u32>,
        humidity: Option<u32>,
        light: Option<u32>,
    ) -> (outcome: SampleOutcome)
        requires
            old(store)@.wf(),
        ensures
            final(store)@.wf(),
            (final(store)@, outcome) == self.ticked(
                old(store)@,
                temperature,
                humidity,
                light,
                final(store)@.measurements.last().timestamp,
            ),
    {
        match self.read_sensors(temperature, humidity, light) {
            Err(fault) => SampleOutcome::SensorFailed(fault),
            Ok((t, h, l)) => match insert_measurement(store, t, h, l) {
                Ok(_) => SampleOutcome::Recorded,
                Err(e) => SampleOutcome::StoreFailed(e),
            },
        }
    }
}

/// One wake-up of the sampling activity at `now` on the timer's clock.
/// Where the timer is due, it fires and one tick runs on the channel reads
/// handed in; where it is not, nothing happens.
pub fn run(
    manager: &Manager,
    store: &mut Store,
    timer: &mut Interval,
    now: u64,
    temperature: Option<u32>,
    humidity: Option<u32>,
    light: Option<u32>,
) -> (outcome: SampleOutcome)
    requires
        old(store)@.wf(),
    ensures
        final(store)@.wf(),
        final(timer)@ == old(timer)@.asked(now).0,
        if now >= old(timer)@.due {
            (final(store)@, outcome) == manager.ticked(
                old(store)@,
                temperature,
                humidity,
                light,
                final(store)@.measurements.last().timestamp,
            )
        } else {
            final(store)@ == old(store)@ && outcome == SampleOutcome::Idle
        },
{
    if timer.tick(now) {
        manager.tick(store, temperature, humidity, light)
    } else {
        SampleOutcome::Idle
    }
}

} // verus!
