use greenhouse::database::{
    get_latest_measurements, initialize_database, Measurement, Store, StoreError,
};
use greenhouse::quantity::Quantity;
use greenhouse::schedule::Interval;
use greenhouse::sensors::{
    run, HumiditySensor, LightSensor, Manager, SampleOutcome, SensorFault, TemperatureSensor,
};
use greenhouse::timestamp::Timestamp;

fn q(milli: i64) -> Quantity {
    Quantity::from_milli(milli)
}

/// The word of a reading, as a driver hands it over.
fn w(reading: f32) -> Option<u32> {
    Some(reading.to_bits())
}

#[test]
fn sensors_keep_what_they_were_made_with() {
    let t = TemperatureSensor::new(7, "North wall", "DHT22");
    assert_eq!((t.id, t.name.as_str(), t.sensor_type.as_str()), (7, "North wall", "DHT22"));
    let h = HumiditySensor::new(-2, "", "SHT31");
    assert_eq!((h.id, h.name.as_str(), h.sensor_type.as_str()), (-2, "", "SHT31"));
    let l = LightSensor::new(i32::MAX, "Canopy", "BH1750");
    assert_eq!((l.id, l.name.as_str(), l.sensor_type.as_str()), (i32::MAX, "Canopy", "BH1750"));
}

#[test]
fn the_sampler_has_the_three_documented_sensors() {
    let manager = Manager::new();
    assert_eq!(manager.temperature_sensor, TemperatureSensor::new(1, "Temperature Sensor", "DHT22"));
    assert_eq!(manager.humidity_sensor, HumiditySensor::new(2, "Humidity Sensor", "DHT22"));
    assert_eq!(manager.light_sensor, LightSensor::new(3, "Light Sensor", "BH1750"));
}

#[test]
fn a_channel_passes_its_value_on() {
    let manager = Manager::new();
    assert_eq!(manager.temperature_sensor.read_temperature(w(25.5)), Ok(q(25_500)));
    assert_eq!(manager.temperature_sensor.read_temperature(w(-3.25)), Ok(q(-3_250)));
    assert_eq!(manager.humidity_sensor.read_humidity(w(60.0)), Ok(q(60_000)));
    assert_eq!(manager.light_sensor.read_light_intensity(w(0.0)), Ok(q(0)));
    assert_eq!(manager.light_sensor.read_light_intensity(w(500.0)), Ok(q(500_000)));
}

#[test]
fn a_failed_channel_names_its_sensor() {
    let manager = Manager::new();
    assert_eq!(manager.temperature_sensor.read_temperature(None), Err(SensorFault { sensor: 1 }));
    assert_eq!(manager.humidity_sensor.read_humidity(None), Err(SensorFault { sensor: 2 }));
    assert_eq!(manager.light_sensor.read_light_intensity(None), Err(SensorFault { sensor: 3 }));
    assert_eq!(
        TemperatureSensor::new(42, "spare", "DS18B20").read_temperature(None),
        Err(SensorFault { sensor: 42 })
    );
}

#[test]
fn a_reading_that_is_no_number_is_a_failed_read() {
    let manager = Manager::new();
    assert_eq!(
        manager.temperature_sensor.read_temperature(w(f32::NAN)),
        Err(SensorFault { sensor: 1 })
    );
    assert_eq!(
        manager.humidity_sensor.read_humidity(w(f32::INFINITY)),
        Err(SensorFault { sensor: 2 })
    );
    assert_eq!(
        manager.light_sensor.read_light_intensity(w(f32::NEG_INFINITY)),
        Err(SensorFault { sensor: 3 })
    );
    assert_eq!(
        manager.light_sensor.read_light_intensity(w(f32::MAX)),
        Err(SensorFault { sensor: 3 })
    );
    assert_eq!(
        manager.read_sensors(w(20.0), w(f32::NAN), w(f32::NAN)),
        Err(SensorFault { sensor: 2 })
    );
}

#[test]
fn a_sample_is_the_three_values_in_order() {
    let manager = Manager::new();
    assert_eq!(
        manager.read_sensors(w(25.5), w(60.0), w(500.0)),
        Ok((q(25_500), q(60_000), q(500_000)))
    );
}

#[test]
fn a_sample_fails_with_the_first_failed_channel() {
    let manager = Manager::new();
    let v = w(1.0);
    assert_eq!(manager.read_sensors(None, v, v), Err(SensorFault { sensor: 1 }));
    assert_eq!(manager.read_sensors(v, None, v), Err(SensorFault { sensor: 2 }));
    assert_eq!(manager.read_sensors(v, v, None), Err(SensorFault { sensor: 3 }));
    assert_eq!(manager.read_sensors(None, None, v), Err(SensorFault { sensor: 1 }));
    assert_eq!(manager.read_sensors(v, None, None), Err(SensorFault { sensor: 2 }));
    assert_eq!(manager.read_sensors(None, None, None), Err(SensorFault { sensor: 1 }));
}

#[test]
fn a_sampler_tick_records_one_row() {
    let manager = Manager::new();
    let mut store = initialize_database();
    let outcome = manager.tick(&mut store, w(22.0), w(55.0), w(400.0));
    assert_eq!(outcome, SampleOutcome::Recorded);
    assert_eq!(store.measurements().len(), 1);
    let row = store.measurements()[0];
    assert_eq!(
        (row.id, row.temperature, row.humidity, row.light_intensity),
        (1, q(22_000), q(55_000), q(400_000))
    );
    assert_eq!(get_latest_measurements(&store), Ok(row));
    assert!(store.settings().is_empty());
}

#[test]
fn a_sampler_tick_with_a_failed_channel_records_nothing() {
    let manager = Manager::new();
    let mut store = initialize_database();
    manager.tick(&mut store, w(1.0), w(2.0), w(3.0));
    let before = store.measurements().clone();
    let outcome = manager.tick(&mut store, w(22.0), None, w(400.0));
    assert_eq!(outcome, SampleOutcome::SensorFailed(SensorFault { sensor: 2 }));
    assert_eq!(store.measurements(), &before);
}

#[test]
fn a_sampler_tick_on_a_full_log_reports_the_store() {
    let manager = Manager::new();
    let last = Measurement {
        id: i64::MAX,
        timestamp: Timestamp { seconds: 0, nanos: 0 },
        temperature: q(0),
        humidity: q(0),
        light_intensity: q(0),
    };
    let mut store = Store::restore(vec![last], vec![]).unwrap();
    let outcome = manager.tick(&mut store, w(1.0), w(2.0), w(3.0));
    assert_eq!(outcome, SampleOutcome::StoreFailed(StoreError::Full));
    assert_eq!(store.measurements(), &vec![last]);
    // A failed channel is found before the store is asked.
    let outcome = manager.tick(&mut store, None, w(2.0), w(3.0));
    assert_eq!(outcome, SampleOutcome::SensorFailed(SensorFault { sensor: 1 }));
}

#[test]
fn the_sampler_waits_for_its_timer() {
    let manager = Manager::new();
    let mut store = initialize_database();
    let mut timer = Interval::new(1_000, 60_000).unwrap();
    let v = w(5.0);
    assert_eq!(run(&manager, &mut store, &mut timer, 999, v, v, v), SampleOutcome::Idle);
    assert!(store.measurements().is_empty());
    assert_eq!(timer.next_due(), 1_000);
    assert_eq!(run(&manager, &mut store, &mut timer, 1_000, v, v, v), SampleOutcome::Recorded);
    assert_eq!(store.measurements().len(), 1);
    assert_eq!(timer.next_due(), 61_000);
    assert_eq!(run(&manager, &mut store, &mut timer, 60_999, v, v, v), SampleOutcome::Idle);
    assert_eq!(store.measurements().len(), 1);
    assert_eq!(run(&manager, &mut store, &mut timer, 61_000, v, v, v), SampleOutcome::Recorded);
    assert_eq!(store.measurements().len(), 2);
}

#[test]
fn a_failed_sample_still_uses_up_its_tick() {
    let manager = Manager::new();
    let mut store = initialize_database();
    let mut timer = Interval::new(0, 60_000).unwrap();
    let v = w(5.0);
    assert_eq!(
        run(&manager, &mut store, &mut timer, 10, v, v, None),
        SampleOutcome::SensorFailed(SensorFault { sensor: 3 })
    );
    assert_eq!(timer.next_due(), 60_000);
    // No second try before the next period.
    assert_eq!(run(&manager, &mut store, &mut timer, 20, v, v, v), SampleOutcome::Idle);
    assert!(store.measurements().is_empty());
    assert_eq!(run(&manager, &mut store, &mut timer, 60_000, v, v, v), SampleOutcome::Recorded);
}
