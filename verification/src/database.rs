//! The append-only store of measurements and of target settings.
//!
//! A store is two logs. Rows are only ever added at the end, and each new
//! row takes the identity that follows the last one of its log, so
//! identities grow along a log. The latest measurement is the row with the
//! greatest timestamp, and among equal timestamps the one with the greatest
//! identity. The current settings are the settings row with the greatest
//! identity; a store that holds none yet is seeded with the default targets
//! on the first read.
//!
//! Every read-modify-write here works on the store it is handed. Callers
//! that share one durable store between several writers get no isolation
//! from this module: two updates computed from the same current row both
//! append, and the later row wins.

use vstd::prelude::*;
use crate::quantity::Quantity;
use crate::timestamp::{utc_now, Timestamp};

verus! {

/// One sampled reading of the three channels. Rows are never changed.
#[derive(Clone, Copy, Debug, PartialEq, Eq, Structural)]
pub struct Measurement {
    pub id: i64,
    pub timestamp: Timestamp,
    pub temperature: Quantity,
    pub humidity: Quantity,
    pub light_intensity: Quantity,
}

/// One revision of the operator's targets. Rows are never changed; an
/// update adds a new row.
#[derive(Clone, Copy, Debug, PartialEq, Eq, Structural)]
pub struct ControlSettings {
    pub id: i64,
    pub target_temperature: Quantity,
    pub target_humidity: Quantity,
    pub target_light_intensity: Quantity,
}

/// Why a store operation gave no row.
#[derive(Clone, Copy, Debug, PartialEq, Eq, Structural)]
pub enum StoreError {
    /// No measurement has been recorded yet.
    NotFound,
    /// The log has used up its identities and takes no further row.
    Full,
    /// The durable store behind the caller could not be reached. No
    /// function of this module reports it; it is the caller's to hand in.
    Unavailable,
}

/// The identity of the first row of a log.
pub const FIRST_ID: i64 = 1;

/// Default target temperature: 20 degrees Celsius.
pub const DEFAULT_TARGET_TEMPERATURE: i64 = 20_000;

/// Default target humidity: 50 percent.
pub const DEFAULT_TARGET_HUMIDITY: i64 = 50_000;

/// Default target light intensity: 500 lux.
pub const DEFAULT_TARGET_LIGHT_INTENSITY: i64 = 500_000;

/// Whether measurement `a` ranks after measurement `b`: it is later, or
/// equally late with the greater identity.
pub open spec fn outranks(a: Measurement, b: Measurement) -> bool {
    b.timestamp.precedes(a.timestamp) || (a.timestamp == b.timestamp && a.id > b.id)
}

/// Whether `m` is a row of `log` that no row of `log` outranks.
pub open spec fn is_latest(log: Seq<Measurement>, m: Measurement) -> bool {
    &&& exists|k: int| 0 <= k < log.len() && log[k] == m
    &&& forall|i: int| 0 <= i < log.len() ==> !outranks(#[trigger] log[i], m)
}

/// The latest row of a log that is not empty.
pub open spec fn latest(log: Seq<Measurement>) -> Measurement {
    choose|m: Measurement| is_latest(log, m)
}

/// Whether the identities of `log` grow strictly from row to row.
pub open spec fn measurement_ids_ascend(log: Seq<Measurement>) -> bool {
    forall|i: int, j: int| 0 <= i < j < log.len() ==> log[i].id < log[j].id
}

/// Whether the identities of `log` grow strictly from row to row.
pub open spec fn settings_ids_ascend(log: Seq<ControlSettings>) -> bool {
    forall|i: int, j: int| 0 <= i < j < log.len() ==> log[i].id < log[j].id
}

/// The seed row: the default targets under the first identity.
pub open spec fn default_settings() -> ControlSettings {
    ControlSettings {
        id: FIRST_ID,
        target_temperature: Quantity { milli: DEFAULT_TARGET_TEMPERATURE },
        target_humidity: Quantity { milli: DEFAULT_TARGET_HUMIDITY },
        target_light_intensity: Quantity { milli: DEFAULT_TARGET_LIGHT_INTENSITY },
    }
}

/// `supplied` where it is given, `current` where it is not.
pub open spec fn choose_target(supplied: Option<Quantity>, current: Quantity) -> Quantity {
    match supplied {
        Some(value) => value,
        None => current,
    }
}

/// The row that an update of `current` adds: each target is the supplied
/// value where one is given and the current value where none is, and the
/// identity is the next one.
pub open spec fn merged(
    current: ControlSettings,
    target_temperature: Option<Quantity>,
    target_humidity: Option<Quantity>,
    target_light_intensity: Option<Quantity>,
) -> ControlSettings {
    ControlSettings {
        id: (current.id + 1) as i64,
        target_temperature: choose_target(target_temperature, current.target_temperature),
        target_humidity: choose_target(target_humidity, current.target_humidity),
        target_light_intensity: choose_target(
            target_light_intensity,
            current.target_light_intensity,
        ),
    }
}

/// What a store holds: its two logs, oldest row first.
#[verifier::ext_equal]
pub struct Logs {
    pub measurements: Seq<Measurement>,
    pub settings: Seq<ControlSettings>,
}

impl Logs {
    /// The store without rows.
    pub open spec fn empty() -> Logs {
        Logs { measurements: Seq::empty(), settings: Seq::empty() }
    }

    /// Identities grow along both logs.
    pub open spec fn wf(self) -> bool {
        measurement_ids_ascend(self.measurements) && settings_ids_ascend(self.settings)
    }

    /// The identity that the next measurement takes.
    pub open spec fn next_measurement_id(self) -> int {
        if self.measurements.len() == 0 {
            FIRST_ID as int
        } else {
            self.measurements.last().id + 1
        }
    }

    /// Whether the measurement log still has an identity to give.
    pub open spec fn can_record(self) -> bool {
        self.next_measurement_id() <= i64::MAX
    }

    /// The store after one more measurement taken at `at`.
    pub open spec fn record(
        self,
        temperature: Quantity,
        humidity: Quantity,
        light_intensity: Quantity,
        at: Timestamp,
    ) -> Logs {
        Logs {
            measurements: self.measurements.push(
                Measurement {
                    id: self.next_measurement_id() as i64,
                    timestamp: at,
                    temperature,
                    humidity,
                    light_intensity,
                },
            ),
            settings: self.settings,
        }
    }

    /// What a read of the latest measurement gives: the latest row, or
    /// `NotFound` where nothing has been recorded.
    pub open spec fn latest_measurement(self) -> Result<Measurement, StoreError> {
        if self.measurements.len() == 0 {
            Err(StoreError::NotFound)
        } else {
            Ok(latest(self.measurements))
        }
    }

    /// The store after a read of the current settings: unchanged where it
    /// holds a settings row, seeded with the defaults where it holds none.
    pub open spec fn seeded(self) -> Logs {
        if self.settings.len() == 0 {
            Logs { measurements: self.measurements, settings: seq![default_settings()] }
        } else {
            self
        }
    }

    /// The current settings: the last row of the seeded settings log.
    pub open spec fn current(self) -> ControlSettings {
        self.seeded().settings.last()
    }

    /// Whether the settings log still has an identity to give.
    pub open spec fn can_update(self) -> bool {
        self.current().id < i64::MAX
    }

    /// The store after an update of the current settings.
    pub open spec fn updated(
        self,
        target_temperature: Option<Quantity>,
        target_humidity: Option<Quantity>,
        target_light_intensity: Option<Quantity>,
    ) -> Logs {
        Logs {
            measurements: self.measurements,
            settings: self.seeded().settings.push(
                merged(
                    self.current(),
                    target_temperature,
                    target_humidity,
                    target_light_intensity,
                ),
            ),
        }
    }
}

/// The two logs, held in memory.
pub struct Store {
    measurements: Vec<Measurement>,
    settings: Vec<ControlSettings>,
}

impl View for Store {
    type V = Logs;

    closed spec fn view(&self) -> Logs {
        Logs { measurements: self.measurements@, settings: self.settings@ }
    }
}

impl Store {
    /// Takes over rows that were read back from durable storage, oldest
    /// first. Gives a store exactly when identities grow along both logs.
    pub fn restore(measurements: Vec<Measurement>, settings: Vec<ControlSettings>) -> (r: Option<
        Store,
    >)
        ensures
            match r {
                Some(store) => store@.wf() && store@.measurements == measurements@
                    && store@.settings == settings@,
                None => !(Logs { measurements: measurements@, settings: settings@ }).wf(),
            },
    {
        let mut i: usize = 1;
        while i < measurements.len()
            invariant
                1 <= i,
                forall|a: int, b: int|
                    0 <= a < b < i && b < measurements@.len() ==> measurements@[a].id
                        < measurements@[b].id,
            decreases measurements.len() - i,
        {
            if measurements[i - 1].id >= measurements[i].id {
                return None;
            }
            i += 1;
        }
        let mut j: usize = 1;
        while j < settings.len()
            invariant
                1 <= j,
                forall|a: int, b: int|
                    0 <= a < b < j && b < settings@.len() ==> settings@[a].id < settings@[b].id,
            decreases settings.len() - j,
        {
            if settings[j - 1].id >= settings[j].id {
                return None;
            }
            j += 1;
        }
        Some(Store { measurements, settings })
    }

    /// The measurement log, oldest row first.
    pub fn measurements(&self) -> (rows: &Vec<Measurement>)
        ensures
            rows@ == self@.measurements,
    {
        &self.measurements
    }

    /// The settings log, oldest row first.
    pub fn settings(&self) -> (rows: &Vec<ControlSettings>)
        ensures
            rows@ == self@.settings,
    {
        &self.settings
    }
}

/// Decides `outranks(*a, *b)`.
pub fn ranks_after(a: &Measurement, b: &Measurement) -> (r: bool)
    ensures
        r == outranks(*a, *b),
{
    b.timestamp.is_before(a.timestamp) || (a.timestamp == b.timestamp && a.id > b.id)
}

/// Sets up a store with both logs empty.
pub fn initialize_database() -> (store: Store)
    ensures
        store@ == Logs::empty(),
        store@.wf(),
{
    Store { measurements: Vec::new(), settings: Vec::new() }
}

/// Appends one measurement taken at `at`. The new row takes the next
/// identity; the store refuses it with `Full` exactly when none is left.
pub fn record_measurement(
    store: &mut Store,
    temperature: Quantity,
    humidity: Quantity,
    light_intensity: Quantity,
    at: Timestamp,
) -> (r: Result<(), StoreError>)
    requires
        old(store)@.wf(),
    ensures
        final(store)@.wf(),
        match r {
            Ok(_) => old(store)@.can_record() && final(store)@ == old(store)@.record(
                temperature,
                humidity,
                light_intensity,
                at,
            ),
            Err(e) => e == StoreError::Full && !old(store)@.can_record() && final(store)@ == old(
                store,
            )@,
        },
{
    let n: usize = store.measurements.len();
    let id: i64 = if n == 0 {
        FIRST_ID
    } else {
        let last: i64 = store.measurements[n - 1].id;
        if last == i64::MAX {
            return Err(StoreError::Full);
        }
        last + 1
    };
    store.measurements.push(
        Measurement { id, timestamp: at, temperature, humidity, light_intensity },
    );
    Ok(())
}

/// Appends one measurement taken now, by the system clock. Apart from the
/// timestamp, which is whatever the clock gave, the outcome is that of
/// `record_measurement`.
pub fn insert_measurement(
    store: &mut Store,
    temperature: Quantity,
    humidity: Quantity,
    light_intensity: Quantity,
) -> (r: Result<(), StoreError>)
    requires
        old(store)@.wf(),
    ensures
        final(store)@.wf(),
        match r {
            Ok(_) => old(store)@.can_record() && final(store)@ == old(store)@.record(
                temperature,
                humidity,
                light_intensity,
                final(store)@.measurements.last().timestamp,
            ),
            Err(e) => e == StoreError::Full && !old(store)@.can_record() && final(store)@ == old(
                store,
            )@,
        },
{
    let at = utc_now();
    record_measurement(store, temperature, humidity, light_intensity, at)
}

/// Finds the latest measurement: the row that no other row outranks.
/// Reports `NotFound` exactly when nothing has been recorded.
pub fn get_latest_measurements(store: &Store) -> (r: Result<Measurement, StoreError>)
    requires
        store@.wf(),
    ensures
        r == store@.latest_measurement(),
        r matches Ok(m) ==> is_latest(store@.measurements, m),
{
    let n: usize = store.measurements.len();
    if n == 0 {
        return Err(StoreError::NotFound);
    }
    let mut best = store.measurements[0];
    let mut i: usize = 1;
    while i < n
        invariant
            1 <= i <= n,
            n == store.measurements@.len(),
            exists|k: int| 0 <= k < i && store.measurements@[k] == best,
            forall|k: int| 0 <= k < i ==> !outranks(#[trigger] store.measurements@[k], best),
        decreases n - i,
    {
        let row = store.measurements[i];
        if ranks_after(&row, &best) {
            best = row;
        }
        i += 1;
    }
    proof {
        latest_is_unique(store@.measurements, best, latest(store@.measurements));
    }
    Ok(best)
}

/// Reads the current settings. A store without a settings row is first
/// seeded with the default targets; a store with one is left as it is.
pub fn get_control_settings(store: &mut Store) -> (current: ControlSettings)
    requires
        old(store)@.wf(),
    ensures
        final(store)@.wf(),
        final(store)@ == old(store)@.seeded(),
        current == old(store)@.current(),
{
    let n: usize = store.settings.len();
    if n == 0 {
        let seed = ControlSettings {
            id: FIRST_ID,
            target_temperature: Quantity { milli: DEFAULT_TARGET_TEMPERATURE },
            target_humidity: Quantity { milli: DEFAULT_TARGET_HUMIDITY },
            target_light_intensity: Quantity { milli: DEFAULT_TARGET_LIGHT_INTENSITY },
        };
        store.settings.push(seed);
        seed
    } else {
        store.settings[n - 1]
    }
}

/// Adds a settings row that takes each supplied target and keeps the
/// current value of each target that is not supplied, and returns it. The
/// current row is read as `get_control_settings` reads it, seed included.
/// The store refuses the new row with `Full` exactly when the current row
/// holds the last identity; the seed, if one was due, stays.
pub fn update_control_settings(
    store: &mut Store,
    target_temperature: Option<Quantity>,
    target_humidity: Option<Quantity>,
    target_light_intensity: Option<Quantity>,
) -> (r: Result<ControlSettings, StoreError>)
    requires
        old(store)@.wf(),
    ensures
        final(store)@.wf(),
        match r {
            Ok(row) => old(store)@.can_update() && row == merged(
                old(store)@.current(),
                target_temperature,
                target_humidity,
                target_light_intensity,
            ) && final(store)@ == old(store)@.updated(
                target_temperature,
                target_humidity,
                target_light_intensity,
            ),
            Err(e) => e == StoreError::Full && !old(store)@.can_update() && final(store)@ == old(
                store,
            )@.seeded(),
        },
{
    let current = get_control_settings(store);
    if current.id == i64::MAX {
        return Err(StoreError::Full);
    }
    let row = ControlSettings {
        id: current.id + 1,
        target_temperature: match target_temperature {
            Some(value) => value,
            None => current.target_temperature,
        },
        target_humidity: match target_humidity {
            Some(value) => value,
            None => current.target_humidity,
        },
        target_light_intensity: match target_light_intensity {
            Some(value) => value,
            None => current.target_light_intensity,
        },
    };
    store.settings.push(row);
    Ok(row)
}

/// Every log that is not empty has a latest row.
pub proof fn latest_exists(log: Seq<Measurement>)
    requires
        log.len() > 0,
    ensures
        is_latest(log, latest(log)),
    decreases log.len(),
{
    let last = log.last();
    let rest = log.drop_last();
    if rest.len() == 0 {
        assert(is_latest(log, last));
    } else {
        latest_exists(rest);
        let best = latest(rest);
        assert forall|i: int| 0 <= i < rest.len() implies !outranks(#[trigger] log[i], best) by {
            assert(log[i] == rest[i]);
        }
        if outranks(last, best) {
            assert(is_latest(log, last));
        } else {
            assert(is_latest(log, best));
        }
    }
}

/// Among the rows of a log whose identities ascend, at most one is the
/// latest: later timestamps win, and identities break ties.
pub proof fn latest_is_unique(log: Seq<Measurement>, a: Measurement, b: Measurement)
    requires
        measurement_ids_ascend(log),
        is_latest(log, a),
        is_latest(log, b),
    ensures
        a == b,
{
}

/// A measurement taken no earlier than every row already in the log is the
/// latest once it is recorded.
pub proof fn recorded_row_is_latest(
    view: Logs,
    temperature: Quantity,
    humidity: Quantity,
    light_intensity: Quantity,
    at: Timestamp,
)
    requires
        view.wf(),
        view.can_record(),
        forall|i: int|
            0 <= i < view.measurements.len() ==> !at.precedes(
                (#[trigger] view.measurements[i]).timestamp,
            ),
    ensures
        is_latest(
            view.record(temperature, humidity, light_intensity, at).measurements,
            view.record(temperature, humidity, light_intensity, at).measurements.last(),
        ),
{
    let after = view.record(temperature, humidity, light_intensity, at).measurements;
    assert forall|i: int| 0 <= i < after.len() implies !outranks(
        #[trigger] after[i],
        after.last(),
    ) by {}
}

/// Rows are only ever added: whatever is recorded, read or updated, the
/// rows that a log held before are the first rows that it holds after, in
/// the same order and unchanged.
pub proof fn rows_are_only_added(
    view: Logs,
    temperature: Quantity,
    humidity: Quantity,
    light_intensity: Quantity,
    at: Timestamp,
    target_temperature: Option<Quantity>,
    target_humidity: Option<Quantity>,
    target_light_intensity: Option<Quantity>,
)
    ensures
        ({
            let recorded = view.record(temperature, humidity, light_intensity, at);
            let updated = view.updated(target_temperature, target_humidity, target_light_intensity);
            &&& view.measurements.is_prefix_of(recorded.measurements)
            &&& recorded.settings == view.settings
            &&& view.settings.is_prefix_of(view.seeded().settings)
            &&& view.seeded().measurements == view.measurements
            &&& view.settings.is_prefix_of(updated.settings)
            &&& updated.measurements == view.measurements
        }),
{
}

/// An update is a merge: each target of the new row is the supplied value
/// where one is given and the current value where none is.
pub proof fn update_is_a_merge(
    current: ControlSettings,
    target_temperature: Option<Quantity>,
    target_humidity: Option<Quantity>,
    target_light_intensity: Option<Quantity>,
)
    ensures
        ({
            let row = merged(current, target_temperature, target_humidity, target_light_intensity);
            &&& row.target_temperature == if target_temperature is Some {
                target_temperature->0
            } else {
                current.target_temperature
            }
            &&& row.target_humidity == if target_humidity is Some {
                target_humidity->0
            } else {
                current.target_humidity
            }
            &&& row.target_light_intensity == if target_light_intensity is Some {
                target_light_intensity->0
            } else {
                current.target_light_intensity
            }
        }),
{
}

/// An update that supplies no target adds a row with the targets of the
/// current one, under the next identity.
pub proof fn empty_update_keeps_targets(view: Logs)
    requires
        view.can_update(),
    ensures
        ({
            let row = view.updated(None, None, None).current();
            &&& row.target_temperature == view.current().target_temperature
            &&& row.target_humidity == view.current().target_humidity
            &&& row.target_light_intensity == view.current().target_light_intensity
            &&& row.id == view.current().id + 1
        }),
{
}

/// After an update the current settings are the row that the update added,
/// and reading them adds nothing.
pub proof fn update_becomes_current(
    view: Logs,
    target_temperature: Option<Quantity>,
    target_humidity: Option<Quantity>,
    target_light_intensity: Option<Quantity>,
)
    ensures
        ({
            let after = view.updated(target_temperature, target_humidity, target_light_intensity);
            &&& after.current() == merged(
                view.current(),
                target_temperature,
                target_humidity,
                target_light_intensity,
            )
            &&& after.seeded() == after
        }),
{
}

/// The current settings are a row of the seeded log, and no row of it has
/// a greater identity.
pub proof fn current_has_greatest_identity(view: Logs)
    requires
        view.wf(),
    ensures
        view.seeded().settings.contains(view.current()),
        forall|i: int|
            0 <= i < view.seeded().settings.len() ==> (#[trigger] view.seeded().settings[i]).id
                <= view.current().id,
{
}

/// Seeding happens once: the first read of an empty settings log adds the
/// default row and returns it, and every read after that returns the same
/// row and adds nothing.
pub proof fn seeding_happens_once(view: Logs)
    ensures
        view.seeded().seeded() == view.seeded(),
        view.seeded().current() == view.current(),
        view.settings.len() == 0 ==> view.current() == default_settings()
            && view.seeded().settings.len() == 1,
        view.settings.len() > 0 ==> view.seeded() == view,
{
}

} // verus!
