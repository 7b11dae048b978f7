//! The operator's requests, mapped onto the store.
//!
//! Three requests exist: read the latest measurement, read the current
//! settings, and update the settings with whichever targets the request
//! carries. A reply is either a row or the reason why there is none, and has
//! the status code that the transport is to send with it.

use vstd::prelude::*;
use crate::binary32::decoded;
use crate::database::{ControlSettings, Logs, Measurement, Store, StoreError};
use crate::quantity::Quantity;

verus! {

/// The targets that an update request carries. A target that the request
/// left out is `None` and keeps its current value.
#[derive(Clone, Copy, Debug, PartialEq, Eq, Structural)]
pub struct SettingsUpdate {
    pub target_temperature: Option<Quantity>,
    pub target_humidity: Option<Quantity>,
    pub target_light_intensity: Option<Quantity>,
}

/// What a target of a request body decodes to: `Some(None)` for a target
/// that was left out, `Some(Some(value))` for a word that decodes to
/// `value`, and nothing for a word that decodes to no quantity.
pub open spec fn decoded_target(word: Option<u32>) -> Option<Option<Quantity>> {
    match word {
        None => Some(None),
        Some(w) => match decoded(w) {
            Some(value) => Some(Some(value)),
            None => None,
        },
    }
}

/// Computes `decoded_target(word)`.
fn decode_target(word: Option<u32>) -> (r: Option<Option<Quantity>>)
    ensures
        r == decoded_target(word),
{
    match word {
        None => Some(None),
        Some(w) => match Quantity::from_binary32(w) {
            Some(value) => Some(Some(value)),
            None => None,
        },
    }
}

impl SettingsUpdate {
    /// The update that a request body stands for, each target given as a
    /// single-precision word or left out. There is none where a target
    /// that is given decodes to no quantity.
    pub open spec fn of_words(
        target_temperature: Option<u32>,
        target_humidity: Option<u32>,
        target_light_intensity: Option<u32>,
    ) -> Option<SettingsUpdate> {
        match (
            decoded_target(target_temperature),
            decoded_target(target_humidity),
            decoded_target(target_light_intensity),
        ) {
            (Some(t), Some(h), Some(l)) => Some(
                SettingsUpdate {
                    target_temperature: t,
                    target_humidity: h,
                    target_light_intensity: l,
                },
            ),
            _ => None,
        }
    }

    /// Computes `SettingsUpdate::of_words`.
    pub fn decode(
        target_temperature: Option<u32>,
        target_humidity: Option<u32>,
        target_light_intensity: Option<u32>,
    ) -> (r: Option<SettingsUpdate>)
        ensures
            r == SettingsUpdate::of_words(
                target_temperature,
                target_humidity,
                target_light_intensity,
            ),
    {
        let t = match decode_target(target_temperature) {
            Some(target) => target,
            None => {
                return None;
            },
        };
        let h = match decode_target(target_humidity) {
            Some(target) => target,
            None => {
                return None;
            },
        };
        let l = match decode_target(target_light_intensity) {
            Some(target) => target,
            None => {
                return None;
            },
        };
        Some(SettingsUpdate { target_temperature: t, target_humidity: h, target_light_intensity: l })
    }
}

/// A request of the operator.
#[derive(Clone, Copy, Debug, PartialEq, Eq, Structural)]
pub enum Request {
    /// Read the latest measurement.
    LatestMeasurement,
    /// Read the current settings.
    CurrentSettings,
    /// Update the current settings.
    UpdateSettings(SettingsUpdate),
}

/// The reply to a request.
#[derive(Clone, Copy, Debug, PartialEq, Eq, Structural)]
pub enum Response {
    /// The latest measurement.
    Measurement(Measurement),
    /// The current settings, as read or as just updated.
    Settings(ControlSettings),
    /// Nothing has been measured yet.
    NoData,
    /// The store failed.
    Failed(StoreError),
}

/// Status of a reply that carries a row.
pub const STATUS_OK: u16 = 200;

/// Status of the reply that there is no data yet.
pub const STATUS_NOT_FOUND: u16 = 404;

/// Status of the reply that the store failed.
pub const STATUS_SERVER_ERROR: u16 = 500;

impl Response {
    /// The status code of this reply.
    pub open spec fn status(self) -> u16 {
        match self {
            Response::Measurement(_) => STATUS_OK,
            Response::Settings(_) => STATUS_OK,
            Response::NoData => STATUS_NOT_FOUND,
            Response::Failed(_) => STATUS_SERVER_ERROR,
        }
    }

    /// Computes `self.status()`.
    pub fn status_code(&self) -> (code: u16)
        ensures
            code == self.status(),
    {
        match self {
            Response::Measurement(_) => STATUS_OK,
            Response::Settings(_) => STATUS_OK,
            Response::NoData => STATUS_NOT_FOUND,
            Response::Failed(_) => STATUS_SERVER_ERROR,
        }
    }
}

/// The reply to a read of the latest measurement that gave `result`: the
/// row, or `NoData` where none was found, or the failure.
pub open spec fn measurement_reply(result: Result<Measurement, StoreError>) -> Response {
    match result {
        Ok(row) => Response::Measurement(row),
        Err(StoreError::NotFound) => Response::NoData,
        Err(e) => Response::Failed(e),
    }
}

/// The reply to a read or an update of the settings that gave `result`:
/// the row, or the failure.
pub open spec fn settings_reply(result: Result<ControlSettings, StoreError>) -> Response {
    match result {
        Ok(row) => Response::Settings(row),
        Err(e) => Response::Failed(e),
    }
}

/// What a settings update against a store gives: the row that it adds, or
/// `Full` where the settings log has no identity left.
pub open spec fn update_result(store: Logs, update: SettingsUpdate) -> Result<
    ControlSettings,
    StoreError,
> {
    if store.can_update() {
        Ok(
            crate::database::merged(
                store.current(),
                update.target_temperature,
                update.target_humidity,
                update.target_light_intensity,
            ),
        )
    } else {
        Err(StoreError::Full)
    }
}

/// The store after a settings update: with the new row, or only seeded
/// where the update was refused.
pub open spec fn update_effect(store: Logs, update: SettingsUpdate) -> Logs {
    if store.can_update() {
        store.updated(
            update.target_temperature,
            update.target_humidity,
            update.target_light_intensity,
        )
    } else {
        store.seeded()
    }
}

/// What serving `request` makes of a store.
pub open spec fn served(store: Logs, request: Request) -> Logs {
    match request {
        Request::LatestMeasurement => store,
        Request::CurrentSettings => store.seeded(),
        Request::UpdateSettings(update) => update_effect(store, update),
    }
}

/// The reply to `request` on a store.
pub open spec fn reply_to(store: Logs, request: Request) -> Response {
    match request {
        Request::LatestMeasurement => measurement_reply(store.latest_measurement()),
        Request::CurrentSettings => Response::Settings(store.current()),
        Request::UpdateSettings(update) => settings_reply(update_result(store, update)),
    }
}

/// Computes `measurement_reply(result)`.
pub fn reply_with_measurement(result: Result<Measurement, StoreError>) -> (reply: Response)
    ensures
        reply == measurement_reply(result),
{
    match result {
        Ok(row) => Response::Measurement(row),
        Err(StoreError::NotFound) => Response::NoData,
        Err(e) => Response::Failed(e),
    }
}

/// Computes `settings_reply(result)`.
pub fn reply_with_settings(result: Result<ControlSettings, StoreError>) -> (reply: Response)
    ensures
        reply == settings_reply(result),
{
    match result {
        Ok(row) => Response::Settings(row),
        Err(e) => Response::Failed(e),
    }
}

/// Answers a read of the latest measurement: the latest row, or `NoData`
/// on a store without measurements.
pub fn get_latest_measurements(store: &Store) -> (reply: Response)
    requires
        store@.wf(),
    ensures
        reply == measurement_reply(store@.latest_measurement()),
{
    reply_with_measurement(crate::database::get_latest_measurements(store))
}

/// Answers a read of the current settings, seeding them where none are
/// stored.
pub fn get_control_settings(store: &mut Store) -> (reply: Response)
    requires
        old(store)@.wf(),
    ensures
        final(store)@.wf(),
        final(store)@ == old(store)@.seeded(),
        reply == Response::Settings(old(store)@.current()),
{
    Response::Settings(crate::database::get_control_settings(store))
}

/// Answers an update of the settings with the row that it added, or with
/// the failure of a settings log that is full.
pub fn update_control_settings(settings: SettingsUpdate, store: &mut Store) -> (reply: Response)
    requires
        old(store)@.wf(),
    ensures
        final(store)@.wf(),
        final(store)@ == update_effect(old(store)@, settings),
        reply == settings_reply(update_result(old(store)@, settings)),
{
    reply_with_settings(
        crate::database::update_control_settings(
            store,
            settings.target_temperature,
            settings.target_humidity,
            settings.target_light_intensity,
        ),
    )
}

/// Serves one request against the store.
pub fn run(store: &mut Store, request: Request) -> (reply: Response)
    requires
        old(store)@.wf(),
    ensures
        final(store)@.wf(),
        final(store)@ == served(old(store)@, request),
        reply == reply_to(old(store)@, request),
{
    match request {
        Request::LatestMeasurement => get_latest_measurements(store),
        Request::CurrentSettings => get_control_settings(store),
        Request::UpdateSettings(update) => update_control_settings(update, store),
    }
}

/// An update followed by a read of the current settings gives the row that
/// the update added, and the read adds nothing.
pub proof fn read_after_update(store: Logs, update: SettingsUpdate)
    requires
        store.can_update(),
    ensures
        ({
            let after = served(store, Request::UpdateSettings(update));
            &&& reply_to(after, Request::CurrentSettings) == reply_to(
                store,
                Request::UpdateSettings(update),
            )
            &&& served(after, Request::CurrentSettings) == after
        }),
{
}

} // verus!
