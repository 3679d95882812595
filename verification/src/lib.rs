//! Polling and render-cache core of a buff overlay: a bounded decoder for the
//! records a foreign data source hands over, the display configuration of the
//! watched buffs, and the rate-limited cache that decides on every frame
//! whether the source is asked again or the last snapshot is shown once more.

pub mod buffs;
pub mod cache;
pub mod compat;
pub mod config;
pub mod decimal;
pub mod handler;
pub mod timeline;
pub mod ui;

use crate::buffs::{validated, SingleBuffConfig};
use crate::config::{ConfigError, LocalConfig};
use crate::handler::{all_valid, registered, BuffHandler, HandlerState};
use vstd::prelude::*;
use vstd::string::StringExecFns;

verus! {

/// Why the overlay could not be started.
#[derive(Debug, PartialEq)]
pub enum InitError {
    /// The data source has no entry point to call.
    Unavailable,
    /// The configuration could not be loaded; the text says why.
    Load(String),
    /// The record at `index` of the configuration did not pass validation.
    ConfigValidation { index: usize, error: ConfigError },
}

impl InitError {
    /// The text of this error.
    pub open spec fn text(self) -> Seq<char> {
        match self {
            InitError::Unavailable => "couldn't grab DLL function"@,
            InitError::Load(why) => "failed to load gw2buffbar.json (error: "@ + why@ + ")"@,
            InitError::ConfigValidation { index, error } => "color values must be between 0-255"@,
        }
    }

    /// The text shown for this error.
    pub fn message(&self) -> (text: String)
        ensures
            text@ == self.text(),
    {
        match self {
            InitError::Unavailable => "couldn't grab DLL function".to_string(),
            InitError::Load(why) => {
                let mut text = "failed to load gw2buffbar.json (error: ".to_string();
                text.append(why.as_str());
                text.append(")");
                text
            },
            InitError::ConfigValidation { index, error } => error.message(),
        }
    }
}

/// Starts the overlay: fills the registry of `handler` from the loaded
/// configuration, every record in its order. Nothing at all is registered
/// where the data source is unavailable, where the configuration could not be
/// loaded, or where one of its records fails validation: the handler then
/// stays as it was, and the error names the first record that failed.
pub fn init(handler: &mut BuffHandler, loaded: Result<LocalConfig, String>) -> (r: Result<
    (),
    InitError,
>)
    ensures
        final(handler)@.wf(),
        match r {
            Ok(()) => {
                &&& old(handler)@.cache.available
                &&& loaded matches Ok(config)
                &&& all_valid(config.items@)
                &&& final(handler)@ == (HandlerState {
                    cache: registered(old(handler)@.cache, config.items@),
                    ..old(handler)@
                })
            },
            Err(InitError::Unavailable) => {
                &&& !old(handler)@.cache.available
                &&& final(handler)@ == old(handler)@
            },
            Err(InitError::Load(why)) => {
                &&& old(handler)@.cache.available
                &&& loaded == Err::<LocalConfig, String>(why)
                &&& final(handler)@ == old(handler)@
            },
            Err(InitError::ConfigValidation { index, error }) => {
                &&& old(handler)@.cache.available
                &&& loaded matches Ok(config)
                &&& index < config.items.len()
                &&& all_valid(config.items@.take(index as int))
                &&& validated(config.items[index as int]) == Err::<SingleBuffConfig, ConfigError>(
                    error,
                )
                &&& final(handler)@ == old(handler)@
            },
        },
{
    if !handler.is_available() {
        return Err(InitError::Unavailable);
    }
    match loaded {
        Err(why) => Err(InitError::Load(why)),
        Ok(config) => match handler.watch_all(&config.items) {
            Ok(()) => Ok(()),
            Err((index, error)) => Err(InitError::ConfigValidation { index, error }),
        },
    }
}

} // verus!
