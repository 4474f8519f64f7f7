//! The settings of the service and their defaults.

use crate::browser::DEFAULT_MAX_CONCURRENT_TABS;
use vstd::prelude::*;

verus! {

/// The port on which the service listens when none is configured.
pub const DEFAULT_PORT: u16 = 3000;

/// The API key of a service that is configured with none.
pub const DEFAULT_API_KEY: &'static str = "changeme";

/// The settings with which the service starts.
#[derive(Debug)]
pub struct Settings {
    pub api_key: String,
    pub max_concurrent_tabs: usize,
    pub port: u16,
}

/// What `str::parse::<usize>` returns for a text, with the error dropped.
pub uninterp spec fn parsed_usize(text: Seq<char>) -> Option<usize>;

/// What `str::parse::<u16>` returns for a text, with the error dropped.
pub uninterp spec fn parsed_u16(text: Seq<char>) -> Option<u16>;

/// `str::parse::<usize>`: the number that a text writes in decimal, if it
/// writes one that fits.
#[verifier::external_body]
fn parse_usize(text: &str) -> (number: Option<usize>)
    ensures
        number == parsed_usize(text@),
{
    text.parse::<usize>().ok()
}

/// `str::parse::<u16>`: the number that a text writes in decimal, if it
/// writes one that fits.
#[verifier::external_body]
fn parse_u16(text: &str) -> (number: Option<u16>)
    ensures
        number == parsed_u16(text@),
{
    text.parse::<u16>().ok()
}

/// The capacity of the pool for a setting.
pub open spec fn capacity_for(setting: Option<&str>) -> usize {
    match setting {
        Some(text) => match parsed_usize(text@) {
            Some(capacity) => capacity,
            None => DEFAULT_MAX_CONCURRENT_TABS,
        },
        None => DEFAULT_MAX_CONCURRENT_TABS,
    }
}

/// The port for a setting.
pub open spec fn port_for(setting: Option<&str>) -> u16 {
    match setting {
        Some(text) => match parsed_u16(text@) {
            Some(port) => port,
            None => DEFAULT_PORT,
        },
        None => DEFAULT_PORT,
    }
}

/// The settings of the service. A setting that is missing, or that is not
/// the number it should be, takes its default.
pub fn resolve(api_key: Option<String>, max_concurrent_tabs: Option<&str>, port: Option<&str>) -> (settings:
    Settings)
    ensures
        match api_key {
            Some(key) => settings.api_key == key,
            None => settings.api_key@ == DEFAULT_API_KEY@,
        },
        settings.max_concurrent_tabs == capacity_for(max_concurrent_tabs),
        settings.port == port_for(port),
{
    let api_key = match api_key {
        Some(key) => key,
        None => String::from_str(DEFAULT_API_KEY),
    };
    let max_concurrent_tabs = match max_concurrent_tabs {
        Some(text) => match parse_usize(text) {
            Some(capacity) => capacity,
            None => DEFAULT_MAX_CONCURRENT_TABS,
        },
        None => DEFAULT_MAX_CONCURRENT_TABS,
    };
    let port = match port {
        Some(text) => match parse_u16(text) {
            Some(port) => port,
            None => DEFAULT_PORT,
        },
        None => DEFAULT_PORT,
    };
    Settings { api_key, max_concurrent_tabs, port }
}

} // verus!
