//! Fake data generation: locale tables, `{{ token }}` templates and the providers
//! that draw from them, with their contracts proved by Verus.
pub mod address;
pub mod base;
pub mod chars;
pub mod company;
pub mod date_time;
pub mod date_time_gen;
pub mod en_us;
pub mod error;
pub mod fmt;
pub mod generator;
pub mod internet;
pub mod ipv6;
pub mod locale;
pub mod lorem;
pub mod net;
pub mod person;
pub mod phone_number;
pub mod render;
pub mod replay;
pub mod rng;
pub mod table;
pub mod template;
pub mod text;

pub use date_time::{now_timestamp, timestamp_to_naive, Clock, DateTimeValue};
pub use error::{Error, Result};
pub use generator::{find_locale, locale_codes, Generator};
pub use locale::{Locale, LocaleId};
pub use template::Formatter;
