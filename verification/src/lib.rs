//! Validator block-production analytics for a proof-of-stake network.
//!
//! The library holds the decisions and the arithmetic; sending, waiting and
//! receiving are left to its caller.
//!
//! * [`error`]: the closed set of errors and what each tells about
//!   retrying.
//! * [`config`]: the client configuration, its presets and its validation.
//! * [`transport`]: the retry policy of the RPC transport as a state
//!   machine that a caller drives.
//! * [`client`]: the requests to send and the views over the records of a
//!   fetch.
//! * [`analytics`]: from raw per-validator slot counts to records in
//!   canonical order ([`ranking`]) with their [`statistics`],
//!   [`distribution`] and [`health`] assessment, all built on the sums of
//!   [`aggregate`].
//! * [`percent`]: the fixed-point percentages in which rates are reported.
//!
//! Rates are reported in millionths of a percent, rounded down; whether a
//! validator is perfect, concerning or offline, and which bucket and
//! category it falls into, is decided on its slot counts exactly.

pub mod aggregate;
pub mod analytics;
pub mod client;
pub mod config;
pub mod distribution;
pub mod error;
pub mod health;
pub mod logging;
pub mod percent;
pub mod ranking;
pub mod statistics;
pub mod text;
pub mod timing;
pub mod transport;
pub mod types;

pub use client::{BlockProductionClient, ClientBuilder};
pub use config::{ClientConfig, ClientConfigBuilder};
pub use error::{BlockProductionError, ErrorExt, Result};
pub use logging::{LogFormat, LoggingConfig};
pub use percent::Percent;
pub use types::{
    AlertCategory, AlertSeverity, BlockProductionData, BlockProductionRequest, NetworkHealthSummary,
    NetworkStatus, ResponseMetadata, SkipRateDistribution, SkipRateStatistics, SlotRange,
    ValidatorPerformanceCategory, ValidatorPerformanceSnapshot, ValidatorSkipRate,
};
