//! Telemetry settings. The exporters and subscribers they configure run
//! outside the library.

use vstd::prelude::*;

verus! {

/// Settings for trace and metric export.
pub struct TelemetryConfig {
    /// OTLP endpoint to export to, if any.
    pub otlp_endpoint: Option<String>,
    /// Log filter, for example `info`.
    pub log_filter: String,
}

impl Default for TelemetryConfig {
    fn default() -> (c: Self)
        ensures
            c.otlp_endpoint is None,
            c.log_filter@ == "info"@,
    {
        TelemetryConfig { otlp_endpoint: None, log_filter: "info".to_owned() }
    }
}

} // verus!
