//! The decisions of the telemetry setup: how log lines are written, which
//! log filter applies when none is configured, how a response status is
//! recorded, and which trace sampler a configuration name selects.

use vstd::prelude::*;
use vstd::string::StringExecFns;

use crate::text::text_eq;

verus! {

/// Records the outcome of each HTTP response.
#[derive(Clone, Copy, Debug)]
pub struct OnResponse;

/// Whether a response status counts as a failure of the server.
pub open spec fn is_server_failure(status: u16) -> bool {
    status >= 500
}

impl OnResponse {
    /// The span status recorded for a response: `ERROR` for 5xx, else `OK`.
    pub fn otel_status(status: u16) -> (r: &'static str)
        ensures
            r@ == (if is_server_failure(status) { "ERROR"@ } else { "OK"@ }),
    {
        if status >= 500 {
            "ERROR"
        } else {
            "OK"
        }
    }
}

/// The trace samplers that can be configured.
#[derive(Clone, Copy, Debug, PartialEq, Eq)]
pub enum SamplerChoice {
    AlwaysOn,
    AlwaysOff,
    TraceIdRatio,
    ParentBasedAlwaysOn,
    ParentBasedAlwaysOff,
    ParentBasedTraceIdRatio,
}

/// The sampler that a configuration name selects; an absent or unknown name
/// selects `AlwaysOn`.
pub open spec fn sampler_for(name: Option<Seq<char>>) -> SamplerChoice {
    match name {
        None => SamplerChoice::AlwaysOn,
        Some(n) => if n == "always_off"@ {
            SamplerChoice::AlwaysOff
        } else if n == "traceidratio"@ {
            SamplerChoice::TraceIdRatio
        } else if n == "parentbased_always_on"@ {
            SamplerChoice::ParentBasedAlwaysOn
        } else if n == "parentbased_always_off"@ {
            SamplerChoice::ParentBasedAlwaysOff
        } else if n == "parentbased_traceidratio"@ {
            SamplerChoice::ParentBasedTraceIdRatio
        } else {
            SamplerChoice::AlwaysOn
        },
    }
}

/// `Some` of the text's characters, or `None`.
pub open spec fn text_option(name: Option<&str>) -> Option<Seq<char>> {
    match name {
        Some(n) => Some(n@),
        None => None,
    }
}

impl SamplerChoice {
    /// The sampler that the configuration name `name` selects.
    pub fn from_name(name: Option<&str>) -> (r: SamplerChoice)
        ensures
            r == sampler_for(text_option(name)),
    {
        match name {
            None => SamplerChoice::AlwaysOn,
            Some(n) => if text_eq(n, "always_off") {
                SamplerChoice::AlwaysOff
            } else if text_eq(n, "traceidratio") {
                SamplerChoice::TraceIdRatio
            } else if text_eq(n, "parentbased_always_on") {
                SamplerChoice::ParentBasedAlwaysOn
            } else if text_eq(n, "parentbased_always_off") {
                SamplerChoice::ParentBasedAlwaysOff
            } else if text_eq(n, "parentbased_traceidratio") {
                SamplerChoice::ParentBasedTraceIdRatio
            } else {
                SamplerChoice::AlwaysOn
            },
        }
    }
}

/// How log lines are written.
#[derive(Clone, Copy, Debug, PartialEq, Eq)]
pub enum LogFormat {
    /// One JSON object per line.
    Json,
    /// Multi-line text for people.
    Pretty,
}

impl LogFormat {
    /// The log format for the deployment named by `APP_ENV`: JSON exactly in
    /// `production`, else the text form.
    pub fn from_app_env(app_env: Option<&str>) -> (r: LogFormat)
        ensures
            r == (if text_option(app_env) == Some("production"@) {
                LogFormat::Json
            } else {
                LogFormat::Pretty
            }),
    {
        match app_env {
            Some(e) => if text_eq(e, "production") {
                LogFormat::Json
            } else {
                LogFormat::Pretty
            },
            None => LogFormat::Pretty,
        }
    }
}

/// The log filter used when `RUST_LOG` gives none: debug for the service and
/// the HTTP layer, trace for rejected extractions, info for the rest.
pub open spec fn default_filter_text(service_name: Seq<char>) -> Seq<char> {
    service_name + "=debug,tower_http=debug,axum::rejection=trace,info"@
}

/// The default log filter of the service `service_name`.
pub fn default_env_filter(service_name: &str) -> (r: String)
    ensures
        r@ == default_filter_text(service_name@),
{
    let mut r = String::from_str(service_name);
    r.append("=debug,tower_http=debug,axum::rejection=trace,info");
    r
}

} // verus!
