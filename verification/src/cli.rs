//! Configuration surface of the control program.
//!
//! These options only steer the glue around the supervisor — the job
//! namespace and the telemetry pipeline — never the core behaviour. The
//! defaults are pinned here; parsing flags and environment variables is the
//! surrounding program's job.

use vstd::prelude::*;
use vstd::string::StringExecFns;

verus! {

/// Options of the control program.
#[derive(Debug)]
pub struct Opts {
    /// The namespace the controller runs jobs in.
    pub namespace: String,
    /// The telemetry options.
    pub tracing_opts: TracingOpts,
}

/// Options of the telemetry pipeline.
#[derive(Debug)]
pub struct TracingOpts {
    /// Whether jaeger exporting is enabled.
    pub enabled: bool,
    /// The jaeger service name.
    pub service_name: String,
}

impl Default for TracingOpts {
    /// The defaults: exporting enabled, the service named after this
    /// package.
    fn default() -> (t: TracingOpts)
        ensures
            t.enabled,
            t.service_name@ == "driver_supervisor"@,
    {
        TracingOpts { enabled: true, service_name: String::from_str("driver_supervisor") }
    }
}

impl Default for Opts {
    /// The defaults: the namespace `meta`, and the default telemetry
    /// options.
    fn default() -> (o: Opts)
        ensures
            o.namespace@ == "meta"@,
            o.tracing_opts.enabled,
            o.tracing_opts.service_name@ == "driver_supervisor"@,
    {
        Opts { namespace: String::from_str("meta"), tracing_opts: TracingOpts::default() }
    }
}

} // verus!
