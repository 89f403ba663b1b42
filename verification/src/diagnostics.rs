use vstd::prelude::*;

verus! {

/// Optional diagnostic tracing, sourced from the process environment at
/// startup. Absence of a directory is not an error: the corresponding
/// tracing is simply disabled.
#[derive(Clone, Debug, PartialEq, Eq)]
pub struct DiagnosticsConfig {
    /// Directory for low-level GPU call tracing, handed to the device
    /// negotiation step when present.
    pub gpu_trace_dir: Option<String>,
    /// Directory for chrome-style performance-trace output, consumed by an
    /// optional subscriber before bootstrap when present.
    pub chrome_trace_dir: Option<String>,
}

impl DiagnosticsConfig {
    /// The configuration with every tracing variable unset: no tracing
    /// artifacts are produced.
    pub fn disabled() -> (config: DiagnosticsConfig)
        ensures
            config.gpu_trace_dir is None,
            config.chrome_trace_dir is None,
    {
        DiagnosticsConfig { gpu_trace_dir: None, chrome_trace_dir: None }
    }

    /// Build the configuration from the values of the two environment
    /// variables, read by the host at process start.
    pub fn from_environment_values(
        gpu_trace_dir: Option<String>,
        chrome_trace_dir: Option<String>,
    ) -> (config: DiagnosticsConfig)
        ensures
            config.gpu_trace_dir == gpu_trace_dir,
            config.chrome_trace_dir == chrome_trace_dir,
    {
        DiagnosticsConfig { gpu_trace_dir, chrome_trace_dir }
    }

    /// Whether GPU call tracing is enabled: exactly when a trace directory
    /// was configured.
    pub fn gpu_tracing_enabled(&self) -> (enabled: bool)
        ensures
            enabled == (self.gpu_trace_dir is Some),
    {
        match &self.gpu_trace_dir {
            Some(_) => true,
            None => false,
        }
    }
}

} // verus!
