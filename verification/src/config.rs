use vstd::prelude::*;
use crate::context::DrawableSize;
use crate::strategy::DeploymentTarget;

verus! {

/// The backend family a graphics instance is scoped to.
#[derive(Clone, Copy, Debug, PartialEq, Eq, Structural)]
pub enum BackendFamily {
    /// The process's preferred first-class backends for the platform.
    Primary,
    /// Every backend the host offers, first-class or not.
    All,
}

/// Preference among available physical GPUs during adapter negotiation.
#[derive(Clone, Copy, Debug, PartialEq, Eq, Structural)]
pub enum PowerPreference {
    HighPerformance,
    LowPower,
    NoPreference,
}

/// The feature/limit set requested from the adapter when asking for a
/// logical device.
#[derive(Clone, Copy, Debug, PartialEq, Eq, Structural)]
pub enum FeatureLimitSet {
    /// Default limits and no optional GPU features.
    Defaults,
    /// An explicitly minimal set, for hosts with the weakest capabilities.
    ExplicitMinimal,
}

/// Options for the adapter negotiation step.
#[derive(Clone, Copy, Debug, PartialEq, Eq, Structural)]
pub struct AdapterOptions {
    pub power: PowerPreference,
    /// Whether the adapter must be compatible with the presentation surface
    /// created earlier in the sequence.
    pub surface_compatible: bool,
}

/// Options for the device negotiation step.
#[derive(Clone, Debug, PartialEq, Eq)]
pub struct DeviceOptions {
    pub feature_limits: FeatureLimitSet,
    /// Directory for low-level GPU call tracing, or `None` when tracing is
    /// disabled.
    pub trace_dir: Option<String>,
}

/// The adapter options this bootstrap always asks with: prefer the
/// highest-performance adapter, and require compatibility with the surface.
pub open spec fn default_adapter_options() -> AdapterOptions {
    AdapterOptions { power: PowerPreference::HighPerformance, surface_compatible: true }
}

/// Build the fixed adapter options used by the bootstrap sequence.
pub fn adapter_options() -> (options: AdapterOptions)
    ensures
        options == default_adapter_options(),
{
    AdapterOptions { power: PowerPreference::HighPerformance, surface_compatible: true }
}

/// The texture format of the presentation surface.
#[derive(Clone, Copy, Debug, PartialEq, Eq, Structural)]
pub enum SurfaceFormat {
    Bgra8Unorm,
    Bgra8UnormSrgb,
}

/// How presented frames are scheduled onto the display.
#[derive(Clone, Copy, Debug, PartialEq, Eq, Structural)]
pub enum PresentMode {
    Mailbox,
    Fifo,
}

/// The surface format used on a deployment target: web hosts take the plain
/// format, native hosts the sRGB one.
pub open spec fn surface_format_for(target: DeploymentTarget) -> SurfaceFormat {
    match target {
        DeploymentTarget::Native => SurfaceFormat::Bgra8UnormSrgb,
        DeploymentTarget::Web => SurfaceFormat::Bgra8Unorm,
    }
}

/// Configuration of the presentation surface, fixed once at loop start from
/// the deployment target and the drawable size captured during bootstrap.
#[derive(Clone, Copy, Debug, PartialEq, Eq, Structural)]
pub struct PresentationConfig {
    pub format: SurfaceFormat,
    pub width: u32,
    pub height: u32,
    pub present_mode: PresentMode,
}

/// Build the presentation configuration: the target's surface format, the
/// captured drawable size, and mailbox presentation.
pub fn presentation_config(target: DeploymentTarget, size: DrawableSize) -> (config:
    PresentationConfig)
    ensures
        config.format == surface_format_for(target),
        config.width == size.width,
        config.height == size.height,
        config.present_mode is Mailbox,
{
    let format = match target {
        DeploymentTarget::Native => SurfaceFormat::Bgra8UnormSrgb,
        DeploymentTarget::Web => SurfaceFormat::Bgra8Unorm,
    };
    PresentationConfig {
        format,
        width: size.width,
        height: size.height,
        present_mode: PresentMode::Mailbox,
    }
}

} // verus!
