//! The ways bring-up can fail. Each names the failing step and, where there
//! is one, the missing capability or the number of candidates examined.

use vstd::prelude::*;

verus! {

/// A failure of one bring-up step.
#[derive(Debug)]
pub enum BootstrapError {
    /// The API context could not be created: `missing` lists the mandatory
    /// instance extensions the platform lacks, and is empty when the
    /// platform refused the creation itself.
    Initialization { missing: Vec<String> },
    /// None of the `candidates` enumerated physical devices has the required
    /// features and extensions.
    NoSuitableDevice { candidates: usize },
    /// None of the `candidates` queue families of the chosen device supports
    /// graphics (and presentation, once a surface exists).
    NoSuitableQueueFamily { candidates: usize },
    /// The driver refused to create the logical device.
    DeviceCreation,
    /// The swapchain could not be set up: the surface reports no format or
    /// no composite-alpha mode, or the driver refused the parameters.
    SwapchainCreation,
    /// The shader source did not compile; `diagnostics` is the compiler's
    /// report.
    ShaderCompilation { diagnostics: String },
    /// The compiled shader is not a well-formed module, or the device
    /// refused it.
    ShaderLoad,
}

impl BootstrapError {
    /// The name of the step that failed.
    pub fn step(&self) -> (r: &'static str)
        ensures
            self is Initialization ==> r@ == "instance creation"@,
            self is NoSuitableDevice ==> r@ == "physical device selection"@,
            self is NoSuitableQueueFamily ==> r@ == "queue family selection"@,
            self is DeviceCreation ==> r@ == "logical device creation"@,
            self is SwapchainCreation ==> r@ == "swapchain creation"@,
            self is ShaderCompilation ==> r@ == "shader compilation"@,
            self is ShaderLoad ==> r@ == "shader loading"@,
    {
        match self {
            BootstrapError::Initialization { .. } => "instance creation",
            BootstrapError::NoSuitableDevice { .. } => "physical device selection",
            BootstrapError::NoSuitableQueueFamily { .. } => "queue family selection",
            BootstrapError::DeviceCreation => "logical device creation",
            BootstrapError::SwapchainCreation => "swapchain creation",
            BootstrapError::ShaderCompilation { .. } => "shader compilation",
            BootstrapError::ShaderLoad => "shader loading",
        }
    }
}

} // verus!
