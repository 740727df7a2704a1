//! Whether this machine can share GPU memory with CUDA, and how.
use crate::text::{decimal, decimal_str};
use vstd::prelude::*;
use vstd::string::*;

verus! {

/// How a GPU allocation is handed to CUDA.
#[derive(Copy, Clone, Debug, PartialEq, Eq, Structural)]
pub enum InteropTransport {
    VulkanOpaqueFd,
    D3D12Win32Handle,
    /// There is no way.
    Unavailable,
}

/// Graphics backend in use.
#[derive(Copy, Clone, Debug, PartialEq, Eq, Structural)]
pub enum GpuBackend {
    Vulkan,
    Dx12,
    Other,
}

/// Operating system the process runs on.
#[derive(Copy, Clone, Debug, PartialEq, Eq, Structural)]
pub enum HostOs {
    Linux,
    Windows,
    MacOs,
    Other,
}

/// PCI vendor id of NVIDIA.
pub const NVIDIA_VENDOR: u32 = 0x10DE;

/// What was observed of the graphics adapter and of the CUDA driver.
pub struct ProbeFacts {
    pub backend: GpuBackend,
    pub os: HostOs,
    pub vendor: u32,
    /// The driver library can be loaded.  Asked on Windows only.
    pub cuda_library: bool,
    /// What initialising the driver returned; zero is success.
    pub init_status: i32,
    pub driver_version: i32,
    /// For each device ordinal, whether the driver gave out the device.
    pub devices: Vec<bool>,
}

/// What the interop path can rely on.
#[derive(Debug, Clone)]
pub struct InteropCapability {
    pub transport: InteropTransport,
    pub cuda_device_ordinal: i32,
    pub driver_version: String,
}

impl ProbeFacts {
    /// The transport that backend and operating system allow.
    pub open spec fn transport(&self) -> InteropTransport {
        if self.backend is Vulkan && self.os is Linux {
            InteropTransport::VulkanOpaqueFd
        } else if self.backend is Dx12 && self.os is Windows {
            InteropTransport::D3D12Win32Handle
        } else {
            InteropTransport::Unavailable
        }
    }

    /// The oldest driver that imports through the transport.
    pub open spec fn min_version(&self) -> int {
        if self.transport() is VulkanOpaqueFd { 4100 } else { 11000 }
    }

    /// `i` is the first device the driver gave out.
    pub open spec fn first_device(&self, i: int) -> bool {
        &&& 0 <= i < self.devices@.len()
        &&& self.devices@[i]
        &&& forall|j: int| 0 <= j < i ==> !#[trigger] self.devices@[j]
    }

    /// Everything the interop path needs is there.
    pub open spec fn usable(&self) -> bool {
        &&& !(self.transport() is Unavailable)
        &&& self.vendor == NVIDIA_VENDOR
        &&& self.os is Windows ==> self.cuda_library
        &&& self.init_status == 0
        &&& self.driver_version >= self.min_version()
        &&& exists|i: int| #[trigger] self.first_device(i)
    }
}

impl InteropCapability {
    pub open spec fn is_none(&self) -> bool {
        &&& self.transport is Unavailable
        &&& self.cuda_device_ordinal == -1
        &&& self.driver_version@.len() == 0
    }

    /// It is what the observations amount to.
    pub open spec fn found_by(&self, facts: &ProbeFacts) -> bool {
        &&& !facts.usable() ==> self.is_none()
        &&& facts.usable() ==> {
            &&& self.transport == facts.transport()
            &&& facts.first_device(self.cuda_device_ordinal as int)
            &&& self.driver_version@ == decimal(facts.driver_version as int / 1000) + "."@
                + decimal(facts.driver_version as int % 100 / 10)
        }
    }

    /// The capability that the observations amount to.
    pub fn probe(facts: &ProbeFacts) -> (r: Self)
        requires
            facts.devices@.len() <= i32::MAX,
        ensures
            r.found_by(facts),
    {
        let transport = match (facts.backend, facts.os) {
            (GpuBackend::Vulkan, HostOs::Linux) => InteropTransport::VulkanOpaqueFd,
            (GpuBackend::Dx12, HostOs::Windows) => InteropTransport::D3D12Win32Handle,
            _ => return Self::none(),
        };
        if facts.vendor != NVIDIA_VENDOR {
            return Self::none();
        }
        if facts.os == HostOs::Windows && !facts.cuda_library {
            return Self::none();
        }
        if facts.init_status != 0 {
            return Self::none();
        }
        let min_version: i32 = match transport {
            InteropTransport::VulkanOpaqueFd => 4100,
            InteropTransport::D3D12Win32Handle => 11000,
            InteropTransport::Unavailable => 0,
        };
        if facts.driver_version < min_version {
            return Self::none();
        }
        let mut i: usize = 0;
        while i < facts.devices.len() && !facts.devices[i]
            invariant
                i <= facts.devices.len(),
                forall|j: int| 0 <= j < i ==> !#[trigger] facts.devices@[j],
            decreases facts.devices.len() - i,
        {
            i += 1;
        }
        if i == facts.devices.len() {
            return Self::none();
        }
        assert(facts.first_device(i as int));
        let version: u64 = facts.driver_version as u64;
        let mut driver_version = decimal_str(version / 1000);
        driver_version.append(".");
        driver_version.append(decimal_str(version % 100 / 10).as_str());
        InteropCapability { transport, cuda_device_ordinal: i as i32, driver_version }
    }

    /// No interop.
    pub fn none() -> (r: Self)
        ensures
            r.is_none(),
    {
        InteropCapability {
            transport: InteropTransport::Unavailable,
            cuda_device_ordinal: -1,
            driver_version: String::new(),
        }
    }

    pub fn is_available(&self) -> (r: bool)
        ensures
            r == !(self.transport is Unavailable),
    {
        self.transport != InteropTransport::Unavailable
    }
}

/// A machine without a usable CUDA driver is always answered with "not available", and
/// a capability that is available names a device and comes from an NVIDIA adapter.
pub proof fn law_available_means_usable(facts: ProbeFacts, r: InteropCapability)
    requires
        !facts.usable() ==> r.is_none(),
        facts.usable() ==> r.transport == facts.transport() && facts.first_device(
            r.cuda_device_ordinal as int,
        ),
    ensures
        !(r.transport is Unavailable) <==> facts.usable(),
        !(r.transport is Unavailable) ==> facts.vendor == NVIDIA_VENDOR && r.cuda_device_ordinal >= 0,
{
}

/// What a machine is found capable of.  Memory is shared by file descriptor under Vulkan on
/// Linux, for which a driver of 4.1 will do, and by handle under Direct3D on Windows, for which
/// one of 11.0 is needed and the library has to be there; in both cases on an NVIDIA adapter,
/// with a driver that starts and gives out a device, the first of which is taken.  The version
/// is told in its two parts.
pub proof fn law_machines_are_found_capable(facts: ProbeFacts, r: InteropCapability)
    requires
        r.found_by(&facts),
    ensures
        ({
            let ready = facts.vendor == 0x10DE && facts.init_status == 0;
            let some = exists|i: int| 0 <= i < facts.devices@.len() && #[trigger] facts.devices@[i];
            &&& r.transport is VulkanOpaqueFd <==> {
                &&& facts.backend is Vulkan && facts.os is Linux
                &&& ready && some
                &&& facts.driver_version >= 4100
            }
            &&& r.transport is D3D12Win32Handle <==> {
                &&& facts.backend is Dx12 && facts.os is Windows
                &&& ready && some && facts.cuda_library
                &&& facts.driver_version >= 11000
            }
            &&& r.transport is Unavailable ==> r.cuda_device_ordinal == -1
                && r.driver_version@.len() == 0
            &&& !(r.transport is Unavailable) ==> {
                let device = r.cuda_device_ordinal as int;
                &&& 0 <= device < facts.devices@.len()
                &&& facts.devices@[device]
                &&& forall|j: int| 0 <= j < device ==> !#[trigger] facts.devices@[j]
                &&& r.driver_version@ == decimal(facts.driver_version as int / 1000) + "."@
                    + decimal(facts.driver_version as int % 100 / 10)
            }
        }),
{
    if exists|i: int| 0 <= i < facts.devices@.len() && #[trigger] facts.devices@[i] {
        let i = choose|i: int| 0 <= i < facts.devices@.len() && #[trigger] facts.devices@[i];
        lemma_some_device_is_first(facts, i);
    }
}

proof fn lemma_some_device_is_first(facts: ProbeFacts, i: int)
    requires
        0 <= i < facts.devices@.len(),
        facts.devices@[i],
    ensures
        exists|k: int| #[trigger] facts.first_device(k),
    decreases i,
{
    if !facts.first_device(i) {
        let j = choose|j: int| 0 <= j < i && #[trigger] facts.devices@[j];
        lemma_some_device_is_first(facts, j);
    }
}

} // verus!
