//! Which hardware decodes, and in which order it is tried.
use crate::interop::capability::HostOs;
use vstd::prelude::*;

verus! {

/// A device to decode with.
#[derive(Copy, Clone, Debug, PartialEq, Eq, Structural)]
pub enum HwDeviceType {
    /// NVIDIA.
    Cuda,
    /// Windows.
    D3D12Va,
    /// macOS.
    VideoToolbox,
    /// Linux.
    Vaapi,
    /// No hardware.
    Software,
}

/// Have FFmpeg decode in the device's primary context rather than in one of its own.
pub const AV_CUDA_USE_PRIMARY_CONTEXT: i32 = 1;

impl HwDeviceType {
    /// How a device of the type is created.
    pub open spec fn flags(self) -> i32 {
        if self is Cuda { AV_CUDA_USE_PRIMARY_CONTEXT } else { 0 }
    }

    /// The flags a device of the type is created with.  A CUDA decoder shares the primary
    /// context, so that a copy out of its surfaces can be ordered after the decoding.
    pub fn create_flags(self) -> (r: i32)
        ensures
            r == self.flags(),
    {
        match self {
            HwDeviceType::Cuda => AV_CUDA_USE_PRIMARY_CONTEXT,
            _ => 0,
        }
    }

    /// FFmpeg's number of the device type.
    pub open spec fn number(self) -> i32 {
        match self {
            HwDeviceType::Cuda => 2,
            HwDeviceType::D3D12Va => 13,
            HwDeviceType::VideoToolbox => 9,
            HwDeviceType::Vaapi => 6,
            HwDeviceType::Software => 0,
        }
    }

    /// FFmpeg's number of the device type.
    pub fn ffi_value(self) -> (r: i32)
        ensures
            r == self.number(),
    {
        match self {
            HwDeviceType::Cuda => 2,
            HwDeviceType::D3D12Va => 13,
            HwDeviceType::VideoToolbox => 9,
            HwDeviceType::Vaapi => 6,
            HwDeviceType::Software => 0,
        }
    }
}

/// Why probing failed.
#[derive(Debug)]
pub enum HwAccelError {
    AllDevicesFailed,
}

/// The device types worth trying on a system, best first.
pub open spec fn preferred(os: HostOs) -> Seq<HwDeviceType> {
    match os {
        HostOs::Windows => seq![HwDeviceType::D3D12Va, HwDeviceType::Cuda],
        HostOs::MacOs => seq![HwDeviceType::VideoToolbox],
        HostOs::Linux => seq![HwDeviceType::Cuda, HwDeviceType::Vaapi],
        HostOs::Other => seq![],
    }
}

/// What probing has to do next.
#[derive(Copy, Clone, Debug, PartialEq, Eq, Structural)]
pub enum HwProbeStep {
    /// Create a device of that type.
    Create { device: HwDeviceType },
    /// Decode on that device.
    Attached { device: HwDeviceType },
    /// No device works: decode in software.
    Software,
}

/// Device types being tried one after the other.
pub struct HwProbe {
    pub os: HostOs,
    pub candidates: Vec<HwDeviceType>,
    /// The candidate being tried.
    pub current: usize,
}

impl HwProbe {
    pub open spec fn wf(&self) -> bool {
        self.candidates@ == preferred(self.os)
    }

    /// Try candidate `i`, or fall back to software when there is no such candidate.
    pub open spec fn attempt(os: HostOs, i: int) -> HwProbeStep {
        if i < preferred(os).len() {
            HwProbeStep::Create { device: preferred(os)[i] }
        } else {
            HwProbeStep::Software
        }
    }

    fn step(&self) -> (r: HwProbeStep)
        requires
            self.wf(),
        ensures
            r == Self::attempt(self.os, self.current as int),
    {
        if self.current < self.candidates.len() {
            HwProbeStep::Create { device: self.candidates[self.current] }
        } else {
            HwProbeStep::Software
        }
    }

    /// A device was created, with that status; zero is success.
    pub fn created(&mut self, status: i32) -> (r: HwProbeStep)
        requires
            old(self).wf(),
            old(self).current < preferred(old(self).os).len(),
        ensures
            final(self).wf(),
            final(self).os == old(self).os,
            status == 0 ==> *final(self) == *old(self) && r == (HwProbeStep::Attached {
                device: preferred(old(self).os)[old(self).current as int],
            }),
            status != 0 ==> final(self).current == old(self).current + 1 && r == Self::attempt(
                old(self).os,
                old(self).current + 1,
            ),
    {
        if status == 0 {
            return HwProbeStep::Attached { device: self.candidates[self.current] };
        }
        self.current += 1;
        self.step()
    }
}

/// Start looking for a device that decodes.
pub fn probe_hardware_device(os: HostOs) -> (r: (HwProbe, HwProbeStep))
    ensures
        r.0.wf(),
        r.0.os == os,
        r.0.current == 0,
        r.1 == HwProbe::attempt(os, 0),
{
    let mut candidates: Vec<HwDeviceType> = Vec::new();
    match os {
        HostOs::Windows => {
            candidates.push(HwDeviceType::D3D12Va);
            candidates.push(HwDeviceType::Cuda);
        },
        HostOs::MacOs => {
            candidates.push(HwDeviceType::VideoToolbox);
        },
        HostOs::Linux => {
            candidates.push(HwDeviceType::Cuda);
            candidates.push(HwDeviceType::Vaapi);
        },
        HostOs::Other => {},
    }
    assert(candidates@ =~= preferred(os));
    let probe = HwProbe { os, candidates, current: 0 };
    let step = probe.step();
    (probe, step)
}

/// Each device type has FFmpeg's own number, which no other has, and only a CUDA device shares
/// the primary context.
pub proof fn law_devices_go_by_their_numbers(device: HwDeviceType)
    ensures
        device.number() == 2 <==> device is Cuda,
        device.number() == 6 <==> device is Vaapi,
        device.number() == 9 <==> device is VideoToolbox,
        device.number() == 13 <==> device is D3D12Va,
        device.number() == 0 <==> device is Software,
        device.flags() == 1 <==> device is Cuda,
        device.flags() == 0 <==> !(device is Cuda),
{
}

/// The devices of a system are tried one after the other and each once, and software is what
/// is left when none of them works; no system tries a device of another.
pub proof fn law_every_device_is_tried(os: HostOs, i: int)
    requires
        0 <= i,
    ensures
        ({
            let tried = preferred(os);
            &&& i < tried.len() ==> HwProbe::attempt(os, i) == (HwProbeStep::Create {
                device: tried[i],
            })
            &&& i >= tried.len() ==> HwProbe::attempt(os, i) is Software
            &&& tried.contains(HwDeviceType::Cuda) <==> os is Windows || os is Linux
            &&& tried.contains(HwDeviceType::D3D12Va) <==> os is Windows
            &&& tried.contains(HwDeviceType::Vaapi) <==> os is Linux
            &&& tried.contains(HwDeviceType::VideoToolbox) <==> os is MacOs
            &&& !tried.contains(HwDeviceType::Software)
            &&& tried.no_duplicates()
            &&& os is Linux ==> tried[0] is Cuda
            &&& os is Windows ==> tried[0] is D3D12Va
        }),
{
    let tried = preferred(os);
    match os {
        HostOs::Windows => {
            assert(tried[0] is D3D12Va && tried[1] is Cuda);
        },
        HostOs::MacOs => {
            assert(tried[0] is VideoToolbox);
        },
        HostOs::Linux => {
            assert(tried[0] is Cuda && tried[1] is Vaapi);
        },
        HostOs::Other => {},
    }
}

} // verus!
