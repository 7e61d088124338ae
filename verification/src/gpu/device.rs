//! GPU device enumeration and selection.
//!
//! This module provides functions to enumerate available GPU adapters and
//! select one for memory testing.  Auto-selection prefers a discrete GPU
//! over an integrated one, an integrated one over a virtual one, and falls
//! back to the first adapter found.

use vstd::prelude::*;

verus! {

use crate::error::GpuError;
use crate::gpu::api::adapter_descriptors;
use crate::gpu::api::adapter_backend;
use crate::gpu::api::adapter_device_class;
use crate::gpu::api::enumerate_adapters_all;
use crate::text::hex4_string;
use crate::text::dec_string;
use crate::text::spec_dec;
use crate::text::spec_hex4;
use vstd::string::StringExecFns;

/// The graphics API a GPU adapter speaks.
#[derive(Debug, Clone, Copy, PartialEq, Eq, Structural)]
pub enum Backend {
    Noop,
    Vulkan,
    Metal,
    Dx12,
    Gl,
    BrowserWebGpu,
}

/// The hardware class of a GPU adapter.
#[derive(Debug, Clone, Copy, PartialEq, Eq, Structural)]
pub enum DeviceClass {
    Other,
    IntegratedGpu,
    DiscreteGpu,
    VirtualGpu,
    Cpu,
}

/// Information about an available GPU.
///
/// Immutable once enumerated; the index is only stable within one
/// enumeration call.
#[derive(Debug, Clone)]
pub struct GpuInfo {
    /// Index in the enumerated list.
    pub index: usize,
    /// GPU name (e.g., "NVIDIA GeForce RTX 4090").
    pub name: String,
    /// Vendor name (e.g., "NVIDIA").
    pub vendor: String,
    /// Graphics API backend (Vulkan, Metal, DX12, etc.).
    pub backend: Backend,
    /// Device type (discrete, integrated, virtual, etc.).
    pub device_type: DeviceClass,
    /// Driver version string.
    pub driver: String,
}

/// The label of each backend.
pub open spec fn spec_backend_label(b: Backend) -> Seq<char> {
    match b {
        Backend::Noop => "Noop"@,
        Backend::Vulkan => "Vulkan"@,
        Backend::Metal => "Metal"@,
        Backend::Dx12 => "Dx12"@,
        Backend::Gl => "Gl"@,
        Backend::BrowserWebGpu => "BrowserWebGpu"@,
    }
}

/// Returns the label of a backend.
pub fn backend_label(b: Backend) -> (r: &'static str)
    ensures
        r@ == spec_backend_label(b),
{
    match b {
        Backend::Noop => "Noop",
        Backend::Vulkan => "Vulkan",
        Backend::Metal => "Metal",
        Backend::Dx12 => "Dx12",
        Backend::Gl => "Gl",
        Backend::BrowserWebGpu => "BrowserWebGpu",
    }
}

/// The label of each device class.
pub open spec fn spec_class_label(c: DeviceClass) -> Seq<char> {
    match c {
        DeviceClass::Other => "Other"@,
        DeviceClass::IntegratedGpu => "IntegratedGpu"@,
        DeviceClass::DiscreteGpu => "DiscreteGpu"@,
        DeviceClass::VirtualGpu => "VirtualGpu"@,
        DeviceClass::Cpu => "Cpu"@,
    }
}

/// Returns the label of a device class.
pub fn class_label(c: DeviceClass) -> (r: &'static str)
    ensures
        r@ == spec_class_label(c),
{
    match c {
        DeviceClass::Other => "Other",
        DeviceClass::IntegratedGpu => "IntegratedGpu",
        DeviceClass::DiscreteGpu => "DiscreteGpu",
        DeviceClass::VirtualGpu => "VirtualGpu",
        DeviceClass::Cpu => "Cpu",
    }
}

impl GpuInfo {
    /// The one-line rendering of an adapter: its index, name, backend and
    /// device class.
    pub open spec fn spec_describe(&self) -> Seq<char> {
        "["@ + spec_dec(self.index as nat) + "] "@ + self.name@ + " ("@ + spec_backend_label(
            self.backend,
        ) + ", "@ + spec_class_label(self.device_type) + ")"@
    }

    /// Renders the adapter on one line, as a device listing shows it.
    pub fn describe(&self) -> (r: String)
        ensures
            r@ == self.spec_describe(),
    {
        let mut s = String::from_str("[");
        s.append(dec_string(self.index as u64).as_str());
        s.append("] ");
        s.append(self.name.as_str());
        s.append(" (");
        s.append(backend_label(self.backend));
        s.append(", ");
        s.append(class_label(self.device_type));
        s.append(")");
        proof {
            assert(s@ =~= self.spec_describe());
        }
        s
    }
}

/// The vendor name that belongs to a PCI vendor identifier; an identifier
/// outside the table renders as a hex-tagged "Unknown".
pub open spec fn spec_vendor_name(vendor_id: u32) -> Seq<char> {
    if vendor_id == 0x1002 {
        "AMD"@
    } else if vendor_id == 0x1010 {
        "ImgTec"@
    } else if vendor_id == 0x10DE {
        "NVIDIA"@
    } else if vendor_id == 0x13B5 {
        "ARM"@
    } else if vendor_id == 0x5143 {
        "Qualcomm"@
    } else if vendor_id == 0x8086 {
        "Intel"@
    } else if vendor_id == 0x106B {
        "Apple"@
    } else {
        "Unknown (0x"@ + spec_hex4(vendor_id as nat) + ")"@
    }
}

/// Converts a vendor ID to a human-readable name.
pub fn vendor_name(vendor_id: u32) -> (r: String)
    ensures
        r@ == spec_vendor_name(vendor_id),
{
    if vendor_id == 0x1002 {
        String::from_str("AMD")
    } else if vendor_id == 0x1010 {
        String::from_str("ImgTec")
    } else if vendor_id == 0x10DE {
        String::from_str("NVIDIA")
    } else if vendor_id == 0x13B5 {
        String::from_str("ARM")
    } else if vendor_id == 0x5143 {
        String::from_str("Qualcomm")
    } else if vendor_id == 0x8086 {
        String::from_str("Intel")
    } else if vendor_id == 0x106B {
        String::from_str("Apple")
    } else {
        let mut s = String::from_str("Unknown (0x");
        s.append(hex4_string(vendor_id).as_str());
        s.append(")");
        proof {
            assert(s@ =~= spec_vendor_name(vendor_id));
        }
        s
    }
}

/// Builds the library's description of one adapter.
fn describe_adapter(adapter: &wgpu::Adapter, index: usize) -> (r: GpuInfo)
    ensures
        r.index == index,
{
    let (name, vendor, driver) = adapter_descriptors(adapter);
    let backend = adapter_backend(adapter);
    let device_type = adapter_device_class(adapter);
    GpuInfo { index, name, vendor: vendor_name(vendor), backend, device_type, driver }
}

/// Describes every adapter of an enumeration: one record per adapter, each
/// carrying its position in the list.
pub fn describe_adapters(adapters: &Vec<wgpu::Adapter>) -> (r: Vec<GpuInfo>)
    ensures
        r@.len() == adapters@.len(),
        forall|k: int| 0 <= k < r@.len() ==> (#[trigger] r@[k]).index == k,
{
    let mut infos: Vec<GpuInfo> = Vec::new();
    let mut i: usize = 0;
    while i < adapters.len()
        invariant
            infos@.len() == i,
            i <= adapters@.len(),
            forall|k: int| 0 <= k < i ==> (#[trigger] infos@[k]).index == k,
        decreases adapters@.len() - i,
    {
        let info = describe_adapter(&adapters[i], i);
        infos.push(info);
        i = i + 1;
    }
    infos
}

/// Enumerates all available GPU adapters.
///
/// Returns a `GpuInfo` for each adapter of each available backend — see
/// [`describe_adapters`] for the per-adapter guarantee — indexed in
/// enumeration order; the list is empty when no GPU is available.
pub fn enumerate_gpus() -> (r: Vec<GpuInfo>)
    ensures
        forall|k: int| 0 <= k < r@.len() ==> (#[trigger] r@[k]).index == k,
{
    let adapters = enumerate_adapters_all();
    describe_adapters(&adapters)
}

/// Whether some position in a list of device classes holds the given one.
pub open spec fn spec_has_class(classes: Seq<DeviceClass>, c: DeviceClass) -> bool {
    exists|i: int| 0 <= i < classes.len() && classes[i] == c
}

/// Finds the first adapter of the given class, if any.
fn first_with_class(classes: &Vec<DeviceClass>, c: DeviceClass) -> (r: Option<usize>)
    ensures
        match r {
            Some(i) => i < classes@.len() && classes@[i as int] == c && forall|j: int|
                0 <= j < i ==> classes@[j] != c,
            None => forall|j: int| 0 <= j < classes@.len() ==> classes@[j] != c,
        },
{
    let mut i: usize = 0;
    while i < classes.len()
        invariant
            i <= classes@.len(),
            forall|j: int| 0 <= j < i ==> classes@[j] != c,
        decreases classes@.len() - i,
    {
        if classes[i] == c {
            return Some(i);
        }
        i = i + 1;
    }
    None
}

/// Picks the preferred adapter index from the device classes of an
/// enumeration: the first discrete GPU, else the first integrated GPU, else
/// the first virtual GPU, else the first adapter.
pub fn auto_select_index(classes: &Vec<DeviceClass>) -> (r: usize)
    requires
        1 <= classes@.len(),
    ensures
        r < classes@.len(),
        ({
            if spec_has_class(classes@, DeviceClass::DiscreteGpu) {
                classes@[r as int] == DeviceClass::DiscreteGpu && forall|j: int|
                    0 <= j < r ==> classes@[j] != DeviceClass::DiscreteGpu
            } else if spec_has_class(classes@, DeviceClass::IntegratedGpu) {
                classes@[r as int] == DeviceClass::IntegratedGpu && forall|j: int|
                    0 <= j < r ==> classes@[j] != DeviceClass::IntegratedGpu
            } else if spec_has_class(classes@, DeviceClass::VirtualGpu) {
                classes@[r as int] == DeviceClass::VirtualGpu && forall|j: int|
                    0 <= j < r ==> classes@[j] != DeviceClass::VirtualGpu
            } else {
                r == 0
            }
        }),
{
    if let Some(i) = first_with_class(classes, DeviceClass::DiscreteGpu) {
        return i;
    }
    if let Some(i) = first_with_class(classes, DeviceClass::IntegratedGpu) {
        return i;
    }
    if let Some(i) = first_with_class(classes, DeviceClass::VirtualGpu) {
        return i;
    }
    0
}

/// Selects a GPU adapter by index.
///
/// With no index, auto-selects the preferred GPU (discrete over integrated
/// over virtual, else the first found).  With an explicit index, selects
/// that adapter after validating the bounds.  The decision over the
/// enumerated list is [`select_from`], where it is pinned exactly; only the
/// enumeration itself is an outside outcome here.
pub fn select_gpu(index: Option<usize>) -> (r: Result<wgpu::Adapter, GpuError>)
    ensures
        match index {
            None => r is Ok || (r matches Err(e) && e is NoAdapter),
            Some(idx) => r is Ok || (r matches Err(e) && (e is NoAdapter || (
            e matches GpuError::AdapterNotFound { index: i2, .. } && i2 == idx))),
        },
{
    let adapters = enumerate_adapters_all();
    select_from(adapters, index)
}

/// Selects one adapter out of an enumerated list.
///
/// Fails with `NoAdapter` exactly when the list is empty.  An explicit index
/// within bounds always selects an adapter; one out of bounds fails with
/// `AdapterNotFound`, echoing the index and naming every available adapter.
/// Without an index, a non-empty list always yields an adapter, chosen by
/// the preference order of [`auto_select_index`].
pub fn select_from(adapters: Vec<wgpu::Adapter>, index: Option<usize>) -> (r: Result<
    wgpu::Adapter,
    GpuError,
>)
    ensures
        (adapters@.len() == 0) <==> (r matches Err(e) && e is NoAdapter),
        match index {
            None => 0 < adapters@.len() ==> r is Ok,
            Some(idx) => {
                &&& idx < adapters@.len() ==> r is Ok
                &&& 0 < adapters@.len() && idx >= adapters@.len() ==> (r matches Err(e)
                    && e matches GpuError::AdapterNotFound { index: i2, available } && i2 == idx
                    && available@.len() == adapters@.len())
            },
        },
{
    let mut adapters = adapters;
    if adapters.len() == 0 {
        return Err(GpuError::NoAdapter);
    }
    match index {
        Some(idx) => {
            if idx >= adapters.len() {
                let mut available: Vec<String> = Vec::new();
                let mut k: usize = 0;
                while k < adapters.len()
                    invariant
                        available@.len() == k,
                        k <= adapters@.len(),
                    decreases adapters@.len() - k,
                {
                    let (name, _vendor, _driver) = adapter_descriptors(&adapters[k]);
                    available.push(name);
                    k = k + 1;
                }
                return Err(GpuError::AdapterNotFound { index: idx, available });
            }
            Ok(adapters.remove(idx))
        },
        None => {
            let mut classes: Vec<DeviceClass> = Vec::new();
            let mut k: usize = 0;
            while k < adapters.len()
                invariant
                    classes@.len() == k,
                    k <= adapters@.len(),
                decreases adapters@.len() - k,
            {
                let class = adapter_device_class(&adapters[k]);
                classes.push(class);
                k = k + 1;
            }
            let choice = auto_select_index(&classes);
            Ok(adapters.remove(choice))
        },
    }
}

} // verus!
