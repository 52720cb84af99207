use vstd::prelude::*;

verus! {

/// The kind of device a tensor is placed on.
#[derive(Debug, Clone, Copy, PartialEq, Eq, Structural)]
pub enum DeviceType {
    CPU,
    GPU,
    CPUPinned,
}

impl DeviceType {
    /// The engine's numeric code for this device kind.
    pub open spec fn spec_code(self) -> i32 {
        match self {
            DeviceType::CPU => 1,
            DeviceType::GPU => 2,
            DeviceType::CPUPinned => 3,
        }
    }

    pub fn code(&self) -> (r: i32)
        ensures
            r == self.spec_code(),
    {
        match self {
            DeviceType::CPU => 1,
            DeviceType::GPU => 2,
            DeviceType::CPUPinned => 3,
        }
    }
}

/// Device placement of a tensor: a device kind and an index among devices of
/// that kind.
#[derive(Debug, Clone, Copy, PartialEq, Eq, Structural)]
pub struct Context {
    pub device_type: DeviceType,
    pub device_id: isize,
}

impl Default for Context {
    fn default() -> (r: Self)
        ensures
            r == (Context { device_type: DeviceType::CPU, device_id: 0 }),
    {
        Context::new(DeviceType::CPU, 0)
    }
}

impl Context {
    pub fn new(device_type: DeviceType, device_id: isize) -> (r: Self)
        ensures
            r.device_type == device_type,
            r.device_id == device_id,
    {
        Context { device_type: device_type, device_id: device_id }
    }

    pub fn gpu(device_id: isize) -> (r: Self)
        ensures
            r == (Context { device_type: DeviceType::GPU, device_id }),
    {
        Self::new(DeviceType::GPU, device_id)
    }

    pub fn default_gpu() -> (r: Self)
        ensures
            r == (Context { device_type: DeviceType::GPU, device_id: 0 }),
    {
        Self::gpu(0)
    }

    pub fn cpu(device_id: isize) -> (r: Self)
        ensures
            r == (Context { device_type: DeviceType::CPU, device_id }),
    {
        Self::new(DeviceType::CPU, device_id)
    }

    pub fn default_cpu() -> (r: Self)
        ensures
            r == (Context { device_type: DeviceType::CPU, device_id: 0 }),
    {
        Self::cpu(0)
    }

    /// The device index as the engine's `int`, where it fits.
    pub fn device_id_code(&self) -> (r: Option<i32>)
        ensures
            r matches Some(v) <==> i32::MIN <= self.device_id <= i32::MAX,
            r matches Some(v) ==> v == self.device_id,
    {
        if i32::MIN as isize <= self.device_id && self.device_id <= i32::MAX as isize {
            Some(self.device_id as i32)
        } else {
            None
        }
    }
}

} // verus!
