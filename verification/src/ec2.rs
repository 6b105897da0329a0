//! Machine-initialization engine: the capability catalog and the context
//! kinds (architecture and operating-system families) that generators are
//! keyed by.

use vstd::prelude::*;

pub mod plugins;
pub mod selection;
pub mod validate;
pub mod assemble;

verus! {

/// Architecture families an instance can be launched with.
#[derive(Debug, Clone, Copy, PartialEq, Eq, Structural)]
pub enum ArchType {
    Amd64,
    Amd64GpuNvidia,
    Amd64GpuRadeon,
    Arm64,
    Arm64GpuNvidia,
}

impl ArchType {
    /// The canonical string form of the architecture family.
    pub fn as_str(&self) -> (r: &'static str)
        ensures
            r@ == arch_str(*self),
    {
        match self {
            ArchType::Amd64 => "amd64",
            ArchType::Amd64GpuNvidia => "amd64-gpu-nvidia",
            ArchType::Amd64GpuRadeon => "amd64-gpu-radeon",
            ArchType::Arm64 => "arm64",
            ArchType::Arm64GpuNvidia => "arm64-gpu-nvidia",
        }
    }

    /// Whether the family carries an accelerator with the vendor driver the
    /// catalog's driver capability installs.
    pub fn is_nvidia(&self) -> (r: bool)
        ensures
            r == arch_is_nvidia(*self),
    {
        matches!(self, ArchType::Amd64GpuNvidia | ArchType::Arm64GpuNvidia)
    }
}

/// The canonical string form of an architecture family.
pub open spec fn arch_str(a: ArchType) -> Seq<char> {
    match a {
        ArchType::Amd64 => "amd64"@,
        ArchType::Amd64GpuNvidia => "amd64-gpu-nvidia"@,
        ArchType::Amd64GpuRadeon => "amd64-gpu-radeon"@,
        ArchType::Arm64 => "arm64"@,
        ArchType::Arm64GpuNvidia => "arm64-gpu-nvidia"@,
    }
}

/// Whether an architecture family carries the vendor accelerator.
pub open spec fn arch_is_nvidia(a: ArchType) -> bool {
    a is Amd64GpuNvidia || a is Arm64GpuNvidia
}

/// Operating-system families the generators know how to target.
#[derive(Debug, Clone, Copy, PartialEq, Eq, Structural)]
pub enum OsType {
    AmazonLinux2,
    Ubuntu2004,
    Ubuntu2204,
}

impl OsType {
    /// The canonical string form of the operating-system family.
    pub fn as_str(&self) -> (r: &'static str)
        ensures
            r@ == os_str(*self),
    {
        match self {
            OsType::AmazonLinux2 => "al2",
            OsType::Ubuntu2004 => "ubuntu20.04",
            OsType::Ubuntu2204 => "ubuntu22.04",
        }
    }
}

/// The canonical string form of an operating-system family.
pub open spec fn os_str(o: OsType) -> Seq<char> {
    match o {
        OsType::AmazonLinux2 => "al2"@,
        OsType::Ubuntu2004 => "ubuntu20.04"@,
        OsType::Ubuntu2204 => "ubuntu22.04"@,
    }
}

} // verus!
