//! The GPU compute interface of the simulation components and its CUDA and
//! ROCm backends, which are not connected to a runtime yet.
use vstd::prelude::*;

verus! {

/// Opaque GPU compute kernel handle.
#[derive(Debug, Clone, Copy, PartialEq, Eq, Structural)]
pub struct ComputeKernel {
    /// Kernel identifier (implementation-defined).
    pub id: u32,
}

/// Arguments of a compute dispatch.
#[derive(Debug, Clone)]
pub struct KernelArgs {
    /// Raw bytes passed to the kernel.
    pub data: Vec<u8>,
    /// Work-group dimensions x, y, z.
    pub work_groups: [u32; 3],
}

/// Why a dispatch failed.
#[derive(Debug, Clone)]
pub struct ComputeError {
    pub message: String,
}

/// A GPU compute backend.
pub trait GpuComputeBackend: Send + Sync {
    /// Dispatches a compute kernel.
    fn dispatch_kernel(&self, kernel: &ComputeKernel, args: &KernelArgs) -> Result<(), ComputeError>;
}

/// The CUDA backend stub: every dispatch succeeds without doing any work, so
/// that code builds and runs without a CUDA runtime.
#[derive(Debug)]
pub struct CudaBackend {
    /// CUDA device ordinal.
    pub device: i32,
}

/// The ROCm/HIP backend stub: every dispatch succeeds without doing any work,
/// so that code builds and runs without a ROCm runtime.
#[derive(Debug)]
pub struct RocmBackend {
    /// HIP device ordinal.
    pub device: i32,
}

impl GpuComputeBackend for CudaBackend {
    fn dispatch_kernel(&self, kernel: &ComputeKernel, args: &KernelArgs) -> (r: Result<
        (),
        ComputeError,
    >)
        ensures
            r is Ok,
    {
        Ok(())
    }
}

impl GpuComputeBackend for RocmBackend {
    fn dispatch_kernel(&self, kernel: &ComputeKernel, args: &KernelArgs) -> (r: Result<
        (),
        ComputeError,
    >)
        ensures
            r is Ok,
    {
        Ok(())
    }
}

} // verus!
