//! Trusted boundary to the CUDA driver, through the `cudarc` crate.
//!
//! The device context, device buffers and kernel functions are opaque
//! outside values; the wrappers here state only what `cudarc`'s source
//! shows of each call.  Device memory contents are never named: a kernel
//! launch mutates the output buffer outside the verified world, so the only
//! thing the contracts track across the pipeline is each buffer's byte
//! length, which no operation changes.

use vstd::prelude::*;
use vstd::string::StringSliceAdditionalSpecFns;
use std::sync::Arc;
use cudarc::driver::{CudaDevice, CudaFunction, CudaSlice, DriverError};
use cudarc::nvrtc::{CompileError, Ptx};

verus! {

#[verifier::external_type_specification]
#[verifier::external_body]
pub struct ExCudaDevice(CudaDevice);

#[verifier::external_type_specification]
#[verifier::external_body]
#[verifier::reject_recursive_types(T)]
pub struct ExCudaSlice<T>(CudaSlice<T>);

#[verifier::external_type_specification]
#[verifier::external_body]
pub struct ExCudaFunction(CudaFunction);

#[verifier::external_type_specification]
#[verifier::external_body]
pub struct ExDriverError(DriverError);

#[verifier::external_type_specification]
#[verifier::external_body]
pub struct ExPtx(Ptx);

#[verifier::external_type_specification]
#[verifier::external_body]
pub struct ExCompileError(CompileError);

/// Whether a byte string holds no NUL byte.  The driver bindings convert
/// kernel text and entry names to C strings, which aborts on an interior
/// NUL, so the wrappers below demand this of their string arguments.
pub open spec fn no_nul_bytes(s: Seq<u8>) -> bool {
    forall|i: int| 0 <= i < s.len() ==> s[i] != 0
}

/// Checks that a string holds no NUL byte, so that it can be handed to the
/// driver bindings.
pub fn has_no_nul(s: &str) -> (r: bool)
    ensures
        r == no_nul_bytes(s.spec_bytes()),
{
    let bytes = s.as_bytes();
    let n = bytes.len();
    let mut i: usize = 0;
    while i < n
        invariant
            i <= n,
            n == bytes@.len(),
            bytes@ == s.spec_bytes(),
            forall|k: int| 0 <= k < i ==> bytes@[k] != 0,
        decreases n - i,
    {
        if bytes[i] == 0 {
            return false;
        }
        i = i + 1;
    }
    true
}

/// Whether a program is the compiled image that [`compile_kernel`] returns,
/// as opposed to one wrapping raw text: loading an image performs no text
/// conversion that could abort.
pub uninterp spec fn is_compiled_image(p: Ptx) -> bool;

/// The byte length of a device buffer: the number of bytes of device memory
/// it owns.  Fixed when the buffer is created; no operation resizes it.
pub uninterp spec fn dev_len(buf: CudaSlice<u8>) -> nat;

/// The process-wide compute device context: the outcome of one acquisition
/// attempt, made at process startup and reused for the process lifetime.
/// Absence is a normal outcome — every caller degrades to a "no device"
/// status instead of failing.
pub struct DeviceHandle {
    dev: Option<Arc<CudaDevice>>,
}

impl DeviceHandle {
    /// Whether the acquisition attempt produced a device.
    pub closed spec fn present(&self) -> bool {
        self.dev is Some
    }

    /// The handle for a process where no device could be acquired.
    pub fn absent() -> (r: DeviceHandle)
        ensures
            !r.present(),
    {
        DeviceHandle { dev: None }
    }

    /// The handle for a process that acquired `dev`.
    pub fn with_device(dev: Arc<CudaDevice>) -> (r: DeviceHandle)
        ensures
            r.present(),
    {
        DeviceHandle { dev: Some(dev) }
    }

    /// The cached acquisition outcome, returned without re-attempting
    /// initialization.
    pub fn get(&self) -> (r: Option<&Arc<CudaDevice>>)
        ensures
            r is Some <==> self.present(),
    {
        match &self.dev {
            Some(d) => Some(d),
            None => None,
        }
    }

    /// Whether a device is available.
    pub fn is_present(&self) -> (r: bool)
        ensures
            r == self.present(),
    {
        match &self.dev {
            Some(_) => true,
            None => false,
        }
    }
}

/// Relies on `CudaDevice::htod_copy`: allocates device memory sized to the
/// source bytes and copies them in; on success the returned buffer's byte
/// length equals the source length.
#[verifier::external_body]
pub(crate) fn upload_bytes(dev: &Arc<CudaDevice>, src: &Vec<u8>) -> (r: Result<
    CudaSlice<u8>,
    DriverError,
>)
    ensures
        r is Ok ==> dev_len(r->Ok_0) == src@.len(),
{
    dev.htod_copy(src.clone())
}

/// Relies on `CudaDevice::alloc_zeros`: allocates `len` bytes of
/// zero-initialized device memory; on success the returned buffer's byte
/// length equals `len`.
#[verifier::external_body]
pub(crate) fn alloc_zeroed(dev: &Arc<CudaDevice>, len: usize) -> (r: Result<
    CudaSlice<u8>,
    DriverError,
>)
    ensures
        r is Ok ==> dev_len(r->Ok_0) == len,
{
    dev.alloc_zeros::<u8>(len)
}

/// Relies on `cudarc::nvrtc::compile_ptx`: compiles kernel source text to a
/// loadable program image, reporting compilation failure as an error.  The
/// text must hold no NUL byte: the callee converts it to a C string and
/// aborts on one.  The call also aborts when the runtime-compiler library
/// itself is absent or misbehaves; a process that acquired a device is
/// expected to have it.  Nothing is promised of the compiled image beyond
/// its kind: whether the text compiles is the compiler's decision.
#[verifier::external_body]
pub(crate) fn compile_kernel(src: &str) -> (r: Result<Ptx, CompileError>)
    requires
        no_nul_bytes(src.spec_bytes()),
    ensures
        r is Ok ==> is_compiled_image(r->Ok_0),
{
    cudarc::nvrtc::compile_ptx(src)
}

/// Relies on `CudaDevice::load_ptx`: loads a compiled program as a module
/// registered under `module_name` and resolves the listed entry name,
/// reporting an error if either loading or resolution fails.  The program
/// must be a compiled image and the entry name NUL-free, since the callee
/// converts the entry name (and the text of a non-image program) to C
/// strings, which aborts on an interior NUL.  Nothing is promised of the
/// outcome: whether the module loads is the driver's decision.
#[verifier::external_body]
pub(crate) fn load_module(
    dev: &Arc<CudaDevice>,
    ptx: Ptx,
    module_name: &str,
    entry: &'static str,
) -> (r: Result<(), DriverError>)
    requires
        is_compiled_image(ptx),
        no_nul_bytes(entry.spec_bytes()),
{
    dev.load_ptx(ptx, module_name, &[entry])
}

/// Relies on `CudaDevice::get_func`: looks up an entry function of a module
/// previously registered under `module_name`, returning `None` when the
/// module or the function is unknown.
#[verifier::external_body]
pub(crate) fn get_function(
    dev: &Arc<CudaDevice>,
    module_name: &str,
    func_name: &str,
) -> (r: Option<CudaFunction>) {
    dev.get_func(module_name, func_name)
}

/// Relies on `CudaDevice::dtoh_sync_copy_into`: a blocking copy of the
/// device buffer into the host buffer, which must have exactly the device
/// buffer's byte length (the callee asserts the lengths are equal).  The
/// host buffer keeps its length; its contents after a failed copy are
/// unspecified, and after a successful one they are whatever the device
/// held.
#[verifier::external_body]
pub(crate) fn download_into(
    dev: &Arc<CudaDevice>,
    src: &CudaSlice<u8>,
    dst: &mut Vec<u8>,
) -> (r: Result<(), DriverError>)
    requires
        old(dst)@.len() == dev_len(*src),
    ensures
        final(dst)@.len() == old(dst)@.len(),
{
    dev.dtoh_sync_copy_into(src, dst.as_mut_slice())
}

} // verus!
