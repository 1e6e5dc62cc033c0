//! The resize pipeline: a linear state machine with early exit on failure.
//!
//! A resize call validates the request, acquires the cached device, uploads
//! the input, allocates the zeroed output buffer, compiles and loads the
//! kernel module, resolves the entry function and plans the launch — all
//! here, each step either advancing or terminating with its own status.  The launch itself
//! is the one step the surrounding host program performs, on the
//! [`PreparedLaunch`] this module hands out; downloading the result and
//! writing it through to the caller's buffer is [`finish_resize`].  Exactly
//! one status is produced per call and nothing is retried.

use vstd::prelude::*;
use crate::device::{
    alloc_zeroed, compile_kernel, dev_len, download_into, get_function, has_no_nul, load_module,
    upload_bytes, DeviceHandle,
};
use crate::kernel::kernel_source;
use crate::planner::{plan, plan_spec, LaunchConfig, MAX_DIM};
use crate::status::ResizeStatus;
use cudarc::driver::{CudaFunction, CudaSlice};

verus! {

/// Everything a host program needs to launch the kernel: the two device
/// buffers, the resolved entry function, the planned geometry, and the
/// dimensions as the signed 32-bit values the kernel takes.
pub struct PreparedLaunch {
    /// Device copy of the input bytes.
    pub input_buf: CudaSlice<u8>,
    /// Zero-initialized device buffer the kernel writes into.
    pub output_buf: CudaSlice<u8>,
    /// The resolved kernel entry function.
    pub kernel: CudaFunction,
    /// The planned grid and block geometry.
    pub config: LaunchConfig,
    /// Input width, as the kernel parameter.
    pub in_w: i32,
    /// Input height, as the kernel parameter.
    pub in_h: i32,
    /// Output width, as the kernel parameter.
    pub out_w: i32,
    /// Output height, as the kernel parameter.
    pub out_h: i32,
}

impl PreparedLaunch {
    /// A prepared launch is well-formed for a request when its buffers have
    /// exactly the request's byte lengths, its geometry is the planned one,
    /// and its dimension parameters are the request's dimensions.
    pub open spec fn wf(&self, input_len: int, in_w: int, in_h: int, out_w: int, out_h: int) -> bool {
        &&& dev_len(self.input_buf) == input_len
        &&& dev_len(self.output_buf) == out_w * out_h * 4
        &&& self.config == plan_spec(out_w, out_h)
        &&& self.in_w == in_w
        &&& self.in_h == in_h
        &&& self.out_w == out_w
        &&& self.out_h == out_h
    }
}

/// The statuses under which `prepare_resize` can stop early.
pub open spec fn is_prepare_failure(s: ResizeStatus) -> bool {
    ||| s == ResizeStatus::InvalidInput
    ||| s == ResizeStatus::NoDevice
    ||| s == ResizeStatus::InputAllocFailed
    ||| s == ResizeStatus::OutputAllocFailed
    ||| s == ResizeStatus::ModuleLoadFailed
    ||| s == ResizeStatus::FunctionResolveFailed
}

/// Runs the pipeline up to the launch: validate, acquire device, upload,
/// allocate output, compile and load the kernel module, resolve the entry
/// function and plan the launch.  Returns the prepared launch, or the status
/// of the step that failed.  The input is rejected exactly when its length
/// is not `in_w * in_h * 4`, whether or not a device is present; with a
/// valid input and no device the call reports that no device is available.
/// An output byte count beyond the machine word is reported as a failed
/// output allocation; a compile failure as a failed module load.
pub fn prepare_resize(
    h: &DeviceHandle,
    input: &Vec<u8>,
    in_w: usize,
    in_h: usize,
    out_w: usize,
    out_h: usize,
) -> (r: Result<PreparedLaunch, ResizeStatus>)
    requires
        in_w <= MAX_DIM,
        in_h <= MAX_DIM,
        out_w <= MAX_DIM,
        out_h <= MAX_DIM,
    ensures
        r == Err::<PreparedLaunch, ResizeStatus>(ResizeStatus::InvalidInput) <==> input@.len()
            != in_w * in_h * 4,
        input@.len() == in_w * in_h * 4 && !h.present() ==> r == Err::<
            PreparedLaunch,
            ResizeStatus,
        >(ResizeStatus::NoDevice),
        r == Err::<PreparedLaunch, ResizeStatus>(ResizeStatus::NoDevice) ==> !h.present(),
        r is Err ==> is_prepare_failure(r->Err_0),
        r is Err && r->Err_0 != ResizeStatus::InvalidInput && r->Err_0 != ResizeStatus::NoDevice
            ==> input@.len() == in_w * in_h * 4 && h.present(),
        r is Ok ==> input@.len() == in_w * in_h * 4 && h.present() && r->Ok_0.wf(
            input@.len() as int,
            in_w as int,
            in_h as int,
            out_w as int,
            out_h as int,
        ),
{
    proof {
        assert((in_w as int) * (in_h as int) * 4 <= (MAX_DIM as int) * (MAX_DIM as int) * 4)
            by (nonlinear_arith)
            requires
                in_w <= MAX_DIM,
                in_h <= MAX_DIM,
        ;
    }
    let expected = (in_w as u64) * (in_h as u64) * 4;
    if (input.len() as u64) != expected {
        return Err(ResizeStatus::InvalidInput);
    }
    let dev = match h.get() {
        Some(dev) => dev,
        None => {
            return Err(ResizeStatus::NoDevice);
        },
    };
    let input_buf = match upload_bytes(dev, input) {
        Ok(buf) => buf,
        Err(_) => {
            return Err(ResizeStatus::InputAllocFailed);
        },
    };
    let output_len = match out_w.checked_mul(out_h) {
        Some(p) => match p.checked_mul(4) {
            Some(n) => n,
            None => {
                return Err(ResizeStatus::OutputAllocFailed);
            },
        },
        None => {
            return Err(ResizeStatus::OutputAllocFailed);
        },
    };
    let output_buf = match alloc_zeroed(dev, output_len) {
        Ok(buf) => buf,
        Err(_) => {
            return Err(ResizeStatus::OutputAllocFailed);
        },
    };
    let src = kernel_source();
    let entry = "bilinear_resize";
    if !has_no_nul(src) || !has_no_nul(entry) {
        return Err(ResizeStatus::ModuleLoadFailed);
    }
    let ptx = match compile_kernel(src) {
        Ok(p) => p,
        Err(_) => {
            return Err(ResizeStatus::ModuleLoadFailed);
        },
    };
    if let Err(_) = load_module(dev, ptx, "resize_module", entry) {
        return Err(ResizeStatus::ModuleLoadFailed);
    }
    let kernel = match get_function(dev, "resize_module", entry) {
        Some(f) => f,
        None => {
            return Err(ResizeStatus::FunctionResolveFailed);
        },
    };
    let config = plan(out_w as u32, out_h as u32);
    Ok(
        PreparedLaunch {
            input_buf,
            output_buf,
            kernel,
            config,
            in_w: in_w as i32,
            in_h: in_h as i32,
            out_w: out_w as i32,
            out_h: out_h as i32,
        },
    )
}

/// Finishes the pipeline after the launch: downloads the kernel's output
/// into a fresh host buffer and, only if the copy succeeded, writes it
/// through to the caller's buffer, which must have exactly the device
/// buffer's byte length.  On a failed copy the caller's buffer is left
/// untouched.
pub fn finish_resize(
    h: &DeviceHandle,
    output_buf: CudaSlice<u8>,
    output: &mut Vec<u8>,
) -> (r: ResizeStatus)
    requires
        h.present(),
        old(output)@.len() == dev_len(output_buf),
    ensures
        r == ResizeStatus::Success || r == ResizeStatus::CopyBackFailed,
        r == ResizeStatus::Success ==> final(output)@.len() == old(output)@.len(),
        r == ResizeStatus::CopyBackFailed ==> final(output)@ == old(output)@,
{
    let dev = match h.get() {
        Some(dev) => dev,
        None => {
            return ResizeStatus::CopyBackFailed;
        },
    };
    let n = output.len();
    let mut host: Vec<u8> = Vec::new();
    while host.len() < n
        invariant
            host@.len() <= n,
        decreases n - host@.len(),
    {
        host.push(0);
    }
    match download_into(dev, &output_buf, &mut host) {
        Ok(_) => {
            *output = host;
            ResizeStatus::Success
        },
        Err(_) => ResizeStatus::CopyBackFailed,
    }
}

/// Law: any pipeline run that reports success has filled the caller's
/// buffer to exactly `out_w * out_h * 4` bytes, and success crosses the host
/// boundary as code 0.  The hypotheses are exactly what `prepare_resize` and
/// `finish_resize` guarantee: a well-formed prepared launch, a caller buffer
/// sized to the device output buffer, and `finish_resize` preserving that
/// length on success.
pub proof fn lemma_success_fills_output(
    p: PreparedLaunch,
    input_len: int,
    in_w: int,
    in_h: int,
    out_w: int,
    out_h: int,
    before: Seq<u8>,
    after: Seq<u8>,
    s: ResizeStatus,
)
    requires
        p.wf(input_len, in_w, in_h, out_w, out_h),
        before.len() == dev_len(p.output_buf),
        s == ResizeStatus::Success ==> after.len() == before.len(),
        s == ResizeStatus::Success,
    ensures
        after.len() == out_w * out_h * 4,
        s.as_code() == 0,
{
}

/// Returns 1 when a compute device is present and 0 when none is: the
/// device count exposed at the host boundary.
pub fn get_device_count(h: &DeviceHandle) -> (r: u32)
    ensures
        r == 1 <==> h.present(),
        r == 0 <==> !h.present(),
{
    if h.is_present() {
        1
    } else {
        0
    }
}

/// The status string exposed at the host boundary; never fails, and says
/// whether a device was found.
pub fn init(h: &DeviceHandle) -> (r: &'static str)
    ensures
        h.present() ==> r@ == "GPU processor initialized successfully"@,
        !h.present() ==> r@ == "GPU processor initialized (no GPU available)"@,
{
    if h.is_present() {
        "GPU processor initialized successfully"
    } else {
        "GPU processor initialized (no GPU available)"
    }
}

} // verus!
