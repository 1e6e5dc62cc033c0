//! Tests of the pipeline's early-exit statuses and the host-boundary entry
//! points, run with no compute device available.

use gpu_processor::device::{has_no_nul, DeviceHandle};
use gpu_processor::kernel::kernel_source;
use gpu_processor::pipeline::{get_device_count, init, prepare_resize};
use gpu_processor::status::ResizeStatus;

#[test]
fn status_codes_match_the_table() {
    assert_eq!(ResizeStatus::Success.code(), 0);
    assert_eq!(ResizeStatus::NoDevice.code(), -1);
    assert_eq!(ResizeStatus::InvalidInput.code(), -2);
    assert_eq!(ResizeStatus::InputAllocFailed.code(), -3);
    assert_eq!(ResizeStatus::OutputAllocFailed.code(), -4);
    assert_eq!(ResizeStatus::ModuleLoadFailed.code(), -5);
    assert_eq!(ResizeStatus::FunctionResolveFailed.code(), -6);
    assert_eq!(ResizeStatus::LaunchFailed.code(), -8);
    assert_eq!(ResizeStatus::CopyBackFailed.code(), -9);
}

#[test]
fn length_mismatch_is_rejected_before_the_device_is_consulted() {
    // 4x4 RGBA needs 64 bytes; 60 must be rejected as invalid input even
    // though no device is present.
    let handle = DeviceHandle::absent();
    let input: Vec<u8> = vec![0; 60];
    match prepare_resize(&handle, &input, 4, 4, 2, 2) {
        Err(s) => {
            assert_eq!(s, ResizeStatus::InvalidInput);
            assert_eq!(s.code(), -2);
        },
        Ok(_) => panic!("a 60-byte input must not pass 4x4 validation"),
    }
}

#[test]
fn empty_input_with_nonzero_dimensions_is_invalid() {
    let handle = DeviceHandle::absent();
    let input: Vec<u8> = Vec::new();
    match prepare_resize(&handle, &input, 1, 1, 1, 1) {
        Err(s) => assert_eq!(s, ResizeStatus::InvalidInput),
        Ok(_) => panic!("an empty input must not pass 1x1 validation"),
    }
}

#[test]
fn valid_input_without_device_reports_no_device() {
    let handle = DeviceHandle::absent();
    let input: Vec<u8> = vec![0; 4 * 4 * 4];
    match prepare_resize(&handle, &input, 4, 4, 2, 2) {
        Err(s) => {
            assert_eq!(s, ResizeStatus::NoDevice);
            assert_eq!(s.code(), -1);
        },
        Ok(_) => panic!("no launch can be prepared without a device"),
    }
}

#[test]
fn device_count_is_zero_without_device() {
    let handle = DeviceHandle::absent();
    assert_eq!(get_device_count(&handle), 0);
}

#[test]
fn init_reports_no_gpu_without_device() {
    let handle = DeviceHandle::absent();
    assert_eq!(init(&handle), "GPU processor initialized (no GPU available)");
}

#[test]
fn kernel_source_names_the_entry_point() {
    let src = kernel_source();
    assert!(src.contains("__global__"));
    assert!(src.contains("bilinear_resize"));
    assert!(src.contains("output_width"));
    // The entry keeps C linkage, so module loading resolves its plain name.
    assert!(src.contains("extern \"C\""));
}

#[test]
fn nul_scan_accepts_driver_safe_text() {
    assert!(has_no_nul(kernel_source()));
    assert!(has_no_nul("bilinear_resize"));
    assert!(has_no_nul(""));
}

#[test]
fn nul_scan_rejects_interior_nul() {
    assert!(!has_no_nul("\0"));
    assert!(!has_no_nul("a\0b"));
    assert!(!has_no_nul("bilinear_resize\0"));
}
