use jni_simple::invocation::vm_option_strings;
use jni_simple::invocation::{created_vm, first_created_vm, is_c_compatible, store_created_vms, vm_init_args, JNI_OK};

const JNI_VERSION_1_8: i32 = 0x00010008;
const JNI_EINVAL: i32 = -6;

#[test]
fn created_vms_fill_and_clear_slots() {
    let found = vec![0xa0, 0xb0, 0, 0];
    let mut vms = vec![Some(1), Some(2), Some(3), Some(4)];
    assert_eq!(store_created_vms(JNI_OK, 2, &found, &mut vms), Ok(2));
    assert_eq!(vms, vec![Some(0xa0), Some(0xb0), None, None]);
}

#[test]
fn created_vms_small_slice_reports_needed_count() {
    let found = vec![0xa0, 0xb0, 0xc0];
    let mut vms = vec![None];
    assert_eq!(store_created_vms(JNI_OK, 3, &found, &mut vms), Ok(3));
    assert_eq!(vms, vec![Some(0xa0)]);
    let mut empty: Vec<Option<usize>> = vec![];
    assert_eq!(store_created_vms(JNI_OK, 3, &found, &mut empty), Ok(3));
}

#[test]
fn created_vms_error_leaves_slots() {
    let mut vms = vec![Some(9), None];
    assert_eq!(store_created_vms(JNI_EINVAL, 0, &vec![], &mut vms), Err(JNI_EINVAL));
    assert_eq!(vms, vec![Some(9), None]);
}

#[test]
fn first_created() {
    assert_eq!(first_created_vm(JNI_OK, 1, &vec![0x77]), Ok(Some(0x77)));
    assert_eq!(first_created_vm(JNI_OK, 0, &vec![0, 0]), Ok(None));
    assert_eq!(first_created_vm(-1, 1, &vec![0x77]), Err(-1));
}

#[test]
fn create_result() {
    assert_eq!(created_vm(JNI_OK, 0x10, 0x20), Ok((0x10, 0x20)));
    assert_eq!(created_vm(JNI_EINVAL, 0, 0), Err(JNI_EINVAL));
}

#[test]
fn init_args() {
    let args = vec!["-Xint".to_string(), "-Xmx1G".to_string(), "".to_string()];
    let init = vm_init_args(JNI_VERSION_1_8, &args, true);
    assert_eq!(init.version, JNI_VERSION_1_8);
    assert_eq!(init.nOptions, 3);
    assert_eq!(init.ignoreUnrecognized, 1);
    assert_eq!(vm_init_args(JNI_VERSION_1_8, &vec![], false).ignoreUnrecognized, 0);
}

#[test]
fn c_compatible_arguments() {
    assert!(is_c_compatible("-Djava.class.path=/a/b.jar"));
    assert!(is_c_compatible(""));
    assert!(is_c_compatible("äöü"));
    assert!(!is_c_compatible("a\0b"));
    assert!(!is_c_compatible("\0"));
}

#[test]
fn option_strings_are_c_strings() {
    let args = vec!["-Xint".to_string(), "".to_string(), "ä".to_string()];
    let opts = vm_option_strings(&args);
    assert_eq!(opts, vec![b"-Xint\0".to_vec(), vec![0u8], vec![0xc3, 0xa4, 0]]);
}
