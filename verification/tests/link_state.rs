use jni_simple::link::store_load_result;
use jni_simple::errors::LoadFromLibraryError;
use jni_simple::invocation::{created_vm, vm_init_args, JNI_OK};
use jni_simple::link::{get_link, init_dynamic_link, is_jvm_loaded, JNIDynamicLink};

const JNI_VERSION_1_8: i32 = 0x00010008;

#[test]
fn test_init_link() {
    let mut link: Option<JNIDynamicLink> = None;
    assert!(!is_jvm_loaded(&link));
    assert!(init_dynamic_link(&mut link, 0x1000, 0x2000));
    assert!(is_jvm_loaded(&link));
    assert!(!init_dynamic_link(&mut link, 0x3000, 0x4000));
    assert!(is_jvm_loaded(&link));
    let l = get_link(&link);
    assert_eq!(l.JNI_CreateJavaVM(), 0x1000);
    assert_eq!(l.JNI_GetCreatedJavaVMs(), 0x2000);

    let init = vm_init_args(JNI_VERSION_1_8, &vec!["".to_string()], true);
    assert_eq!(init.version, JNI_VERSION_1_8);
    assert_eq!(init.nOptions, 1);
    assert_eq!(created_vm(JNI_OK, 0x8, 0x10), Ok((0x8, 0x10)));
}

#[test]
fn second_init_accepts_null_addresses() {
    let mut link: Option<JNIDynamicLink> = Some(JNIDynamicLink::new(7, 9));
    assert!(!init_dynamic_link(&mut link, 0, 0));
    assert_eq!(get_link(&link).JNI_CreateJavaVM(), 7);
}

#[test]
fn checked_constructor() {
    assert!(JNIDynamicLink::try_new(0, 5).is_none());
    assert!(JNIDynamicLink::try_new(5, 0).is_none());
    let l = JNIDynamicLink::try_new(5, 6).expect("both non-null");
    assert_eq!(l.JNI_CreateJavaVM(), 5);
    assert_eq!(l.JNI_GetCreatedJavaVMs(), 6);
}

#[test]
fn loaded_after_successful_load() {
    let mut link: Option<JNIDynamicLink> = None;
    assert!(store_load_result(&mut link, Err(LoadFromLibraryError::AlreadyLoaded)).is_err());
    assert!(!is_jvm_loaded(&link));
    assert!(store_load_result(&mut link, Ok(JNIDynamicLink::new(3, 4))).is_ok());
    assert!(is_jvm_loaded(&link));
    assert_eq!(get_link(&link).JNI_GetCreatedJavaVMs(), 4);
    assert!(!init_dynamic_link(&mut link, 8, 9));
    assert_eq!(get_link(&link).JNI_CreateJavaVM(), 3);
}
