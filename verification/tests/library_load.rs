use jni_simple::errors::{LinkerError, LoadFromLibraryError};
use jni_simple::link::JNIDynamicLink;
use jni_simple::loader::{LibraryLoad, LoadAction};

fn drive(
    link: &Option<JNIDynamicLink>,
    open: Result<(), LinkerError>,
    create: Result<Option<usize>, LinkerError>,
    get_created: Result<Option<usize>, LinkerError>,
) -> (Result<JNIDynamicLink, LoadFromLibraryError>, usize) {
    let (mut load, mut action) = LibraryLoad::start("/jvm/libjvm.so".to_string(), link);
    let mut steps = 0;
    let mut open = Some(open);
    let mut create = Some(create);
    let mut get_created = Some(get_created);
    loop {
        action = match action {
            LoadAction::OpenLibrary => load.opened(open.take().unwrap()),
            LoadAction::FindCreateJavaVm => load.symbol_resolved(create.take().unwrap()),
            LoadAction::FindGetCreatedJavaVms => load.symbol_resolved(get_created.take().unwrap()),
            LoadAction::Finished(r) => return (r, steps),
        };
        steps += 1;
    }
}

#[test]
fn load_success() {
    let (r, steps) = drive(&None, Ok(()), Ok(Some(0x10)), Ok(Some(0x20)));
    let l = r.expect("load succeeds");
    assert_eq!(l.JNI_CreateJavaVM(), 0x10);
    assert_eq!(l.JNI_GetCreatedJavaVMs(), 0x20);
    assert_eq!(steps, 3);
}

#[test]
fn load_refused_when_linked() {
    let (r, steps) = drive(&Some(JNIDynamicLink::new(1, 2)), Ok(()), Ok(Some(0x10)), Ok(Some(0x20)));
    assert!(matches!(r, Err(LoadFromLibraryError::AlreadyLoaded)));
    assert_eq!(steps, 0);
}

#[test]
fn load_open_failure() {
    let (r, steps) = drive(&None, Err(LinkerError::Reported("no such file".to_string())), Ok(Some(1)), Ok(Some(2)));
    match r {
        Err(LoadFromLibraryError::LoadingSharedObjectFailed { path, error: LinkerError::Reported(e) }) => {
            assert_eq!(path, "/jvm/libjvm.so");
            assert_eq!(e, "no such file");
        }
        other => panic!("unexpected {:?}", other),
    }
    assert_eq!(steps, 1);
}

#[test]
fn load_create_symbol_missing() {
    let (r, _) = drive(&None, Ok(()), Err(LinkerError::Reported("undefined symbol".to_string())), Ok(Some(2)));
    assert!(matches!(r, Err(LoadFromLibraryError::JNICreateJavaVmNotFound { error: LinkerError::Reported(_), .. })));
    let (r, _) = drive(&None, Ok(()), Ok(None), Ok(Some(2)));
    assert!(matches!(r, Err(LoadFromLibraryError::JNICreateJavaVmNotFound { error: LinkerError::SymbolUnknown, .. })));
    let (r, steps) = drive(&None, Ok(()), Ok(Some(0)), Ok(Some(2)));
    assert!(matches!(r, Err(LoadFromLibraryError::JNICreateJavaVmNotFound { error: LinkerError::SymbolUnknown, .. })));
    assert_eq!(steps, 2);
}

#[test]
fn load_get_created_symbol_missing() {
    let (r, _) = drive(&None, Ok(()), Ok(Some(5)), Err(LinkerError::Reported("undefined symbol".to_string())));
    assert!(matches!(r, Err(LoadFromLibraryError::JNIGetCreatedJavaVMsNotFound { error: LinkerError::Reported(_), .. })));
    let (r, _) = drive(&None, Ok(()), Ok(Some(5)), Ok(None));
    assert!(matches!(r, Err(LoadFromLibraryError::JNIGetCreatedJavaVMsNotFound { error: LinkerError::SymbolUnknown, .. })));
    let (r, steps) = drive(&None, Ok(()), Ok(Some(5)), Ok(Some(0)));
    assert!(matches!(r, Err(LoadFromLibraryError::JNIGetCreatedJavaVMsNotFound { error: LinkerError::SymbolUnknown, .. })));
    assert_eq!(steps, 3);
}
