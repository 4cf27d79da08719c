use jni_simple::errors::{
    IoFailure, LinkerError, LoadFromJavaHomeError, LoadFromJavaHomeFolderError, LoadFromLibraryError,
};

#[test]
fn init_error_to_string_test() {
    assert_eq!(LoadFromJavaHomeError::AlreadyLoaded.to_string(), LoadFromLibraryError::AlreadyLoaded.to_string());
    assert_eq!(
        LoadFromJavaHomeError::LoadingSharedObjectFailed { path: "".to_string(), error: LinkerError::Reported("".to_string()) }.to_string(),
        LoadFromLibraryError::LoadingSharedObjectFailed { path: "".to_string(), error: LinkerError::Reported("".to_string()) }.to_string()
    );
    assert_eq!(
        LoadFromJavaHomeError::JNICreateJavaVmNotFound { path: "".to_string(), error: LinkerError::Reported("".to_string()) }.to_string(),
        LoadFromLibraryError::JNICreateJavaVmNotFound { path: "".to_string(), error: LinkerError::Reported("".to_string()) }.to_string()
    );
    assert_eq!(
        LoadFromJavaHomeError::JNIGetCreatedJavaVMsNotFound { path: "".to_string(), error: LinkerError::Reported("".to_string()) }.to_string(),
        LoadFromLibraryError::JNIGetCreatedJavaVMsNotFound { path: "".to_string(), error: LinkerError::Reported("".to_string()) }.to_string()
    );

    assert_eq!(LoadFromJavaHomeFolderError::AlreadyLoaded.to_string(), LoadFromLibraryError::AlreadyLoaded.to_string());
    assert_eq!(
        LoadFromJavaHomeFolderError::LoadingSharedObjectFailed { path: "".to_string(), error: LinkerError::Reported("".to_string()) }.to_string(),
        LoadFromLibraryError::LoadingSharedObjectFailed { path: "".to_string(), error: LinkerError::Reported("".to_string()) }.to_string()
    );
    assert_eq!(
        LoadFromJavaHomeFolderError::JNICreateJavaVmNotFound { path: "".to_string(), error: LinkerError::Reported("".to_string()) }.to_string(),
        LoadFromLibraryError::JNICreateJavaVmNotFound { path: "".to_string(), error: LinkerError::Reported("".to_string()) }.to_string()
    );
    assert_eq!(
        LoadFromJavaHomeFolderError::JNIGetCreatedJavaVMsNotFound { path: "".to_string(), error: LinkerError::Reported("".to_string()) }.to_string(),
        LoadFromLibraryError::JNIGetCreatedJavaVMsNotFound { path: "".to_string(), error: LinkerError::Reported("".to_string()) }.to_string()
    );

    assert_eq!(
        LoadFromJavaHomeFolderError::UnknownJavaHomeLayout.to_string(),
        LoadFromJavaHomeError::UnknownJavaHomeLayout.to_string()
    );
    assert_eq!(
        LoadFromJavaHomeFolderError::IOError(IoFailure::Reported("".to_string())).to_string(),
        LoadFromJavaHomeError::IOError(IoFailure::Reported("".to_string())).to_string()
    );
}

#[test]
fn error_messages_are_exact() {
    assert_eq!(LoadFromLibraryError::AlreadyLoaded.message(), "The dynamic linker has already loaded the jvm.");
    assert_eq!(
        LoadFromLibraryError::LoadingSharedObjectFailed { path: "x".to_string(), error: LinkerError::SymbolUnknown }.message(),
        "The dynamic linker failed to load the jvm shared object."
    );
    assert_eq!(
        LoadFromJavaHomeFolderError::JNICreateJavaVmNotFound { path: "x".to_string(), error: LinkerError::SymbolUnknown }.message(),
        "The dynamic linker could not find the JNI_CreateJavaVM symbol in the shared object."
    );
    assert_eq!(
        LoadFromJavaHomeError::JNIGetCreatedJavaVMsNotFound { path: "x".to_string(), error: LinkerError::SymbolUnknown }.message(),
        "The dynamic linker could not find the JNI_GetCreatedJavaVMs symbol in the shared object."
    );
    assert_eq!(
        LoadFromJavaHomeFolderError::UnknownJavaHomeLayout.message(),
        "The layout of the java installation was not recognized."
    );
    assert_eq!(
        LoadFromJavaHomeError::IOError(IoFailure::PathNotUnicode).message(),
        "I/O Error while determining the layout of the java installation."
    );
    assert_eq!(
        LoadFromJavaHomeError::EnvironmentVariableError(jni_simple::errors::JavaHomeVarError::NotPresent).message(),
        "The environment variable JAVA_HOME is invalid"
    );
}

#[test]
fn conversions_keep_variant_and_message() {
    let lib = LoadFromLibraryError::JNIGetCreatedJavaVMsNotFound { path: "/a/b".to_string(), error: LinkerError::Reported("boom".to_string()) };
    let msg = lib.to_string();
    let folder = LoadFromJavaHomeFolderError::from(lib);
    assert_eq!(folder.to_string(), msg);
    match &folder {
        LoadFromJavaHomeFolderError::JNIGetCreatedJavaVMsNotFound { path, error: LinkerError::Reported(e) } => {
            assert_eq!(path, "/a/b");
            assert_eq!(e, "boom");
        }
        other => panic!("unexpected {:?}", other),
    }
    let home = LoadFromJavaHomeError::from(folder);
    assert_eq!(home.to_string(), msg);
    assert!(matches!(home, LoadFromJavaHomeError::JNIGetCreatedJavaVMsNotFound { .. }));

    let home2 = LoadFromJavaHomeError::from(LoadFromLibraryError::AlreadyLoaded);
    assert!(matches!(home2, LoadFromJavaHomeError::AlreadyLoaded));
    let home3 = LoadFromJavaHomeError::from(LoadFromJavaHomeFolderError::IOError(IoFailure::Reported("loop".to_string())));
    assert!(matches!(home3, LoadFromJavaHomeError::IOError(IoFailure::Reported(ref s)) if s == "loop"));
}
