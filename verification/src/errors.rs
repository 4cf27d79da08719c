use vstd::prelude::*;

verus! {

/// What the dynamic linker reported when it failed.
#[derive(Debug)]
pub enum LinkerError {
    /// The linker's own description of the failure.
    Reported(String),
    /// The symbol lookup failed, or produced no usable address, and the system
    /// gave no reason.
    SymbolUnknown,
}

/// What went wrong while looking for the JVM shared object on disk.
#[derive(Debug)]
pub enum IoFailure {
    /// The description of the I/O error the file system reported.
    Reported(String),
    /// The path of a JVM shared object that exists cannot be written as UTF-8
    /// text, so it cannot be handed to the dynamic linker.
    PathNotUnicode,
}

/// Why loading the JVM from a shared object failed.
#[derive(Debug)]
pub enum LoadFromLibraryError {
    /// The dynamic linker has already loaded the jvm.
    AlreadyLoaded,
    /// The dynamic linker failed to load the jvm shared object.
    LoadingSharedObjectFailed {
        /// path of the shared object.
        path: String,
        /// what the linker reported.
        error: LinkerError,
    },
    /// The dynamic linker could not find the `JNI_CreateJavaVM` symbol in the shared object.
    JNICreateJavaVmNotFound {
        /// path of the shared object.
        path: String,
        /// what the linker reported.
        error: LinkerError,
    },
    /// The dynamic linker could not find the `JNI_GetCreatedJavaVMs` symbol in the shared object.
    JNIGetCreatedJavaVMsNotFound {
        /// path of the shared object.
        path: String,
        /// what the linker reported.
        error: LinkerError,
    },
}

/// Why loading the JVM from a Java installation folder failed.
#[derive(Debug)]
pub enum LoadFromJavaHomeFolderError {
    /// The dynamic linker has already loaded the jvm.
    AlreadyLoaded,
    /// The dynamic linker failed to load the jvm shared object.
    LoadingSharedObjectFailed { path: String, error: LinkerError },
    /// The dynamic linker could not find the `JNI_CreateJavaVM` symbol in the shared object.
    JNICreateJavaVmNotFound { path: String, error: LinkerError },
    /// The dynamic linker could not find the `JNI_GetCreatedJavaVMs` symbol in the shared object.
    JNIGetCreatedJavaVMsNotFound { path: String, error: LinkerError },
    /// The layout of the java installation was not recognized.
    UnknownJavaHomeLayout,
    /// I/O Error while determining the layout of the java installation.
    IOError(IoFailure),
}

/// Why the `JAVA_HOME` environment variable could not be used.
#[derive(Debug)]
pub enum JavaHomeVarError {
    /// The variable is not set.
    NotPresent,
    /// The variable is set but is not valid unicode; holds its lossy rendering.
    NotUnicode(String),
}

/// Why loading the JVM from the `JAVA_HOME` environment variable failed.
#[derive(Debug)]
pub enum LoadFromJavaHomeError {
    /// The dynamic linker has already loaded the jvm.
    AlreadyLoaded,
    /// The dynamic linker failed to load the jvm shared object.
    LoadingSharedObjectFailed { path: String, error: LinkerError },
    /// The dynamic linker could not find the `JNI_CreateJavaVM` symbol in the shared object.
    JNICreateJavaVmNotFound { path: String, error: LinkerError },
    /// The dynamic linker could not find the `JNI_GetCreatedJavaVMs` symbol in the shared object.
    JNIGetCreatedJavaVMsNotFound { path: String, error: LinkerError },
    /// The layout of the java installation was not recognized.
    UnknownJavaHomeLayout,
    /// I/O Error while determining the layout of the java installation.
    IOError(IoFailure),
    /// The environment variable `JAVA_HOME` is invalid.
    EnvironmentVariableError(JavaHomeVarError),
}

pub open spec fn already_loaded_text() -> Seq<char> {
    "The dynamic linker has already loaded the jvm."@
}

pub open spec fn loading_failed_text() -> Seq<char> {
    "The dynamic linker failed to load the jvm shared object."@
}

pub open spec fn create_symbol_missing_text() -> Seq<char> {
    "The dynamic linker could not find the JNI_CreateJavaVM symbol in the shared object."@
}

pub open spec fn get_created_symbol_missing_text() -> Seq<char> {
    "The dynamic linker could not find the JNI_GetCreatedJavaVMs symbol in the shared object."@
}

pub open spec fn unknown_layout_text() -> Seq<char> {
    "The layout of the java installation was not recognized."@
}

pub open spec fn io_error_text() -> Seq<char> {
    "I/O Error while determining the layout of the java installation."@
}

pub open spec fn environment_variable_text() -> Seq<char> {
    "The environment variable JAVA_HOME is invalid"@
}

impl LoadFromLibraryError {
    /// The human readable description of the error.
    pub open spec fn spec_message(&self) -> Seq<char> {
        match self {
            LoadFromLibraryError::AlreadyLoaded => already_loaded_text(),
            LoadFromLibraryError::LoadingSharedObjectFailed { .. } => loading_failed_text(),
            LoadFromLibraryError::JNICreateJavaVmNotFound { .. } => create_symbol_missing_text(),
            LoadFromLibraryError::JNIGetCreatedJavaVMsNotFound { .. } => get_created_symbol_missing_text(),
        }
    }

    /// The human readable description of the error.
    pub fn message(&self) -> (text: &'static str)
        ensures
            text@ == self.spec_message(),
    {
        match self {
            LoadFromLibraryError::AlreadyLoaded => "The dynamic linker has already loaded the jvm.",
            LoadFromLibraryError::LoadingSharedObjectFailed { .. } => "The dynamic linker failed to load the jvm shared object.",
            LoadFromLibraryError::JNICreateJavaVmNotFound { .. } => "The dynamic linker could not find the JNI_CreateJavaVM symbol in the shared object.",
            LoadFromLibraryError::JNIGetCreatedJavaVMsNotFound { .. } => "The dynamic linker could not find the JNI_GetCreatedJavaVMs symbol in the shared object.",
        }
    }

    /// The description of the error as an owned string.
    pub fn to_string(&self) -> (text: String)
        ensures
            text@ == self.spec_message(),
    {
        self.message().to_owned()
    }
}

impl LoadFromJavaHomeFolderError {
    /// The human readable description of the error.
    pub open spec fn spec_message(&self) -> Seq<char> {
        match self {
            LoadFromJavaHomeFolderError::AlreadyLoaded => already_loaded_text(),
            LoadFromJavaHomeFolderError::LoadingSharedObjectFailed { .. } => loading_failed_text(),
            LoadFromJavaHomeFolderError::JNICreateJavaVmNotFound { .. } => create_symbol_missing_text(),
            LoadFromJavaHomeFolderError::JNIGetCreatedJavaVMsNotFound { .. } => get_created_symbol_missing_text(),
            LoadFromJavaHomeFolderError::UnknownJavaHomeLayout => unknown_layout_text(),
            LoadFromJavaHomeFolderError::IOError(_) => io_error_text(),
        }
    }

    /// The human readable description of the error.
    pub fn message(&self) -> (text: &'static str)
        ensures
            text@ == self.spec_message(),
    {
        match self {
            LoadFromJavaHomeFolderError::AlreadyLoaded => "The dynamic linker has already loaded the jvm.",
            LoadFromJavaHomeFolderError::LoadingSharedObjectFailed { .. } => "The dynamic linker failed to load the jvm shared object.",
            LoadFromJavaHomeFolderError::JNICreateJavaVmNotFound { .. } => "The dynamic linker could not find the JNI_CreateJavaVM symbol in the shared object.",
            LoadFromJavaHomeFolderError::JNIGetCreatedJavaVMsNotFound { .. } => "The dynamic linker could not find the JNI_GetCreatedJavaVMs symbol in the shared object.",
            LoadFromJavaHomeFolderError::UnknownJavaHomeLayout => "The layout of the java installation was not recognized.",
            LoadFromJavaHomeFolderError::IOError(_) => "I/O Error while determining the layout of the java installation.",
        }
    }

    /// The description of the error as an owned string.
    pub fn to_string(&self) -> (text: String)
        ensures
            text@ == self.spec_message(),
    {
        self.message().to_owned()
    }
}

impl LoadFromJavaHomeError {
    /// The human readable description of the error.
    pub open spec fn spec_message(&self) -> Seq<char> {
        match self {
            LoadFromJavaHomeError::AlreadyLoaded => already_loaded_text(),
            LoadFromJavaHomeError::LoadingSharedObjectFailed { .. } => loading_failed_text(),
            LoadFromJavaHomeError::JNICreateJavaVmNotFound { .. } => create_symbol_missing_text(),
            LoadFromJavaHomeError::JNIGetCreatedJavaVMsNotFound { .. } => get_created_symbol_missing_text(),
            LoadFromJavaHomeError::UnknownJavaHomeLayout => unknown_layout_text(),
            LoadFromJavaHomeError::IOError(_) => io_error_text(),
            LoadFromJavaHomeError::EnvironmentVariableError(_) => environment_variable_text(),
        }
    }

    /// The human readable description of the error.
    pub fn message(&self) -> (text: &'static str)
        ensures
            text@ == self.spec_message(),
    {
        match self {
            LoadFromJavaHomeError::AlreadyLoaded => "The dynamic linker has already loaded the jvm.",
            LoadFromJavaHomeError::LoadingSharedObjectFailed { .. } => "The dynamic linker failed to load the jvm shared object.",
            LoadFromJavaHomeError::JNICreateJavaVmNotFound { .. } => "The dynamic linker could not find the JNI_CreateJavaVM symbol in the shared object.",
            LoadFromJavaHomeError::JNIGetCreatedJavaVMsNotFound { .. } => "The dynamic linker could not find the JNI_GetCreatedJavaVMs symbol in the shared object.",
            LoadFromJavaHomeError::UnknownJavaHomeLayout => "The layout of the java installation was not recognized.",
            LoadFromJavaHomeError::IOError(_) => "I/O Error while determining the layout of the java installation.",
            LoadFromJavaHomeError::EnvironmentVariableError(_) => "The environment variable JAVA_HOME is invalid",
        }
    }

    /// The description of the error as an owned string.
    pub fn to_string(&self) -> (text: String)
        ensures
            text@ == self.spec_message(),
    {
        self.message().to_owned()
    }
}


impl From<LoadFromLibraryError> for LoadFromJavaHomeFolderError {
    fn from(value: LoadFromLibraryError) -> (converted: Self) {
        match value {
            LoadFromLibraryError::AlreadyLoaded => LoadFromJavaHomeFolderError::AlreadyLoaded,
            LoadFromLibraryError::LoadingSharedObjectFailed { path, error } => LoadFromJavaHomeFolderError::LoadingSharedObjectFailed { path, error },
            LoadFromLibraryError::JNICreateJavaVmNotFound { path, error } => LoadFromJavaHomeFolderError::JNICreateJavaVmNotFound { path, error },
            LoadFromLibraryError::JNIGetCreatedJavaVMsNotFound { path, error } => LoadFromJavaHomeFolderError::JNIGetCreatedJavaVMsNotFound { path, error },
        }
    }
}

impl vstd::std_specs::convert::FromSpecImpl<LoadFromLibraryError> for LoadFromJavaHomeFolderError {
    open spec fn obeys_from_spec() -> bool {
        true
    }

    open spec fn from_spec(value: LoadFromLibraryError) -> Self {
        match value {
            LoadFromLibraryError::AlreadyLoaded => LoadFromJavaHomeFolderError::AlreadyLoaded,
            LoadFromLibraryError::LoadingSharedObjectFailed { path, error } => LoadFromJavaHomeFolderError::LoadingSharedObjectFailed { path, error },
            LoadFromLibraryError::JNICreateJavaVmNotFound { path, error } => LoadFromJavaHomeFolderError::JNICreateJavaVmNotFound { path, error },
            LoadFromLibraryError::JNIGetCreatedJavaVMsNotFound { path, error } => LoadFromJavaHomeFolderError::JNIGetCreatedJavaVMsNotFound { path, error },
        }
    }
}

impl From<LoadFromLibraryError> for LoadFromJavaHomeError {
    fn from(value: LoadFromLibraryError) -> (converted: Self) {
        match value {
            LoadFromLibraryError::AlreadyLoaded => LoadFromJavaHomeError::AlreadyLoaded,
            LoadFromLibraryError::LoadingSharedObjectFailed { path, error } => LoadFromJavaHomeError::LoadingSharedObjectFailed { path, error },
            LoadFromLibraryError::JNICreateJavaVmNotFound { path, error } => LoadFromJavaHomeError::JNICreateJavaVmNotFound { path, error },
            LoadFromLibraryError::JNIGetCreatedJavaVMsNotFound { path, error } => LoadFromJavaHomeError::JNIGetCreatedJavaVMsNotFound { path, error },
        }
    }
}

impl vstd::std_specs::convert::FromSpecImpl<LoadFromLibraryError> for LoadFromJavaHomeError {
    open spec fn obeys_from_spec() -> bool {
        true
    }

    open spec fn from_spec(value: LoadFromLibraryError) -> Self {
        match value {
            LoadFromLibraryError::AlreadyLoaded => LoadFromJavaHomeError::AlreadyLoaded,
            LoadFromLibraryError::LoadingSharedObjectFailed { path, error } => LoadFromJavaHomeError::LoadingSharedObjectFailed { path, error },
            LoadFromLibraryError::JNICreateJavaVmNotFound { path, error } => LoadFromJavaHomeError::JNICreateJavaVmNotFound { path, error },
            LoadFromLibraryError::JNIGetCreatedJavaVMsNotFound { path, error } => LoadFromJavaHomeError::JNIGetCreatedJavaVMsNotFound { path, error },
        }
    }
}

impl From<LoadFromJavaHomeFolderError> for LoadFromJavaHomeError {
    fn from(value: LoadFromJavaHomeFolderError) -> (converted: Self) {
        match value {
            LoadFromJavaHomeFolderError::AlreadyLoaded => LoadFromJavaHomeError::AlreadyLoaded,
            LoadFromJavaHomeFolderError::LoadingSharedObjectFailed { path, error } => LoadFromJavaHomeError::LoadingSharedObjectFailed { path, error },
            LoadFromJavaHomeFolderError::JNICreateJavaVmNotFound { path, error } => LoadFromJavaHomeError::JNICreateJavaVmNotFound { path, error },
            LoadFromJavaHomeFolderError::JNIGetCreatedJavaVMsNotFound { path, error } => LoadFromJavaHomeError::JNIGetCreatedJavaVMsNotFound { path, error },
            LoadFromJavaHomeFolderError::UnknownJavaHomeLayout => LoadFromJavaHomeError::UnknownJavaHomeLayout,
            LoadFromJavaHomeFolderError::IOError(e) => LoadFromJavaHomeError::IOError(e),
        }
    }
}

impl vstd::std_specs::convert::FromSpecImpl<LoadFromJavaHomeFolderError> for LoadFromJavaHomeError {
    open spec fn obeys_from_spec() -> bool {
        true
    }

    open spec fn from_spec(value: LoadFromJavaHomeFolderError) -> Self {
        match value {
            LoadFromJavaHomeFolderError::AlreadyLoaded => LoadFromJavaHomeError::AlreadyLoaded,
            LoadFromJavaHomeFolderError::LoadingSharedObjectFailed { path, error } => LoadFromJavaHomeError::LoadingSharedObjectFailed { path, error },
            LoadFromJavaHomeFolderError::JNICreateJavaVmNotFound { path, error } => LoadFromJavaHomeError::JNICreateJavaVmNotFound { path, error },
            LoadFromJavaHomeFolderError::JNIGetCreatedJavaVMsNotFound { path, error } => LoadFromJavaHomeError::JNIGetCreatedJavaVMsNotFound { path, error },
            LoadFromJavaHomeFolderError::UnknownJavaHomeLayout => LoadFromJavaHomeError::UnknownJavaHomeLayout,
            LoadFromJavaHomeFolderError::IOError(e) => LoadFromJavaHomeError::IOError(e),
        }
    }
}

/// Converting an error into a wider error type keeps its description.
pub proof fn lemma_conversions_keep_message(lib: LoadFromLibraryError, folder: LoadFromJavaHomeFolderError)
    ensures
        <LoadFromJavaHomeFolderError as vstd::std_specs::convert::FromSpec<LoadFromLibraryError>>::from_spec(lib).spec_message() == lib.spec_message(),
        <LoadFromJavaHomeError as vstd::std_specs::convert::FromSpec<LoadFromLibraryError>>::from_spec(lib).spec_message() == lib.spec_message(),
        <LoadFromJavaHomeError as vstd::std_specs::convert::FromSpec<LoadFromJavaHomeFolderError>>::from_spec(folder).spec_message() == folder.spec_message(),
{
}

/// Widening a library error straight to a `JAVA_HOME` error is the same as
/// widening it through the folder error.
pub proof fn lemma_conversions_commute(lib: LoadFromLibraryError)
    ensures
        <LoadFromJavaHomeError as vstd::std_specs::convert::FromSpec<LoadFromJavaHomeFolderError>>::from_spec(
            <LoadFromJavaHomeFolderError as vstd::std_specs::convert::FromSpec<LoadFromLibraryError>>::from_spec(lib),
        ) == <LoadFromJavaHomeError as vstd::std_specs::convert::FromSpec<LoadFromLibraryError>>::from_spec(lib),
{
}

} // verus!
