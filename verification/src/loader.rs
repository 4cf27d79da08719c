use vstd::prelude::*;
use crate::errors::{LinkerError, LoadFromLibraryError};
use crate::link::JNIDynamicLink;

verus! {

/// What the driver of a [`LibraryLoad`] has to do next.
#[derive(Debug)]
pub enum LoadAction {
    /// Open the shared object at the load's path, then call [`LibraryLoad::opened`].
    OpenLibrary,
    /// Look up `JNI_CreateJavaVM` in the opened object, then call
    /// [`LibraryLoad::symbol_resolved`].
    FindCreateJavaVm,
    /// Look up `JNI_GetCreatedJavaVMs` in the opened object, then call
    /// [`LibraryLoad::symbol_resolved`].
    FindGetCreatedJavaVms,
    /// The load is over. On success the shared object stays open for the rest of
    /// the process and the link is stored; on failure the shared object, if it
    /// was opened, is closed.
    Finished(Result<JNIDynamicLink, LoadFromLibraryError>),
}

/// Where a [`LibraryLoad`] stands.
#[derive(Debug, Clone, Copy, PartialEq, Eq)]
pub enum LoadStage {
    Opening,
    FindingCreate,
    FindingGetCreated(usize),
    Done,
}

/// Loading the JVM entry points from a shared object, one step at a time.
///
/// The load refuses to start when the JVM is linked already, then opens the
/// shared object and resolves `JNI_CreateJavaVM` and `JNI_GetCreatedJavaVMs`,
/// stopping at the first failure.
#[derive(Debug)]
pub struct LibraryLoad {
    path: String,
    stage: LoadStage,
}

/// The address a symbol lookup produced, if it is usable: the lookup succeeded
/// and gave a non-null address.
pub open spec fn usable_address(outcome: Result<Option<usize>, LinkerError>) -> Option<usize> {
    match outcome {
        Ok(Some(address)) => if address != 0 { Some(address) } else { None },
        _ => None,
    }
}

/// What the linker said about an unusable symbol lookup.
pub open spec fn lookup_error(outcome: Result<Option<usize>, LinkerError>) -> LinkerError {
    match outcome {
        Err(e) => e,
        _ => LinkerError::SymbolUnknown,
    }
}

/// The first step: refuse if already linked, else open the library.
pub open spec fn start_step(loaded: bool) -> (LoadStage, LoadAction) {
    if loaded {
        (LoadStage::Done, LoadAction::Finished(Err(LoadFromLibraryError::AlreadyLoaded)))
    } else {
        (LoadStage::Opening, LoadAction::OpenLibrary)
    }
}

/// The step after opening the library.
pub open spec fn open_step(path: String, outcome: Result<(), LinkerError>) -> (LoadStage, LoadAction) {
    match outcome {
        Ok(()) => (LoadStage::FindingCreate, LoadAction::FindCreateJavaVm),
        Err(error) => (
            LoadStage::Done,
            LoadAction::Finished(Err(LoadFromLibraryError::LoadingSharedObjectFailed { path, error })),
        ),
    }
}

/// The step after a symbol lookup made in `stage`.
pub open spec fn symbol_step(
    stage: LoadStage,
    path: String,
    outcome: Result<Option<usize>, LinkerError>,
) -> (LoadStage, LoadAction) {
    match stage {
        LoadStage::FindingCreate => match usable_address(outcome) {
            Some(create) => (LoadStage::FindingGetCreated(create), LoadAction::FindGetCreatedJavaVms),
            None => (
                LoadStage::Done,
                LoadAction::Finished(
                    Err(LoadFromLibraryError::JNICreateJavaVmNotFound { path, error: lookup_error(outcome) }),
                ),
            ),
        },
        LoadStage::FindingGetCreated(create) => match usable_address(outcome) {
            Some(get_created) => (
                LoadStage::Done,
                LoadAction::Finished(Ok(JNIDynamicLink::spec_new(create, get_created))),
            ),
            None => (
                LoadStage::Done,
                LoadAction::Finished(
                    Err(LoadFromLibraryError::JNIGetCreatedJavaVMsNotFound { path, error: lookup_error(outcome) }),
                ),
            ),
        },
        _ => (stage, LoadAction::Finished(Err(LoadFromLibraryError::AlreadyLoaded))),
    }
}


/// How a load ends, given whether the JVM was linked already and what opening
/// the shared object and the two symbol lookups produced.
pub open spec fn load_outcome(
    loaded: bool,
    path: String,
    open: Result<(), LinkerError>,
    create: Result<Option<usize>, LinkerError>,
    get_created: Result<Option<usize>, LinkerError>,
) -> Result<JNIDynamicLink, LoadFromLibraryError> {
    if loaded {
        Err(LoadFromLibraryError::AlreadyLoaded)
    } else {
        match open {
            Err(error) => Err(LoadFromLibraryError::LoadingSharedObjectFailed { path, error }),
            Ok(()) => match usable_address(create) {
                None => Err(LoadFromLibraryError::JNICreateJavaVmNotFound { path, error: lookup_error(create) }),
                Some(c) => match usable_address(get_created) {
                    None => Err(
                        LoadFromLibraryError::JNIGetCreatedJavaVMsNotFound { path, error: lookup_error(get_created) },
                    ),
                    Some(g) => Ok(JNIDynamicLink::spec_new(c, g)),
                },
            },
        }
    }
}

/// The action a load ends on when every step is taken as the previous action
/// asks, until one finishes.
pub open spec fn run_load(
    loaded: bool,
    path: String,
    open: Result<(), LinkerError>,
    create: Result<Option<usize>, LinkerError>,
    get_created: Result<Option<usize>, LinkerError>,
) -> LoadAction {
    let (s0, a0) = start_step(loaded);
    if a0 is Finished {
        a0
    } else {
        let (s1, a1) = open_step(path, open);
        if a1 is Finished {
            a1
        } else {
            let (s2, a2) = symbol_step(s1, path, create);
            if a2 is Finished {
                a2
            } else {
                symbol_step(s2, path, get_created).1
            }
        }
    }
}

/// A load that is driven to its end finishes with the outcome `load_outcome`
/// describes: it refuses when the JVM is linked already, reports the first step
/// that failed, and links exactly the two addresses it resolved, both non-null.
pub proof fn lemma_load_run(
    loaded: bool,
    path: String,
    open: Result<(), LinkerError>,
    create: Result<Option<usize>, LinkerError>,
    get_created: Result<Option<usize>, LinkerError>,
)
    ensures
        run_load(loaded, path, open, create, get_created) == LoadAction::Finished(
            load_outcome(loaded, path, open, create, get_created),
        ),
        load_outcome(loaded, path, open, create, get_created) matches Ok(link) ==> {
            &&& !loaded
            &&& open is Ok
            &&& create matches Ok(Some(c)) && c != 0 && link.create_address() == c
            &&& get_created matches Ok(Some(g)) && g != 0 && link.get_created_address() == g
        },
{
    if let Ok(link) = load_outcome(loaded, path, open, create, get_created) {
        JNIDynamicLink::lemma_spec_new(usable_address(create)->Some_0, usable_address(get_created)->Some_0);
    }
}

impl LibraryLoad {
    #[verifier::type_invariant]
    spec fn found_address_usable(self) -> bool {
        self.stage matches LoadStage::FindingGetCreated(create) ==> create != 0
    }

    pub closed spec fn path(&self) -> String {
        self.path
    }

    pub closed spec fn stage(&self) -> LoadStage {
        self.stage
    }

    /// Starts loading from the shared object at `path`, given the current link.
    pub fn start(path: String, link: &Option<JNIDynamicLink>) -> (started: (Self, LoadAction))
        ensures
            started.0.path() == path,
            (started.0.stage(), started.1) == start_step(link.is_some()),
    {
        if link.is_some() {
            (
                LibraryLoad { path, stage: LoadStage::Done },
                LoadAction::Finished(Err(LoadFromLibraryError::AlreadyLoaded)),
            )
        } else {
            (LibraryLoad { path, stage: LoadStage::Opening }, LoadAction::OpenLibrary)
        }
    }

    /// Takes in whether opening the shared object succeeded.
    pub fn opened(&mut self, outcome: Result<(), LinkerError>) -> (action: LoadAction)
        requires
            old(self).stage() == LoadStage::Opening,
        ensures
            final(self).path() == old(self).path(),
            (final(self).stage(), action) == open_step(old(self).path(), outcome),
    {
        match outcome {
            Ok(()) => {
                self.stage = LoadStage::FindingCreate;
                LoadAction::FindCreateJavaVm
            },
            Err(error) => {
                self.stage = LoadStage::Done;
                LoadAction::Finished(
                    Err(LoadFromLibraryError::LoadingSharedObjectFailed { path: self.path.clone(), error }),
                )
            },
        }
    }

    /// Takes in what the lookup of the symbol asked for last produced: the
    /// linker's error, or the symbol's raw address if one could be obtained.
    pub fn symbol_resolved(&mut self, outcome: Result<Option<usize>, LinkerError>) -> (action: LoadAction)
        requires
            old(self).stage() == LoadStage::FindingCreate || old(self).stage() is FindingGetCreated,
        ensures
            final(self).path() == old(self).path(),
            (final(self).stage(), action) == symbol_step(old(self).stage(), old(self).path(), outcome),
    {
        proof {
            use_type_invariant(&*self);
        }
        let address: Option<usize> = match &outcome {
            Ok(Some(a)) => if *a != 0 { Some(*a) } else { None },
            _ => None,
        };
        let error = match outcome {
            Err(e) => e,
            Ok(_) => LinkerError::SymbolUnknown,
        };
        match self.stage {
            LoadStage::FindingCreate => match address {
                Some(create) => {
                    self.stage = LoadStage::FindingGetCreated(create);
                    LoadAction::FindGetCreatedJavaVms
                },
                None => {
                    self.stage = LoadStage::Done;
                    LoadAction::Finished(
                        Err(LoadFromLibraryError::JNICreateJavaVmNotFound { path: self.path.clone(), error }),
                    )
                },
            },
            LoadStage::FindingGetCreated(create) => {
                self.stage = LoadStage::Done;
                match address {
                    Some(get_created) => LoadAction::Finished(Ok(JNIDynamicLink::new(create, get_created))),
                    None => LoadAction::Finished(
                        Err(LoadFromLibraryError::JNIGetCreatedJavaVMsNotFound { path: self.path.clone(), error }),
                    ),
                }
            },
            _ => LoadAction::Finished(Err(LoadFromLibraryError::AlreadyLoaded)),
        }
    }
}

} // verus!
