use vstd::prelude::*;
use crate::errors::{IoFailure, LoadFromJavaHomeFolderError, LoadFromLibraryError};

verus! {

/// Operating system families whose Java installations are laid out alike.
#[derive(Debug, Clone, Copy, PartialEq, Eq)]
pub enum Platform {
    /// Unix-like systems other than Apple's.
    Unix,
    /// Windows.
    Windows,
    /// macOS and the other Apple systems.
    Apple,
    /// Any other system: no Java installation layout is known for it.
    Other,
}

/// Where the JVM shared object lies inside a Java installation, relative to the
/// installation folder, one list of path components per known layout, in the
/// order in which they are tried.
pub open spec fn libjvm_layouts_spec(platform: Platform) -> Seq<Seq<Seq<char>>> {
    match platform {
        Platform::Unix => seq![
            seq!["lib"@, "server"@, "libjvm.so"@],
            seq!["jre"@, "lib"@, "amd64"@, "server"@, "libjvm.so"@],
            seq!["lib"@, "amd64"@, "server"@, "libjvm.so"@],
            seq!["jre"@, "lib"@, "aarch32"@, "server"@, "libjvm.so"@],
            seq!["lib"@, "aarch32"@, "server"@, "libjvm.so"@],
            seq!["jre"@, "lib"@, "aarch64"@, "server"@, "libjvm.so"@],
            seq!["lib"@, "aarch64"@, "server"@, "libjvm.so"@],
        ],
        Platform::Windows => seq![
            seq!["jre"@, "bin"@, "server"@, "jvm.dll"@],
            seq!["bin"@, "server"@, "jvm.dll"@],
        ],
        Platform::Apple => seq![
            seq!["jre"@, "lib"@, "server"@, "libjvm.dylib"@],
            seq!["Contents"@, "Home"@, "jre"@, "lib"@, "server"@, "libjvm.dylib"@],
            seq!["lib"@, "server"@, "libjvm.dylib"@],
            seq!["Contents"@, "Home"@, "lib"@, "server"@, "libjvm.dylib"@],
        ],
        Platform::Other => seq![],
    }
}

/// The file name of the JVM shared object on `platform`, if one is known.
pub open spec fn libjvm_file_name(platform: Platform) -> Option<Seq<char>> {
    match platform {
        Platform::Unix => Some("libjvm.so"@),
        Platform::Windows => Some("jvm.dll"@),
        Platform::Apple => Some("libjvm.dylib"@),
        Platform::Other => None,
    }
}

/// Every layout of a platform names that platform's JVM shared object file, no
/// layout is known for other systems, and the current layout of each
/// platform's Java 11 and later installations is among them: `lib/server` on
/// Unix and macOS (also below `Contents/Home` on macOS), `bin/server` on Windows.
pub proof fn lemma_layouts_name_platform_library(platform: Platform)
    ensures
        forall|i: int|
            0 <= i < libjvm_layouts_spec(platform).len() ==> {
                let layout = #[trigger] libjvm_layouts_spec(platform)[i];
                &&& layout.len() > 0
                &&& libjvm_file_name(platform) == Some(layout.last())
            },
        platform == Platform::Other <==> libjvm_layouts_spec(platform).len() == 0,
        platform == Platform::Unix ==> libjvm_layouts_spec(platform).contains(seq!["lib"@, "server"@, "libjvm.so"@]),
        platform == Platform::Windows ==> libjvm_layouts_spec(platform).contains(seq!["bin"@, "server"@, "jvm.dll"@]),
        platform == Platform::Apple ==> libjvm_layouts_spec(platform).contains(seq!["lib"@, "server"@, "libjvm.dylib"@]),
        platform == Platform::Apple ==> libjvm_layouts_spec(platform).contains(
            seq!["Contents"@, "Home"@, "lib"@, "server"@, "libjvm.dylib"@],
        ),
{
    let layouts = libjvm_layouts_spec(platform);
    match platform {
        Platform::Unix => {
            assert(layouts[0] == seq!["lib"@, "server"@, "libjvm.so"@]);
        },
        Platform::Windows => {
            assert(layouts[1] == seq!["bin"@, "server"@, "jvm.dll"@]);
        },
        Platform::Apple => {
            assert(layouts[2] == seq!["lib"@, "server"@, "libjvm.dylib"@]);
            assert(layouts[3] == seq!["Contents"@, "Home"@, "lib"@, "server"@, "libjvm.dylib"@]);
        },
        Platform::Other => {},
    }
}

/// The known layouts of a Java installation on `platform`.
pub fn libjvm_layouts(platform: Platform) -> (layouts: Vec<Vec<&'static str>>)
    ensures
        layouts.deep_view() == libjvm_layouts_spec(platform),
        forall|i: int|
            0 <= i < layouts@.len() ==> {
                let layout = #[trigger] layouts.deep_view()[i];
                &&& layout.len() > 0
                &&& libjvm_file_name(platform) == Some(layout.last())
            },
        platform == Platform::Other <==> layouts@.len() == 0,
        platform == Platform::Apple ==> layouts.deep_view().contains(seq!["lib"@, "server"@, "libjvm.dylib"@]),
{
    proof {
        lemma_layouts_name_platform_library(platform);
    }
    let layouts = match platform {
        Platform::Unix => vec![
            vec!["lib", "server", "libjvm.so"],
            vec!["jre", "lib", "amd64", "server", "libjvm.so"],
            vec!["lib", "amd64", "server", "libjvm.so"],
            vec!["jre", "lib", "aarch32", "server", "libjvm.so"],
            vec!["lib", "aarch32", "server", "libjvm.so"],
            vec!["jre", "lib", "aarch64", "server", "libjvm.so"],
            vec!["lib", "aarch64", "server", "libjvm.so"],
        ],
        Platform::Windows => vec![
            vec!["jre", "bin", "server", "jvm.dll"],
            vec!["bin", "server", "jvm.dll"],
        ],
        Platform::Apple => vec![
            vec!["jre", "lib", "server", "libjvm.dylib"],
            vec!["Contents", "Home", "jre", "lib", "server", "libjvm.dylib"],
            vec!["lib", "server", "libjvm.dylib"],
            vec!["Contents", "Home", "lib", "server", "libjvm.dylib"],
        ],
        Platform::Other => Vec::new(),
    };
    assert(layouts.deep_view() =~~= libjvm_layouts_spec(platform));
    layouts
}


/// What the driver found when it checked one layout.
#[derive(Debug)]
pub enum ProbeOutcome {
    /// No file at the layout's path.
    Missing,
    /// A file exists there; holds its full path.
    Found(String),
    /// A file exists there, but its path is not valid UTF-8.
    FoundNotUnicode,
    /// Checking failed; holds the description of the I/O error.
    Failed(String),
}

/// What the driver of a [`JavaHomeSearch`] has to do next.
#[derive(Debug)]
pub enum SearchAction {
    /// Check whether the installation folder joined with the components of
    /// layout number `index` names an existing file, then call
    /// [`JavaHomeSearch::probed`].
    Probe(usize),
    /// Load the JVM from the shared object at this path, then call
    /// [`JavaHomeSearch::loaded`].
    LoadLibrary(String),
    /// The search is over.
    Finished(Result<(), LoadFromJavaHomeFolderError>),
}

/// Where a [`JavaHomeSearch`] stands.
#[derive(Debug, Clone, Copy, PartialEq, Eq)]
pub enum SearchStage {
    /// Waiting for the check of layout number `index`.
    Probing(usize),
    /// Waiting for the load of the shared object found.
    Loading,
    Done,
}

/// Loading the JVM from a Java installation folder: the known layouts are
/// checked in order, and the first that names an existing file is loaded.
#[derive(Debug)]
pub struct JavaHomeSearch {
    layouts: Vec<Vec<&'static str>>,
    stage: SearchStage,
}

/// The step after the check of layout `index` out of `count`.
pub open spec fn probe_step(index: int, count: int, outcome: ProbeOutcome) -> (SearchStage, SearchAction) {
    match outcome {
        ProbeOutcome::Missing => if index + 1 < count {
            (SearchStage::Probing((index + 1) as usize), SearchAction::Probe((index + 1) as usize))
        } else {
            (
                SearchStage::Done,
                SearchAction::Finished(Err(LoadFromJavaHomeFolderError::UnknownJavaHomeLayout)),
            )
        },
        ProbeOutcome::Found(path) => (SearchStage::Loading, SearchAction::LoadLibrary(path)),
        ProbeOutcome::FoundNotUnicode => (
            SearchStage::Done,
            SearchAction::Finished(Err(LoadFromJavaHomeFolderError::IOError(IoFailure::PathNotUnicode))),
        ),
        ProbeOutcome::Failed(error) => (
            SearchStage::Done,
            SearchAction::Finished(Err(LoadFromJavaHomeFolderError::IOError(IoFailure::Reported(error)))),
        ),
    }
}

/// How loading the shared object found ends the search.
pub open spec fn load_result(outcome: Result<(), LoadFromLibraryError>) -> Result<(), LoadFromJavaHomeFolderError> {
    match outcome {
        Ok(()) => Ok(()),
        Err(e) => Err(
            <LoadFromJavaHomeFolderError as vstd::std_specs::convert::FromSpec<LoadFromLibraryError>>::from_spec(e),
        ),
    }
}

/// The first step of a search over `count` layouts.
pub open spec fn search_start_step(count: int) -> (SearchStage, SearchAction) {
    if count > 0 {
        (SearchStage::Probing(0), SearchAction::Probe(0))
    } else {
        (SearchStage::Done, SearchAction::Finished(Err(LoadFromJavaHomeFolderError::UnknownJavaHomeLayout)))
    }
}


/// Whether a check ends the search: anything but a missing file does.
pub open spec fn decisive(outcome: ProbeOutcome) -> bool {
    !(outcome is Missing)
}

/// How the search ends when it stops at a check with this outcome.
pub open spec fn decided_result(outcome: ProbeOutcome, load: Result<(), LoadFromLibraryError>) -> Result<
    (),
    LoadFromJavaHomeFolderError,
> {
    match outcome {
        ProbeOutcome::Found(_) => load_result(load),
        ProbeOutcome::FoundNotUnicode => Err(LoadFromJavaHomeFolderError::IOError(IoFailure::PathNotUnicode)),
        ProbeOutcome::Failed(error) => Err(LoadFromJavaHomeFolderError::IOError(IoFailure::Reported(error))),
        ProbeOutcome::Missing => Err(LoadFromJavaHomeFolderError::UnknownJavaHomeLayout),
    }
}

/// How a search over `count` layouts ends, from layout `index` on, when the
/// check of layout `k` finds `probes[k]` and the load, if any, ends with `load`:
/// the first decisive check decides; when there is none the layout is unknown.
pub open spec fn search_outcome_from(
    index: int,
    count: int,
    probes: Seq<ProbeOutcome>,
    load: Result<(), LoadFromLibraryError>,
) -> Result<(), LoadFromJavaHomeFolderError>
    decreases count - index,
{
    if index < 0 || index >= count {
        Err(LoadFromJavaHomeFolderError::UnknownJavaHomeLayout)
    } else if decisive(probes[index]) {
        decided_result(probes[index], load)
    } else {
        search_outcome_from(index + 1, count, probes, load)
    }
}

/// The action a search ends on, from the check of layout `index` on, when
/// every step is taken as the previous action asks.
pub open spec fn run_search_from(
    index: int,
    count: int,
    probes: Seq<ProbeOutcome>,
    load: Result<(), LoadFromLibraryError>,
) -> SearchAction
    decreases count - index,
{
    if index < 0 || index >= count {
        SearchAction::Finished(Err(LoadFromJavaHomeFolderError::UnknownJavaHomeLayout))
    } else {
        match probe_step(index, count, probes[index]).1 {
            SearchAction::Probe(_) => run_search_from(index + 1, count, probes, load),
            SearchAction::LoadLibrary(_) => SearchAction::Finished(load_result(load)),
            finished => finished,
        }
    }
}

/// The action a search over `count` layouts ends on, from its start.
pub open spec fn run_search(count: int, probes: Seq<ProbeOutcome>, load: Result<(), LoadFromLibraryError>) -> SearchAction {
    match search_start_step(count).1 {
        SearchAction::Probe(_) => run_search_from(0, count, probes, load),
        started => started,
    }
}

proof fn lemma_search_run_from(index: int, count: int, probes: Seq<ProbeOutcome>, load: Result<(), LoadFromLibraryError>)
    requires
        0 <= index,
    ensures
        run_search_from(index, count, probes, load) == SearchAction::Finished(
            search_outcome_from(index, count, probes, load),
        ),
    decreases count - index,
{
    if index < count && !decisive(probes[index]) {
        lemma_search_run_from(index + 1, count, probes, load);
    }
}

proof fn lemma_search_outcome_first(
    index: int,
    count: int,
    probes: Seq<ProbeOutcome>,
    load: Result<(), LoadFromLibraryError>,
    k: int,
)
    requires
        0 <= index <= k < count,
        decisive(probes[k]),
        forall|j: int| index <= j < k ==> !decisive(#[trigger] probes[j]),
    ensures
        search_outcome_from(index, count, probes, load) == decided_result(probes[k], load),
    decreases k - index,
{
    if index < k {
        lemma_search_outcome_first(index + 1, count, probes, load, k);
    }
}

proof fn lemma_search_outcome_none(index: int, count: int, probes: Seq<ProbeOutcome>, load: Result<(), LoadFromLibraryError>)
    requires
        0 <= index,
        forall|j: int| index <= j < count ==> !decisive(#[trigger] probes[j]),
    ensures
        search_outcome_from(index, count, probes, load) == Err::<(), _>(LoadFromJavaHomeFolderError::UnknownJavaHomeLayout),
    decreases count - index,
{
    if index < count {
        lemma_search_outcome_none(index + 1, count, probes, load);
    }
}

/// A search driven to its end, whose check of layout `k` finds `probes[k]`,
/// finishes as the first decisive check says: loading the file found, or the
/// I/O failure met; and with an unknown layout when every file is missing.
pub proof fn lemma_search_run(count: int, probes: Seq<ProbeOutcome>, load: Result<(), LoadFromLibraryError>)
    requires
        count >= 0,
    ensures
        run_search(count, probes, load) == SearchAction::Finished(search_outcome_from(0, count, probes, load)),
        forall|k: int|
            0 <= k < count && decisive(#[trigger] probes[k]) && (forall|j: int| 0 <= j < k ==> !decisive(probes[j]))
                ==> search_outcome_from(0, count, probes, load) == decided_result(probes[k], load),
        (forall|j: int| 0 <= j < count ==> !decisive(#[trigger] probes[j])) ==> search_outcome_from(0, count, probes, load)
            == Err::<(), _>(LoadFromJavaHomeFolderError::UnknownJavaHomeLayout),
{
    lemma_search_run_from(0, count, probes, load);
    assert forall|k: int|
        0 <= k < count && decisive(#[trigger] probes[k]) && (forall|j: int| 0 <= j < k ==> !decisive(probes[j]))
        implies search_outcome_from(0, count, probes, load) == decided_result(probes[k], load) by {
        lemma_search_outcome_first(0, count, probes, load, k);
    }
    if forall|j: int| 0 <= j < count ==> !decisive(#[trigger] probes[j]) {
        lemma_search_outcome_none(0, count, probes, load);
    }
}

impl JavaHomeSearch {
    #[verifier::type_invariant]
    spec fn probing_known_layout(self) -> bool {
        self.stage matches SearchStage::Probing(index) ==> index < self.layouts@.len()
    }

    /// The layouts the search goes through.
    pub closed spec fn layouts(&self) -> Seq<Seq<Seq<char>>> {
        self.layouts.deep_view()
    }

    pub closed spec fn stage(&self) -> SearchStage {
        self.stage
    }

    /// Starts a search through the known layouts of `platform`.
    pub fn start(platform: Platform) -> (started: (Self, SearchAction))
        ensures
            started.0.layouts() == libjvm_layouts_spec(platform),
            (started.0.stage(), started.1) == search_start_step(libjvm_layouts_spec(platform).len() as int),
    {
        let layouts = libjvm_layouts(platform);
        if layouts.len() > 0 {
            (JavaHomeSearch { layouts, stage: SearchStage::Probing(0) }, SearchAction::Probe(0))
        } else {
            (
                JavaHomeSearch { layouts, stage: SearchStage::Done },
                SearchAction::Finished(Err(LoadFromJavaHomeFolderError::UnknownJavaHomeLayout)),
            )
        }
    }

    /// The path components, relative to the installation folder, of layout
    /// number `index`.
    pub fn layout(&self, index: usize) -> (components: &Vec<&'static str>)
        requires
            index < self.layouts().len(),
        ensures
            components.deep_view() == self.layouts()[index as int],
    {
        &self.layouts[index]
    }

    /// Takes in what the check of the layout asked for last found.
    pub fn probed(&mut self, outcome: ProbeOutcome) -> (action: SearchAction)
        requires
            old(self).stage() is Probing,
        ensures
            final(self).layouts() == old(self).layouts(),
            (final(self).stage(), action) == probe_step(
                old(self).stage()->Probing_0 as int,
                old(self).layouts().len() as int,
                outcome,
            ),
    {
        proof {
            use_type_invariant(&*self);
        }
        let index = match self.stage {
            SearchStage::Probing(i) => i,
            _ => 0,
        };
        assert(index < self.layouts.len());
        match outcome {
            ProbeOutcome::Missing => {
                if index + 1 < self.layouts.len() {
                    self.stage = SearchStage::Probing(index + 1);
                    SearchAction::Probe(index + 1)
                } else {
                    self.stage = SearchStage::Done;
                    SearchAction::Finished(Err(LoadFromJavaHomeFolderError::UnknownJavaHomeLayout))
                }
            },
            ProbeOutcome::Found(path) => {
                self.stage = SearchStage::Loading;
                SearchAction::LoadLibrary(path)
            },
            ProbeOutcome::FoundNotUnicode => {
                self.stage = SearchStage::Done;
                SearchAction::Finished(Err(LoadFromJavaHomeFolderError::IOError(IoFailure::PathNotUnicode)))
            },
            ProbeOutcome::Failed(error) => {
                self.stage = SearchStage::Done;
                SearchAction::Finished(Err(LoadFromJavaHomeFolderError::IOError(IoFailure::Reported(error))))
            },
        }
    }

    /// Takes in how loading the shared object found ended.
    pub fn loaded(&mut self, outcome: Result<(), LoadFromLibraryError>) -> (action: SearchAction)
        requires
            old(self).stage() == SearchStage::Loading,
        ensures
            final(self).layouts() == old(self).layouts(),
            final(self).stage() == SearchStage::Done,
            action == SearchAction::Finished(load_result(outcome)),
    {
        self.stage = SearchStage::Done;
        match outcome {
            Ok(()) => SearchAction::Finished(Ok(())),
            Err(e) => SearchAction::Finished(Err(LoadFromJavaHomeFolderError::from(e))),
        }
    }
}

} // verus!
