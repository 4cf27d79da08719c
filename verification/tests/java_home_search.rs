use jni_simple::errors::{IoFailure, LinkerError, LoadFromJavaHomeFolderError, LoadFromLibraryError};
use jni_simple::java_home::{libjvm_layouts, JavaHomeSearch, Platform, ProbeOutcome, SearchAction};

fn drive(
    platform: Platform,
    mut probe: impl FnMut(&[&'static str]) -> ProbeOutcome,
    load: Result<(), LoadFromLibraryError>,
) -> (Result<(), LoadFromJavaHomeFolderError>, Vec<String>) {
    let (mut search, mut action) = JavaHomeSearch::start(platform);
    let mut seen = Vec::new();
    let mut load = Some(load);
    loop {
        action = match action {
            SearchAction::Probe(i) => {
                let parts = search.layout(i).clone();
                seen.push(parts.join("/"));
                search.probed(probe(&parts))
            }
            SearchAction::LoadLibrary(path) => {
                seen.push(format!("load {path}"));
                search.loaded(load.take().unwrap())
            }
            SearchAction::Finished(r) => return (r, seen),
        };
    }
}

#[test]
fn layouts_per_platform() {
    let unix = libjvm_layouts(Platform::Unix);
    assert_eq!(unix.len(), 7);
    assert_eq!(unix[0], vec!["lib", "server", "libjvm.so"]);
    assert_eq!(unix[6], vec!["lib", "aarch64", "server", "libjvm.so"]);
    let windows = libjvm_layouts(Platform::Windows);
    assert_eq!(windows, vec![vec!["jre", "bin", "server", "jvm.dll"], vec!["bin", "server", "jvm.dll"]]);
    let apple = libjvm_layouts(Platform::Apple);
    assert_eq!(apple.len(), 4);
    assert_eq!(apple[1], vec!["Contents", "Home", "jre", "lib", "server", "libjvm.dylib"]);
}

#[test]
fn unknown_layout_when_nothing_exists() {
    let (r, seen) = drive(Platform::Unix, |_| ProbeOutcome::Missing, Ok(()));
    assert!(matches!(r, Err(LoadFromJavaHomeFolderError::UnknownJavaHomeLayout)));
    assert_eq!(seen.len(), 7);
}

#[test]
fn first_existing_layout_is_loaded() {
    let (r, seen) = drive(
        Platform::Unix,
        |parts| if parts.contains(&"amd64") { ProbeOutcome::Found(format!("/java/{}", parts.join("/"))) } else { ProbeOutcome::Missing },
        Ok(()),
    );
    assert!(r.is_ok());
    assert_eq!(seen, vec!["lib/server/libjvm.so", "jre/lib/amd64/server/libjvm.so", "load /java/jre/lib/amd64/server/libjvm.so"]);
}

#[test]
fn load_errors_are_widened() {
    let (r, _) = drive(
        Platform::Windows,
        |_| ProbeOutcome::Found("C:/java/bin/server/jvm.dll".to_string()),
        Err(LoadFromLibraryError::JNICreateJavaVmNotFound { path: "p".to_string(), error: LinkerError::SymbolUnknown }),
    );
    assert!(matches!(r, Err(LoadFromJavaHomeFolderError::JNICreateJavaVmNotFound { .. })));
    let (r, _) = drive(Platform::Apple, |_| ProbeOutcome::Found("/x".to_string()), Err(LoadFromLibraryError::AlreadyLoaded));
    assert!(matches!(r, Err(LoadFromJavaHomeFolderError::AlreadyLoaded)));
}

#[test]
fn io_failures_stop_the_search() {
    let mut calls = 0;
    let (r, seen) = drive(
        Platform::Unix,
        |_| {
            calls += 1;
            if calls == 2 { ProbeOutcome::Failed("Too many levels of symbolic links".to_string()) } else { ProbeOutcome::Missing }
        },
        Ok(()),
    );
    assert!(matches!(r, Err(LoadFromJavaHomeFolderError::IOError(IoFailure::Reported(ref m))) if m.contains("symbolic")));
    assert_eq!(seen.len(), 2);

    let (r, _) = drive(Platform::Apple, |_| ProbeOutcome::FoundNotUnicode, Ok(()));
    assert!(matches!(r, Err(LoadFromJavaHomeFolderError::IOError(IoFailure::PathNotUnicode))));
}

#[test]
fn other_platforms_have_no_layout() {
    assert!(libjvm_layouts(Platform::Other).is_empty());
    let (r, seen) = drive(Platform::Other, |_| ProbeOutcome::Missing, Ok(()));
    assert!(matches!(r, Err(LoadFromJavaHomeFolderError::UnknownJavaHomeLayout)));
    assert!(seen.is_empty());
}
