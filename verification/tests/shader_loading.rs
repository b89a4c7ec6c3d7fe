use lib::error::ShaderError;
use lib::load::{contains_nul, LoadAction, LoadEvent, ShaderLoader, ShaderSource, ShaderStage};

fn s(x: &str) -> String {
    x.to_string()
}

/// Drives a loader, answering file checks from `vs_exists` / `fs_exists` and
/// the validity check from `valid`; returns the actions seen, last one included.
fn drive(mut l: ShaderLoader, vs_exists: bool, fs_exists: bool, valid: bool) -> Vec<LoadAction> {
    let mut seen = Vec::new();
    for _ in 0..10 {
        let a = l.action();
        let event = match &a {
            LoadAction::CheckFile { stage: ShaderStage::Vertex, .. } => LoadEvent::FileExists(vs_exists),
            LoadAction::CheckFile { stage: ShaderStage::Fragment, .. } => LoadEvent::FileExists(fs_exists),
            LoadAction::Load { .. } => LoadEvent::Loaded,
            LoadAction::CheckValid => LoadEvent::Valid(valid),
            LoadAction::Finish(_) => {
                seen.push(a);
                return seen;
            }
        };
        seen.push(a);
        l.step(event);
    }
    panic!("load did not finish");
}

#[test]
fn files_all_present_and_valid() {
    let l = ShaderLoader::new(ShaderSource::Files, Some(s("a.vs")), Some(s("a.fs")));
    let seen = drive(l, true, true, true);
    assert_eq!(
        seen,
        vec![
            LoadAction::CheckFile { stage: ShaderStage::Vertex, path: s("a.vs") },
            LoadAction::CheckFile { stage: ShaderStage::Fragment, path: s("a.fs") },
            LoadAction::Load { source: ShaderSource::Files, vs: Some(s("a.vs")), fs: Some(s("a.fs")) },
            LoadAction::CheckValid,
            LoadAction::Finish(Ok(())),
        ]
    );
}

#[test]
fn missing_vertex_file_is_reported_first() {
    let l = ShaderLoader::new(ShaderSource::Files, Some(s("gone.vs")), Some(s("gone.fs")));
    let seen = drive(l, false, false, true);
    assert_eq!(
        seen,
        vec![
            LoadAction::CheckFile { stage: ShaderStage::Vertex, path: s("gone.vs") },
            LoadAction::Finish(Err(ShaderError::MissingFile(s("gone.vs")))),
        ]
    );
}

#[test]
fn missing_fragment_file() {
    let l = ShaderLoader::new(ShaderSource::Files, Some(s("a.vs")), Some(s("gone.fs")));
    let seen = drive(l, true, false, true);
    assert_eq!(seen.len(), 3);
    assert_eq!(seen[2], LoadAction::Finish(Err(ShaderError::MissingFile(s("gone.fs")))));
    assert!(!seen.iter().any(|a| matches!(a, LoadAction::Load { .. })));
}

#[test]
fn only_fragment_file_named() {
    let l = ShaderLoader::new(ShaderSource::Files, None, Some(s("only.fs")));
    let seen = drive(l, false, true, true);
    assert_eq!(
        seen,
        vec![
            LoadAction::CheckFile { stage: ShaderStage::Fragment, path: s("only.fs") },
            LoadAction::Load { source: ShaderSource::Files, vs: None, fs: Some(s("only.fs")) },
            LoadAction::CheckValid,
            LoadAction::Finish(Ok(())),
        ]
    );
}

#[test]
fn no_files_loads_default_shader() {
    let l = ShaderLoader::new(ShaderSource::Files, None, None);
    let seen = drive(l, false, false, true);
    assert_eq!(seen[0], LoadAction::Load { source: ShaderSource::Files, vs: None, fs: None });
    assert_eq!(seen.len(), 3);
}

#[test]
fn compile_failure_from_files() {
    let l = ShaderLoader::new(ShaderSource::Files, Some(s("bad.vs")), None);
    let seen = drive(l, true, true, false);
    assert_eq!(seen.last(), Some(&LoadAction::Finish(Err(ShaderError::CompileFailed))));
}

#[test]
fn memory_never_checks_files() {
    let l = ShaderLoader::new(ShaderSource::Memory, Some(s("void main(){}")), None);
    let seen = drive(l, false, false, true);
    assert_eq!(
        seen,
        vec![
            LoadAction::Load { source: ShaderSource::Memory, vs: Some(s("void main(){}")), fs: None },
            LoadAction::CheckValid,
            LoadAction::Finish(Ok(())),
        ]
    );
}

#[test]
fn compile_failure_from_memory() {
    let l = ShaderLoader::new(ShaderSource::Memory, None, Some(s("garbage")));
    let seen = drive(l, true, true, false);
    assert_eq!(seen.last(), Some(&LoadAction::Finish(Err(ShaderError::CompileFailedFromMemory))));
}

#[test]
fn unexpected_events_are_ignored() {
    let mut l = ShaderLoader::new(ShaderSource::Files, Some(s("a.vs")), None);
    l.step(LoadEvent::Loaded);
    l.step(LoadEvent::Valid(true));
    assert_eq!(l.action(), LoadAction::CheckFile { stage: ShaderStage::Vertex, path: s("a.vs") });
    l.step(LoadEvent::FileExists(true));
    l.step(LoadEvent::Valid(true));
    l.step(LoadEvent::FileExists(false));
    assert_eq!(l.action(), LoadAction::Load { source: ShaderSource::Files, vs: Some(s("a.vs")), fs: None });
}

#[test]
fn finished_load_stays_finished() {
    let mut l = ShaderLoader::new(ShaderSource::Memory, None, None);
    l.step(LoadEvent::Loaded);
    l.step(LoadEvent::Valid(false));
    let done = LoadAction::Finish(Err(ShaderError::CompileFailedFromMemory));
    assert_eq!(l.action(), done);
    for e in [LoadEvent::Loaded, LoadEvent::Valid(true), LoadEvent::FileExists(true)] {
        l.step(e);
        assert_eq!(l.action(), done);
    }
}

#[test]
fn error_messages_and_paths() {
    let e = ShaderError::MissingFile(s("x.fs"));
    assert_eq!(e.message(), "shader file does not exist");
    assert_eq!(e.path(), Some("x.fs"));
    assert_eq!(ShaderError::CompileFailed.message(), "shader failed to compile");
    assert_eq!(ShaderError::CompileFailed.path(), None);
    assert_eq!(ShaderError::CompileFailedFromMemory.message(), "shader failed to compile from memory");
    assert_eq!(ShaderError::CompileFailedFromMemory.path(), None);
}

#[test]
fn nul_detection() {
    assert!(contains_nul("void\0main"));
    assert!(contains_nul("\0"));
    assert!(!contains_nul("void main() {}"));
    assert!(!contains_nul(""));
    assert!(!contains_nul("ünïcödé"));
}

#[test]
fn error_descriptions() {
    assert_eq!(ShaderError::MissingFile(s("x.fs")).describe(), "shader file does not exist: x.fs");
    assert_eq!(ShaderError::CompileFailed.describe(), "shader failed to compile");
    assert_eq!(ShaderError::CompileFailedFromMemory.describe(), "shader failed to compile from memory");
}

#[test]
fn file_names_with_nul_are_only_checked() {
    let l = ShaderLoader::new(ShaderSource::Files, Some(s("a\0.vs")), None);
    let seen = drive(l, false, false, true);
    assert_eq!(seen[1], LoadAction::Finish(Err(ShaderError::MissingFile(s("a\0.vs")))));
}
