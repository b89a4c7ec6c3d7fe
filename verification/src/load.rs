//! The decisions taken while a shader is loaded, as a state machine.
//!
//! Loading a shader alternates outside work (asking whether a file exists,
//! handing the stage sources to raylib, asking raylib whether the result is a
//! valid shader) with decisions. A [`ShaderLoader`] makes the decisions: it
//! names the next piece of outside work as a [`LoadAction`], and the caller
//! performs it and reports back with a [`LoadEvent`].
use vstd::prelude::*;

use crate::error::ShaderError;

verus! {

/// Where the stage sources come from.
#[derive(Clone, Copy, Debug, PartialEq, Eq, Structural)]
pub enum ShaderSource {
    /// Each source names a file to load the stage from.
    Files,
    /// Each source is the stage's code itself.
    Memory,
}

/// One of the two programmable stages of a shader.
#[derive(Clone, Copy, Debug, PartialEq, Eq, Structural)]
pub enum ShaderStage {
    Vertex,
    Fragment,
}

/// The next piece of outside work a loader asks for.
#[derive(Debug, PartialEq, Eq)]
pub enum LoadAction {
    /// Find out whether the file named for this stage exists.
    CheckFile { stage: ShaderStage, path: String },
    /// Hand the stage sources to raylib; a stage given as `None` uses raylib's
    /// built-in default for that stage (a null pointer).
    Load { source: ShaderSource, vs: Option<String>, fs: Option<String> },
    /// Find out whether the shader that raylib returned is valid.
    CheckValid,
    /// Nothing is left to do; this is the outcome of the load.
    Finish(Result<(), ShaderError>),
}

/// What the caller reports after doing the work a loader asked for.
#[derive(Clone, Copy, Debug, PartialEq, Eq, Structural)]
pub enum LoadEvent {
    /// Whether the file asked about exists.
    FileExists(bool),
    /// raylib has returned a shader.
    Loaded,
    /// Whether that shader is valid.
    Valid(bool),
}

/// Where a loader stands.
#[derive(Debug, PartialEq, Eq)]
pub enum LoadPhase {
    CheckVertex,
    CheckFragment,
    Loading,
    Validating,
    Done(Result<(), ShaderError>),
}

/// The state of one shader load.
pub struct ShaderLoader {
    source: ShaderSource,
    vs: Option<String>,
    fs: Option<String>,
    phase: LoadPhase,
}

/// Text that holds no NUL character, as a C string must; `None` holds none.
pub open spec fn nul_free(text: Option<String>) -> bool {
    text matches Some(t) ==> !t@.contains('\0')
}

/// Whether `text` holds a NUL character.
pub fn contains_nul(text: &str) -> (r: bool)
    ensures
        r == text@.contains('\0'),
{
    for c in it: text.chars()
        invariant
            it.seq() == text@,
            forall|j: int| 0 <= j < it.index() ==> it.seq()[j] != '\0',
    {
        if c == '\0' {
            assert(text@[it.index() as int] == '\0');
            return true;
        }
    }
    false
}

/// The phase a load starts in: every named file is checked first, vertex
/// before fragment; code given as text goes straight to raylib.
pub open spec fn first_phase(source: ShaderSource, vs: Option<String>, fs: Option<String>) -> LoadPhase {
    if source == ShaderSource::Memory {
        LoadPhase::Loading
    } else if vs is Some {
        LoadPhase::CheckVertex
    } else if fs is Some {
        LoadPhase::CheckFragment
    } else {
        LoadPhase::Loading
    }
}

/// The error a failed compilation is reported as.
pub open spec fn failed_compile_error(source: ShaderSource) -> ShaderError {
    match source {
        ShaderSource::Files => ShaderError::CompileFailed,
        ShaderSource::Memory => ShaderError::CompileFailedFromMemory,
    }
}

/// The phase that follows `phase` when `event` is reported. An event that does
/// not answer the pending question leaves the phase as it is.
pub open spec fn next_phase(
    phase: LoadPhase,
    vs: Option<String>,
    fs: Option<String>,
    source: ShaderSource,
    event: LoadEvent,
) -> LoadPhase {
    match (phase, event) {
        (LoadPhase::CheckVertex, LoadEvent::FileExists(true)) => if fs is Some {
            LoadPhase::CheckFragment
        } else {
            LoadPhase::Loading
        },
        (LoadPhase::CheckVertex, LoadEvent::FileExists(false)) => LoadPhase::Done(
            Err(ShaderError::MissingFile(vs->0)),
        ),
        (LoadPhase::CheckFragment, LoadEvent::FileExists(true)) => LoadPhase::Loading,
        (LoadPhase::CheckFragment, LoadEvent::FileExists(false)) => LoadPhase::Done(
            Err(ShaderError::MissingFile(fs->0)),
        ),
        (LoadPhase::Loading, LoadEvent::Loaded) => LoadPhase::Validating,
        (LoadPhase::Validating, LoadEvent::Valid(true)) => LoadPhase::Done(Ok(())),
        (LoadPhase::Validating, LoadEvent::Valid(false)) => LoadPhase::Done(
            Err(failed_compile_error(source)),
        ),
        (p, _) => p,
    }
}

/// The action asked for in `phase`.
pub open spec fn phase_action(
    phase: LoadPhase,
    vs: Option<String>,
    fs: Option<String>,
    source: ShaderSource,
) -> LoadAction {
    match phase {
        LoadPhase::CheckVertex => LoadAction::CheckFile { stage: ShaderStage::Vertex, path: vs->0 },
        LoadPhase::CheckFragment => LoadAction::CheckFile {
            stage: ShaderStage::Fragment,
            path: fs->0,
        },
        LoadPhase::Loading => LoadAction::Load { source, vs, fs },
        LoadPhase::Validating => LoadAction::CheckValid,
        LoadPhase::Done(r) => LoadAction::Finish(r),
    }
}

impl ShaderLoader {
    /// A loader only checks a file that was named, and checks none when the
    /// sources are code.
    #[verifier::type_invariant]
    closed spec fn inv(self) -> bool {
        &&& self.phase == LoadPhase::CheckVertex ==> self.vs is Some && self.source == ShaderSource::Files
        &&& self.phase == LoadPhase::CheckFragment ==> self.fs is Some && self.source == ShaderSource::Files
        &&& self.source == ShaderSource::Memory ==> nul_free(self.vs) && nul_free(self.fs)
    }

    pub closed spec fn source(self) -> ShaderSource {
        self.source
    }

    pub closed spec fn vs(self) -> Option<String> {
        self.vs
    }

    pub closed spec fn fs(self) -> Option<String> {
        self.fs
    }

    pub closed spec fn phase(self) -> LoadPhase {
        self.phase
    }

    /// The action this loader asks for next.
    pub open spec fn spec_action(self) -> LoadAction {
        phase_action(self.phase(), self.vs(), self.fs(), self.source())
    }

    /// Starts loading a shader from `source`, with `vs` and `fs` the vertex and
    /// fragment stage sources (`None` for raylib's default stage).
    ///
    /// Shader code given as text must hold no NUL character: it is handed to
    /// raylib as a C string.
    pub fn new(source: ShaderSource, vs: Option<String>, fs: Option<String>) -> (l: Self)
        requires
            source == ShaderSource::Memory ==> nul_free(vs) && nul_free(fs),
        ensures
            l.source() == source,
            l.vs() == vs,
            l.fs() == fs,
            l.phase() == first_phase(source, vs, fs),
            source == ShaderSource::Memory ==> l.phase() == LoadPhase::Loading,
            source == ShaderSource::Files && vs is Some ==> l.phase() == LoadPhase::CheckVertex,
            source == ShaderSource::Files && vs is None && fs is Some ==> l.phase()
                == LoadPhase::CheckFragment,
            source == ShaderSource::Files && vs is None && fs is None ==> l.phase()
                == LoadPhase::Loading,
    {
        let phase = match source {
            ShaderSource::Memory => LoadPhase::Loading,
            ShaderSource::Files => if vs.is_some() {
                LoadPhase::CheckVertex
            } else if fs.is_some() {
                LoadPhase::CheckFragment
            } else {
                LoadPhase::Loading
            },
        };
        ShaderLoader { source, vs, fs, phase }
    }

    /// The next piece of outside work, or the outcome once the load is over.
    pub fn action(&self) -> (a: LoadAction)
        ensures
            a == self.spec_action(),
            a matches LoadAction::Load { source: ShaderSource::Memory, vs, fs } ==> nul_free(vs)
                && nul_free(fs),
            self.phase() == LoadPhase::CheckVertex ==> a == (LoadAction::CheckFile {
                stage: ShaderStage::Vertex,
                path: self.vs()->0,
            }),
            self.phase() == LoadPhase::CheckFragment ==> a == (LoadAction::CheckFile {
                stage: ShaderStage::Fragment,
                path: self.fs()->0,
            }),
            self.phase() == LoadPhase::Loading ==> a == (LoadAction::Load {
                source: self.source(),
                vs: self.vs(),
                fs: self.fs(),
            }),
            self.phase() == LoadPhase::Validating ==> a == LoadAction::CheckValid,
            self.phase() matches LoadPhase::Done(r) ==> a == LoadAction::Finish(r),
    {
        proof {
            use_type_invariant(self);
        }
        match &self.phase {
            LoadPhase::CheckVertex => {
                let path = self.vs.as_ref().unwrap().clone();
                LoadAction::CheckFile { stage: ShaderStage::Vertex, path }
            },
            LoadPhase::CheckFragment => {
                let path = self.fs.as_ref().unwrap().clone();
                LoadAction::CheckFile { stage: ShaderStage::Fragment, path }
            },
            LoadPhase::Loading => LoadAction::Load {
                source: self.source,
                vs: clone_source(&self.vs),
                fs: clone_source(&self.fs),
            },
            LoadPhase::Validating => LoadAction::CheckValid,
            LoadPhase::Done(r) => LoadAction::Finish(clone_outcome(r)),
        }
    }

    /// Takes in what the caller reports about the work last asked for.
    pub fn step(&mut self, event: LoadEvent)
        ensures
            final(self).source() == old(self).source(),
            final(self).vs() == old(self).vs(),
            final(self).fs() == old(self).fs(),
            final(self).phase() == next_phase(
                old(self).phase(),
                old(self).vs(),
                old(self).fs(),
                old(self).source(),
                event,
            ),
    {
        proof {
            use_type_invariant(&*self);
        }
        let next = match (&self.phase, event) {
            (LoadPhase::CheckVertex, LoadEvent::FileExists(true)) => if self.fs.is_some() {
                LoadPhase::CheckFragment
            } else {
                LoadPhase::Loading
            },
            (LoadPhase::CheckVertex, LoadEvent::FileExists(false)) => LoadPhase::Done(
                Err(ShaderError::MissingFile(self.vs.as_ref().unwrap().clone())),
            ),
            (LoadPhase::CheckFragment, LoadEvent::FileExists(true)) => LoadPhase::Loading,
            (LoadPhase::CheckFragment, LoadEvent::FileExists(false)) => LoadPhase::Done(
                Err(ShaderError::MissingFile(self.fs.as_ref().unwrap().clone())),
            ),
            (LoadPhase::Loading, LoadEvent::Loaded) => LoadPhase::Validating,
            (LoadPhase::Validating, LoadEvent::Valid(true)) => LoadPhase::Done(Ok(())),
            (LoadPhase::Validating, LoadEvent::Valid(false)) => LoadPhase::Done(
                Err(
                    match self.source {
                        ShaderSource::Files => ShaderError::CompileFailed,
                        ShaderSource::Memory => ShaderError::CompileFailedFromMemory,
                    },
                ),
            ),
            (p, _) => clone_phase(p),
        };
        self.phase = next;
    }
}

/// The event a caller reports for action `a` when the vertex file exists
/// exactly if `vs_exists`, the fragment file exactly if `fs_exists`, and the
/// loaded shader is valid exactly if `valid`.
pub open spec fn answer(a: LoadAction, vs_exists: bool, fs_exists: bool, valid: bool) -> LoadEvent {
    match a {
        LoadAction::CheckFile { stage: ShaderStage::Vertex, .. } => LoadEvent::FileExists(vs_exists),
        LoadAction::CheckFile { stage: ShaderStage::Fragment, .. } => LoadEvent::FileExists(
            fs_exists,
        ),
        LoadAction::Load { .. } => LoadEvent::Loaded,
        LoadAction::CheckValid => LoadEvent::Valid(valid),
        LoadAction::Finish(_) => LoadEvent::Loaded,
    }
}

/// The phase reached from `phase` after `n` actions, each answered as
/// [`answer`] says.
pub open spec fn run_phase(
    phase: LoadPhase,
    vs: Option<String>,
    fs: Option<String>,
    source: ShaderSource,
    vs_exists: bool,
    fs_exists: bool,
    valid: bool,
    n: nat,
) -> LoadPhase
    decreases n,
{
    if n == 0 {
        phase
    } else {
        let e = answer(phase_action(phase, vs, fs, source), vs_exists, fs_exists, valid);
        run_phase(
            next_phase(phase, vs, fs, source, e),
            vs,
            fs,
            source,
            vs_exists,
            fs_exists,
            valid,
            (n - 1) as nat,
        )
    }
}

/// The outcome of loading a shader: from files, the first named file that does
/// not exist (vertex before fragment) is the error; otherwise the load succeeds
/// exactly when the shader is valid.
pub open spec fn load_outcome(
    source: ShaderSource,
    vs: Option<String>,
    fs: Option<String>,
    vs_exists: bool,
    fs_exists: bool,
    valid: bool,
) -> Result<(), ShaderError> {
    if source == ShaderSource::Files && vs is Some && !vs_exists {
        Err(ShaderError::MissingFile(vs->0))
    } else if source == ShaderSource::Files && fs is Some && !fs_exists {
        Err(ShaderError::MissingFile(fs->0))
    } else if valid {
        Ok(())
    } else {
        Err(failed_compile_error(source))
    }
}

/// Once a load is over it stays over: every event leaves its outcome as it
/// is, and the outcome is all it reports.
pub proof fn lemma_done_is_final(
    r: Result<(), ShaderError>,
    vs: Option<String>,
    fs: Option<String>,
    source: ShaderSource,
    event: LoadEvent,
)
    ensures
        next_phase(LoadPhase::Done(r), vs, fs, source, event) == LoadPhase::Done(r),
        phase_action(LoadPhase::Done(r), vs, fs, source) == LoadAction::Finish(r),
{
}

proof fn lemma_run_done(
    r: Result<(), ShaderError>,
    vs: Option<String>,
    fs: Option<String>,
    source: ShaderSource,
    vs_exists: bool,
    fs_exists: bool,
    valid: bool,
    n: nat,
)
    ensures
        run_phase(LoadPhase::Done(r), vs, fs, source, vs_exists, fs_exists, valid, n)
            == LoadPhase::Done(r),
    decreases n,
{
    if n > 0 {
        lemma_run_done(r, vs, fs, source, vs_exists, fs_exists, valid, (n - 1) as nat);
    }
}

proof fn lemma_run_split(
    phase: LoadPhase,
    vs: Option<String>,
    fs: Option<String>,
    source: ShaderSource,
    vs_exists: bool,
    fs_exists: bool,
    valid: bool,
    a: nat,
    b: nat,
)
    ensures
        run_phase(phase, vs, fs, source, vs_exists, fs_exists, valid, a + b) == run_phase(
            run_phase(phase, vs, fs, source, vs_exists, fs_exists, valid, a),
            vs,
            fs,
            source,
            vs_exists,
            fs_exists,
            valid,
            b,
        ),
    decreases a,
{
    if a > 0 {
        let e = answer(phase_action(phase, vs, fs, source), vs_exists, fs_exists, valid);
        let p2 = next_phase(phase, vs, fs, source, e);
        lemma_run_split(p2, vs, fs, source, vs_exists, fs_exists, valid, (a - 1) as nat, b);
        assert((a + b - 1) as nat == ((a - 1) as nat + b) as nat);
    }
}

/// A load driven by truthful answers is over after at most four actions, and
/// its outcome is [`load_outcome`]; after that it stays over.
pub proof fn lemma_load_outcome(
    source: ShaderSource,
    vs: Option<String>,
    fs: Option<String>,
    vs_exists: bool,
    fs_exists: bool,
    valid: bool,
    n: nat,
)
    requires
        n >= 4,
    ensures
        run_phase(first_phase(source, vs, fs), vs, fs, source, vs_exists, fs_exists, valid, n)
            == LoadPhase::Done(load_outcome(source, vs, fs, vs_exists, fs_exists, valid)),
        ({
            let end = run_phase(
                first_phase(source, vs, fs),
                vs,
                fs,
                source,
                vs_exists,
                fs_exists,
                valid,
                n,
            );
            &&& source == ShaderSource::Files && vs is Some && !vs_exists ==> end
                == LoadPhase::Done(Err(ShaderError::MissingFile(vs->0)))
            &&& source == ShaderSource::Files && (vs is Some ==> vs_exists) && fs is Some
                && !fs_exists ==> end == LoadPhase::Done(Err(ShaderError::MissingFile(fs->0)))
            &&& (source == ShaderSource::Memory || ((vs is Some ==> vs_exists) && (fs is Some
                ==> fs_exists))) ==> end == LoadPhase::Done(
                if valid {
                    Ok(())
                } else if source == ShaderSource::Files {
                    Err(ShaderError::CompileFailed)
                } else {
                    Err(ShaderError::CompileFailedFromMemory)
                },
            )
        }),
{
    let p0 = first_phase(source, vs, fs);
    reveal_with_fuel(run_phase, 5);
    assert(run_phase(p0, vs, fs, source, vs_exists, fs_exists, valid, 4) == LoadPhase::Done(
        load_outcome(source, vs, fs, vs_exists, fs_exists, valid),
    ));
    lemma_run_split(p0, vs, fs, source, vs_exists, fs_exists, valid, 4, (n - 4) as nat);
    lemma_run_done(
        load_outcome(source, vs, fs, vs_exists, fs_exists, valid),
        vs,
        fs,
        source,
        vs_exists,
        fs_exists,
        valid,
        (n - 4) as nat,
    );
}

/// A load succeeds only by a report that the loaded shader is valid.
pub proof fn lemma_ok_only_when_valid(
    phase: LoadPhase,
    vs: Option<String>,
    fs: Option<String>,
    source: ShaderSource,
    event: LoadEvent,
)
    requires
        !(phase is Done),
        next_phase(phase, vs, fs, source, event) == LoadPhase::Done(Ok(())),
    ensures
        phase == LoadPhase::Validating,
        event == LoadEvent::Valid(true),
{
}

/// Loading from files hands the sources to raylib only once every file named
/// has been reported to exist; a missing file ends the load before that.
pub proof fn lemma_load_only_after_files_found(
    source: ShaderSource,
    vs: Option<String>,
    fs: Option<String>,
    vs_exists: bool,
    fs_exists: bool,
    valid: bool,
    n: nat,
)
    requires
        source == ShaderSource::Files,
        run_phase(first_phase(source, vs, fs), vs, fs, source, vs_exists, fs_exists, valid, n)
            == LoadPhase::Loading,
    ensures
        vs is Some ==> vs_exists,
        fs is Some ==> fs_exists,
{
    let p0 = first_phase(source, vs, fs);
    if n >= 4 {
        lemma_load_outcome(source, vs, fs, vs_exists, fs_exists, valid, n);
    } else {
        reveal_with_fuel(run_phase, 4);
    }
}

/// Loading shader code given as text never asks whether a file exists: at no
/// point of the load is a file check pending.
pub proof fn lemma_memory_never_checks_files(
    vs: Option<String>,
    fs: Option<String>,
    vs_exists: bool,
    fs_exists: bool,
    valid: bool,
    n: nat,
)
    ensures
        !(phase_action(
            run_phase(
                first_phase(ShaderSource::Memory, vs, fs),
                vs,
                fs,
                ShaderSource::Memory,
                vs_exists,
                fs_exists,
                valid,
                n,
            ),
            vs,
            fs,
            ShaderSource::Memory,
        ) is CheckFile),
{
    if n >= 4 {
        lemma_load_outcome(ShaderSource::Memory, vs, fs, vs_exists, fs_exists, valid, n);
    } else {
        reveal_with_fuel(run_phase, 4);
    }
}

/// Every action a loader asks for names the loader's own inputs in their own
/// places: a file check names the file given for that stage, and the request
/// to raylib carries the vertex source in the vertex slot and the fragment
/// source in the fragment slot, `None` staying `None`, for code as for files.
pub proof fn lemma_actions_name_own_inputs(
    source: ShaderSource,
    vs: Option<String>,
    fs: Option<String>,
    r: Result<(), ShaderError>,
)
    ensures
        phase_action(LoadPhase::CheckVertex, vs, fs, source) == (LoadAction::CheckFile {
            stage: ShaderStage::Vertex,
            path: vs->0,
        }),
        phase_action(LoadPhase::CheckFragment, vs, fs, source) == (LoadAction::CheckFile {
            stage: ShaderStage::Fragment,
            path: fs->0,
        }),
        phase_action(LoadPhase::Loading, vs, fs, source) == (LoadAction::Load { source, vs, fs }),
        phase_action(LoadPhase::Validating, vs, fs, source) == LoadAction::CheckValid,
        phase_action(LoadPhase::Done(r), vs, fs, source) == LoadAction::Finish(r),
{
}

/// Shader code given as text goes to raylib at once, each stage in its own
/// slot; files are checked first, the vertex file before the fragment file,
/// and with no file named the default shader is requested at once.
pub proof fn lemma_first_request(source: ShaderSource, vs: Option<String>, fs: Option<String>)
    ensures
        source == ShaderSource::Memory ==> phase_action(first_phase(source, vs, fs), vs, fs, source)
            == (LoadAction::Load { source, vs, fs }),
        source == ShaderSource::Files && vs is Some ==> phase_action(
            first_phase(source, vs, fs),
            vs,
            fs,
            source,
        ) == (LoadAction::CheckFile { stage: ShaderStage::Vertex, path: vs->0 }),
        source == ShaderSource::Files && vs is None && fs is Some ==> phase_action(
            first_phase(source, vs, fs),
            vs,
            fs,
            source,
        ) == (LoadAction::CheckFile { stage: ShaderStage::Fragment, path: fs->0 }),
        source == ShaderSource::Files && vs is None && fs is None ==> phase_action(
            first_phase(source, vs, fs),
            vs,
            fs,
            source,
        ) == (LoadAction::Load { source, vs: None, fs: None }),
{
}

/// How each report moves a load on: a found file leads to the next named file
/// or to the request to raylib; a missing file ends the load with that file's
/// name; a loaded shader is checked; a valid one ends the load with success and
/// an invalid one with the compile error of its source kind.
pub proof fn lemma_reports(source: ShaderSource, vs: Option<String>, fs: Option<String>)
    ensures
        next_phase(LoadPhase::CheckVertex, vs, fs, source, LoadEvent::FileExists(true)) == (if fs is Some {
            LoadPhase::CheckFragment
        } else {
            LoadPhase::Loading
        }),
        next_phase(LoadPhase::CheckVertex, vs, fs, source, LoadEvent::FileExists(false))
            == LoadPhase::Done(Err(ShaderError::MissingFile(vs->0))),
        next_phase(LoadPhase::CheckFragment, vs, fs, source, LoadEvent::FileExists(true))
            == LoadPhase::Loading,
        next_phase(LoadPhase::CheckFragment, vs, fs, source, LoadEvent::FileExists(false))
            == LoadPhase::Done(Err(ShaderError::MissingFile(fs->0))),
        next_phase(LoadPhase::Loading, vs, fs, source, LoadEvent::Loaded) == LoadPhase::Validating,
        next_phase(LoadPhase::Validating, vs, fs, source, LoadEvent::Valid(true)) == LoadPhase::Done(
            Ok(()),
        ),
        next_phase(LoadPhase::Validating, vs, fs, source, LoadEvent::Valid(false))
            == LoadPhase::Done(
            Err(
                if source == ShaderSource::Files {
                    ShaderError::CompileFailed
                } else {
                    ShaderError::CompileFailedFromMemory
                },
            ),
        ),
{
}

fn clone_source(s: &Option<String>) -> (r: Option<String>)
    ensures
        r == *s,
{
    match s {
        Some(x) => Some(x.clone()),
        None => None,
    }
}

fn clone_outcome(r: &Result<(), ShaderError>) -> (c: Result<(), ShaderError>)
    ensures
        c == *r,
{
    match r {
        Ok(u) => Ok(*u),
        Err(ShaderError::MissingFile(p)) => Err(ShaderError::MissingFile(p.clone())),
        Err(ShaderError::CompileFailed) => Err(ShaderError::CompileFailed),
        Err(ShaderError::CompileFailedFromMemory) => Err(ShaderError::CompileFailedFromMemory),
    }
}

fn clone_phase(p: &LoadPhase) -> (c: LoadPhase)
    ensures
        c == *p,
{
    match p {
        LoadPhase::CheckVertex => LoadPhase::CheckVertex,
        LoadPhase::CheckFragment => LoadPhase::CheckFragment,
        LoadPhase::Loading => LoadPhase::Loading,
        LoadPhase::Validating => LoadPhase::Validating,
        LoadPhase::Done(r) => LoadPhase::Done(clone_outcome(r)),
    }
}

} // verus!
