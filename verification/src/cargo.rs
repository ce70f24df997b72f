//! The build driver: classifies each line of the compiler's structured
//! output and folds the classified records into a build outcome.
//!
//! One line of output is one JSON record: a compiler diagnostic, a
//! compiled artifact, or build-script metadata. Classification tries
//! those three shapes in that fixed order and takes the first match; a
//! line matching none aborts the whole build. The outcome is decided by
//! the collected error-level diagnostics alone: none means success (even
//! with no artifacts), one or more means failure, whatever the artifacts.
use vstd::prelude::*;

use crate::text::{contains_str, spec_contains_str, str_eq};

verus! {

/// Why a build-driver run failed before an outcome could be reached.
#[derive(Clone, Copy, Debug, PartialEq, Eq, Structural)]
pub enum Error {
    RunCommandError,
    CompileErrors,
    DeserializeOutputError,
    CaptureStdoutError,
    StdoutLineError,
    SerializeMessageError,
    UnexpectedFileCountError,
}

/// What to compile: each populated field becomes one compiler flag,
/// and an unset field produces no flag at all.
pub struct BuildOptions {
    pub package: Option<String>,
    pub all: bool,
    pub exclude: Option<String>,
    pub jobs: Option<String>,
    pub lib: bool,
    pub bin: Option<String>,
    pub bins: bool,
    pub example: Option<String>,
    pub all_targets: bool,
    pub release: bool,
    pub features: Option<String>,
    pub all_features: bool,
    pub no_default_features: bool,
    pub manifest_path: Option<String>,
    pub verbose: bool,
    pub quiet: bool,
    pub frozen: bool,
    pub locked: bool,
    pub cargo_flags: Option<String>,
}

/// One compiler diagnostic: its severity, its rendered text when the
/// compiler supplied one, and the serialized record as a fallback text.
pub struct CompilerMessage {
    pub level: String,
    pub rendered: Option<String>,
    pub fallback: String,
}

/// One reported compiled output, before the driver has checked it:
/// the target's name, its kinds, and the output files.
pub struct RawArtifact {
    pub name: String,
    pub kinds: Vec<String>,
    pub filenames: Vec<String>,
}

/// One classified line of compiler output.
pub enum CargoBuildOutput {
    FromCompiler(CompilerMessage),
    Artifact(RawArtifact),
    BuildScript,
}

/// One retained compiled output: a binary-like or library-like target
/// with its single output path.
#[derive(Clone)]
pub enum WasmArtifact {
    Binary(String, String),
    Library(String, String),
}

/// The driver's accumulating state: retained artifacts and collected
/// error texts, each in the order reported.
pub struct DriverState {
    pub artifacts: Vec<WasmArtifact>,
    pub errors: Vec<String>,
}

/// The driver's verdict once the output stream is exhausted.
pub enum BuildOutcome {
    Success(Vec<WasmArtifact>),
    Failure(Vec<String>),
}

/// Mathematical form of a compiler diagnostic.
pub ghost struct MessageModel {
    pub level: Seq<char>,
    pub rendered: Option<Seq<char>>,
    pub fallback: Seq<char>,
}

/// Mathematical form of a reported artifact.
pub ghost struct ArtifactModel {
    pub name: Seq<char>,
    pub kinds: Seq<Seq<char>>,
    pub filenames: Seq<Seq<char>>,
}

/// Mathematical form of one classified line.
pub ghost enum OutputModel {
    Compiler(MessageModel),
    Artifact(ArtifactModel),
    BuildScript,
}

/// Mathematical form of a retained artifact.
pub ghost enum WasmArtifactModel {
    Binary(Seq<char>, Seq<char>),
    Library(Seq<char>, Seq<char>),
}

/// Mathematical form of the driver's state.
#[verifier::ext_equal]
pub ghost struct DriverModel {
    pub artifacts: Seq<WasmArtifactModel>,
    pub errors: Seq<Seq<char>>,
}

/// Mathematical form of the verdict.
pub ghost enum OutcomeModel {
    Success(Seq<WasmArtifactModel>),
    Failure(Seq<Seq<char>>),
}

impl View for CompilerMessage {
    type V = MessageModel;

    open spec fn view(&self) -> MessageModel {
        MessageModel {
            level: self.level@,
            rendered: match self.rendered {
                Some(r) => Some(r@),
                None => None,
            },
            fallback: self.fallback@,
        }
    }
}

impl View for RawArtifact {
    type V = ArtifactModel;

    open spec fn view(&self) -> ArtifactModel {
        ArtifactModel {
            name: self.name@,
            kinds: self.kinds.deep_view(),
            filenames: self.filenames.deep_view(),
        }
    }
}

impl View for CargoBuildOutput {
    type V = OutputModel;

    open spec fn view(&self) -> OutputModel {
        match self {
            CargoBuildOutput::FromCompiler(m) => OutputModel::Compiler(m@),
            CargoBuildOutput::Artifact(a) => OutputModel::Artifact(a@),
            CargoBuildOutput::BuildScript => OutputModel::BuildScript,
        }
    }
}

impl View for WasmArtifact {
    type V = WasmArtifactModel;

    open spec fn view(&self) -> WasmArtifactModel {
        match self {
            WasmArtifact::Binary(n, p) => WasmArtifactModel::Binary(n@, p@),
            WasmArtifact::Library(n, p) => WasmArtifactModel::Library(n@, p@),
        }
    }
}

impl DeepView for WasmArtifact {
    type V = WasmArtifactModel;

    open spec fn deep_view(&self) -> WasmArtifactModel {
        self.view()
    }
}

impl DeepView for CargoBuildOutput {
    type V = OutputModel;

    open spec fn deep_view(&self) -> OutputModel {
        self.view()
    }
}

impl View for DriverState {
    type V = DriverModel;

    open spec fn view(&self) -> DriverModel {
        DriverModel { artifacts: self.artifacts.deep_view(), errors: self.errors.deep_view() }
    }
}

impl View for BuildOutcome {
    type V = OutcomeModel;

    open spec fn view(&self) -> OutcomeModel {
        match self {
            BuildOutcome::Success(a) => OutcomeModel::Success(a.deep_view()),
            BuildOutcome::Failure(e) => OutcomeModel::Failure(e.deep_view()),
        }
    }
}

/// The text an error-level diagnostic contributes: the rendered text
/// when present, else the serialized record.
pub open spec fn spec_rendered_text(m: MessageModel) -> Seq<char> {
    match m.rendered {
        Some(r) => r,
        None => m.fallback,
    }
}

/// A target is binary-like when its kinds name an executable or an example.
pub open spec fn spec_binary_kind(kinds: Seq<Seq<char>>) -> bool {
    kinds.contains("bin"@) || kinds.contains("example"@)
}

/// A target is library-like when its kinds name a C-compatible dynamic library.
pub open spec fn spec_library_kind(kinds: Seq<Seq<char>>) -> bool {
    kinds.contains("cdylib"@)
}

/// What one classified record does to the driver's state.
pub open spec fn spec_step(s: DriverModel, o: OutputModel) -> Result<DriverModel, Error> {
    match o {
        OutputModel::Compiler(m) => if m.level == "error"@ {
            Ok(DriverModel { artifacts: s.artifacts, errors: s.errors.push(spec_rendered_text(m)) })
        } else {
            Ok(s)
        },
        OutputModel::Artifact(a) => if a.filenames.len() != 1 {
            Err(Error::UnexpectedFileCountError)
        } else if spec_binary_kind(a.kinds) {
            Ok(
                DriverModel {
                    artifacts: s.artifacts.push(
                        WasmArtifactModel::Binary(a.name, a.filenames[0]),
                    ),
                    errors: s.errors,
                },
            )
        } else if spec_library_kind(a.kinds) {
            Ok(
                DriverModel {
                    artifacts: s.artifacts.push(
                        WasmArtifactModel::Library(a.name, a.filenames[0]),
                    ),
                    errors: s.errors,
                },
            )
        } else {
            Ok(s)
        },
        OutputModel::BuildScript => Ok(s),
    }
}

impl DriverState {
    /// A fresh driver: nothing retained, nothing collected.
    pub fn new() -> (r: DriverState)
        ensures
            r@.artifacts.len() == 0,
            r@.errors.len() == 0,
    {
        DriverState { artifacts: Vec::new(), errors: Vec::new() }
    }
}

proof fn lemma_contains_deep(v: &Vec<String>, x: Seq<char>)
    ensures
        spec_contains_str(v@, x) == v.deep_view().contains(x),
{
    if spec_contains_str(v@, x) {
        let i = choose|i: int| 0 <= i < v@.len() && v@[i]@ == x;
        assert(v.deep_view()[i] == x);
    }
    if v.deep_view().contains(x) {
        let i = choose|i: int| 0 <= i < v.deep_view().len() && v.deep_view()[i] == x;
        assert(v@[i]@ == x);
    }
}

/// Fold one classified record into the driver's state.
///
/// An artifact must carry exactly one output path; more or fewer aborts
/// with `UnexpectedFileCountError` and leaves the state untouched, never
/// a partial artifact. Only error-level diagnostics are collected, and
/// only binary-like or library-like targets are retained.
pub fn process_output(state: &mut DriverState, output: CargoBuildOutput) -> (r: Result<(), Error>)
    ensures
        match spec_step(old(state)@, output@) {
            Ok(m) => r is Ok && final(state)@ == m,
            Err(e) => r == Err::<(), Error>(e) && final(state)@ == old(state)@,
        },
{
    match output {
        CargoBuildOutput::FromCompiler(m) => {
            if str_eq(m.level.as_str(), "error") {
                let text = match m.rendered {
                    Some(r) => r,
                    None => m.fallback,
                };
                state.errors.push(text);
                proof {
                    assert(state@.errors =~= old(state)@.errors.push(spec_rendered_text(m@)));
                }
            }
            Ok(())
        },
        CargoBuildOutput::Artifact(mut a) => {
            if a.filenames.len() != 1 {
                return Err(Error::UnexpectedFileCountError);
            }
            proof {
                lemma_contains_deep(&a.kinds, "bin"@);
                lemma_contains_deep(&a.kinds, "example"@);
                lemma_contains_deep(&a.kinds, "cdylib"@);
            }
            let binary = contains_str(&a.kinds, "bin") || contains_str(&a.kinds, "example");
            let library = contains_str(&a.kinds, "cdylib");
            let ghost prior = a@;
            let file = a.filenames.pop().unwrap();
            proof {
                assert(file@ == prior.filenames[0]);
            }
            if binary {
                state.artifacts.push(WasmArtifact::Binary(a.name, file));
                proof {
                    assert(state@.artifacts =~= old(state)@.artifacts.push(
                        WasmArtifactModel::Binary(prior.name, prior.filenames[0]),
                    ));
                }
            } else if library {
                state.artifacts.push(WasmArtifact::Library(a.name, file));
                proof {
                    assert(state@.artifacts =~= old(state)@.artifacts.push(
                        WasmArtifactModel::Library(prior.name, prior.filenames[0]),
                    ));
                }
            }
            Ok(())
        },
        CargoBuildOutput::BuildScript => Ok(()),
    }
}

/// A package identifier, as the compiler reports it: a name, a
/// version, and a source, written as one space-separated string.
#[derive(Debug)]
pub struct PackageId {
    pub name: String,
    pub version: String,
    pub source_id: String,
}

/// Index of the first space in `s`, or -1 when there is none.
pub open spec fn spec_first_space(s: Seq<char>) -> int
    decreases s.len(),
{
    if s.len() == 0 {
        -1
    } else if s[0] == ' ' {
        0
    } else if spec_first_space(s.drop_first()) < 0 {
        -1
    } else {
        spec_first_space(s.drop_first()) + 1
    }
}

/// The three parts of a package identifier: the text before the first
/// space, the text between the first and the second space, and all the
/// rest. An identifier with fewer than three parts is no identifier.
pub open spec fn spec_package_id_parts(s: Seq<char>) -> Option<(Seq<char>, Seq<char>, Seq<char>)> {
    let i = spec_first_space(s);
    if i < 0 {
        None
    } else {
        let rest = s.subrange(i + 1, s.len() as int);
        let j = spec_first_space(rest);
        if j < 0 {
            None
        } else {
            Some(
                (s.subrange(0, i), rest.subrange(0, j), rest.subrange(j + 1, rest.len() as int)),
            )
        }
    }
}

proof fn lemma_first_space_bounds(s: Seq<char>)
    ensures
        -1 <= spec_first_space(s) < s.len(),
        spec_first_space(s) >= 0 ==> s[spec_first_space(s)] == ' ',
        forall|j: int| 0 <= j < spec_first_space(s) ==> s[j] != ' ',
        spec_first_space(s) < 0 ==> forall|j: int| 0 <= j < s.len() ==> s[j] != ' ',
    decreases s.len(),
{
    if s.len() == 0 {
    } else if s[0] == ' ' {
    } else {
        lemma_first_space_bounds(s.drop_first());
        assert(forall|j: int| 0 <= j < s.len() - 1 ==> s.drop_first()[j] == s[j + 1]);
        if spec_first_space(s) < 0 {
            assert forall|j: int| 0 <= j < s.len() implies s[j] != ' ' by {
                if j > 0 {
                    assert(s.drop_first()[j - 1] == s[j]);
                }
            }
        } else {
            assert forall|j: int| 0 <= j < spec_first_space(s) implies s[j] != ' ' by {
                if j > 0 {
                    assert(s.drop_first()[j - 1] == s[j]);
                }
            }
        }
    }
}

proof fn lemma_first_space_at(s: Seq<char>, k: int)
    requires
        0 <= k < s.len(),
        s[k] == ' ',
        forall|j: int| 0 <= j < k ==> s[j] != ' ',
    ensures
        spec_first_space(s) == k,
    decreases k,
{
    if k > 0 {
        assert(forall|j: int| 0 <= j < s.len() - 1 ==> s.drop_first()[j] == s[j + 1]);
        lemma_first_space_at(s.drop_first(), k - 1);
    }
}

/// The index of the first space of `s`, or its length when it has none.
fn scan_first_space(s: &str) -> (r: usize)
    ensures
        spec_first_space(s@) >= 0 ==> r == spec_first_space(s@),
        spec_first_space(s@) < 0 ==> r == s@.len(),
{
    proof {
        lemma_first_space_bounds(s@);
    }
    let n = s.unicode_len();
    #[verifier::loop_isolation(false)]
    for i in 0..n
        invariant
            forall|j: int| 0 <= j < i ==> s@[j] != ' ',
    {
        if s.get_char(i) == ' ' {
            proof {
                lemma_first_space_at(s@, i as int);
            }
            return i;
        }
    }
    n
}

/// Parse a package identifier into its three parts, exactly as the
/// space-separated form denotes them; fewer than three parts is a
/// malformed identifier.
pub fn parse_package_id(s: &str) -> (r: Option<PackageId>)
    ensures
        match spec_package_id_parts(s@) {
            Some(parts) => (r matches Some(p) && p.name@ == parts.0 && p.version@ == parts.1
                && p.source_id@ == parts.2),
            None => r is None,
        },
{
    proof {
        lemma_first_space_bounds(s@);
    }
    let n = s.unicode_len();
    let i = scan_first_space(s);
    if i == n {
        return None;
    }
    let name = s.substring_char(0, i);
    let rest = s.substring_char(i + 1, n);
    proof {
        lemma_first_space_bounds(rest@);
    }
    let m = rest.unicode_len();
    let j = scan_first_space(rest);
    if j == m {
        return None;
    }
    let version = rest.substring_char(0, j);
    let source_id = rest.substring_char(j + 1, m);
    Some(
        PackageId {
            name: name.to_owned(),
            version: version.to_owned(),
            source_id: source_id.to_owned(),
        },
    )
}

/// What the compiler-message shape yields for a line, when the line
/// matches it: the raw package identifier and the diagnostic. A
/// function of the line alone: the same line always parses the same way.
pub uninterp spec fn compiler_shape_of(line: Seq<char>) -> Option<(Seq<char>, MessageModel)>;

/// What the artifact shape yields for a line, when the line matches
/// it: the raw package identifier and the reported artifact.
pub uninterp spec fn artifact_shape_of(line: Seq<char>) -> Option<(Seq<char>, ArtifactModel)>;

/// What the build-script shape yields for a line, when the line
/// matches it: the raw package identifier.
pub uninterp spec fn build_script_shape_of(line: Seq<char>) -> Option<Seq<char>>;

/// Relies on serde_json (from_str, Value::get, Value::as_str,
/// to_string): parses the line as a JSON object shaped like a compiler
/// diagnostic record, one carrying a "package_id" string, a "target"
/// object with its "src_path", and a "message" object with a "level"
/// string beside its "spans", and hands back the raw package
/// identifier beside that level, the optional "rendered" text, and the
/// serialized "message" object as the fallback text.
#[verifier::external_body]
fn try_compiler_message(line: &str) -> (r: Option<(String, CompilerMessage)>)
    ensures
        match compiler_shape_of(line@) {
            Some(shape) => (r matches Some(p) && p.0@ == shape.0 && p.1@ == shape.1),
            None => r is None,
        },
{
    let v: serde_json::Value = serde_json::from_str(line).ok()?;
    let package_id = v.get("package_id")?.as_str()?.to_owned();
    let m = v.get("message")?;
    if v.get("target")?.get("src_path").is_none() || m.get("spans").is_none() {
        return None;
    }
    let level = m.get("level")?.as_str()?.to_owned();
    let rendered = match m.get("rendered") {
        Some(serde_json::Value::String(s)) => Some(s.clone()),
        _ => None,
    };
    let fallback = serde_json::to_string(m).ok()?;
    Some((package_id, CompilerMessage { level, rendered, fallback }))
}

/// Relies on serde_json (from_str, Value::get, Value::as_str,
/// from_value): parses the line as a JSON object shaped like an
/// artifact record, one carrying a "package_id" string, "profile",
/// "fresh", "filenames" and a "target" object with its "src_path",
/// "name" and "kind" list, and hands back the raw package identifier
/// beside the target name, its kinds and the reported file names.
#[verifier::external_body]
fn try_artifact(line: &str) -> (r: Option<(String, RawArtifact)>)
    ensures
        match artifact_shape_of(line@) {
            Some(shape) => (r matches Some(p) && p.0@ == shape.0 && p.1@ == shape.1),
            None => r is None,
        },
{
    let v: serde_json::Value = serde_json::from_str(line).ok()?;
    let package_id = v.get("package_id")?.as_str()?.to_owned();
    let target = v.get("target")?;
    if v.get("profile").is_none() || v.get("fresh").is_none() || target.get("src_path").is_none() {
        return None;
    }
    let name = target.get("name")?.as_str()?.to_owned();
    let kinds: Vec<String> = serde_json::from_value(target.get("kind")?.clone()).ok()?;
    let filenames: Vec<String> = serde_json::from_value(v.get("filenames")?.clone()).ok()?;
    Some((package_id, RawArtifact { name, kinds, filenames }))
}

/// Relies on serde_json (from_str, Value::get, Value::as_str): when
/// the line parses as a JSON object shaped like a build-script record,
/// one carrying "linked_libs", "linked_paths", "cfgs" and "env" beside
/// a "package_id" string, hands back that raw package identifier.
#[verifier::external_body]
fn try_build_script(line: &str) -> (r: Option<String>)
    ensures
        match build_script_shape_of(line@) {
            Some(shape) => (r matches Some(p) && p@ == shape),
            None => r is None,
        },
{
    let v: serde_json::Value = serde_json::from_str(line).ok()?;
    let package_id = v.get("package_id")?.as_str()?.to_owned();
    if v.get("linked_libs").is_none() || v.get("linked_paths").is_none() || v.get("cfgs").is_none()
        || v.get("env").is_none()
    {
        return None;
    }
    Some(package_id)
}

/// Classification when the compiler-message shape did not decide:
/// next the artifact shape, then the build-script shape.
pub open spec fn spec_classify_artifact(line: Seq<char>) -> Result<OutputModel, Error> {
    match artifact_shape_of(line) {
        Some(shape) => if spec_package_id_parts(shape.0) is Some {
            Ok(OutputModel::Artifact(shape.1))
        } else {
            spec_classify_build_script(line)
        },
        None => spec_classify_build_script(line),
    }
}

/// Classification when only the build-script shape is left: a line
/// matching it with a well-formed package identifier is a build-script
/// record, anything else is a hard failure.
pub open spec fn spec_classify_build_script(line: Seq<char>) -> Result<OutputModel, Error> {
    match build_script_shape_of(line) {
        Some(pid) => if spec_package_id_parts(pid) is Some {
            Ok(OutputModel::BuildScript)
        } else {
            Err(Error::DeserializeOutputError)
        },
        None => Err(Error::DeserializeOutputError),
    }
}

/// The record a line classifies as: the three shapes are tried in the
/// fixed priority order compiler message, artifact, build script; a
/// shape matches only when it parses and its package identifier is
/// well formed; the first match decides; a line matching no shape is
/// `DeserializeOutputError`, never skipped.
pub open spec fn spec_classify(line: Seq<char>) -> Result<OutputModel, Error> {
    match compiler_shape_of(line) {
        Some(shape) => if spec_package_id_parts(shape.0) is Some {
            Ok(OutputModel::Compiler(shape.1))
        } else {
            spec_classify_artifact(line)
        },
        None => spec_classify_artifact(line),
    }
}

/// Classify one line of the compiler's structured output, exactly as
/// `spec_classify` says: priority-ordered first structural match, hard
/// failure for a line matching no shape.
pub fn classify_line(line: &str) -> (r: Result<CargoBuildOutput, Error>)
    ensures
        match spec_classify(line@) {
            Ok(o) => (r matches Ok(out) && out@ == o),
            Err(e) => r == Err::<CargoBuildOutput, Error>(e),
        },
{
    if let Some((package_id, m)) = try_compiler_message(line) {
        if parse_package_id(package_id.as_str()).is_some() {
            return Ok(CargoBuildOutput::FromCompiler(m));
        }
    }
    if let Some((package_id, a)) = try_artifact(line) {
        if parse_package_id(package_id.as_str()).is_some() {
            return Ok(CargoBuildOutput::Artifact(a));
        }
    }
    if let Some(package_id) = try_build_script(line) {
        if parse_package_id(package_id.as_str()).is_some() {
            return Ok(CargoBuildOutput::BuildScript);
        }
    }
    Err(Error::DeserializeOutputError)
}

/// Classify one line and fold it into the driver's state: the state
/// moves exactly as `spec_step` says for the line's record under
/// `spec_classify`; a line matching no shape, or an artifact with
/// other than one file, aborts and leaves the state untouched.
pub fn process_line(state: &mut DriverState, line: &str) -> (r: Result<(), Error>)
    ensures
        match spec_classify(line@) {
            Ok(o) => match spec_step(old(state)@, o) {
                Ok(m) => r is Ok && final(state)@ == m,
                Err(e) => r == Err::<(), Error>(e) && final(state)@ == old(state)@,
            },
            Err(e) => r == Err::<(), Error>(e) && final(state)@ == old(state)@,
        },
{
    match classify_line(line) {
        Ok(output) => process_output(state, output),
        Err(e) => Err(e),
    }
}

/// The verdict after the stream ends: success exactly when no
/// error-level diagnostic was collected, failure with all the collected
/// texts otherwise. The artifact list plays no part in the decision.
pub open spec fn spec_outcome(m: DriverModel) -> OutcomeModel {
    if m.errors.len() == 0 {
        OutcomeModel::Success(m.artifacts)
    } else {
        OutcomeModel::Failure(m.errors)
    }
}

/// Decide the outcome from the final driver state.
pub fn conclude(state: DriverState) -> (r: BuildOutcome)
    ensures
        r@ == spec_outcome(state@),
{
    if state.errors.len() == 0 {
        BuildOutcome::Success(state.artifacts)
    } else {
        BuildOutcome::Failure(state.errors)
    }
}

/// Fold a whole stream of classified records, stopping at the first
/// failing one.
pub open spec fn spec_drive(s: DriverModel, outputs: Seq<OutputModel>) -> Result<
    DriverModel,
    Error,
>
    decreases outputs.len(),
{
    if outputs.len() == 0 {
        Ok(s)
    } else {
        match spec_step(s, outputs[0]) {
            Ok(s2) => spec_drive(s2, outputs.drop_first()),
            Err(e) => Err(e),
        }
    }
}

/// The empty driver state.
pub open spec fn spec_empty_driver() -> DriverModel {
    DriverModel { artifacts: Seq::empty(), errors: Seq::empty() }
}

/// Whether one record is an error-level diagnostic.
pub open spec fn spec_is_error_diag(o: OutputModel) -> bool {
    o matches OutputModel::Compiler(m) && m.level == "error"@
}

/// Whether some record in the stream is an error-level diagnostic.
pub open spec fn spec_has_error_diag(outputs: Seq<OutputModel>) -> bool {
    exists|i: int| 0 <= i < outputs.len() && spec_is_error_diag(#[trigger] outputs[i])
}

/// The texts of the error-level diagnostics in the stream, in order.
pub open spec fn spec_error_texts(outputs: Seq<OutputModel>) -> Seq<Seq<char>>
    decreases outputs.len(),
{
    if outputs.len() == 0 {
        Seq::empty()
    } else {
        let head: Seq<Seq<char>> = match outputs[0] {
            OutputModel::Compiler(m) => if m.level == "error"@ {
                seq![spec_rendered_text(m)]
            } else {
                Seq::empty()
            },
            _ => Seq::empty(),
        };
        head + spec_error_texts(outputs.drop_first())
    }
}

proof fn lemma_drive_collects_error_texts(s: DriverModel, outputs: Seq<OutputModel>)
    requires
        spec_drive(s, outputs) is Ok,
    ensures
        spec_drive(s, outputs)->Ok_0.errors =~= s.errors + spec_error_texts(outputs),
    decreases outputs.len(),
{
    if outputs.len() == 0 {
        assert(s.errors + spec_error_texts(outputs) =~= s.errors);
    } else {
        let s2 = spec_step(s, outputs[0])->Ok_0;
        lemma_drive_collects_error_texts(s2, outputs.drop_first());
    }
}

proof fn lemma_error_texts_empty_iff_no_error_diag(outputs: Seq<OutputModel>)
    ensures
        (spec_error_texts(outputs).len() == 0) <==> !spec_has_error_diag(outputs),
    decreases outputs.len(),
{
    if outputs.len() > 0 {
        lemma_error_texts_empty_iff_no_error_diag(outputs.drop_first());
        if spec_has_error_diag(outputs.drop_first()) {
            let i = choose|i: int|
                0 <= i < outputs.drop_first().len() && spec_is_error_diag(
                    #[trigger] outputs.drop_first()[i],
                );
            assert(spec_is_error_diag(outputs[i + 1]));
        }
        if spec_has_error_diag(outputs) && !spec_is_error_diag(outputs[0]) {
            let i = choose|i: int| 0 <= i < outputs.len() && spec_is_error_diag(#[trigger] outputs[i]);
            assert(spec_is_error_diag(outputs.drop_first()[i - 1]));
        }
    }
}

/// The outcome of a finished run is decided by its diagnostics alone:
/// with no error-level diagnostic in the stream the run succeeds, even
/// when it retained no artifact; with one or more it fails, whatever
/// was retained, and the failure carries exactly the rendered texts of
/// those diagnostics, in the order they appeared. The premise asks
/// that the fold completed, which holds exactly when every artifact
/// record in the stream carries exactly one file: a record with any
/// other count aborts the run before an outcome exists.
pub proof fn lemma_outcome_decided_by_diagnostics(outputs: Seq<OutputModel>)
    requires
        spec_drive(spec_empty_driver(), outputs) is Ok,
    ensures
        !spec_has_error_diag(outputs) ==> spec_outcome(spec_drive(spec_empty_driver(), outputs)->Ok_0)
            == OutcomeModel::Success(spec_drive(spec_empty_driver(), outputs)->Ok_0.artifacts),
        spec_has_error_diag(outputs) ==> spec_outcome(spec_drive(spec_empty_driver(), outputs)->Ok_0)
            == OutcomeModel::Failure(spec_error_texts(outputs)),
{
    lemma_drive_collects_error_texts(spec_empty_driver(), outputs);
    lemma_error_texts_empty_iff_no_error_diag(outputs);
}

/// Fold an already classified stream into its outcome.
pub fn run_outputs(outputs: Vec<CargoBuildOutput>) -> (r: Result<BuildOutcome, Error>)
    ensures
        match spec_drive(spec_empty_driver(), outputs.deep_view()) {
            Ok(m) => r matches Ok(o) && o@ == spec_outcome(m),
            Err(e) => r == Err::<BuildOutcome, Error>(e),
        },
{
    let ghost stream = outputs.deep_view();
    let mut rest = outputs;
    let mut state = DriverState::new();
    proof {
        assert(state@ =~= spec_empty_driver());
    }
    #[verifier::loop_isolation(false)]
    while rest.len() > 0
        invariant
            spec_drive(spec_empty_driver(), stream) == spec_drive(state@, rest.deep_view()),
        decreases rest.len(),
    {
        let ghost before = rest.deep_view();
        proof {
            assert(before.len() > 0);
        }
        let output = rest.remove(0);
        proof {
            assert(rest.deep_view() =~= before.drop_first());
            assert(output@ == before[0]);
        }
        match process_output(&mut state, output) {
            Ok(()) => {},
            Err(e) => {
                proof {
                    assert(spec_drive(state@, before) == Err::<DriverModel, Error>(e));
                }
                return Err(e);
            },
        }
    }
    proof {
        assert(rest.deep_view() =~= Seq::<OutputModel>::empty());
    }
    Ok(conclude(state))
}

impl Default for BuildOptions {
    /// All options unset: no extra flag is passed.
    fn default() -> (r: BuildOptions)
        ensures
            r.package is None,
            !r.all,
            r.exclude is None,
            r.jobs is None,
            !r.lib,
            r.bin is None,
            !r.bins,
            r.example is None,
            !r.all_targets,
            !r.release,
            r.features is None,
            !r.all_features,
            !r.no_default_features,
            r.manifest_path is None,
            !r.verbose,
            !r.quiet,
            !r.frozen,
            !r.locked,
            r.cargo_flags is None,
    {
        BuildOptions {
            package: None,
            all: false,
            exclude: None,
            jobs: None,
            lib: false,
            bin: None,
            bins: false,
            example: None,
            all_targets: false,
            release: false,
            features: None,
            all_features: false,
            no_default_features: false,
            manifest_path: None,
            verbose: false,
            quiet: false,
            frozen: false,
            locked: false,
            cargo_flags: None,
        }
    }
}

/// The two command words a flag with a value contributes, or nothing.
pub open spec fn spec_opt_arg(flag: Seq<char>, v: Option<String>) -> Seq<Seq<char>> {
    match v {
        Some(s) => seq![flag, s@],
        None => Seq::empty(),
    }
}

/// The single command word a switch contributes, or nothing.
pub open spec fn spec_switch(flag: Seq<char>, on: bool) -> Seq<Seq<char>> {
    if on {
        seq![flag]
    } else {
        Seq::empty()
    }
}

/// The full compiler command line for an option set: the fixed build
/// words, then one flag per populated option, in a fixed order, with
/// nothing at all for an unset option.
pub open spec fn spec_build_args(o: BuildOptions) -> Seq<Seq<char>> {
    seq!["build"@, "--target=wasm32-unknown-unknown"@, "--message-format"@, "json"@]
        + spec_opt_arg("--package"@, o.package) + spec_switch("--all"@, o.all) + spec_opt_arg(
        "--exclude"@,
        o.exclude,
    ) + spec_opt_arg("--jobs"@, o.jobs) + spec_switch("--lib"@, o.lib) + spec_opt_arg(
        "--bin"@,
        o.bin,
    ) + spec_switch("--bins"@, o.bins) + spec_opt_arg("--example"@, o.example) + spec_switch(
        "--all-targets"@,
        o.all_targets,
    ) + spec_switch("--release"@, o.release) + spec_opt_arg("--features"@, o.features)
        + spec_switch("--all-features"@, o.all_features) + spec_switch(
        "--no-default-features"@,
        o.no_default_features,
    ) + spec_opt_arg("--manifest-path"@, o.manifest_path) + spec_switch("--verbose"@, o.verbose)
        + spec_switch("--quiet"@, o.quiet) + spec_switch("--frozen"@, o.frozen) + spec_switch(
        "--locked"@,
        o.locked,
    ) + spec_opt_arg("-Z"@, o.cargo_flags)
}

fn push_opt_arg(args: &mut Vec<String>, flag: &str, v: &Option<String>)
    ensures
        final(args).deep_view() =~= old(args).deep_view() + spec_opt_arg(flag@, *v),
{
    match v {
        Some(s) => {
            args.push(flag.to_owned());
            args.push(s.clone());
        },
        None => {},
    }
}

fn push_switch(args: &mut Vec<String>, flag: &str, on: bool)
    ensures
        final(args).deep_view() =~= old(args).deep_view() + spec_switch(flag@, on),
{
    if on {
        args.push(flag.to_owned());
    }
}

/// Translate an option set into the compiler's command words.
pub fn build_args(o: &BuildOptions) -> (r: Vec<String>)
    ensures
        r.deep_view() == spec_build_args(*o),
{
    let mut args: Vec<String> = Vec::new();
    args.push("build".to_owned());
    args.push("--target=wasm32-unknown-unknown".to_owned());
    args.push("--message-format".to_owned());
    args.push("json".to_owned());
    proof {
        assert(args.deep_view() =~= seq![
            "build"@,
            "--target=wasm32-unknown-unknown"@,
            "--message-format"@,
            "json"@,
        ]);
    }
    push_opt_arg(&mut args, "--package", &o.package);
    push_switch(&mut args, "--all", o.all);
    push_opt_arg(&mut args, "--exclude", &o.exclude);
    push_opt_arg(&mut args, "--jobs", &o.jobs);
    push_switch(&mut args, "--lib", o.lib);
    push_opt_arg(&mut args, "--bin", &o.bin);
    push_switch(&mut args, "--bins", o.bins);
    push_opt_arg(&mut args, "--example", &o.example);
    push_switch(&mut args, "--all-targets", o.all_targets);
    push_switch(&mut args, "--release", o.release);
    push_opt_arg(&mut args, "--features", &o.features);
    push_switch(&mut args, "--all-features", o.all_features);
    push_switch(&mut args, "--no-default-features", o.no_default_features);
    push_opt_arg(&mut args, "--manifest-path", &o.manifest_path);
    push_switch(&mut args, "--verbose", o.verbose);
    push_switch(&mut args, "--quiet", o.quiet);
    push_switch(&mut args, "--frozen", o.frozen);
    push_switch(&mut args, "--locked", o.locked);
    push_opt_arg(&mut args, "-Z", &o.cargo_flags);
    args
}

} // verus!
