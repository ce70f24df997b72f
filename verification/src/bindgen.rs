//! The binding generator's protocol: where its output lands, and the
//! fail-and-retry rule against tool version skew.
//!
//! One generation session makes at most two attempts. A first failure
//! is put down to an outdated generator: the tool is reinstalled and
//! the generation retried exactly once. A second failure is terminal.
//! On success, the glue file and the binary payload follow a fixed
//! naming convention under the session's output directory, the same
//! whether the success came on the first or the second attempt.
use vstd::prelude::*;

use crate::installer::{ProbeStatus, RunStatus};
use crate::paths::{join, spec_join};

verus! {

/// Why binding generation failed.
#[derive(Clone, Copy, Debug, PartialEq, Eq, Structural)]
pub enum Error {
    InstallFailed,
    InstallCommandError,
    BindgenFailed,
    BindgenCommandError,
    PromptError,
    CreateTargetDirectoryError,
}

/// The paths the generator leaves behind for one target: the glue
/// module and the binary payload beside it.
pub struct GeneratedBindings {
    pub glue: String,
    pub wasm: String,
}

/// Mathematical form of the generated paths.
pub ghost struct BindingsModel {
    pub glue: Seq<char>,
    pub wasm: Seq<char>,
}

impl View for GeneratedBindings {
    type V = BindingsModel;

    open spec fn view(&self) -> BindingsModel {
        BindingsModel { glue: self.glue@, wasm: self.wasm@ }
    }
}

/// The per-target output directory of the generator.
pub open spec fn spec_out_dir(target: Seq<char>) -> Seq<char> {
    spec_join("./target/wasm-bin"@, target)
}

/// `<out_dir>/<target>.js`: the generated glue module.
pub open spec fn spec_glue_path(target: Seq<char>) -> Seq<char> {
    spec_join(spec_out_dir(target), target + ".js"@)
}

/// `<out_dir>/<target>_bg.wasm`: the generated binary payload.
pub open spec fn spec_wasm_path(target: Seq<char>) -> Seq<char> {
    spec_join(spec_out_dir(target), target + "_bg.wasm"@)
}

/// The generator's per-target output directory.
pub fn out_dir_for(target: &str) -> (r: String)
    ensures
        r@ == spec_out_dir(target@),
{
    join("./target/wasm-bin", target)
}

/// The paths a successful generation hands back for `target`.
pub fn bindings_for(target: &str) -> (r: GeneratedBindings)
    ensures
        r@.glue == spec_glue_path(target@),
        r@.wasm == spec_wasm_path(target@),
{
    let out_dir = out_dir_for(target);
    let glue_name = target.to_owned().concat(".js");
    let wasm_name = target.to_owned().concat("_bg.wasm");
    GeneratedBindings {
        glue: join(out_dir.as_str(), glue_name.as_str()),
        wasm: join(out_dir.as_str(), wasm_name.as_str()),
    }
}

/// The generator's command words for one artifact: the input file,
/// the browser and no-modules flags, and the output directory flag
/// with its value.
pub open spec fn spec_generate_args(input: Seq<char>, out_dir: Seq<char>) -> Seq<Seq<char>> {
    seq![input, "--browser"@, "--no-modules"@, "--out-dir"@, out_dir]
}

/// Write out the generator's command words, fixing what every attempt
/// hands to the tool.
pub fn generate_args(input: &str, out_dir: &str) -> (r: Vec<String>)
    ensures
        r.deep_view() == spec_generate_args(input@, out_dir@),
{
    let mut args: Vec<String> = Vec::new();
    args.push(input.to_owned());
    args.push("--browser".to_owned());
    args.push("--no-modules".to_owned());
    args.push("--out-dir".to_owned());
    args.push(out_dir.to_owned());
    proof {
        assert(args.deep_view() =~= spec_generate_args(input@, out_dir@));
    }
    args
}

/// One generation session for one target.
pub struct BindgenSession {
    pub target: String,
    pub attempts: u32,
    pub finished: bool,
}

/// What the session asks for after an attempt: the finished bindings,
/// one reinstall followed by one retry, or terminal failure.
pub enum BindgenStep {
    Done(GeneratedBindings),
    ReinstallAndRetry,
    Failed,
}

/// Mathematical form of a session.
pub ghost struct SessionModel {
    pub target: Seq<char>,
    pub attempts: int,
    pub finished: bool,
}

/// Mathematical form of what the session asks for.
pub ghost enum StepModel {
    Done(BindingsModel),
    ReinstallAndRetry,
    Failed,
}

impl View for BindgenSession {
    type V = SessionModel;

    open spec fn view(&self) -> SessionModel {
        SessionModel { target: self.target@, attempts: self.attempts as int, finished: self.finished }
    }
}

impl View for BindgenStep {
    type V = StepModel;

    open spec fn view(&self) -> StepModel {
        match self {
            BindgenStep::Done(b) => StepModel::Done(b@),
            BindgenStep::ReinstallAndRetry => StepModel::ReinstallAndRetry,
            BindgenStep::Failed => StepModel::Failed,
        }
    }
}

/// A fresh session for `target`.
pub open spec fn spec_new_session(target: Seq<char>) -> SessionModel {
    SessionModel { target, attempts: 0, finished: false }
}

/// The generated paths for a session's target.
pub open spec fn spec_session_bindings(s: SessionModel) -> BindingsModel {
    BindingsModel { glue: spec_glue_path(s.target), wasm: spec_wasm_path(s.target) }
}

/// How a session moves on one attempt's outcome: success finishes with
/// the conventional paths; a first failure asks for one reinstall and
/// retry; a failure on the retry is terminal.
pub open spec fn spec_attempt(s: SessionModel, success: bool) -> (SessionModel, StepModel) {
    if success {
        (
            SessionModel { attempts: s.attempts + 1, finished: true, ..s },
            StepModel::Done(spec_session_bindings(s)),
        )
    } else if s.attempts == 0 {
        (SessionModel { attempts: 1, ..s }, StepModel::ReinstallAndRetry)
    } else {
        (SessionModel { attempts: s.attempts + 1, finished: true, ..s }, StepModel::Failed)
    }
}

impl BindgenSession {
    /// Open a session for one target.
    pub fn new(target: &str) -> (r: BindgenSession)
        ensures
            r@ == spec_new_session(target@),
    {
        BindgenSession { target: target.to_owned(), attempts: 0, finished: false }
    }

    /// Record that one invocation of the generator succeeded or failed,
    /// and learn what to do next. A finished session takes no further
    /// attempt: at most two are ever made.
    pub fn record_attempt(&mut self, success: bool) -> (r: BindgenStep)
        requires
            !old(self).finished,
            old(self)@.attempts < 2,
        ensures
            final(self)@ == spec_attempt(old(self)@, success).0,
            r@ == spec_attempt(old(self)@, success).1,
    {
        self.attempts = self.attempts + 1;
        if success {
            self.finished = true;
            BindgenStep::Done(bindings_for(self.target.as_str()))
        } else if self.attempts == 1 {
            BindgenStep::ReinstallAndRetry
        } else {
            self.finished = true;
            BindgenStep::Failed
        }
    }
}

/// The fail-and-retry rule is transparent to callers: a session that
/// fails once and succeeds on its retry hands back exactly the paths a
/// first-try success hands back; a session that fails twice is
/// terminally failed and finished, so no third attempt can be made.
pub proof fn lemma_retry_is_transparent(target: Seq<char>)
    ensures
        spec_attempt(spec_attempt(spec_new_session(target), false).0, true).1 == spec_attempt(
            spec_new_session(target),
            true,
        ).1,
        spec_attempt(spec_attempt(spec_new_session(target), false).0, false).1 is Failed,
        spec_attempt(spec_attempt(spec_new_session(target), false).0, false).0.finished,
{
}

/// Map a probe of the generator's presence, with whether an install
/// was confirmed, to what to do: a present generator needs nothing, a
/// missing one is installed exactly on confirmation, and anything else
/// aborts with `BindgenCommandError`.
pub fn presence_action(probe: &ProbeStatus, confirmed: bool) -> (r: Result<bool, Error>)
    ensures
        probe is Present ==> r == Ok::<bool, Error>(false),
        probe is NotFound && confirmed ==> r == Ok::<bool, Error>(true),
        probe is NotFound && !confirmed ==> r == Err::<bool, Error>(Error::BindgenCommandError),
        probe is Failed ==> r == Err::<bool, Error>(Error::BindgenCommandError),
{
    match crate::installer::decide_install(probe, confirmed) {
        crate::installer::InstallDecision::Proceed => Ok(false),
        crate::installer::InstallDecision::Install => Ok(true),
        crate::installer::InstallDecision::Abort => Err(Error::BindgenCommandError),
    }
}

/// Judge one run of the generator's installer: a failing exit is
/// `InstallFailed`, a run that could not be made is `InstallCommandError`.
pub fn install_result(run: &RunStatus) -> (r: Result<(), Error>)
    ensures
        run is Succeeded ==> r == Ok::<(), Error>(()),
        run is ExitedWithFailure ==> r == Err::<(), Error>(Error::InstallFailed),
        run is CouldNotRun ==> r == Err::<(), Error>(Error::InstallCommandError),
{
    match run {
        RunStatus::Succeeded => Ok(()),
        RunStatus::ExitedWithFailure => Err(Error::InstallFailed),
        RunStatus::CouldNotRun => Err(Error::InstallCommandError),
    }
}

/// Decide how to make sure the per-target output directory exists,
/// from a probe of it: keep an existing one, create a missing one, and
/// treat any other probe failure as fatal.
pub fn out_dir_action(probe: &ProbeStatus) -> (r: Result<bool, Error>)
    ensures
        probe is Present ==> r == Ok::<bool, Error>(false),
        probe is NotFound ==> r == Ok::<bool, Error>(true),
        probe is Failed ==> r == Err::<bool, Error>(Error::BindgenCommandError),
{
    match probe {
        ProbeStatus::Present => Ok(false),
        ProbeStatus::NotFound => Ok(true),
        ProbeStatus::Failed => Err(Error::BindgenCommandError),
    }
}

} // verus!
