//! The packager: plans the bundler run for one target and synthesizes
//! the entry file for binary targets that have none.
//!
//! The bundle lands in a `dist` directory beside the entry file, under
//! the target's own name. Any pre-existing `dist` is removed first,
//! tolerating only its absence. A binary target without a user-written
//! entry file gets a synthesized one that loads the target's generated
//! glue module and calls its exported `main`; a user-written entry
//! file, at its conventional place, is copied instead, byte for byte.
use vstd::prelude::*;

use crate::installer::{FsOutcome, ProbeStatus, RunStatus};
use crate::paths::{dir_prefix, join, spec_dir_prefix, spec_join};

verus! {

/// Why packaging failed.
#[derive(Clone, Copy, Debug, PartialEq, Eq, Structural)]
pub enum Error {
    YarnMissing,
    YarnCommandError,
    PromptError,
    WebpackMissing,
    WebpackCommandError,
    InstallFailed,
    InstallCommandError,
    PackageFailed,
    PackageCommandError,
    RemoveExistingDistError,
    CopyJsModulesError,
    CopyHtmlIndexError,
    WriteJsIndexError,
    WriteHtmlIndexError,
}

/// Judge the probe for the toolchain manager: it cannot be installed
/// by this pipeline, so its absence is a fatal abort with no fallback.
pub fn yarn_probe_result(probe: &ProbeStatus) -> (r: Result<(), Error>)
    ensures
        probe is Present ==> r == Ok::<(), Error>(()),
        probe is NotFound ==> r == Err::<(), Error>(Error::YarnMissing),
        probe is Failed ==> r == Err::<(), Error>(Error::YarnCommandError),
{
    match probe {
        ProbeStatus::Present => Ok(()),
        ProbeStatus::NotFound => Err(Error::YarnMissing),
        ProbeStatus::Failed => Err(Error::YarnCommandError),
    }
}

/// Map a probe of the bundler's presence, with whether an install was
/// confirmed, to what to do: a present bundler needs nothing, a
/// missing one is installed exactly on confirmation, and anything else
/// aborts with `WebpackCommandError`.
pub fn presence_action(probe: &ProbeStatus, confirmed: bool) -> (r: Result<bool, Error>)
    ensures
        probe is Present ==> r == Ok::<bool, Error>(false),
        probe is NotFound && confirmed ==> r == Ok::<bool, Error>(true),
        probe is NotFound && !confirmed ==> r == Err::<bool, Error>(Error::WebpackCommandError),
        probe is Failed ==> r == Err::<bool, Error>(Error::WebpackCommandError),
{
    match crate::installer::decide_install(probe, confirmed) {
        crate::installer::InstallDecision::Proceed => Ok(false),
        crate::installer::InstallDecision::Install => Ok(true),
        crate::installer::InstallDecision::Abort => Err(Error::WebpackCommandError),
    }
}

/// Judge one run of the bundler's installer: a failing exit is
/// `InstallFailed`, a run that could not be made is `InstallCommandError`.
pub fn install_result(run: &RunStatus) -> (r: Result<(), Error>)
    ensures
        run is Succeeded ==> r == Ok::<(), Error>(()),
        run is ExitedWithFailure ==> r == Err::<(), Error>(Error::InstallFailed),
        run is CouldNotRun ==> r == Err::<(), Error>(Error::InstallCommandError),
{
    match run {
        RunStatus::Succeeded => Ok(()),
        RunStatus::ExitedWithFailure => Err(Error::InstallFailed),
        RunStatus::CouldNotRun => Err(Error::InstallCommandError),
    }
}

/// Judge the removal of a stale `dist` directory: only "it was not
/// there" is tolerated; any other failure must not be swallowed, so
/// stale output is never silently left mixed with new output.
pub fn removal_result(outcome: &FsOutcome) -> (r: Result<(), Error>)
    ensures
        outcome is Succeeded ==> r == Ok::<(), Error>(()),
        outcome is NotFound ==> r == Ok::<(), Error>(()),
        outcome is Failed ==> r == Err::<(), Error>(Error::RemoveExistingDistError),
{
    match outcome {
        FsOutcome::Succeeded => Ok(()),
        FsOutcome::NotFound => Ok(()),
        FsOutcome::Failed => Err(Error::RemoveExistingDistError),
    }
}

/// The `dist` directory beside an entry file.
pub open spec fn spec_dist_dir(entry: Seq<char>) -> Seq<char> {
    spec_join(spec_dir_prefix(entry), "dist"@)
}

/// `<dist>/<target>.js`: where the bundle for a target lands.
pub open spec fn spec_bundle_path(target: Seq<char>, entry: Seq<char>) -> Seq<char> {
    spec_join(spec_dist_dir(entry), target + ".js"@)
}

/// Everything the bundler run for one target needs: the entry file,
/// the directory the entry lives in (where script modules are copied),
/// the `dist` directory to clear, and the bundle's output path.
pub struct PackagePlan {
    pub entry: String,
    pub work_dir: String,
    pub dist_dir: String,
    pub out_file: String,
}

/// Plan the bundler run for one target and entry file.
pub fn package_plan(target_name: &str, entry: &str) -> (p: PackagePlan)
    ensures
        p.entry@ == entry@,
        p.work_dir@ == spec_dir_prefix(entry@),
        p.dist_dir@ == spec_dist_dir(entry@),
        p.out_file@ == spec_bundle_path(target_name@, entry@),
{
    let work_dir = dir_prefix(entry);
    let dist_dir = join(work_dir.as_str(), "dist");
    let bundle_name = target_name.to_owned().concat(".js");
    let out_file = join(dist_dir.as_str(), bundle_name.as_str());
    PackagePlan { entry: entry.to_owned(), work_dir, dist_dir, out_file }
}

/// Judge the bundler's run: success hands back the planned bundle
/// path, a failing exit is `PackageFailed`, and a run that could not
/// be made is `PackageCommandError`.
pub fn bundle_result(plan: &PackagePlan, run: &RunStatus) -> (r: Result<String, Error>)
    ensures
        run is Succeeded ==> (r matches Ok(p) && p@ == plan.out_file@),
        run is ExitedWithFailure ==> r == Err::<String, Error>(Error::PackageFailed),
        run is CouldNotRun ==> r == Err::<String, Error>(Error::PackageCommandError),
{
    match run {
        RunStatus::Succeeded => Ok(plan.out_file.clone()),
        RunStatus::ExitedWithFailure => Err(Error::PackageFailed),
        RunStatus::CouldNotRun => Err(Error::PackageCommandError),
    }
}

/// The bundler's command words for one run: the entry file, the
/// output flag with the bundle path, and the fixed development mode.
pub open spec fn spec_bundle_args(entry: Seq<char>, out_file: Seq<char>) -> Seq<Seq<char>> {
    seq![entry, "--output"@, out_file, "--mode"@, "development"@]
}

/// Write out the bundler's command words for a planned run, fixing
/// what is handed to the tool.
pub fn bundle_args(plan: &PackagePlan) -> (r: Vec<String>)
    ensures
        r.deep_view() == spec_bundle_args(plan.entry@, plan.out_file@),
{
    let mut args: Vec<String> = Vec::new();
    args.push(plan.entry.clone());
    args.push("--output".to_owned());
    args.push(plan.out_file.clone());
    args.push("--mode".to_owned());
    args.push("development".to_owned());
    proof {
        assert(args.deep_view() =~= spec_bundle_args(plan.entry@, plan.out_file@));
    }
    args
}

/// The copies that bring auxiliary script modules into a working
/// directory: of the names listed in the source directory, exactly
/// those ending in ".js", each copied under its own name, in listing
/// order.
pub open spec fn spec_copy_plan(
    from_dir: Seq<char>,
    names: Seq<Seq<char>>,
    to_dir: Seq<char>,
) -> Seq<(Seq<char>, Seq<char>)>
    decreases names.len(),
{
    if names.len() == 0 {
        Seq::empty()
    } else {
        let rest = spec_copy_plan(from_dir, names.drop_first(), to_dir);
        if crate::text::spec_ends_with(names[0], ".js"@) {
            seq![(spec_join(from_dir, names[0]), spec_join(to_dir, names[0]))] + rest
        } else {
            rest
        }
    }
}

/// Plan the script-module copies for one directory listing.
pub fn copy_plan(from_dir: &str, names: &Vec<String>, to_dir: &str) -> (r: Vec<(String, String)>)
    ensures
        r.deep_view() == spec_copy_plan(from_dir@, names.deep_view(), to_dir@),
{
    let ghost listing = names.deep_view();
    let mut r: Vec<(String, String)> = Vec::new();
    let n = names.len();
    proof {
        assert(r.deep_view() =~= Seq::<(Seq<char>, Seq<char>)>::empty());
        assert(listing.skip(0) =~= listing);
        assert(spec_copy_plan(from_dir@, listing, to_dir@) =~= r.deep_view() + spec_copy_plan(
            from_dir@,
            listing.skip(0),
            to_dir@,
        ));
    }
    #[verifier::loop_isolation(false)]
    for i in 0..n
        invariant
            n == names@.len(),
            spec_copy_plan(from_dir@, listing, to_dir@) =~= r.deep_view() + spec_copy_plan(
                from_dir@,
                listing.skip(i as int),
                to_dir@,
            ),
    {
        proof {
            assert(listing.skip(i as int)[0] == listing[i as int]);
            assert(listing.skip(i as int).drop_first() =~= listing.skip(i + 1));
        }
        let name = names[i].as_str();
        if crate::text::ends_with(name, ".js") {
            let pair = (join(from_dir, name), join(to_dir, name));
            r.push(pair);
            proof {
                assert(r.deep_view() + spec_copy_plan(from_dir@, listing.skip(i + 1), to_dir@)
                    =~= spec_copy_plan(from_dir@, listing, to_dir@));
            }
        }
    }
    proof {
        assert(listing.skip(n as int) =~= Seq::<Seq<char>>::empty());
        assert(r.deep_view() =~= spec_copy_plan(from_dir@, listing, to_dir@));
    }
    r
}

/// The text before the target name in a synthesized entry file.
pub open spec fn spec_entry_head() -> Seq<char> {
    "\n        void async function () {\n            const js = await import(\"./"@
}

/// The text after the target name in a synthesized entry file.
pub open spec fn spec_entry_tail() -> Seq<char> {
    "\");\n            js.main()\n        }();\n        "@
}

/// The whole synthesized entry: a script that asynchronously imports
/// the target's glue module and calls its exported `main`.
pub open spec fn spec_entry_content(target: Seq<char>) -> Seq<char> {
    spec_entry_head() + target + spec_entry_tail()
}

/// Write out the synthesized entry text for a target.
pub fn entry_content(target_name: &str) -> (r: String)
    ensures
        r@ == spec_entry_content(target_name@),
{
    let mut r: String = "\n        void async function () {\n            const js = await import(\"./".to_owned();
    r.append(target_name);
    r.append("\");\n            js.main()\n        }();\n        ");
    r
}

/// The synthesized entry text holds the target's own glue module name:
/// the characters right after the fixed head are exactly the target.
pub proof fn lemma_entry_content_mentions_target(target: Seq<char>)
    ensures
        spec_entry_content(target).subrange(
            spec_entry_head().len() as int,
            spec_entry_head().len() + target.len() as int,
        ) == target,
{
    assert(spec_entry_content(target).subrange(
        spec_entry_head().len() as int,
        spec_entry_head().len() + target.len() as int,
    ) =~= target);
}

/// What establishing a binary target's entry file takes: the
/// conventional place of a user-written entry, the entry path the
/// bundler will be pointed at, and the synthesized text used when no
/// user entry exists.
pub struct BinEntryPlan {
    pub user_entry: String,
    pub entry: String,
    pub content: String,
}

/// How the entry file is established: a user-written entry is copied
/// to its place byte for byte; otherwise the synthesized text is
/// written there.
pub enum EntryAction {
    CopyUserEntry(String, String),
    WriteSynthesized(String, String),
}

/// Plan the entry file for a binary target packaged in `dir`: the
/// user's entry is looked for at `./js/<target>/index.js`, the entry
/// used is `<dir>/index.js`, and the fallback text is the synthesized
/// loader for the target's glue module.
pub fn package_bin(target_name: &str, dir: &str) -> (p: BinEntryPlan)
    ensures
        p.user_entry@ == spec_join(spec_join("./js"@, target_name@), "index.js"@),
        p.entry@ == spec_join(dir@, "index.js"@),
        p.content@ == spec_entry_content(target_name@),
{
    let user_dir = join("./js", target_name);
    BinEntryPlan {
        user_entry: join(user_dir.as_str(), "index.js"),
        entry: join(dir, "index.js"),
        content: entry_content(target_name),
    }
}

/// Decide how the entry file comes to be: exactly when the user's own
/// entry exists it is copied, never synthesized; otherwise the
/// synthesized text is written.
pub fn entry_action(plan: &BinEntryPlan, user_entry_exists: bool) -> (a: EntryAction)
    ensures
        user_entry_exists ==> (a matches EntryAction::CopyUserEntry(from, to) && from@
            == plan.user_entry@ && to@ == plan.entry@),
        !user_entry_exists ==> (a matches EntryAction::WriteSynthesized(to, text) && to@
            == plan.entry@ && text@ == plan.content@),
{
    if user_entry_exists {
        EntryAction::CopyUserEntry(plan.user_entry.clone(), plan.entry.clone())
    } else {
        EntryAction::WriteSynthesized(plan.entry.clone(), plan.content.clone())
    }
}

} // verus!
