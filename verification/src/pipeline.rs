//! The pipeline coordinator: compile, then generate bindings for each
//! artifact, then package each target, strictly in that order.
//!
//! A compile failure stops everything. Artifacts are bound in the
//! order the compiler reported them; a generator or packager failure
//! aborts the remaining targets, propagating the first error. Binary
//! targets are packaged before library targets, each list keeping its
//! report order, and the finished packages come out in that same order.
use vstd::prelude::*;

use crate::bindgen::GeneratedBindings;
use crate::cargo::{BuildOutcome, WasmArtifact, WasmArtifactModel};
use crate::paths::{pop_component, spec_pop_component};

verus! {

/// Which stage of the pipeline failed.
#[derive(Clone, Copy, Debug, PartialEq, Eq, Structural)]
pub enum Error {
    CargoBuildError(crate::cargo::Error),
    BindgenError(crate::bindgen::Error),
    WebpackError(crate::webpack::Error),
}

/// The kind of a finished package.
#[derive(Clone, Copy, Debug, PartialEq, Eq, Structural)]
pub enum PackageType {
    Binary,
    Library,
}

/// One finished deliverable: a named target of a kind, with the path
/// of its bundle.
#[derive(Debug)]
pub struct TargetPackage {
    pub ty: PackageType,
    pub name: String,
    pub path: String,
}

/// Mathematical form of a finished deliverable.
pub ghost struct PackageModel {
    pub binary: bool,
    pub name: Seq<char>,
    pub path: Seq<char>,
}

impl View for TargetPackage {
    type V = PackageModel;

    open spec fn view(&self) -> PackageModel {
        PackageModel { binary: self.ty is Binary, name: self.name@, path: self.path@ }
    }
}

impl DeepView for TargetPackage {
    type V = PackageModel;

    open spec fn deep_view(&self) -> PackageModel {
        self.view()
    }
}

/// Whether a retained artifact is binary-like.
pub open spec fn spec_artifact_is_binary(a: WasmArtifactModel) -> bool {
    a is Binary
}

/// A retained artifact's target name.
pub open spec fn spec_artifact_name(a: WasmArtifactModel) -> Seq<char> {
    match a {
        WasmArtifactModel::Binary(n, _) => n,
        WasmArtifactModel::Library(n, _) => n,
    }
}

/// A retained artifact's output path.
pub open spec fn spec_artifact_path(a: WasmArtifactModel) -> Seq<char> {
    match a {
        WasmArtifactModel::Binary(_, p) => p,
        WasmArtifactModel::Library(_, p) => p,
    }
}

/// The pipeline's state between external steps: artifacts still to
/// bind, bound targets waiting to be packaged (binaries and libraries
/// apart, each in report order), and the finished packages.
pub struct Coordinator {
    pub pending: Vec<WasmArtifact>,
    pub bins: Vec<(String, String)>,
    pub libs: Vec<(String, String)>,
    pub targets: Vec<TargetPackage>,
}

impl Coordinator {
    /// Take up a compile's outcome: a failure is a `CompileErrors`
    /// stop, a success leaves every reported artifact pending, in
    /// report order.
    pub fn start(outcome: BuildOutcome) -> (r: Result<Coordinator, Error>)
        ensures
            outcome@ is Failure ==> r == Err::<Coordinator, Error>(
                Error::CargoBuildError(crate::cargo::Error::CompileErrors),
            ),
            outcome@ is Success ==> (r matches Ok(c) && c.pending.deep_view() == outcome@->Success_0
                && c.bins@.len() == 0 && c.libs@.len() == 0 && c.targets@.len() == 0),
    {
        match outcome {
            BuildOutcome::Success(artifacts) => Ok(
                Coordinator {
                    pending: artifacts,
                    bins: Vec::new(),
                    libs: Vec::new(),
                    targets: Vec::new(),
                },
            ),
            BuildOutcome::Failure(_) => Err(
                Error::CargoBuildError(crate::cargo::Error::CompileErrors),
            ),
        }
    }

    /// The next artifact to hand to the binding generator: its target
    /// name and its compiled input path, or nothing when binding is done.
    pub fn next_binding(&self) -> (r: Option<(String, String)>)
        ensures
            self.pending@.len() == 0 ==> r is None,
            self.pending@.len() > 0 ==> (r matches Some((t, p)) && t@ == spec_artifact_name(
                self.pending.deep_view()[0],
            ) && p@ == spec_artifact_path(self.pending.deep_view()[0])),
    {
        if self.pending.len() == 0 {
            return None;
        }
        match &self.pending[0] {
            WasmArtifact::Binary(n, p) => Some((n.clone(), p.clone())),
            WasmArtifact::Library(n, p) => Some((n.clone(), p.clone())),
        }
    }

    /// Record the bindings generated for the first pending artifact. A
    /// binary target queues for packaging with the directory holding
    /// its glue module; a library target queues with the glue module
    /// itself.
    pub fn binding_done(&mut self, bindings: &GeneratedBindings)
        requires
            old(self).pending@.len() > 0,
        ensures
            final(self).pending.deep_view() == old(self).pending.deep_view().drop_first(),
            spec_artifact_is_binary(old(self).pending.deep_view()[0]) ==> (final(self).bins.deep_view() == old(self).bins.deep_view().push(
                (
                    spec_artifact_name(old(self).pending.deep_view()[0]),
                    spec_pop_component(bindings.glue@),
                ),
            ) && final(self).libs.deep_view() == old(self).libs.deep_view()),
            !spec_artifact_is_binary(old(self).pending.deep_view()[0]) ==> (final(self).libs.deep_view() == old(self).libs.deep_view().push(
                (spec_artifact_name(old(self).pending.deep_view()[0]), bindings.glue@),
            ) && final(self).bins.deep_view() == old(self).bins.deep_view()),
            final(self).targets.deep_view() == old(self).targets.deep_view(),
    {
        let artifact = self.pending.remove(0);
        proof {
            assert(self.pending.deep_view() =~= old(self).pending.deep_view().drop_first());
        }
        match artifact {
            WasmArtifact::Binary(name, _) => {
                let dir = pop_component(bindings.glue.as_str());
                self.bins.push((name, dir));
                proof {
                    assert(self.bins.deep_view() =~= old(self).bins.deep_view().push(
                        (
                            spec_artifact_name(old(self).pending.deep_view()[0]),
                            spec_pop_component(bindings.glue@),
                        ),
                    ));
                }
            },
            WasmArtifact::Library(name, _) => {
                self.libs.push((name, bindings.glue.clone()));
                proof {
                    assert(self.libs.deep_view() =~= old(self).libs.deep_view().push(
                        (spec_artifact_name(old(self).pending.deep_view()[0]), bindings.glue@),
                    ));
                }
            },
        }
    }

    /// The next target to package, binaries first: whether it is a
    /// binary, its name, and the path handed to the packager, or
    /// nothing when packaging is done.
    pub fn next_package(&self) -> (r: Option<(bool, String, String)>)
        requires
            self.pending@.len() == 0,
        ensures
            self.bins@.len() == 0 && self.libs@.len() == 0 ==> r is None,
            self.bins@.len() > 0 ==> (r matches Some((b, t, p)) && b && t@ == self.bins@[0].0@ && p@
                == self.bins@[0].1@),
            self.bins@.len() == 0 && self.libs@.len() > 0 ==> (r matches Some((b, t, p)) && !b && t@
                == self.libs@[0].0@ && p@ == self.libs@[0].1@),
    {
        if self.bins.len() > 0 {
            let (t, p) = (self.bins[0].0.clone(), self.bins[0].1.clone());
            Some((true, t, p))
        } else if self.libs.len() > 0 {
            let (t, p) = (self.libs[0].0.clone(), self.libs[0].1.clone());
            Some((false, t, p))
        } else {
            None
        }
    }

    /// Record the bundle produced for the first waiting target: it
    /// becomes the next finished package, binaries before libraries.
    pub fn package_done(&mut self, bundle_path: &str)
        requires
            old(self).pending@.len() == 0,
            old(self).bins@.len() + old(self).libs@.len() > 0,
        ensures
            final(self).pending@.len() == 0,
            old(self).bins@.len() > 0 ==> (final(self).bins.deep_view() == old(self).bins.deep_view().drop_first() && final(self).libs.deep_view() == old(self).libs.deep_view() && final(self).targets.deep_view() == old(self).targets.deep_view().push(
                PackageModel {
                    binary: true,
                    name: old(self).bins@[0].0@,
                    path: bundle_path@,
                },
            )),
            old(self).bins@.len() == 0 ==> (final(self).libs.deep_view() == old(self).libs.deep_view().drop_first() && final(self).bins.deep_view() == old(self).bins.deep_view() && final(self).targets.deep_view() == old(self).targets.deep_view().push(
                PackageModel {
                    binary: false,
                    name: old(self).libs@[0].0@,
                    path: bundle_path@,
                },
            )),
    {
        if self.bins.len() > 0 {
            let (name, _) = self.bins.remove(0);
            self.targets.push(
                TargetPackage { ty: PackageType::Binary, name, path: bundle_path.to_owned() },
            );
            proof {
                assert(self.bins.deep_view() =~= old(self).bins.deep_view().drop_first());
                assert(self.targets.deep_view() =~= old(self).targets.deep_view().push(
                    PackageModel {
                        binary: true,
                        name: old(self).bins@[0].0@,
                        path: bundle_path@,
                    },
                ));
            }
        } else {
            let (name, _) = self.libs.remove(0);
            self.targets.push(
                TargetPackage { ty: PackageType::Library, name, path: bundle_path.to_owned() },
            );
            proof {
                assert(self.libs.deep_view() =~= old(self).libs.deep_view().drop_first());
                assert(self.targets.deep_view() =~= old(self).targets.deep_view().push(
                    PackageModel {
                        binary: false,
                        name: old(self).libs@[0].0@,
                        path: bundle_path@,
                    },
                ));
            }
        }
    }

    /// Hand out the finished packages, once nothing is pending.
    pub fn into_targets(self) -> (r: Vec<TargetPackage>)
        requires
            self.pending@.len() == 0,
            self.bins@.len() == 0,
            self.libs@.len() == 0,
        ensures
            r.deep_view() == self.targets.deep_view(),
    {
        self.targets
    }
}

} // verus!
