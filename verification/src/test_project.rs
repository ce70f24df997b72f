//! A scripted project for exercising the pipeline end to end: the
//! files to write out, keyed by path, and the options to build with.
use vstd::prelude::*;

use crate::cargo::BuildOptions;

verus! {

/// The contents a file list denotes, later entries for a path
/// overriding earlier ones.
pub open spec fn spec_files_map(files: Seq<(String, String)>) -> Map<Seq<char>, Seq<char>>
    decreases files.len(),
{
    if files.len() == 0 {
        Map::empty()
    } else {
        spec_files_map(files.drop_last()).insert(files.last().0@, files.last().1@)
    }
}

/// A project scripted as a set of files plus build options.
pub struct TestProject {
    pub files: Vec<(String, String)>,
    pub build_options: BuildOptions,
}

impl TestProject {
    /// Each path occurs at most once in the file list.
    pub open spec fn wf(&self) -> bool {
        forall|i: int, j: int|
            0 <= i < j < self.files@.len() ==> self.files@[i].0@ != self.files@[j].0@
    }

    /// A project with no files yet.
    pub fn new(build_options: BuildOptions) -> (r: TestProject)
        ensures
            r.wf(),
            spec_files_map(r.files@) == Map::<Seq<char>, Seq<char>>::empty(),
            r.build_options == build_options,
    {
        TestProject { files: Vec::new(), build_options }
    }

    /// Record a file under `path`: a path recorded before gets the new
    /// contents, any other file is untouched.
    pub fn file(&mut self, path: &str, file_contents: &str)
        requires
            old(self).wf(),
        ensures
            final(self).wf(),
            spec_files_map(final(self).files@) == spec_files_map(old(self).files@).insert(
                path@,
                file_contents@,
            ),
            final(self).build_options == old(self).build_options,
    {
        let n = self.files.len();
        #[verifier::loop_isolation(false)]
        for i in 0..n
            invariant
                n == self.files@.len(),
                self == old(self),
                forall|j: int| 0 <= j < i ==> self.files@[j].0@ != path@,
        {
            if crate::text::str_eq(self.files[i].0.as_str(), path) {
                let entry = (path.to_owned(), file_contents.to_owned());
                let ghost e = entry;
                self.files.set(i, entry);
                proof {
                    lemma_files_map_update(old(self).files@, i as int, e);
                }
                return;
            }
        }
        self.files.push((path.to_owned(), file_contents.to_owned()));
        proof {
            assert(self.files@.drop_last() =~= old(self).files@);
        }
    }
}

proof fn lemma_files_map_update(files: Seq<(String, String)>, i: int, entry: (String, String))
    requires
        0 <= i < files.len(),
        files[i].0@ == entry.0@,
        forall|a: int, b: int| 0 <= a < b < files.len() ==> files[a].0@ != files[b].0@,
    ensures
        spec_files_map(files.update(i, entry)) == spec_files_map(files).insert(
            entry.0@,
            entry.1@,
        ),
    decreases files.len(),
{
    let updated = files.update(i, entry);
    if i == files.len() - 1 {
        assert(updated.drop_last() =~= files.drop_last());
        assert(spec_files_map(updated) =~= spec_files_map(files).insert(entry.0@, entry.1@));
    } else {
        assert(updated.drop_last() =~= files.drop_last().update(i, entry));
        lemma_files_map_update(files.drop_last(), i, entry);
        assert(updated.last() == files.last());
        assert(files.last().0@ != entry.0@);
        assert(spec_files_map(updated) =~= spec_files_map(files).insert(entry.0@, entry.1@));
    }
}

} // verus!
