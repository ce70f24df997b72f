//! A character-level model of the file paths the pipeline builds.
//!
//! Paths are plain strings joined with `/`. The few shapes the pipeline
//! needs are modelled exactly: joining a directory and a file name,
//! dropping the last component, and keeping a path's directory prefix.
use vstd::prelude::*;

verus! {

/// `a` joined with `b`: a `/` is inserted unless `a` is empty or
/// already ends with one.
pub open spec fn spec_join(a: Seq<char>, b: Seq<char>) -> Seq<char> {
    if a.len() == 0 {
        b
    } else if a[a.len() - 1] == '/' {
        a + b
    } else {
        a + seq!['/'] + b
    }
}

/// Index of the last `/` in `p`, or -1 when there is none.
pub open spec fn spec_last_slash(p: Seq<char>) -> int
    decreases p.len(),
{
    if p.len() == 0 {
        -1
    } else if p[p.len() - 1] == '/' {
        p.len() - 1
    } else {
        spec_last_slash(p.drop_last())
    }
}

/// `p` with its last `/`-separated component removed, without a
/// trailing slash; empty when `p` has a single component.
pub open spec fn spec_pop_component(p: Seq<char>) -> Seq<char> {
    if spec_last_slash(p) < 0 {
        Seq::empty()
    } else {
        p.subrange(0, spec_last_slash(p))
    }
}

/// The directory prefix of `p`, keeping the trailing slash; empty when
/// `p` has a single component.
pub open spec fn spec_dir_prefix(p: Seq<char>) -> Seq<char> {
    if spec_last_slash(p) < 0 {
        Seq::empty()
    } else {
        p.subrange(0, spec_last_slash(p) + 1)
    }
}

proof fn lemma_last_slash_bounds(p: Seq<char>)
    ensures
        -1 <= spec_last_slash(p) < p.len(),
        spec_last_slash(p) >= 0 ==> p[spec_last_slash(p)] == '/',
        forall|j: int| spec_last_slash(p) < j < p.len() ==> p[j] != '/',
    decreases p.len(),
{
    if p.len() == 0 {
    } else if p[p.len() - 1] == '/' {
    } else {
        lemma_last_slash_bounds(p.drop_last());
        assert(forall|j: int| 0 <= j < p.len() - 1 ==> p.drop_last()[j] == p[j]);
    }
}

proof fn lemma_last_slash_at(p: Seq<char>, k: int)
    requires
        0 <= k < p.len(),
        p[k] == '/',
        forall|j: int| k < j < p.len() ==> p[j] != '/',
    ensures
        spec_last_slash(p) == k,
    decreases p.len(),
{
    if k < p.len() - 1 {
        assert(forall|j: int| 0 <= j < p.len() - 1 ==> p.drop_last()[j] == p[j]);
        lemma_last_slash_at(p.drop_last(), k);
    }
}

/// Join a directory and a further component, as pushing onto a path does.
pub fn join(a: &str, b: &str) -> (r: String)
    ensures
        r@ == spec_join(a@, b@),
{
    let n = a.unicode_len();
    if n == 0 {
        return b.to_owned();
    }
    let mut r: String = a.to_owned();
    if a.get_char(n - 1) != '/' {
        r.append("/");
        proof {
            reveal_strlit("/");
            assert(r@ =~= a@ + seq!['/']);
        }
    }
    r.append(b);
    proof {
        if a@[a@.len() - 1] != '/' {
            assert(r@ =~= a@ + seq!['/'] + b@);
        }
    }
    r
}

/// The index just past the last `/` of `s`, or 0 when `s` has none.
fn scan_dir_split(s: &str) -> (r: usize)
    ensures
        r == spec_last_slash(s@) + 1,
{
    proof {
        lemma_last_slash_bounds(s@);
    }
    let n = s.unicode_len();
    let mut i: usize = n;
    while i > 0
        invariant
            i <= n,
            n == s@.len(),
            forall|j: int| i <= j < n ==> s@[j] != '/',
        decreases i,
    {
        if s.get_char(i - 1) == '/' {
            proof {
                lemma_last_slash_at(s@, i - 1);
            }
            return i;
        }
        i = i - 1;
    }
    proof {
        assert(spec_last_slash(s@) < 0) by {
            if spec_last_slash(s@) >= 0 {
                assert(s@[spec_last_slash(s@)] == '/');
            }
        }
    }
    0
}

/// Drop the last component of `p`, without a trailing slash.
pub fn pop_component(p: &str) -> (r: String)
    ensures
        r@ == spec_pop_component(p@),
{
    proof {
        lemma_last_slash_bounds(p@);
    }
    let cut = scan_dir_split(p);
    if cut == 0 {
        String::new()
    } else {
        p.substring_char(0, cut - 1).to_owned()
    }
}

/// The directory prefix of `p`, keeping the trailing slash.
pub fn dir_prefix(p: &str) -> (r: String)
    ensures
        r@ == spec_dir_prefix(p@),
{
    proof {
        lemma_last_slash_bounds(p@);
    }
    let cut = scan_dir_split(p);
    p.substring_char(0, cut).to_owned()
}

} // verus!
