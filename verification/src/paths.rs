//! Path joining and the assembly of the ordered search-path list handed to
//! the downstream compiler. Order is semantically significant (it sets import
//! resolution precedence) and is deliberately asymmetric between the two
//! modes: a single module's own directory is searched before the staged
//! dependencies, a workspace's staged dependencies before its members.
use vstd::prelude::*;
use vstd::string::StringExecFns;

verus! {

/// The character sequence of `base`, a path separator, then `rel`.
pub open spec fn joined(base: Seq<char>, rel: Seq<char>) -> Seq<char> {
    base + seq!['/'] + rel
}

/// Joins a directory path and a relative path below it.
pub fn join_path(base: &str, rel: &str) -> (r: String)
    ensures
        r@ == joined(base@, rel@),
{
    let mut s = base.to_owned();
    s.append("/");
    s.append(rel);
    proof {
        reveal_strlit("/");
        assert(s@ =~= joined(base@, rel@));
    }
    s
}

/// The search paths for a single-module run: the module's own directory
/// first, then the staging directory of the exported dependencies.
pub fn for_single_module(module_dir: &str, export_dir: &str) -> (r: Vec<String>)
    ensures
        r.deep_view() == seq![module_dir@, export_dir@],
{
    let mut r: Vec<String> = Vec::new();
    r.push(module_dir.to_owned());
    r.push(export_dir.to_owned());
    proof {
        assert(r.deep_view() =~= seq![module_dir@, export_dir@]);
    }
    r
}

/// The search paths for a workspace run: the staging directory of the
/// exported dependencies first, then the member directories in
/// manifest-declared order. Nothing is deduplicated.
pub fn for_workspace(export_dir: &str, member_dirs: &Vec<String>) -> (r: Vec<String>)
    ensures
        r.deep_view() == seq![export_dir@] + member_dirs.deep_view(),
{
    let mut r: Vec<String> = Vec::new();
    r.push(export_dir.to_owned());
    proof {
        assert(r.deep_view() =~~= seq![export_dir@] + member_dirs.deep_view().take(0));
    }
    let mut i: usize = 0;
    while i < member_dirs.len()
        invariant
            0 <= i <= member_dirs@.len(),
            r.deep_view() == seq![export_dir@] + member_dirs.deep_view().take(i as int),
        decreases member_dirs@.len() - i,
    {
        let ghost old_dv = r.deep_view();
        let ghost old_rv = r@;
        let x = member_dirs[i].clone();
        r.push(x);
        proof {
            let target = seq![export_dir@] + member_dirs.deep_view().take(i as int + 1);
            assert(member_dirs.deep_view().len() == member_dirs@.len());
            assert(member_dirs.deep_view().take(i as int).len() == i as int);
            assert(old_dv.len() == i + 1);
            assert(old_dv.len() == old_rv.len());
            assert forall|k: int| 0 <= k < r.deep_view().len() implies r.deep_view()[k] == target[k] by {
                assert(r.deep_view()[k] == r@[k].deep_view());
                if k < old_rv.len() {
                    assert(r@[k] == old_rv[k]);
                    assert(old_dv[k] == old_rv[k].deep_view());
                    assert(old_dv[k] == (seq![export_dir@] + member_dirs.deep_view().take(
                        i as int,
                    ))[k]);
                } else {
                    assert(member_dirs.deep_view().len() == member_dirs@.len());
                    assert(old_rv.len() == i + 1);
                    assert(k == i + 1);
                    assert(r@[k] == member_dirs@[i as int]);
                    assert(member_dirs.deep_view().take(i as int + 1)[i as int]
                        == member_dirs.deep_view()[i as int]);
                    assert(target[k] == member_dirs.deep_view()[i as int]);
                }
            }
            assert(r.deep_view() =~= target);
        }
        i = i + 1;
    }
    proof {
        assert(member_dirs.deep_view().take(member_dirs@.len() as int) =~= member_dirs.deep_view());
    }
    r
}

} // verus!
