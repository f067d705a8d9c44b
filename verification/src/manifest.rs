//! Manifest structures: a module's dependency list and a workspace's member
//! list, with the optional field normalized to an empty list at load time.
use vstd::prelude::*;

verus! {

/// A module manifest: the ordered list of opaque dependency references the
/// module declares. References are never interpreted here; they are forwarded
/// verbatim to the outside export operation.
pub struct BufYaml {
    pub deps: Vec<String>,
}

impl View for BufYaml {
    type V = Seq<Seq<char>>;

    open spec fn view(&self) -> Seq<Seq<char>> {
        self.deps.deep_view()
    }
}

impl BufYaml {
    /// Builds the manifest from the optional field of the parsed document.
    /// A missing field is valid and equivalent to an empty list; order and
    /// exact values of present entries are kept.
    pub fn from_deps(deps: Option<Vec<String>>) -> (b: Self)
        ensures
            deps matches Some(d) ==> b.deps == d,
            deps is None ==> b.deps@ == Seq::<String>::empty(),
    {
        match deps {
            Some(d) => BufYaml { deps: d },
            None => BufYaml { deps: Vec::new() },
        }
    }
}

/// A workspace manifest: the ordered list of relative paths of the member
/// modules.
pub struct BufWorkYaml {
    pub directories: Vec<String>,
}

impl View for BufWorkYaml {
    type V = Seq<Seq<char>>;

    open spec fn view(&self) -> Seq<Seq<char>> {
        self.directories.deep_view()
    }
}

impl BufWorkYaml {
    /// Builds the manifest from the optional field of the parsed document,
    /// normalizing absence to an empty list and keeping order and values.
    pub fn from_directories(directories: Option<Vec<String>>) -> (w: Self)
        ensures
            directories matches Some(d) ==> w.directories == d,
            directories is None ==> w.directories@ == Seq::<String>::empty(),
    {
        match directories {
            Some(d) => BufWorkYaml { directories: d },
            None => BufWorkYaml { directories: Vec::new() },
        }
    }
}

} // verus!
