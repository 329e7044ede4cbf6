//! Where the bridge server is installed and which executable starts it.

use crate::paths::{ends_with, join, path_ends_with, path_join};
use crate::text::texts;
use vstd::prelude::*;

verus! {

/// The file name of the bridge server's executable.
pub open spec fn bridge_exe_name() -> Seq<char> {
    "lunu-bridge.exe"@
}

/// The installation's root for a workspace: the workspace itself where its
/// last component is `Lunu`, and its subdirectory `Lunu` otherwise.
pub open spec fn lunu_root_of(workspace_root: Seq<char>) -> Seq<char> {
    if path_ends_with(workspace_root, "Lunu"@) {
        workspace_root
    } else {
        path_join(workspace_root, "Lunu"@)
    }
}

/// The places where the executable is looked for, in order: the root's
/// `bin` directory, the root, and the directory of the running program
/// where that is known.
pub open spec fn candidates_of(root: Seq<char>, exe_dir: Option<Seq<char>>) -> Seq<Seq<char>> {
    let fixed = seq![
        path_join(path_join(root, "bin"@), bridge_exe_name()),
        path_join(root, bridge_exe_name()),
    ];
    match exe_dir {
        Some(dir) => fixed.push(path_join(dir, bridge_exe_name())),
        None => fixed,
    }
}

/// Whether `i` is the first position at which a candidate exists.
pub open spec fn first_existing(exists: Seq<bool>, i: int) -> bool {
    &&& 0 <= i < exists.len()
    &&& exists[i]
    &&& forall|j: int| 0 <= j < i ==> !exists[j]
}

/// Starts the bridge server of an installation.
pub struct BridgeManager {
    lunu_root: String,
}

impl BridgeManager {
    /// The installation's root.
    pub closed spec fn root(self) -> Seq<char> {
        self.lunu_root@
    }

    /// A manager for the installation that belongs to `workspace_root`.
    pub fn new(workspace_root: String) -> (r: Self)
        ensures
            r.root() == lunu_root_of(workspace_root@),
    {
        if ends_with(workspace_root.as_str(), "Lunu") {
            BridgeManager { lunu_root: workspace_root }
        } else {
            BridgeManager { lunu_root: join(workspace_root.as_str(), "Lunu") }
        }
    }

    /// The installation's root, from which the server is run.
    pub fn lunu_root(&self) -> (r: &str)
        ensures
            r@ == self.root(),
    {
        self.lunu_root.as_str()
    }

    /// The places where the server's executable is looked for, in order.
    pub fn candidates(&self, exe_dir: Option<&str>) -> (r: Vec<String>)
        ensures
            texts(r@) == candidates_of(
                self.root(),
                match exe_dir {
                    Some(dir) => Some(dir@),
                    None => None,
                },
            ),
    {
        let mut out: Vec<String> = Vec::new();
        let bin = join(self.lunu_root.as_str(), "bin");
        out.push(join(bin.as_str(), "lunu-bridge.exe"));
        out.push(join(self.lunu_root.as_str(), "lunu-bridge.exe"));
        match exe_dir {
            Some(dir) => {
                out.push(join(dir, "lunu-bridge.exe"));
            },
            None => {},
        }
        assert(texts(out@) =~= candidates_of(
            self.root(),
            match exe_dir {
                Some(dir) => Some(dir@),
                None => None,
            },
        ));
        out
    }
}

/// The first candidate that exists, given for each candidate whether it
/// does.
pub fn pick_existing(exists: &Vec<bool>) -> (r: Option<usize>)
    ensures
        match r {
            Some(i) => first_existing(exists@, i as int),
            None => forall|j: int| 0 <= j < exists@.len() ==> !exists@[j],
        },
{
    let mut i: usize = 0;
    while i < exists.len()
        invariant
            i <= exists@.len(),
            forall|j: int| 0 <= j < i ==> !exists@[j],
        decreases exists@.len() - i,
    {
        if exists[i] {
            return Some(i);
        }
        i = i + 1;
    }
    None
}

} // verus!
