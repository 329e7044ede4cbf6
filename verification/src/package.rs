//! Where packages are installed and how their content is summed up.

use crate::paths::{clean, join, path_clean, path_join};
use crate::token::{hex_text, token_from};
use sha2::Digest;
use vstd::prelude::*;

verus! {

/// The SHA-256 digest of a sequence of bytes.
pub uninterp spec fn sha256_digest(data: Seq<u8>) -> Seq<u8>;

/// Calls `Sha256::digest`, which hashes the bytes it is given in one go.
#[verifier::external_body]
fn sha256(data: &Vec<u8>) -> (r: Vec<u8>)
    ensures
        r@ == sha256_digest(data@),
{
    sha2::Sha256::digest(data).to_vec()
}

/// The contents of files, one after the other.
pub open spec fn joined_contents(files: Seq<Vec<u8>>) -> Seq<u8>
    decreases files.len(),
{
    if files.len() == 0 {
        Seq::<u8>::empty()
    } else {
        joined_contents(files.drop_last()) + files.last()@
    }
}

/// The checksum of a digest: its bytes as text.
pub open spec fn checksum_text(files: Seq<Vec<u8>>) -> Seq<char> {
    hex_text(sha256_digest(joined_contents(files)))
}

/// Installs and removes packages below a root directory.
pub struct PackageManager {
    root_dir: String,
}

impl PackageManager {
    /// The root directory.
    pub closed spec fn root(self) -> Seq<char> {
        self.root_dir@
    }

    /// Where the package `name` is installed: the directory of that name
    /// below `modules`, cleaned.
    pub open spec fn install_location(self, name: Seq<char>) -> Seq<char> {
        path_clean(path_join(path_join(self.root(), "modules"@), name))
    }

    /// A package manager for the project in `root_dir`.
    pub fn new(root_dir: String) -> (r: Self)
        ensures
            r.root() == root_dir@,
    {
        PackageManager { root_dir }
    }

    /// The root directory.
    pub fn root_dir(&self) -> (r: &str)
        ensures
            r@ == self.root(),
    {
        self.root_dir.as_str()
    }

    /// Where the package `name` is installed.
    pub fn install_path(&self, name: &str) -> (r: String)
        ensures
            r@ == self.install_location(name@),
    {
        let modules = join(self.root_dir.as_str(), "modules");
        let target = join(modules.as_str(), name);
        clean(target.as_str())
    }
}

/// Puts the contents of files one after the other.
pub fn concat_contents(files: &Vec<Vec<u8>>) -> (r: Vec<u8>)
    ensures
        r@ == joined_contents(files@),
{
    let mut all: Vec<u8> = Vec::new();
    let mut i: usize = 0;
    while i < files.len()
        invariant
            i <= files@.len(),
            all@ == joined_contents(files@.take(i as int)),
        decreases files@.len() - i,
    {
        let file = &files[i];
        let ghost before = all@;
        let mut j: usize = 0;
        while j < file.len()
            invariant
                j <= file@.len(),
                all@ == before + file@.take(j as int),
            decreases file@.len() - j,
        {
            all.push(file[j]);
            proof {
                assert(file@.take(j + 1) =~= file@.take(j as int).push(file@[j as int]));
            }
            j = j + 1;
        }
        proof {
            assert(file@.take(file@.len() as int) =~= file@);
            assert(files@.take(i + 1).drop_last() =~= files@.take(i as int));
            assert(files@.take(i + 1).last() == files@[i as int]);
        }
        i = i + 1;
    }
    proof {
        assert(files@.take(files@.len() as int) =~= files@);
    }
    all
}

/// The checksum of a directory: the SHA-256 digest, as text, of the
/// contents of its files, taken in the order given.
pub fn checksum(files: &Vec<Vec<u8>>) -> (r: String)
    ensures
        r@ == checksum_text(files@),
{
    let all = concat_contents(files);
    let digest = sha256(&all);
    token_from(&digest)
}

} // verus!
