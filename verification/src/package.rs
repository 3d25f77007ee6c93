//! Where a package keeps the files of a proving run.
//!
//! Paths are plain strings with `/` between their segments. The inputs are
//! read from `<directory>/inputs/inputs.leo`, and the proof of the package
//! `<name>` is written to `<directory>/outputs/<name>.proof`.

use vstd::prelude::*;
use vstd::string::*;

verus! {

/// The directory, below the package's own, that holds its inputs file.
pub const INPUTS_DIRECTORY_NAME: &'static str = "inputs";

/// The name of the inputs file.
pub const INPUTS_FILE_NAME: &'static str = "inputs.leo";

/// The directory, below the package's own, that receives what a run produces.
pub const OUTPUTS_DIRECTORY_NAME: &'static str = "outputs";

/// What follows the package name in the name of its proof file.
pub const PROOF_FILE_EXTENSION: &'static str = ".proof";

/// `base` with `segment` below it: the two are set side by side, with one `/`
/// between them unless `base` is empty or already ends in one.
pub open spec fn spec_join(base: Seq<char>, segment: Seq<char>) -> Seq<char> {
    if base.len() == 0 || base.last() == '/' {
        base + segment
    } else {
        base + seq!['/'] + segment
    }
}

/// The path of `segment` below `base`.
pub fn join(base: &str, segment: &str) -> (path: String)
    ensures
        path@ == spec_join(base@, segment@),
{
    let mut path = String::from_str(base);
    let length: usize = base.unicode_len();
    if length > 0 && base.get_char(length - 1) != '/' {
        proof {
            reveal_strlit("/");
        }
        path.append("/");
        assert(path@ == base@ + seq!['/']);
    }
    path.append(segment);
    path
}

/// A package as a proving run knows it: the directory it lives in and the
/// name its manifest declares.
#[derive(Clone, Debug, PartialEq, Eq)]
pub struct Package {
    pub directory: String,
    pub name: String,
}

/// The mathematical content of a [`Package`].
pub struct PackageView {
    pub directory: Seq<char>,
    pub name: Seq<char>,
}

impl View for Package {
    type V = PackageView;

    open spec fn view(&self) -> PackageView {
        PackageView { directory: self.directory@, name: self.name@ }
    }
}

impl PackageView {
    /// The path of the inputs file: `inputs/inputs.leo` below the directory.
    pub open spec fn inputs_file_path(self) -> Seq<char> {
        spec_join(spec_join(self.directory, INPUTS_DIRECTORY_NAME@), INPUTS_FILE_NAME@)
    }

    /// The name of the proof file: the package name, then `.proof`.
    pub open spec fn proof_file_name(self) -> Seq<char> {
        self.name + PROOF_FILE_EXTENSION@
    }

    /// The path of the proof file: `outputs/<name>.proof` below the directory.
    pub open spec fn proof_file_path(self) -> Seq<char> {
        spec_join(spec_join(self.directory, OUTPUTS_DIRECTORY_NAME@), self.proof_file_name())
    }
}

impl Package {
    /// The path the inputs of this package are read from.
    pub fn inputs_file_path(&self) -> (path: String)
        ensures
            path@ == self@.inputs_file_path(),
    {
        let directory = join(self.directory.as_str(), INPUTS_DIRECTORY_NAME);
        join(directory.as_str(), INPUTS_FILE_NAME)
    }

    /// The path the proof of this package is written to.
    pub fn proof_file_path(&self) -> (path: String)
        ensures
            path@ == self@.proof_file_path(),
    {
        let directory = join(self.directory.as_str(), OUTPUTS_DIRECTORY_NAME);
        let mut file_name = self.name.clone();
        file_name.append(PROOF_FILE_EXTENSION);
        join(directory.as_str(), file_name.as_str())
    }
}

} // verus!
