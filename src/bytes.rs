//! The program bytes file of a package.

use vstd::prelude::*;

use crate::path::{ends_with_components, path_ends_with, pushed, pushed_path};

verus! {

/// Name of the directory, under a package's root, that holds its build outputs.
pub const OUTPUTS_DIRECTORY_NAME: &'static str = "outputs/";

/// Suffix of the file that holds a package's compiled program bytes.
pub const BYTES_FILE_EXTENSION: &'static str = ".bytes";

/// Name of the bytes file of the package `package_name`.
pub open spec fn artifact_name(package_name: Seq<char>) -> Seq<char> {
    package_name + BYTES_FILE_EXTENSION@
}

/// Where the bytes file of `package_name` lies for the base path `base`.
///
/// A base that is a directory gets the outputs directory (unless its last
/// component already is that directory) and then the file name; any other base
/// is the file's path as it stands.
pub open spec fn resolved_path(
    package_name: Seq<char>,
    base: Seq<char>,
    base_is_dir: bool,
    base_ends_in_outputs: bool,
) -> Seq<char> {
    if !base_is_dir {
        base
    } else if base_ends_in_outputs {
        pushed(base, artifact_name(package_name))
    } else {
        pushed(pushed(base, OUTPUTS_DIRECTORY_NAME@), artifact_name(package_name))
    }
}

/// A base path that is not a directory is the bytes file's path as it stands,
/// whatever the package's name.
pub proof fn lemma_non_directory_path_unchanged(
    package_name: Seq<char>,
    base: Seq<char>,
    base_ends_in_outputs: bool,
)
    ensures
        resolved_path(package_name, base, false, base_ends_in_outputs) == base,
{
}

/// For a directory base (so a non-empty one), the resolved path names the bytes
/// file: it ends in a separator and the package name with the extension. A
/// package name that is itself an absolute path would be the whole result.
pub proof fn lemma_directory_path_names_file(
    package_name: Seq<char>,
    base: Seq<char>,
    base_ends_in_outputs: bool,
)
    requires
        base.len() > 0,
        package_name.len() == 0 || package_name[0] != '/',
    ensures
        ({
            let r = resolved_path(package_name, base, true, base_ends_in_outputs);
            let a = artifact_name(package_name);
            &&& r.len() > a.len()
            &&& r.subrange(r.len() - a.len(), r.len() as int) == a
            &&& r[r.len() - a.len() - 1] == '/'
        }),
{
    reveal_strlit(".bytes");
    reveal_strlit("outputs/");
    let a = artifact_name(package_name);
    assert(a[0] != '/');
    let dir = if base_ends_in_outputs {
        base
    } else {
        pushed(base, OUTPUTS_DIRECTORY_NAME@)
    };
    let r = pushed(dir, a);
    assert(r == resolved_path(package_name, base, true, base_ends_in_outputs));
    if dir.last() == '/' {
        assert(r == dir + a);
    } else {
        assert(r == dir + seq!['/'] + a);
    }
    assert(r.subrange(r.len() - a.len(), r.len() as int) =~= a);
}

/// The compiled program bytes of one package, stored as a file among the
/// package's build outputs.
pub struct BytesFile {
    pub package_name: String,
}

impl BytesFile {
    /// A bytes file for the package `package_name`, kept as given.
    pub fn new(package_name: &str) -> (r: Self)
        ensures
            r.package_name@ == package_name@,
    {
        BytesFile { package_name: String::from_str(package_name) }
    }

    /// The name of this package's bytes file: the package name and the extension.
    pub fn file_name(&self) -> (r: String)
        ensures
            r@ == artifact_name(self.package_name@),
    {
        let mut r = self.package_name.clone();
        r.append(BYTES_FILE_EXTENSION);
        r
    }

    /// The path of the bytes file for `path`, given whether `path` is a directory
    /// and whether its last component is the outputs directory.
    pub fn resolve_path(
        &self,
        path: &str,
        path_is_dir: bool,
        path_ends_in_outputs: bool,
    ) -> (r: String)
        ensures
            r@ == resolved_path(self.package_name@, path@, path_is_dir, path_ends_in_outputs),
    {
        if !path_is_dir {
            return String::from_str(path);
        }
        let name = self.file_name();
        if path_ends_in_outputs {
            pushed_path(path, name.as_str())
        } else {
            let dir = pushed_path(path, OUTPUTS_DIRECTORY_NAME);
            pushed_path(dir.as_str(), name.as_str())
        }
    }

    /// The path of the bytes file for `path`, given whether `path` is a directory.
    pub fn setup_file_path(&self, path: &str, path_is_dir: bool) -> (r: String)
        ensures
            r@ == resolved_path(
                self.package_name@,
                path@,
                path_is_dir,
                path_ends_with(path@, OUTPUTS_DIRECTORY_NAME@),
            ),
    {
        let ends_in_outputs = ends_with_components(path, OUTPUTS_DIRECTORY_NAME);
        self.resolve_path(path, path_is_dir, ends_in_outputs)
    }
}

} // verus!
