use vstd::prelude::*;

verus! {

/// Target operating systems whose dynamic-library naming is known.
#[derive(Clone, Copy, Debug, PartialEq, Eq, Structural)]
pub enum Platform {
    MacOs,
    Linux,
    FreeBsd,
    DragonFly,
    Windows,
}

/// The file extension of a dynamic library on a platform.
pub open spec fn extension_spec(platform: Platform) -> Seq<char> {
    match platform {
        Platform::MacOs => "dylib"@,
        Platform::Linux | Platform::FreeBsd | Platform::DragonFly => "so"@,
        Platform::Windows => "dll"@,
    }
}

/// The prefix put before the package name in the library's file name.
pub open spec fn library_prefix() -> Seq<char> {
    "lib"@
}

/// Where the build writes its dynamic library: a directory, a file stem and
/// an extension, joined by the caller's path rules.
#[derive(Debug)]
pub struct ArtifactPath {
    pub directory: String,
    pub stem: String,
    pub extension: String,
}

impl ArtifactPath {
    /// The file name: stem, a dot, extension.
    pub fn file_name(&self) -> (r: String)
        ensures
            r@ == self.stem@ + "."@ + self.extension@,
    {
        let name = self.stem.clone();
        let name = name.concat(".");
        name.concat(self.extension.as_str())
    }
}

/// The extension of a dynamic library on `platform`.
pub fn library_extension(platform: Platform) -> (r: &'static str)
    ensures
        r@ == extension_spec(platform),
{
    match platform {
        Platform::MacOs => "dylib",
        Platform::Linux | Platform::FreeBsd | Platform::DragonFly => "so",
        Platform::Windows => "dll",
    }
}

/// The library's path next to the running executable: `directory` holds the
/// executable, `package` is the project's package name.
pub fn locate_artifact(directory: &str, package: &str, platform: Platform) -> (r: ArtifactPath)
    ensures
        r.directory@ == directory@,
        r.stem@ == library_prefix() + package@,
        r.extension@ == extension_spec(platform),
{
    let stem = String::from_str("lib");
    let stem = stem.concat(package);
    ArtifactPath {
        directory: directory.to_owned(),
        stem,
        extension: library_extension(platform).to_owned(),
    }
}

} // verus!
