//! Where the sources of the native libraries are published.

use vstd::prelude::*;
use vstd::string::StringExecFns;

verus! {

/// A release of a native library: who publishes it, its name and its
/// version.
#[derive(Debug, Clone, Copy)]
pub struct Pkg {
    pub dev: &'static str,
    pub name: &'static str,
    pub version: &'static str,
}

impl Pkg {
    /// The address of the archive of the release.
    pub open spec fn spec_release_url(&self) -> Seq<char> {
        "https://github.com/"@ + self.dev@ + "/"@ + self.name@ + "/archive/refs/tags/"@
            + self.version@ + ".zip"@
    }

    /// The name of the directory that the archive unpacks to.
    pub open spec fn spec_directory(&self) -> Seq<char> {
        self.name@ + "-"@ + self.version@
    }

    pub fn release_url(&self) -> (r: String)
        ensures
            r@ == self.spec_release_url(),
    {
        let mut url = String::from_str("https://github.com/");
        url.append(self.dev);
        url.append("/");
        url.append(self.name);
        url.append("/archive/refs/tags/");
        url.append(self.version);
        url.append(".zip");
        url
    }

    pub fn directory(&self) -> (r: String)
        ensures
            r@ == self.spec_directory(),
    {
        let mut directory = String::from_str(self.name);
        directory.append("-");
        directory.append(self.version);
        directory
    }
}

/// The graphics library.
pub fn raylib() -> (r: Pkg)
    ensures
        r.dev@ == "raysan5"@,
        r.name@ == "raylib"@,
        r.version@ == "5.5"@,
{
    Pkg { dev: "raysan5", name: "raylib", version: "5.5" }
}

/// The user interface library.
pub fn raygui() -> (r: Pkg)
    ensures
        r.dev@ == "raysan5"@,
        r.name@ == "raygui"@,
        r.version@ == "4.0"@,
{
    Pkg { dev: "raysan5", name: "raygui", version: "4.0" }
}

/// The physics library.
pub fn physac() -> (r: Pkg)
    ensures
        r.dev@ == "victorfisac"@,
        r.name@ == "Physac"@,
        r.version@ == "1.1"@,
{
    Pkg { dev: "victorfisac", name: "Physac", version: "1.1" }
}

} // verus!
