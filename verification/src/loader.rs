//! Where the platform's web view loader is looked for when the application
//! is packaged.
//!
//! The loader built with the application is preferred; a copy shipped with
//! the sources stands in for it; without either, packaging goes on without a
//! loader.

use vstd::prelude::*;
use crate::assets::{join, joined};
use crate::text::chars_of;

verus! {

/// The directory of the loader for the target architecture `arch`: `x64`,
/// `arm64` or `x86` for the architectures that have a loader, and the
/// architecture's own name for any other.
pub open spec fn arch_dir(arch: Seq<char>) -> Seq<char> {
    if arch == "x86_64"@ {
        "x64"@
    } else if arch == "aarch64"@ {
        "arm64"@
    } else {
        arch
    }
}

/// The place of the loader below the build directory of the package that
/// provides it.
pub open spec fn loader_below(arch: Seq<char>) -> Seq<char> {
    joined(joined("out"@, arch_dir(arch)), "WebView2Loader.dll"@)
}

/// `name` is the name of a build directory of the package that provides the
/// loader: it begins with the package's name.
pub open spec fn provides_loader(name: Seq<char>) -> bool {
    let prefix = "webview2-com-sys"@;
    name.len() >= prefix.len() && name.take(prefix.len() as int) == prefix
}

/// Whether `name` names a build directory of the package that provides the
/// loader.
pub fn is_loader_package(name: &str) -> (out: bool)
    ensures
        out == provides_loader(name@),
{
    let cs = chars_of(name);
    let prefix = chars_of("webview2-com-sys");
    let n = prefix.len();
    if cs.len() < n {
        return false;
    }
    let mut i: usize = 0;
    while i < n
        invariant
            i <= n,
            n == prefix@.len(),
            n <= cs@.len(),
            cs@ == name@,
            prefix@ == "webview2-com-sys"@,
            forall|j: int| 0 <= j < i ==> cs@[j] == prefix@[j],
        decreases n - i,
    {
        if cs[i] != prefix[i] {
            assert(cs@.take(n as int)[i as int] != prefix@[i as int]);
            return false;
        }
        i = i + 1;
    }
    assert(cs@.take(n as int) =~= prefix@);
    true
}

/// Whether `a` and `b` are the same text.
fn same_text(a: &str, b: &str) -> (out: bool)
    ensures
        out == (a@ == b@),
{
    let x = String::from_str(a);
    let y = String::from_str(b);
    x == y
}

/// The directory of the loader for the target architecture `arch`.
pub fn loader_arch_dir(arch: &str) -> (out: String)
    ensures
        out@ == arch_dir(arch@),
{
    if same_text(arch, "x86_64") {
        String::from_str("x64")
    } else if same_text(arch, "aarch64") {
        String::from_str("arm64")
    } else {
        String::from_str(arch)
    }
}

/// The place of the loader below the build directory of the package that
/// provides it, for the target architecture `arch`.
pub fn loader_relative(arch: &str) -> (out: String)
    ensures
        out@ == loader_below(arch@),
{
    let dir = loader_arch_dir(arch);
    let arch_path = join("out", dir.as_str());
    proof {
        reveal_strlit("out");
    }
    join(arch_path.as_str(), "WebView2Loader.dll")
}

/// The loader to copy: the built one where it exists, else the shipped one,
/// else none.
pub fn choose_loader<T>(built: Option<T>, shipped: Option<T>) -> (out: Option<T>)
    ensures
        out == (match built {
            Some(path) => Some(path),
            None => shipped,
        }),
{
    match built {
        Some(path) => Some(path),
        None => shipped,
    }
}

} // verus!
