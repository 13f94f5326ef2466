use vstd::prelude::*;
use vstd::string::StringExecFns;

verus! {

/// The platform path a local-transport name maps to: under the named-pipe
/// root on the windows family, under `/tmp/` elsewhere.
pub open spec fn local_path(name: Seq<char>, windows: bool) -> Seq<char> {
    if windows {
        "\\\\.\\pipe\\"@ + name
    } else {
        "/tmp/"@ + name
    }
}

/// Map a bare local-transport name to the path used to bind or connect the
/// local stream. A pure mapping: both peers derive the same path from the
/// same name, which is the local transport's compatibility contract. The
/// caller says which platform family it runs on.
pub fn name_to_path(name: &str, windows: bool) -> (r: String)
    ensures
        r@ == local_path(name@, windows),
{
    let mut path: String = if windows {
        String::from_str("\\\\.\\pipe\\")
    } else {
        String::from_str("/tmp/")
    };
    path.append(name);
    path
}

} // verus!
