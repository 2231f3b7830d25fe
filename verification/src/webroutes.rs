use vstd::prelude::*;

verus! {

broadcast use vstd::string::group_string_axioms;

/// The body every status page answers with.
pub open spec fn running_text() -> Seq<char> {
    "[*] running..."@
}

/// `GET /`: the status line.
pub fn index() -> (body: &'static str)
    ensures
        body@ == running_text(),
{
    "[*] running..."
}

/// `GET /obs`: the status line.
pub fn obs() -> (body: &'static str)
    ensures
        body@ == running_text(),
{
    "[*] running..."
}

/// What is served under a mount point: a `GET` handler at a path, or the
/// files of a directory.
pub enum MountTarget {
    Get { path: String, handler: String },
    Files { dir: String },
}

/// One mount of the web server.
pub struct Mount {
    pub base: String,
    pub target: MountTarget,
}

/// Whether `m` mounts the `GET` handler `handler` at `path` under `base`.
pub open spec fn is_get_mount(m: Mount, base: Seq<char>, path: Seq<char>, handler: Seq<char>) -> bool {
    &&& m.base@ == base
    &&& m.target matches MountTarget::Get { path: p, handler: h } && p@ == path && h@ == handler
}

/// The web server's layout: `index` and `obs` at `/`, the `static`
/// directory at `/static`, in that order.
pub fn rocket() -> (mounts: Vec<Mount>)
    ensures
        mounts@.len() == 3,
        is_get_mount(mounts@[0], "/"@, "/"@, "index"@),
        is_get_mount(mounts@[1], "/"@, "/obs"@, "obs"@),
        mounts@[2].base@ == "/static"@,
        mounts@[2].target matches MountTarget::Files { dir } && dir@ == "static"@,
{
    let mut mounts: Vec<Mount> = Vec::new();
    mounts.push(
        Mount {
            base: "/".to_string(),
            target: MountTarget::Get { path: "/".to_string(), handler: "index".to_string() },
        },
    );
    mounts.push(
        Mount {
            base: "/".to_string(),
            target: MountTarget::Get { path: "/obs".to_string(), handler: "obs".to_string() },
        },
    );
    mounts.push(
        Mount { base: "/static".to_string(), target: MountTarget::Files { dir: "static".to_string() } },
    );
    mounts
}

} // verus!
