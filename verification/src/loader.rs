//! Dynamic-loader support: path normalization for the host's loader and the
//! knobs handed to the binding generator's fixed entry point.
//!
//! The load itself — mapping the shared library into the process and calling
//! the entry symbol across the foreign boundary — cannot be verified and
//! stays outside the library; everything it decides on is computed here.

use vstd::prelude::*;

verus! {

/// The two user-controlled knobs threaded into the generator call: an
/// optional output path (absent means the conventional default location)
/// and whether foreign-symbol binding is deferred to first call.
pub struct OutputTarget {
    pub path: Option<String>,
    pub lazy: bool,
}

/// The fixed, well-known name of the exported entry point that the loader
/// resolves and invokes inside the loaded module.
pub open spec fn entry_symbol_spec() -> Seq<char> {
    "init_deno_bindgen"@
}

/// The entry symbol as a value, for the unverified loader to resolve.
pub fn entry_symbol() -> (r: String)
    ensures
        r@ == entry_symbol_spec(),
{
    "init_deno_bindgen".to_owned()
}

/// A path separator byte.  The host class whose loader needs relative
/// paths writes `\`; artifact paths may also arrive `/`-separated, so both
/// count.
pub open spec fn is_separator(b: u8) -> bool {
    b == 47u8 || b == 92u8
}

/// The path obtained by stripping the working directory and the following
/// separator from the front of an artifact path, or nothing when the path
/// does not start that way.
pub open spec fn stripped_path(path: Seq<u8>, cwd: Seq<u8>) -> Option<Seq<u8>> {
    if path == cwd {
        Some(Seq::<u8>::empty())
    } else if path.len() > cwd.len() && path.take(cwd.len() as int) == cwd && is_separator(
        path[cwd.len() as int],
    ) {
        Some(path.skip(cwd.len() as int + 1))
    } else {
        None
    }
}

/// The loader path for an artifact: on a host whose dynamic loader resolves
/// library references by name and search path, the artifact path rewritten
/// relative to the working directory; on every other host, the path as it
/// is.  `None` reports an artifact that does not live under the working
/// directory on such a host.
pub open spec fn loader_path_spec(path: Seq<u8>, cwd: Seq<u8>, by_search_path: bool) -> Option<
    Seq<u8>,
> {
    if by_search_path {
        stripped_path(path, cwd)
    } else {
        Some(path)
    }
}

/// Whether `cwd` is a strict prefix of `path` followed by a separator.
fn bytes_strip_check(path: &Vec<u8>, cwd: &Vec<u8>) -> (r: bool)
    ensures
        r == (path@.len() > cwd@.len() && path@.take(cwd@.len() as int) == cwd@ && is_separator(
            path@[cwd@.len() as int],
        )),
{
    if path.len() <= cwd.len() {
        return false;
    }
    let mut i: usize = 0;
    while i < cwd.len()
        invariant
            i <= cwd@.len(),
            path@.len() > cwd@.len(),
            forall|j: int| 0 <= j < i ==> path@[j] == cwd@[j],
        decreases cwd@.len() - i,
    {
        if path[i] != cwd[i] {
            proof {
                assert(path@.take(cwd@.len() as int)[i as int] != cwd@[i as int]);
            }
            return false;
        }
        i += 1;
    }
    proof {
        assert(path@.take(cwd@.len() as int) =~= cwd@);
    }
    let b = path[cwd.len()];
    b == 47u8 || b == 92u8
}

/// Rewrites an artifact path relative to the working directory: removes the
/// leading working directory and its separator, or reports `None` when the
/// path does not lie under the working directory.
pub fn strip_cwd_prefix(path: &Vec<u8>, cwd: &Vec<u8>) -> (r: Option<Vec<u8>>)
    ensures
        match r {
            Some(p) => stripped_path(path@, cwd@) == Some(p@),
            None => stripped_path(path@, cwd@) is None,
        },
{
    if path.len() == cwd.len() {
        let mut i: usize = 0;
        while i < cwd.len()
            invariant
                i <= cwd@.len(),
                path@.len() == cwd@.len(),
                forall|j: int| 0 <= j < i ==> path@[j] == cwd@[j],
            decreases cwd@.len() - i,
        {
            if path[i] != cwd[i] {
                return None;
            }
            i += 1;
        }
        proof {
            assert(path@ =~= cwd@);
        }
        return Some(Vec::new());
    }
    if !bytes_strip_check(path, cwd) {
        proof {
            if path@ == cwd@ {
                assert(path@.len() == cwd@.len());
            }
        }
        return None;
    }
    let mut out: Vec<u8> = Vec::new();
    let mut i: usize = cwd.len() + 1;
    while i < path.len()
        invariant
            cwd@.len() + 1 <= i <= path@.len(),
            out@ =~= path@.subrange(cwd@.len() as int + 1, i as int),
        decreases path@.len() - i,
    {
        out.push(path[i]);
        i += 1;
    }
    proof {
        assert(out@ =~= path@.skip(cwd@.len() as int + 1));
        if path@ == cwd@ {
            assert(false);
        }
    }
    Some(out)
}

/// Normalizes an artifact path for the host's dynamic loader, as
/// `loader_path_spec` describes.
pub fn loader_path(path: &Vec<u8>, cwd: &Vec<u8>, by_search_path: bool) -> (r: Option<Vec<u8>>)
    ensures
        match r {
            Some(p) => loader_path_spec(path@, cwd@, by_search_path) == Some(p@),
            None => loader_path_spec(path@, cwd@, by_search_path) is None,
        },
{
    if by_search_path {
        strip_cwd_prefix(path, cwd)
    } else {
        Some(path.clone())
    }
}

} // verus!
