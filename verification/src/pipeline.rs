//! Build orchestration: the flags handed to the compiler toolchain and the
//! decision that turns a finished build into a resolved artifact.

use vstd::prelude::*;
use crate::events::events_of;
use crate::events::parse_build_stream;
use crate::resolver::{resolve, resolve_spec};

verus! {

/// A resolved shared-library build product.
#[derive(Debug)]
pub struct Artifact {
    pub path: String,
}

/// The failures of the pipeline.  Every one is fatal and exits with status
/// 1; no partial-success state exists.
#[derive(Debug, PartialEq, Eq)]
pub enum PipelineError {
    /// The compiler toolchain exited with a nonzero status.
    BuildFailed,
    /// The build succeeded but no event carried the dynamic-library marker.
    NoArtifact,
    /// The project's declared name could not be determined.
    MetadataFailed,
    /// The shared library could not be mapped or its entry symbol resolved;
    /// carries the underlying loader diagnostic.
    LoadFailed(String),
}

/// The process exit status that reports a pipeline failure.
pub fn exit_code(e: &PipelineError) -> (r: i32)
    ensures
        r == 1,
{
    let _ = e;
    1
}

/// Configuration of one build invocation of the compiler toolchain.
pub struct Build {
    release: bool,
}

impl Build {
    /// Whether this configuration requests an optimized build.
    pub closed spec fn spec_release(&self) -> bool {
        self.release
    }
}

impl Default for Build {
    /// A build configuration without the optimization flag.
    fn default() -> (r: Build)
        ensures
            !r.spec_release(),
    {
        Build { release: false }
    }
}

impl Build {
    pub fn new() -> (r: Build)
        ensures
            !r.spec_release(),
    {
        Build::default()
    }

    /// Whether the build adds the optimization flag.
    pub fn release(self, release: bool) -> (r: Build)
        ensures
            r.spec_release() == release,
    {
        Build { release }
    }

    /// The arguments handed to the compiler toolchain: a library-only build
    /// with a machine-readable line-delimited output stream, plus the
    /// optimization flag in release mode.
    pub fn command_args(&self) -> (r: Vec<String>)
        ensures
            r@.len() == (if self.spec_release() {
                4int
            } else {
                3int
            }),
            r@[0]@ == "build"@,
            r@[1]@ == "--lib"@,
            r@[2]@ == "--message-format=json"@,
            self.spec_release() ==> r@[3]@ == "--release"@,
    {
        let mut args: Vec<String> = Vec::new();
        args.push("build".to_owned());
        args.push("--lib".to_owned());
        args.push("--message-format=json".to_owned());
        if self.release {
            args.push("--release".to_owned());
        }
        args
    }

    /// Turns a finished build into a resolved artifact.  On a nonzero exit
    /// the pipeline aborts with `BuildFailed` and the output stream is
    /// never inspected; on success the stream's events are parsed and the
    /// shared-library artifact is resolved from them.
    pub fn build(self, exit_ok: bool, stdout: &Vec<u8>) -> (r: Result<Artifact, PipelineError>)
        ensures
            !exit_ok ==> r == Err::<Artifact, PipelineError>(PipelineError::BuildFailed),
            exit_ok ==> match r {
                Ok(a) => resolve_spec(events_of(stdout@)) == Some(a.path@),
                Err(e) => e == PipelineError::NoArtifact && resolve_spec(events_of(stdout@))
                    is None,
            },
    {
        if !exit_ok {
            return Err(PipelineError::BuildFailed);
        }
        let events = parse_build_stream(stdout);
        resolve(&events)
    }
}

} // verus!
