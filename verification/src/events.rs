//! Events of the build tool's line-delimited structured output stream.

use vstd::prelude::*;

verus! {

/// One record parsed from a line of the build tool's output stream.
///
/// `is_artifact` is true for "compiler-artifact" records, which carry the
/// target's kind names and the paths of the files the compiler produced.
/// All other records are irrelevant to artifact resolution and keep empty
/// lists.
pub struct BuildEvent {
    pub is_artifact: bool,
    pub kinds: Vec<String>,
    pub filenames: Vec<String>,
}

/// The target-kind name that marks a shared/dynamic-library artifact.
pub open spec fn dylib_marker() -> Seq<char> {
    "cdylib"@
}

/// The events encoded in a byte stream of line-delimited build records.
pub uninterp spec fn events_of(bytes: Seq<u8>) -> Seq<BuildEvent>;

/// Relies on `cargo_metadata::Message::parse_stream`: it splits the byte
/// stream into lines and parses each line into one message; a
/// "compiler-artifact" message carries the target's kind names and the
/// produced file paths.  The parse reads only the given bytes, so its
/// result is a function of them alone.
#[verifier::external_body]
pub(crate) fn parse_build_stream(bytes: &Vec<u8>) -> (r: Vec<BuildEvent>)
    ensures
        r@ == events_of(bytes@),
{
    cargo_metadata::Message::parse_stream(std::io::BufReader::new(bytes.as_slice()))
        .map(|m| match m {
            Ok(cargo_metadata::Message::CompilerArtifact(a)) => BuildEvent {
                is_artifact: true,
                kinds: a.target.kind.iter().map(|k| k.to_string()).collect(),
                filenames: a.filenames.iter().map(|f| f.to_string()).collect(),
            },
            _ => BuildEvent { is_artifact: false, kinds: Vec::new(), filenames: Vec::new() },
        })
        .collect()
}

} // verus!
