//! Artifact resolution: select the shared-library artifact from the ordered
//! sequence of build events.

use vstd::prelude::*;
use crate::pipeline::{Artifact, PipelineError};
use crate::events::{dylib_marker, BuildEvent};

verus! {

/// True when one of the kind names is the shared/dynamic-library marker.
pub open spec fn has_dylib_kind(kinds: Seq<String>) -> bool {
    exists|i: int| 0 <= i < kinds.len() && #[trigger] kinds[i]@ == dylib_marker()
}

/// A build event qualifies for resolution when it reports a compiler
/// artifact whose target-kind set contains the dynamic-library marker and
/// which records at least one produced file.
pub open spec fn event_matches(e: BuildEvent) -> bool {
    e.is_artifact && has_dylib_kind(e.kinds@) && e.filenames@.len() > 0
}

/// The path resolution selects from an event sequence: the first recorded
/// file of the last qualifying event, or nothing when no event qualifies.
pub open spec fn resolve_spec(events: Seq<BuildEvent>) -> Option<Seq<char>>
    decreases events.len(),
{
    if events.len() == 0 {
        None
    } else if event_matches(events.last()) {
        Some(events.last().filenames@[0]@)
    } else {
        resolve_spec(events.drop_last())
    }
}

/// Whether one kind name equals the dynamic-library marker.
fn kind_is_dylib(kind: &String) -> (r: bool)
    ensures
        r == (kind@ == dylib_marker()),
{
    let marker: String = "cdylib".to_owned();
    *kind == marker
}

/// Whether a kind set contains the dynamic-library marker.
fn kinds_have_dylib(kinds: &Vec<String>) -> (r: bool)
    ensures
        r == has_dylib_kind(kinds@),
{
    let mut i: usize = 0;
    while i < kinds.len()
        invariant
            i <= kinds@.len(),
            forall|j: int| 0 <= j < i ==> #[trigger] kinds@[j]@ != dylib_marker(),
        decreases kinds@.len() - i,
    {
        if kind_is_dylib(&kinds[i]) {
            assert(kinds@[i as int]@ == dylib_marker());
            return true;
        }
        i += 1;
    }
    false
}

/// Filters the events to those carrying the dynamic-library marker and
/// selects the last match, in event order.  Fails with `NoArtifact` when no
/// event qualifies: the build succeeded but produced no shared library.
pub fn resolve(events: &Vec<BuildEvent>) -> (r: Result<Artifact, PipelineError>)
    ensures
        match r {
            Ok(a) => resolve_spec(events@) == Some(a.path@),
            Err(e) => e == PipelineError::NoArtifact && resolve_spec(events@) is None,
        },
{
    let mut artifacts: Vec<Artifact> = Vec::new();
    let mut i: usize = 0;
    while i < events.len()
        invariant
            i <= events@.len(),
            artifacts@.len() == 0 <==> resolve_spec(events@.take(i as int)) is None,
            artifacts@.len() > 0 ==> resolve_spec(events@.take(i as int)) == Some(
                artifacts@.last().path@,
            ),
        decreases events@.len() - i,
    {
        let e = &events[i];
        let qualifies = e.is_artifact && kinds_have_dylib(&e.kinds) && e.filenames.len() > 0;
        proof {
            let t = events@.take(i as int + 1);
            assert(t.last() == events@[i as int]);
            assert(t.drop_last() =~= events@.take(i as int));
        }
        if qualifies {
            artifacts.push(Artifact { path: e.filenames[0].clone() });
        }
        i += 1;
    }
    proof {
        assert(events@.take(events@.len() as int) =~= events@);
    }
    match artifacts.pop() {
        Some(a) => Ok(a),
        None => Err(PipelineError::NoArtifact),
    }
}

/// Resolution returns the last qualifying event's path: if the event at `i`
/// qualifies and no later event does, the resolved path is the first file
/// recorded by the event at `i`.  Later qualifying reports supersede
/// earlier ones, preserving input order.
pub proof fn lemma_resolution_last_match(events: Seq<BuildEvent>, i: int)
    requires
        0 <= i < events.len(),
        event_matches(events[i]),
        forall|j: int| i < j < events.len() ==> !event_matches(#[trigger] events[j]),
    ensures
        resolve_spec(events) == Some(events[i].filenames@[0]@),
    decreases events.len(),
{
    if i == events.len() - 1 {
        assert(events.last() == events[i]);
    } else {
        assert(!event_matches(events.last()));
        let shorter = events.drop_last();
        assert(shorter[i] == events[i]);
        lemma_resolution_last_match(shorter, i);
    }
}

/// Resolution of a stream with exactly one qualifying event returns that
/// event's path.
pub proof fn lemma_resolution_single_match(events: Seq<BuildEvent>, i: int)
    requires
        0 <= i < events.len(),
        event_matches(events[i]),
        forall|j: int| 0 <= j < events.len() && j != i ==> !event_matches(#[trigger] events[j]),
    ensures
        resolve_spec(events) == Some(events[i].filenames@[0]@),
{
    lemma_resolution_last_match(events, i);
}

/// Resolution of a stream with no qualifying event selects nothing, so
/// `resolve` fails with `NoArtifact` on such a stream.
pub proof fn lemma_resolution_no_match(events: Seq<BuildEvent>)
    requires
        forall|j: int| 0 <= j < events.len() ==> !event_matches(#[trigger] events[j]),
    ensures
        resolve_spec(events) is None,
    decreases events.len(),
{
    if events.len() > 0 {
        lemma_resolution_no_match(events.drop_last());
    }
}

} // verus!
