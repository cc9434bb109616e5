//! Composition-error extraction.
//!
//! A registry response may carry a sparse list of composition errors in
//! which some entries are absent placeholders. The extractor drops the
//! absent entries, keeps the present ones in order, and hands back only
//! their messages.

use vstd::prelude::*;

verus! {

/// One composition error reported by the registry.
#[derive(Clone, Debug, PartialEq, Eq)]
pub struct CompositionError {
    pub message: String,
}

/// The messages of the present entries, in order.
pub open spec fn extracted(entries: Seq<Option<CompositionError>>) -> Seq<Seq<char>> {
    entries.filter_map(
        |e: Option<CompositionError>| match e {
            Some(err) => Some(err.message@),
            None => None,
        },
    )
}

/// Drops every absent entry of a sparse composition-error list and
/// collects the messages of the remaining entries, preserving their
/// relative order. An empty result is a normal outcome, not a failure.
#[verifier::loop_isolation(false)]
pub fn extract(raw_entries: &Vec<Option<CompositionError>>) -> (messages: Vec<String>)
    ensures
        messages@.map_values(|m: String| m@) == extracted(raw_entries@),
{
    let ghost f = |e: Option<CompositionError>| match e {
        Some(err) => Some(err.message@),
        None => None,
    };
    let mut messages: Vec<String> = Vec::new();
    let mut i: usize = 0;
    while i < raw_entries.len()
        invariant
            i <= raw_entries.len(),
            messages@.map_values(|m: String| m@) == raw_entries@.take(i as int).filter_map(f),
        decreases raw_entries.len() - i,
    {
        match &raw_entries[i] {
            Some(err) => {
                messages.push(err.message.clone());
                proof {
                    raw_entries@.lemma_filter_map_take_succ(f, i as int);
                    assert(messages@.map_values(|m: String| m@) =~= raw_entries@.take(
                        i + 1,
                    ).filter_map(f));
                }
            },
            None => {
                proof {
                    raw_entries@.lemma_filter_map_take_succ(f, i as int);
                    assert(messages@.map_values(|m: String| m@) =~= raw_entries@.take(
                        i + 1,
                    ).filter_map(f));
                }
            },
        }
        i = i + 1;
    }
    proof {
        assert(raw_entries@.take(raw_entries@.len() as int) =~= raw_entries@);
    }
    messages
}

/// The present entries of a sparse list, in order.
pub open spec fn present_entries(entries: Seq<Option<CompositionError>>) -> Seq<
    Option<CompositionError>,
> {
    entries.filter(|e: Option<CompositionError>| e is Some)
}

/// The extractor keeps exactly the present entries: its output is the
/// message of each present entry in the entries' own order, so its
/// length is the number of present entries.
pub proof fn lemma_extracted_preserves_present(entries: Seq<Option<CompositionError>>)
    ensures
        extracted(entries) == present_entries(entries).map_values(
            |e: Option<CompositionError>| e->0.message@,
        ),
        extracted(entries).len() == present_entries(entries).len(),
    decreases entries.len(),
{
    reveal(Seq::filter);
    let f = |e: Option<CompositionError>| match e {
        Some(err) => Some(err.message@),
        None => None,
    };
    let msg = |e: Option<CompositionError>| e->0.message@;
    let pred = |e: Option<CompositionError>| e is Some;
    if entries.len() == 0 {
        assert(extracted(entries) =~= present_entries(entries).map_values(msg));
    } else {
        let rest = entries.drop_last();
        lemma_extracted_preserves_present(rest);
        assert(extracted(entries) =~= present_entries(entries).map_values(msg));
    }
}

} // verus!
