//! Change events as the debouncer hands them on, and the filter that picks
//! the files to sort out of a batch.

use vstd::prelude::*;

verus! {

/// What a change event reports.
#[derive(Clone, Copy, Debug, PartialEq, Eq, Structural)]
pub enum ChangeKind {
    /// Something changed; what is unknown.
    Any,
    Access,
    /// Something was created; whether a file or a folder is unknown.
    CreateAny,
    CreateFile,
    CreateFolder,
    CreateOther,
    Modify,
    Remove,
    Other,
}

/// One logical change: its kind and the paths it concerns.
#[derive(Debug)]
pub struct ChangeEvent {
    pub kind: ChangeKind,
    pub paths: Vec<String>,
}

/// Only the creation of a file is acted on.
pub open spec fn is_file_creation(kind: ChangeKind) -> bool {
    kind == ChangeKind::CreateFile
}

/// An event names a file to sort: it reports a file's creation and has a path.
pub open spec fn accepts(e: ChangeEvent) -> bool {
    is_file_creation(e.kind) && e.paths@.len() > 0
}

/// The first path of an event.
pub open spec fn first_path(e: ChangeEvent) -> Seq<char> {
    e.paths@[0]@
}

/// The files that a batch of events asks to sort: the first path of each
/// accepted event, in the order of the events, each path once.
pub open spec fn sources_of(events: Seq<ChangeEvent>) -> Seq<Seq<char>>
    decreases events.len(),
{
    if events.len() == 0 {
        Seq::empty()
    } else {
        let rest = sources_of(events.drop_last());
        let e = events.last();
        if accepts(e) && !rest.contains(first_path(e)) {
            rest.push(first_path(e))
        } else {
            rest
        }
    }
}

/// Whether an event of this kind is acted on.
pub fn check_event(kind: ChangeKind) -> (r: bool)
    ensures
        r == is_file_creation(kind),
{
    match kind {
        ChangeKind::CreateFile => true,
        _ => false,
    }
}

/// Whether `v` holds `s`.
fn contains_str(v: &Vec<String>, s: &String) -> (r: bool)
    ensures
        r == v.deep_view().contains(s@),
{
    let mut i: usize = 0;
    while i < v.len()
        invariant
            i <= v.len(),
            forall|j: int| 0 <= j < i ==> v.deep_view()[j] != s@,
        decreases v.len() - i,
    {
        if v[i] == *s {
            assert(v.deep_view()[i as int] == s@);
            return true;
        }
        i = i + 1;
    }
    false
}

/// The files that a batch of events asks to sort, each once.
pub fn accepted_sources(events: &Vec<ChangeEvent>) -> (r: Vec<String>)
    ensures
        r.deep_view() == sources_of(events@),
{
    let mut out: Vec<String> = Vec::new();
    let mut i: usize = 0;
    while i < events.len()
        invariant
            i <= events.len(),
            out.deep_view() == sources_of(events@.subrange(0, i as int)),
        decreases events.len() - i,
    {
        let e = &events[i];
        assert(events@.subrange(0, i + 1).drop_last() =~= events@.subrange(0, i as int));
        if check_event(e.kind) && e.paths.len() > 0 {
            let p = e.paths[0].clone();
            if !contains_str(&out, &p) {
                out.push(p);
                assert(out.deep_view() =~= sources_of(events@.subrange(0, i as int)).push(
                    first_path(events@[i as int]),
                ));
            }
        }
        i = i + 1;
    }
    assert(events@.subrange(0, events.len() as int) =~= events@);
    out
}

/// Events that do not report a file's creation change nothing in what a batch
/// hands on: taking one out of the batch leaves the files to sort as they were.
pub proof fn lemma_rejected_event_ignored(events: Seq<ChangeEvent>, i: int)
    requires
        0 <= i < events.len(),
        !is_file_creation(events[i].kind),
    ensures
        sources_of(events.remove(i)) == sources_of(events),
    decreases events.len(),
{
    if i == events.len() - 1 {
        assert(events.remove(i) =~= events.drop_last());
    } else {
        lemma_rejected_event_ignored(events.drop_last(), i);
        assert(events.remove(i).drop_last() =~= events.drop_last().remove(i));
        assert(events.remove(i).last() == events.last());
    }
}

/// Some event of `events` that reports a file's creation has `p` as its first path.
pub open spec fn named_by_creation(events: Seq<ChangeEvent>, p: Seq<char>) -> bool {
    exists|j: int| 0 <= j < events.len() && accepts(events[j]) && #[trigger] first_path(events[j]) == p
}

/// Every file that a batch hands on is the first path of an event that reports
/// a file's creation, and no file is handed on twice.
pub proof fn lemma_sources_accepted_and_distinct(events: Seq<ChangeEvent>)
    ensures
        sources_of(events).no_duplicates(),
        forall|k: int|
            0 <= k < sources_of(events).len() ==> named_by_creation(
                events,
                #[trigger] sources_of(events)[k],
            ),
    decreases events.len(),
{
    if events.len() > 0 {
        let rest = events.drop_last();
        lemma_sources_accepted_and_distinct(rest);
        let s = sources_of(events);
        let n = events.len() - 1;
        assert forall|k: int| 0 <= k < s.len() implies named_by_creation(
            events,
            #[trigger] s[k],
        ) by {
            if k < sources_of(rest).len() {
                assert(named_by_creation(rest, sources_of(rest)[k]));
                let j = choose|j: int|
                    0 <= j < rest.len() && accepts(rest[j]) && #[trigger] first_path(rest[j])
                        == sources_of(rest)[k];
                assert(events[j] == rest[j]);
                assert(s[k] == sources_of(rest)[k]);
            } else {
                assert(events[n] == events.last());
                assert(accepts(events[n]) && first_path(events[n]) == s[k]);
            }
        }
    }
}

} // verus!
