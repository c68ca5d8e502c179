//! Tracks the pipelines of a playback run (the `launch` and `play` commands) and decides the
//! exit code once every pipeline has finished.

use vstd::prelude::*;
use crate::pipeline_rules::{PipelineEvent, PipelineEventView};
use crate::table::{Keyed, Table};
use crate::text::strings_view;

verus! {

/// Exit code when a pipeline failed (gst-launch convention).
pub const EXIT_CODE_ERROR: i32 = 1;

/// Exit code when a pipeline met unsupported media (EX_UNAVAILABLE).
pub const EXIT_CODE_UNSUPPORTED: i32 = 69;

impl Keyed for String {
    open spec fn key(&self) -> Seq<char> {
        self@
    }

    fn key_str(&self) -> (r: &str) {
        self.as_str()
    }
}

/// The exit code of a finished run: an error takes priority over unsupported media, and 0
/// means every pipeline reached end of stream.
pub open spec fn exit_code_for(had_error: bool, had_unsupported: bool) -> i32 {
    if had_error {
        EXIT_CODE_ERROR
    } else if had_unsupported {
        EXIT_CODE_UNSUPPORTED
    } else {
        0
    }
}

/// The pipeline an event finishes, and how: `Some((id, error, unsupported))`.
pub open spec fn finishing(event: PipelineEventView) -> Option<(Seq<char>, bool, bool)> {
    match event {
        PipelineEventView::Eos { pipeline_id } => Some((pipeline_id, false, false)),
        PipelineEventView::Error { pipeline_id, .. } => Some((pipeline_id, true, false)),
        PipelineEventView::Unsupported { pipeline_id, .. } => Some((pipeline_id, false, true)),
        PipelineEventView::PipelineRemoved { pipeline_id } => Some((pipeline_id, true, false)),
        _ => None,
    }
}

/// What a run tracks: the pipelines still playing and the failures seen.
pub struct TrackerView {
    pub pending: Set<Seq<char>>,
    pub had_error: bool,
    pub had_unsupported: bool,
}

/// The tracked state after one event.
pub open spec fn after_event(s: TrackerView, e: PipelineEventView) -> TrackerView {
    match finishing(e) {
        Some((id, err, unsup)) => if s.pending.contains(id) {
            TrackerView {
                pending: s.pending.remove(id),
                had_error: s.had_error || err,
                had_unsupported: s.had_unsupported || unsup,
            }
        } else {
            s
        },
        None => s,
    }
}

/// The exit code a run returns on a stream of events: the code at the first event after
/// which no pipeline is pending, or `None` if the stream ends first.
pub open spec fn run_events(s: TrackerView, es: Seq<PipelineEventView>) -> Option<i32>
    decreases es.len(),
{
    if es.len() == 0 {
        None
    } else {
        let t = after_event(s, es[0]);
        if t.pending == Set::<Seq<char>>::empty() {
            Some(exit_code_for(t.had_error, t.had_unsupported))
        } else {
            run_events(t, es.drop_first())
        }
    }
}

/// The tracked state after a stream of events.
pub open spec fn state_after(s: TrackerView, es: Seq<PipelineEventView>) -> TrackerView
    decreases es.len(),
{
    if es.len() == 0 {
        s
    } else {
        state_after(after_event(s, es[0]), es.drop_first())
    }
}

/// An event that changes nothing: it finishes no pipeline, or one no longer pending.
pub open spec fn is_ignored(s: TrackerView, e: PipelineEventView) -> bool {
    match finishing(e) {
        Some((id, _, _)) => !s.pending.contains(id),
        None => true,
    }
}

/// Events that finish no pending pipeline (state changes, additions, events of untracked,
/// failed or finished pipelines) do not change how a run ends: inserting one anywhere before
/// the run returns leaves its exit code as it was.
pub proof fn lemma_ignored_event_keeps_outcome(
    s: TrackerView,
    before: Seq<PipelineEventView>,
    e: PipelineEventView,
    after: Seq<PipelineEventView>,
)
    requires
        s.pending != Set::<Seq<char>>::empty(),
        run_events(s, before) is None,
        is_ignored(state_after(s, before), e),
    ensures
        run_events(s, before + seq![e] + after) == run_events(s, before + after),
    decreases before.len(),
{
    if before.len() == 0 {
        assert(before + seq![e] + after =~= seq![e] + after);
        assert(before + after =~= after);
        assert((seq![e] + after)[0] == e);
        assert((seq![e] + after).drop_first() =~= after);
        assert(after_event(s, e) == s);
    } else {
        let t = after_event(s, before[0]);
        lemma_ignored_event_keeps_outcome(t, before.drop_first(), e, after);
        assert((before + seq![e] + after)[0] == before[0]);
        assert((before + seq![e] + after).drop_first() =~= before.drop_first() + seq![e] + after);
        assert((before + after)[0] == before[0]);
        assert((before + after).drop_first() =~= before.drop_first() + after);
    }
}

/// The same for a run of such events: inserting events that each finish no pipeline pending
/// at that point of the stream leaves the exit code as it was.
pub proof fn lemma_ignored_events_keep_outcome(
    s: TrackerView,
    before: Seq<PipelineEventView>,
    extra: Seq<PipelineEventView>,
    after: Seq<PipelineEventView>,
)
    requires
        s.pending != Set::<Seq<char>>::empty(),
        run_events(s, before) is None,
        forall|i: int| 0 <= i < extra.len() ==> is_ignored(state_after(s, before), #[trigger] extra[i]),
    ensures
        run_events(s, before + extra + after) == run_events(s, before + after),
    decreases extra.len(),
{
    if extra.len() == 0 {
        assert(before + extra + after =~= before + after);
    } else {
        let rest = extra.drop_first();
        assert(is_ignored(state_after(s, before), extra[0]));
        lemma_ignored_event_keeps_outcome(s, before, extra[0], rest + after);
        lemma_ignored_events_keep_outcome(s, before, rest, after);
        assert(before + extra + after =~= before + seq![extra[0]] + (rest + after));
        assert(before + (rest + after) =~= before + rest + after);
    }
}

/// Tracks playback progress for a set of pipelines and signals when all are done.
pub struct PlaybackTracker {
    pending: Table<String>,
    had_error: bool,
    had_unsupported: bool,
    started_count: usize,
}

impl PlaybackTracker {
    /// The pipelines still playing.
    pub closed spec fn pending(&self) -> Set<Seq<char>> {
        self.pending@.dom()
    }

    pub closed spec fn had_error(&self) -> bool {
        self.had_error
    }

    pub closed spec fn had_unsupported(&self) -> bool {
        self.had_unsupported
    }

    /// How many pipelines the run started with.
    pub closed spec fn started_count(&self) -> nat {
        self.started_count as nat
    }

    pub closed spec fn wf(&self) -> bool {
        self.pending.wf()
    }

    /// The tracked state.
    pub open spec fn state(&self) -> TrackerView {
        TrackerView { pending: self.pending(), had_error: self.had_error(), had_unsupported: self.had_unsupported() }
    }

    /// Create a new tracker for the given pipeline IDs. `failed_ids` are pipelines that
    /// already failed to start; they are not tracked, and make the run an error.
    pub fn new(ids: &Vec<String>, failed_ids: &Vec<String>) -> (r: Self)
        ensures
            r.wf(),
            forall|k: Seq<char>| #[trigger] r.pending().contains(k) <==> strings_view(ids@).contains(k)
                && !strings_view(failed_ids@).contains(k),
            r.had_error() == (failed_ids@.len() > 0),
            !r.had_unsupported(),
            r.pending().finite(),
            r.started_count() == r.pending().len(),
    {
        let mut pending: Table<String> = Table::new();
        let mut count: usize = 0;
        let mut i: usize = 0;
        while i < ids.len()
            invariant
                pending.wf(),
                i <= ids@.len(),
                count <= i,
                pending@.dom().finite(),
                count == pending@.dom().len(),
                forall|k: Seq<char>| #[trigger] pending@.dom().contains(k) <==> strings_view(ids@).take(i as int).contains(k)
                    && !strings_view(failed_ids@).contains(k),
            decreases ids@.len() - i,
        {
            proof {
                assert(strings_view(ids@).take(i + 1) =~= strings_view(ids@).take(i as int).push(ids@[i as int]@));
            }
            if !crate::text::strings_contain(failed_ids, ids[i].as_str()) {
                let fresh = pending.get(ids[i].as_str()).is_none();
                if fresh {
                    count = count + 1;
                }
                let ghost before = pending@;
                pending.insert(ids[i].clone());
                proof {
                    assert(pending@.dom() =~= before.dom().insert(ids@[i as int]@));
                }
            }
            proof {
                crate::text::lemma_push_contains(strings_view(ids@).take(i as int), ids@[i as int]@);
            }
            i = i + 1;
        }
        proof {
            assert(strings_view(ids@).take(ids@.len() as int) =~= strings_view(ids@));
        }
        PlaybackTracker { pending, had_error: failed_ids.len() > 0, had_unsupported: false, started_count: count }
    }

    /// Whether every tracked pipeline has finished.
    pub fn is_done(&self) -> (r: bool)
        requires
            self.wf(),
        ensures
            r == (self.pending() =~= Set::<Seq<char>>::empty()),
    {
        let r = self.pending.entries().len() == 0;
        proof {
            if r {
                assert(self.pending@ =~= Map::<Seq<char>, Seq<char>>::empty());
            } else {
                crate::table::lemma_map_of_index(self.pending.items(), 0);
            }
        }
        r
    }

    /// The exit code of the run.
    pub fn exit_code(&self) -> (r: i32)
        ensures
            r == exit_code_for(self.had_error(), self.had_unsupported()),
    {
        if self.had_error {
            EXIT_CODE_ERROR
        } else if self.had_unsupported {
            EXIT_CODE_UNSUPPORTED
        } else {
            0
        }
    }

    /// The exit code when the run finishes before any event: a run whose pipelines all failed
    /// to start is an error.
    pub fn initial_exit(&self) -> (r: Option<i32>)
        requires
            self.wf(),
        ensures
            self.pending() =~= Set::<Seq<char>>::empty() ==> r == Some(EXIT_CODE_ERROR),
            !(self.pending() =~= Set::<Seq<char>>::empty()) ==> r is None,
    {
        if self.is_done() { Some(EXIT_CODE_ERROR) } else { None }
    }

    fn finish(&mut self) -> (r: Option<i32>)
        requires
            old(self).wf(),
        ensures
            *final(self) == *old(self),
            (final(self).pending() =~= Set::<Seq<char>>::empty()) ==> r == Some(exit_code_for(final(self).had_error(), final(self).had_unsupported())),
            !(final(self).pending() =~= Set::<Seq<char>>::empty()) ==> r is None,
    {
        if self.is_done() { Some(self.exit_code()) } else { None }
    }

    /// An event of the run: end of stream, an error, unsupported media or the removal of a
    /// tracked pipeline finishes it, and the failures are remembered. Events of untracked
    /// pipelines change nothing. Returns the exit code once every pipeline has finished.
    pub fn on_event(&mut self, event: &PipelineEvent) -> (r: Option<i32>)
        requires
            old(self).wf(),
        ensures
            final(self).wf(),
            match finishing(event@) {
                Some((id, err, unsup)) => if old(self).pending().contains(id) {
                    &&& final(self).pending() == old(self).pending().remove(id)
                    &&& final(self).had_error() == (old(self).had_error() || err)
                    &&& final(self).had_unsupported() == (old(self).had_unsupported() || unsup)
                } else {
                    &&& final(self).pending() == old(self).pending()
                    &&& final(self).had_error() == old(self).had_error()
                    &&& final(self).had_unsupported() == old(self).had_unsupported()
                },
                None => {
                    &&& final(self).pending() == old(self).pending()
                    &&& final(self).had_error() == old(self).had_error()
                    &&& final(self).had_unsupported() == old(self).had_unsupported()
                },
            },
            final(self).started_count() == old(self).started_count(),
            (final(self).pending() =~= Set::<Seq<char>>::empty()) ==> r == Some(exit_code_for(final(self).had_error(), final(self).had_unsupported())),
            !(final(self).pending() =~= Set::<Seq<char>>::empty()) ==> r is None,
            final(self).state() == after_event(old(self).state(), event@),
    {
        match event {
            PipelineEvent::Eos { pipeline_id } => {
                let _ = self.pending.remove(pipeline_id.as_str());
            },
            PipelineEvent::Error { pipeline_id, .. } => {
                if self.pending.remove(pipeline_id.as_str()).is_some() {
                    self.had_error = true;
                }
            },
            PipelineEvent::Unsupported { pipeline_id, .. } => {
                if self.pending.remove(pipeline_id.as_str()).is_some() {
                    self.had_unsupported = true;
                }
            },
            PipelineEvent::PipelineRemoved { pipeline_id } => {
                if self.pending.remove(pipeline_id.as_str()).is_some() {
                    self.had_error = true;
                }
            },
            _ => {},
        }
        proof {
            assert(self.pending@.dom() =~= old(self).pending@.dom().remove(match finishing(event@) { Some(f) => f.0, None => Seq::empty() })
                || self.pending@.dom() =~= old(self).pending@.dom());
        }
        let r = self.finish();
        proof {
            let a = after_event(old(self).state(), event@);
            assert(self.pending() =~= a.pending);
            assert(self.state() == a);
        }
        r
    }

    /// The pipelines still being tracked, for reconciliation after missed events.
    pub fn pending_ids(&self) -> (r: Vec<String>)
        requires
            self.wf(),
        ensures
            forall|k: Seq<char>| #[trigger] strings_view(r@).contains(k) <==> self.pending().contains(k),
    {
        let entries = self.pending.entries();
        let mut r: Vec<String> = Vec::new();
        let mut i: usize = 0;
        while i < entries.len()
            invariant
                entries@ == self.pending.items(),
                self.pending.wf(),
                i <= entries@.len(),
                strings_view(r@) == strings_view(entries@).take(i as int),
            decreases entries@.len() - i,
        {
            let ghost before = r@;
            r.push(entries[i].clone());
            proof {
                assert(strings_view(r@) =~= strings_view(before).push(entries@[i as int]@));
                assert(strings_view(entries@).take(i + 1) =~= strings_view(entries@).take(i as int).push(entries@[i as int]@));
            }
            i = i + 1;
        }
        proof {
            assert(strings_view(entries@).take(entries@.len() as int) =~= strings_view(entries@));
            assert forall|k: Seq<char>| #[trigger] strings_view(r@).contains(k) <==> self.pending().contains(k) by {
                if strings_view(r@).contains(k) {
                    let j = choose|j: int| 0 <= j < strings_view(r@).len() && strings_view(r@)[j] == k;
                    assert(entries@[j].key() == k);
                    crate::table::lemma_map_of_index(entries@, j);
                }
                if self.pending().contains(k) {
                    let j = choose|j: int| 0 <= j < entries@.len() && #[trigger] entries@[j].key() == k;
                    assert(strings_view(r@)[j] == k);
                }
            }
        }
        r
    }

    /// After missed events: the given pipelines no longer exist, so they finished in error.
    pub fn on_lagged(&mut self, gone: &Vec<String>) -> (r: Option<i32>)
        requires
            old(self).wf(),
        ensures
            final(self).wf(),
            forall|k: Seq<char>| #[trigger] final(self).pending().contains(k) <==> old(self).pending().contains(k)
                && !strings_view(gone@).contains(k),
            final(self).had_error() == (old(self).had_error() || gone@.len() > 0),
            final(self).had_unsupported() == old(self).had_unsupported(),
            final(self).started_count() == old(self).started_count(),
            (final(self).pending() =~= Set::<Seq<char>>::empty()) ==> r == Some(exit_code_for(final(self).had_error(), final(self).had_unsupported())),
            !(final(self).pending() =~= Set::<Seq<char>>::empty()) ==> r is None,
    {
        let mut i: usize = 0;
        while i < gone.len()
            invariant
                self.wf(),
                i <= gone@.len(),
                forall|k: Seq<char>| #[trigger] self.pending().contains(k) <==> old(self).pending().contains(k)
                    && !strings_view(gone@).take(i as int).contains(k),
                self.had_error == (old(self).had_error() || i > 0),
                self.had_unsupported == old(self).had_unsupported(),
                self.started_count == old(self).started_count,
            decreases gone@.len() - i,
        {
            let ghost before = self.pending();
            let _ = self.pending.remove(gone[i].as_str());
            self.had_error = true;
            proof {
                let x = gone@[i as int]@;
                assert(self.pending@.dom() =~= before.remove(x));
                assert(strings_view(gone@).take(i + 1) =~= strings_view(gone@).take(i as int).push(x));
                crate::text::lemma_push_contains(strings_view(gone@).take(i as int), x);
                assert forall|k: Seq<char>| #[trigger] self.pending@.dom().contains(k) <==> old(self).pending().contains(k)
                    && !strings_view(gone@).take(i + 1).contains(k) by {
                    assert(before.contains(k) <==> old(self).pending().contains(k) && !strings_view(gone@).take(i as int).contains(k));
                }
            }
            i = i + 1;
        }
        proof {
            assert(strings_view(gone@).take(gone@.len() as int) =~= strings_view(gone@));
        }
        self.finish()
    }

    /// The event channel closed before every pipeline finished: the run ends in error.
    pub fn on_closed(&mut self) -> (r: i32)
        requires
            old(self).wf(),
        ensures
            final(self).wf(),
            final(self).pending() =~= Set::<Seq<char>>::empty(),
            final(self).had_error(),
            final(self).had_unsupported() == old(self).had_unsupported(),
            r == EXIT_CODE_ERROR,
    {
        self.had_error = true;
        self.pending = Table::new();
        self.exit_code()
    }
}

/// An error never yields success, and takes priority over unsupported media.
pub proof fn lemma_exit_code_priority(had_error: bool, had_unsupported: bool)
    ensures
        exit_code_for(had_error, had_unsupported) == 0 <==> !had_error && !had_unsupported,
        had_error ==> exit_code_for(had_error, had_unsupported) == EXIT_CODE_ERROR,
        !had_error && had_unsupported ==> exit_code_for(had_error, had_unsupported) == EXIT_CODE_UNSUPPORTED,
{
}

} // verus!
