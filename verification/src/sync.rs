//! Incremental synchronization of JSONL sources: where to resume a file,
//! parsing a chunk of lines, and the report of a run.

use vstd::prelude::*;

use crate::parser::{empty_context, parse_line, parse_line_spec, parse_lines_spec, ContextView, LineOutcome, SessionContext, UsageEvent};

verus! {

/// Where reading a source resumes, given its saved checkpoint and its size
/// now: at the checkpoint with the saved context; from the start with a
/// fresh context when the file shrank below the checkpoint (it was
/// truncated or replaced); not at all when nothing was appended.
pub open spec fn resume_spec(saved_offset: u64, saved: ContextView, file_size: u64) -> Option<(u64, ContextView)> {
    let (offset, ctx) = if saved_offset > file_size {
        (0u64, empty_context())
    } else {
        (saved_offset, saved)
    };
    if offset == file_size {
        None
    } else {
        Some((offset, ctx))
    }
}

/// Decides where to resume a source.
pub fn resume_point(saved_offset: u64, saved_context: SessionContext, file_size: u64) -> (r: Option<(u64, SessionContext)>)
    ensures
        match (r, resume_spec(saved_offset, saved_context@, file_size)) {
            (Some((offset, ctx)), Some((o, c))) => offset == o && ctx@ == c,
            (None, None) => true,
            _ => false,
        },
{
    let (offset, context) = if saved_offset > file_size {
        (0u64, SessionContext::default())
    } else {
        (saved_offset, saved_context)
    };
    if offset == file_size {
        None
    } else {
        Some((offset, context))
    }
}

/// A replaced or truncated source is read again from its first byte with a
/// fresh context, and a source that did not grow is not read.
pub proof fn lemma_truncated_source_is_replayed(saved_offset: u64, saved: ContextView, file_size: u64)
    ensures
        saved_offset > file_size && file_size > 0 ==> resume_spec(saved_offset, saved, file_size) == Some(
            (0u64, empty_context()),
        ),
        saved_offset == file_size ==> resume_spec(saved_offset, saved, file_size).is_none(),
        saved_offset < file_size ==> resume_spec(saved_offset, saved, file_size) == Some(
            (saved_offset, saved),
        ),
{
}

/// The number of lines among `lines`, read from `ctx`, that are not JSON,
/// and the number that yield no event.
pub open spec fn line_counts_spec(lines: Seq<Seq<char>>, ctx: ContextView, salt: Seq<char>) -> (nat, nat)
    decreases lines.len(),
{
    if lines.len() == 0 {
        (0, 0)
    } else {
        let (outcome, next) = parse_line_spec(lines[0], ctx, salt);
        let (malformed, no_event) = line_counts_spec(lines.drop_first(), next, salt);
        match outcome {
            LineOutcome::Malformed => (malformed + 1, no_event),
            LineOutcome::NoEvent => (malformed, no_event + 1),
            LineOutcome::Event(_) => (malformed, no_event),
        }
    }
}

/// What a chunk of lines gave.
pub struct ChunkResult {
    pub events: Vec<UsageEvent>,
    pub malformed_lines: usize,
    pub lines_without_event: usize,
}

/// The character sequences of some strings.
pub open spec fn lines_view(lines: Seq<String>) -> Seq<Seq<char>> {
    lines.map_values(|l: String| l@)
}

/// The views of some events.
pub open spec fn events_view(events: Seq<UsageEvent>) -> Seq<crate::parser::EventView> {
    events.map_values(|e: UsageEvent| e@)
}

proof fn lemma_fold_step(lines: Seq<Seq<char>>, i: int, ctx: ContextView, salt: Seq<char>)
    requires
        0 <= i < lines.len(),
    ensures
        ({
            let (outcome, next) = parse_line_spec(lines[i], ctx, salt);
            let (rest, last) = parse_lines_spec(lines.skip(i + 1), next, salt);
            let (m, n) = line_counts_spec(lines.skip(i + 1), next, salt);
            &&& parse_lines_spec(lines.skip(i), ctx, salt) == (match outcome {
                LineOutcome::Event(e) => seq![e] + rest,
                _ => rest,
            }, last)
            &&& line_counts_spec(lines.skip(i), ctx, salt) == match outcome {
                LineOutcome::Malformed => (m + 1, n),
                LineOutcome::NoEvent => (m, n + 1),
                LineOutcome::Event(_) => (m, n),
            }
        }),
{
    assert(lines.skip(i).drop_first() =~= lines.skip(i + 1));
    assert(lines.skip(i)[0] == lines[i]);
}

/// Parses lines read from a source in order, from `context`, and returns the
/// usage events they yield with the counts of malformed lines and of lines
/// without an event; `context` ends as the checkpoint to save.
pub fn parse_chunk(lines: &Vec<String>, context: &mut SessionContext, salt: &str) -> (r: ChunkResult)
    requires
        lines@.len() < usize::MAX,
    ensures
        ({
            let (events, last) = parse_lines_spec(lines_view(lines@), old(context)@, salt@);
            let (malformed, no_event) = line_counts_spec(lines_view(lines@), old(context)@, salt@);
            &&& events_view(r.events@) == events
            &&& final(context)@ == last
            &&& r.malformed_lines == malformed
            &&& r.lines_without_event == no_event
        }),
{
    let ghost all = lines_view(lines@);
    let ghost start = old(context)@;
    let mut events: Vec<UsageEvent> = Vec::new();
    let mut malformed: usize = 0;
    let mut without: usize = 0;
    assert(all.skip(0) =~= all);
    for i in 0..lines.len()
        invariant
            all == lines_view(lines@),
            lines@.len() < usize::MAX,
            malformed + without <= i,
            ({
                let (rest, last) = parse_lines_spec(all.skip(i as int), context@, salt@);
                let (m, n) = line_counts_spec(all.skip(i as int), context@, salt@);
                &&& parse_lines_spec(all, start, salt@) == (events_view(events@) + rest, last)
                &&& line_counts_spec(all, start, salt@).0 == malformed + m
                &&& line_counts_spec(all, start, salt@).1 == without + n
            }),
    {
        let ghost before = context@;
        let ghost before_events = events@;
        proof {
            lemma_fold_step(all, i as int, before, salt@);
        }
        let outcome = parse_line(lines[i].as_str(), "", 0, context, salt);
        match outcome {
            Ok(Some(event)) => {
                events.push(event);
                proof {
                    let (o, next) = parse_line_spec(all[i as int], before, salt@);
                    if let LineOutcome::Event(e) = o {
                        let (rest, last) = parse_lines_spec(all.skip(i + 1), next, salt@);
                        assert(events_view(events@) =~= events_view(before_events).push(e));
                        assert(events_view(before_events) + (seq![e] + rest) =~= events_view(events@)
                            + rest);
                    }
                }
            },
            Ok(None) => {
                without += 1;
            },
            Err(_) => {
                malformed += 1;
            },
        }
    }
    proof {
        assert(all.skip(lines@.len() as int) =~= Seq::<Seq<char>>::empty());
        assert(events_view(events@) + Seq::<crate::parser::EventView>::empty() =~= events_view(events@));
    }
    ChunkResult { events, malformed_lines: malformed, lines_without_event: without }
}

/// The counts of one synchronization run.
#[derive(Debug)]
pub struct SyncReport {
    pub files_scanned: usize,
    pub events_inserted: usize,
    pub events_skipped: usize,
    pub parse_errors: usize,
    pub synced_at: String,
}

impl SyncReport {
    /// An empty report stamped with the time of the run.
    pub fn started_at(synced_at: String) -> (r: Self)
        ensures
            r.files_scanned == 0,
            r.events_inserted == 0,
            r.events_skipped == 0,
            r.parse_errors == 0,
            r.synced_at@ == synced_at@,
    {
        SyncReport { files_scanned: 0, events_inserted: 0, events_skipped: 0, parse_errors: 0, synced_at }
    }

    /// Counts a scanned source.
    pub fn count_file(&mut self)
        requires
            old(self).files_scanned < usize::MAX,
        ensures
            final(self).files_scanned == old(self).files_scanned + 1,
            final(self).events_inserted == old(self).events_inserted,
            final(self).events_skipped == old(self).events_skipped,
            final(self).parse_errors == old(self).parse_errors,
            final(self).synced_at == old(self).synced_at,
    {
        self.files_scanned = self.files_scanned + 1;
    }

    /// Counts a parsed chunk: malformed lines are parse errors, lines without
    /// an event are skipped.
    pub fn count_chunk(&mut self, malformed_lines: usize, lines_without_event: usize)
        requires
            old(self).parse_errors + malformed_lines <= usize::MAX,
            old(self).events_skipped + lines_without_event <= usize::MAX,
        ensures
            final(self).parse_errors == old(self).parse_errors + malformed_lines,
            final(self).events_skipped == old(self).events_skipped + lines_without_event,
            final(self).files_scanned == old(self).files_scanned,
            final(self).events_inserted == old(self).events_inserted,
            final(self).synced_at == old(self).synced_at,
    {
        self.parse_errors = self.parse_errors + malformed_lines;
        self.events_skipped = self.events_skipped + lines_without_event;
    }

    /// Counts an event handed to storage: a new one is inserted, one already
    /// stored is skipped.
    pub fn count_event(&mut self, inserted: bool)
        requires
            old(self).events_inserted < usize::MAX,
            old(self).events_skipped < usize::MAX,
        ensures
            final(self).events_inserted == old(self).events_inserted + if inserted { 1int } else { 0 },
            final(self).events_skipped == old(self).events_skipped + if inserted { 0int } else { 1 },
            final(self).files_scanned == old(self).files_scanned,
            final(self).parse_errors == old(self).parse_errors,
            final(self).synced_at == old(self).synced_at,
    {
        if inserted {
            self.events_inserted = self.events_inserted + 1;
        } else {
            self.events_skipped = self.events_skipped + 1;
        }
    }
}

} // verus!
