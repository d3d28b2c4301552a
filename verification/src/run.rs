use vstd::prelude::*;

use crate::stamp::AtomicDateTime;
use crate::timespan::{sat64, span_opt, Time, TimeSpan, TimeVal};

verus! {

/// The name of the comparison against the personal best run. Every run
/// carries this comparison.
pub open spec fn personal_best_name() -> Seq<char> {
    "Personal Best"@
}

/// The name of the comparison against the personal best run.
pub fn personal_best_name_str() -> (r: &'static str)
    ensures
        r@ == personal_best_name(),
{
    "Personal Best"
}

/// The mathematical value of a `Segment`.
pub ghost struct SegmentVal {
    pub name: Seq<char>,
    pub split_time: TimeVal,
    pub personal_best_split_time: TimeVal,
    pub best_segment_time: TimeVal,
    pub history: Seq<(int, TimeVal)>,
    pub variables: Seq<(Seq<char>, Seq<char>)>,
}

/// One ordered unit of a run: it carries the split time of the current
/// attempt, the personal-best split time, the best segment time ever
/// achieved, and a history of segment times keyed by attempt index.
#[derive(Clone, Debug)]
pub struct Segment {
    name: String,
    split_time: Time,
    personal_best_split_time: Time,
    best_segment_time: Time,
    history: Vec<(i32, Time)>,
    variables: Vec<(String, String)>,
}

impl View for Segment {
    type V = SegmentVal;

    closed spec fn view(&self) -> SegmentVal {
        SegmentVal {
            name: self.name@,
            split_time: self.split_time@,
            personal_best_split_time: self.personal_best_split_time@,
            best_segment_time: self.best_segment_time@,
            history: self.history@.map_values(|p: (i32, Time)| (p.0 as int, p.1@)),
            variables: self.variables@.map_values(|p: (String, String)| (p.0@, p.1@)),
        }
    }
}

impl SegmentVal {
    /// A segment as it stands at the start of an attempt: no split time
    /// and no attempt variables.
    pub open spec fn cleared(self) -> SegmentVal {
        SegmentVal { split_time: TimeVal::empty(), variables: Seq::empty(), ..self }
    }
}

impl Segment {
    /// Builds a fresh segment with the given name and no times.
    pub fn new(name: String) -> (r: Segment)
        ensures
            r@ == (SegmentVal {
                name: name@,
                split_time: TimeVal::empty(),
                personal_best_split_time: TimeVal::empty(),
                best_segment_time: TimeVal::empty(),
                history: Seq::empty(),
                variables: Seq::empty(),
            }),
    {
        proof {
            assert(Seq::<(i32, Time)>::empty().map_values(|p: (i32, Time)| (p.0 as int, p.1@))
                =~= Seq::<(int, TimeVal)>::empty());
            assert(Seq::<(String, String)>::empty().map_values(|p: (String, String)| (p.0@, p.1@))
                =~= Seq::<(Seq<char>, Seq<char>)>::empty());
        }
        Segment {
            name,
            split_time: Time::new(),
            personal_best_split_time: Time::new(),
            best_segment_time: Time::new(),
            history: Vec::new(),
            variables: Vec::new(),
        }
    }

    /// The segment's name.
    pub fn name(&self) -> (r: &str)
        ensures
            r@ == self@.name,
    {
        self.name.as_str()
    }

    /// The split time of the current attempt.
    pub fn split_time(&self) -> (r: Time)
        ensures
            r@ == self@.split_time,
    {
        self.split_time
    }

    /// The personal-best split time.
    pub fn personal_best_split_time(&self) -> (r: Time)
        ensures
            r@ == self@.personal_best_split_time,
    {
        self.personal_best_split_time
    }

    /// The best segment time ever achieved on this segment.
    pub fn best_segment_time(&self) -> (r: Time)
        ensures
            r@ == self@.best_segment_time,
    {
        self.best_segment_time
    }

    /// The history of segment times, keyed by attempt index.
    pub fn history(&self) -> (r: &Vec<(i32, Time)>)
        ensures
            r@.map_values(|p: (i32, Time)| (p.0 as int, p.1@)) == self@.history,
    {
        &self.history
    }

    /// The custom variables recorded when this segment was split.
    pub fn variables(&self) -> (r: &Vec<(String, String)>)
        ensures
            r@.map_values(|p: (String, String)| (p.0@, p.1@)) == self@.variables,
    {
        &self.variables
    }

    /// Overwrites the split time of the current attempt.
    pub fn set_split_time(&mut self, time: Time)
        ensures
            final(self)@ == (SegmentVal { split_time: time@, ..old(self)@ }),
    {
        self.split_time = time;
    }

    /// Clears the information the current attempt wrote onto this
    /// segment: its split time and its variable snapshot.
    pub fn clear_split_info(&mut self)
        ensures
            final(self)@ == old(self)@.cleared(),
    {
        self.split_time = Time::new();
        self.variables = Vec::new();
        proof {
            assert(Seq::<(String, String)>::empty().map_values(|p: (String, String)| (p.0@, p.1@))
                =~= Seq::<(Seq<char>, Seq<char>)>::empty());
        }
    }
}

/// The mathematical value of an `Attempt`.
pub ghost struct AttemptVal {
    pub index: int,
    pub time: TimeVal,
    pub started: Option<crate::stamp::DateVal>,
    pub ended: Option<crate::stamp::DateVal>,
    pub pause_time: Option<int>,
}

/// One finished (or abandoned) attempt, as stored in the run's history.
#[derive(Clone, Copy, Debug)]
pub struct Attempt {
    index: i32,
    time: Time,
    started: Option<AtomicDateTime>,
    ended: Option<AtomicDateTime>,
    pause_time: Option<TimeSpan>,
}

/// The view of an optional wall-clock instant.
pub open spec fn date_opt(o: Option<AtomicDateTime>) -> Option<crate::stamp::DateVal> {
    match o {
        Some(d) => Some(d@),
        None => None,
    }
}

impl View for Attempt {
    type V = AttemptVal;

    closed spec fn view(&self) -> AttemptVal {
        AttemptVal {
            index: self.index as int,
            time: self.time@,
            started: date_opt(self.started),
            ended: date_opt(self.ended),
            pause_time: span_opt(self.pause_time),
        }
    }
}

impl Attempt {
    /// The attempt's index within the run's history.
    pub fn index(&self) -> (r: i32)
        ensures
            r as int == self@.index,
    {
        self.index
    }

    /// The attempt's final time.
    pub fn time(&self) -> (r: Time)
        ensures
            r@ == self@.time,
    {
        self.time
    }

    /// The total time the attempt was paused for, if it was ever paused.
    pub fn pause_time(&self) -> (r: Option<TimeSpan>)
        ensures
            span_opt(r) == self@.pause_time,
    {
        self.pause_time
    }
}

/// The mathematical value of a custom variable.
pub ghost struct VariableVal {
    pub name: Seq<char>,
    pub value: Seq<char>,
    pub is_permanent: bool,
}

/// A named custom variable of the run's metadata. Permanent variables are
/// stored in the splits file; temporary ones live only for the session.
#[derive(Clone, Debug)]
pub struct CustomVariable {
    name: String,
    value: String,
    is_permanent: bool,
}

impl View for CustomVariable {
    type V = VariableVal;

    closed spec fn view(&self) -> VariableVal {
        VariableVal { name: self.name@, value: self.value@, is_permanent: self.is_permanent }
    }
}

impl CustomVariable {
    /// The variable's name.
    pub fn name(&self) -> (r: &str)
        ensures
            r@ == self@.name,
    {
        self.name.as_str()
    }

    /// The variable's current value.
    pub fn value(&self) -> (r: &str)
        ensures
            r@ == self@.value,
    {
        self.value.as_str()
    }

    /// Whether the variable is stored in the splits file.
    pub fn is_permanent(&self) -> (r: bool)
        ensures
            r == self@.is_permanent,
    {
        self.is_permanent
    }
}

/// Compares two string slices by their characters.
pub(crate) fn str_eq(a: &str, b: &str) -> (r: bool)
    ensures
        r == (a@ == b@),
{
    let sa: String = a.to_owned();
    let sb: String = b.to_owned();
    sa == sb
}

/// One axis of the best-segment update: from the segment's split time on
/// that axis, the previous cumulative split time, and the old best, it
/// yields the new best and the new previous cumulative split time. A
/// missing split time leaves both untouched; an absent old best is always
/// beaten.
pub open spec fn best_axis_step(split: Option<int>, prev: int, best: Option<int>) -> (Option<
    int,
>, int) {
    match split {
        Some(st) => {
            let cur = sat64(st - prev);
            let nb = match best {
                None => Some(cur),
                Some(b) => if cur < b {
                    Some(cur)
                } else {
                    Some(b)
                },
            };
            (nb, st)
        },
        None => (best, prev),
    }
}

/// The segments from position `i` on, with their best segment times
/// updated against the current attempt's split times. `prev_rt` and
/// `prev_gt` carry the previous cumulative split time of each axis.
pub open spec fn spec_best_segments_from(
    segs: Seq<SegmentVal>,
    i: int,
    prev_rt: int,
    prev_gt: int,
) -> Seq<SegmentVal>
    decreases segs.len() - i,
{
    if i < 0 || i >= segs.len() {
        segs
    } else {
        let s = segs[i];
        let (nbr, npr) = best_axis_step(s.split_time.real, prev_rt, s.best_segment_time.real);
        let (nbg, npg) = best_axis_step(s.split_time.game, prev_gt, s.best_segment_time.game);
        let s2 = SegmentVal { best_segment_time: TimeVal { real: nbr, game: nbg }, ..s };
        spec_best_segments_from(segs.update(i, s2), i + 1, npr, npg)
    }
}

/// One axis of a history entry: the delta from the previous cumulative
/// split time, absent when the segment was skipped.
pub open spec fn history_axis_step(split: Option<int>, prev: int) -> (Option<int>, int) {
    match split {
        Some(st) => (Some(sat64(st - prev)), st),
        None => (None, prev),
    }
}

/// The segments from position `i` on (stopping at `up_to`), each with the
/// current attempt's segment delta appended to its history under the
/// attempt index `id`.
pub open spec fn spec_segment_history_from(
    segs: Seq<SegmentVal>,
    i: int,
    up_to: int,
    id: int,
    prev_rt: int,
    prev_gt: int,
) -> Seq<SegmentVal>
    decreases up_to - i,
{
    if i < 0 || i >= up_to || i >= segs.len() {
        segs
    } else {
        let s = segs[i];
        let (dr, npr) = history_axis_step(s.split_time.real, prev_rt);
        let (dg, npg) = history_axis_step(s.split_time.game, prev_gt);
        let s2 = SegmentVal { history: s.history.push((id, TimeVal { real: dr, game: dg })), ..s };
        spec_segment_history_from(segs.update(i, s2), i + 1, up_to, id, npr, npg)
    }
}

/// The index the current attempt's history entries are stored under: the
/// index of the youngest attempt in the history, or zero when there is
/// none.
pub open spec fn spec_latest_attempt_index(history: Seq<AttemptVal>) -> int {
    if history.len() == 0 {
        0
    } else {
        history.last().index
    }
}

/// The minimum over an entry range of a segment history's attempt
/// indices, folded into `acc`.
pub open spec fn spec_min_id_from(h: Seq<(int, TimeVal)>, k: int, acc: int) -> int
    decreases h.len() - k,
{
    if k < 0 || k >= h.len() {
        acc
    } else {
        spec_min_id_from(
            h,
            k + 1,
            if h[k].0 < acc {
                h[k].0
            } else {
                acc
            },
        )
    }
}

/// The minimum attempt index found in any segment history, folded into
/// `acc`.
pub open spec fn spec_min_history_id_from(segs: Seq<SegmentVal>, i: int, acc: int) -> int
    decreases segs.len() - i,
{
    if i < 0 || i >= segs.len() {
        acc
    } else {
        spec_min_history_id_from(segs, i + 1, spec_min_id_from(segs[i].history, 0, acc))
    }
}

/// The attempt index used for history entries imported from the personal
/// best: one below the smallest index already present (and below zero),
/// saturating at the smallest representable index.
pub open spec fn spec_import_id(segs: Seq<SegmentVal>) -> int {
    let m = spec_min_history_id_from(segs, 0, 0);
    if m == i32::MIN as int {
        m
    } else {
        m - 1
    }
}

/// The segments from position `i` on, each with the personal best's
/// segment delta appended to its history under the attempt index `id`.
pub open spec fn spec_import_pb_from(
    segs: Seq<SegmentVal>,
    i: int,
    id: int,
    prev_rt: int,
    prev_gt: int,
) -> Seq<SegmentVal>
    decreases segs.len() - i,
{
    if i < 0 || i >= segs.len() {
        segs
    } else {
        let s = segs[i];
        let (dr, npr) = history_axis_step(s.personal_best_split_time.real, prev_rt);
        let (dg, npg) = history_axis_step(s.personal_best_split_time.game, prev_gt);
        let s2 = SegmentVal { history: s.history.push((id, TimeVal { real: dr, game: dg })), ..s };
        spec_import_pb_from(segs.update(i, s2), i + 1, id, npr, npg)
    }
}

/// The best-segment update keeps the segment count and touches nothing
/// but the best segment times.
pub proof fn lemma_best_segments_from_shape(segs: Seq<SegmentVal>, i: int, prev_rt: int, prev_gt: int)
    ensures
        spec_best_segments_from(segs, i, prev_rt, prev_gt).len() == segs.len(),
        forall|j: int|
            0 <= j < segs.len() ==> {
                let r = #[trigger] spec_best_segments_from(segs, i, prev_rt, prev_gt)[j];
                r.split_time == segs[j].split_time && r.name == segs[j].name
                    && r.personal_best_split_time == segs[j].personal_best_split_time && r.history
                    == segs[j].history && r.variables == segs[j].variables
            },
    decreases segs.len() - i,
{
    if i < 0 || i >= segs.len() {
    } else {
        let s = segs[i];
        let (nbr, npr) = best_axis_step(s.split_time.real, prev_rt, s.best_segment_time.real);
        let (nbg, npg) = best_axis_step(s.split_time.game, prev_gt, s.best_segment_time.game);
        let s2 = SegmentVal { best_segment_time: TimeVal { real: nbr, game: nbg }, ..s };
        lemma_best_segments_from_shape(segs.update(i, s2), i + 1, npr, npg);
    }
}

/// The segment-history update keeps the segment count and touches
/// nothing but the histories.
pub proof fn lemma_segment_history_from_shape(
    segs: Seq<SegmentVal>,
    i: int,
    up_to: int,
    id: int,
    prev_rt: int,
    prev_gt: int,
)
    ensures
        spec_segment_history_from(segs, i, up_to, id, prev_rt, prev_gt).len() == segs.len(),
        forall|j: int|
            0 <= j < segs.len() ==> {
                let r = #[trigger] spec_segment_history_from(segs, i, up_to, id, prev_rt, prev_gt)[j];
                r.split_time == segs[j].split_time && r.name == segs[j].name
                    && r.personal_best_split_time == segs[j].personal_best_split_time
                    && r.best_segment_time == segs[j].best_segment_time && r.variables
                    == segs[j].variables
            },
    decreases up_to - i,
{
    if i < 0 || i >= up_to || i >= segs.len() {
    } else {
        let s = segs[i];
        let (dr, npr) = history_axis_step(s.split_time.real, prev_rt);
        let (dg, npg) = history_axis_step(s.split_time.game, prev_gt);
        let s2 = SegmentVal { history: s.history.push((id, TimeVal { real: dr, game: dg })), ..s };
        lemma_segment_history_from_shape(segs.update(i, s2), i + 1, up_to, id, npr, npg);
    }
}

/// The personal-best import keeps the segment count and touches nothing
/// but the histories.
pub proof fn lemma_import_pb_from_shape(
    segs: Seq<SegmentVal>,
    i: int,
    id: int,
    prev_rt: int,
    prev_gt: int,
)
    ensures
        spec_import_pb_from(segs, i, id, prev_rt, prev_gt).len() == segs.len(),
        forall|j: int|
            0 <= j < segs.len() ==> {
                let r = #[trigger] spec_import_pb_from(segs, i, id, prev_rt, prev_gt)[j];
                r.split_time == segs[j].split_time && r.name == segs[j].name
                    && r.personal_best_split_time == segs[j].personal_best_split_time
                    && r.best_segment_time == segs[j].best_segment_time && r.variables
                    == segs[j].variables
            },
    decreases segs.len() - i,
{
    if i < 0 || i >= segs.len() {
    } else {
        let s = segs[i];
        let (dr, npr) = history_axis_step(s.personal_best_split_time.real, prev_rt);
        let (dg, npg) = history_axis_step(s.personal_best_split_time.game, prev_gt);
        let s2 = SegmentVal { history: s.history.push((id, TimeVal { real: dr, game: dg })), ..s };
        lemma_import_pb_from_shape(segs.update(i, s2), i + 1, id, npr, npg);
    }
}

/// The mathematical value of a `Run`.
pub ghost struct RunVal {
    pub segments: Seq<SegmentVal>,
    pub offset: int,
    pub attempt_count: int,
    pub attempt_history: Seq<AttemptVal>,
    pub comparisons: Seq<Seq<char>>,
    pub variables: Seq<VariableVal>,
    pub run_id: Seq<char>,
    pub modified: bool,
}

impl RunVal {
    /// Well-formedness of a run: the comparison list carries the
    /// personal-best comparison, holds no name twice, and the custom
    /// variables hold no name twice.
    pub open spec fn wf(self) -> bool {
        &&& self.comparisons.contains(personal_best_name())
        &&& forall|i: int, j: int|
            0 <= i < j < self.comparisons.len() ==> self.comparisons[i] != self.comparisons[j]
        &&& forall|i: int, j: int|
            0 <= i < j < self.variables.len() ==> self.variables[i].name != self.variables[j].name
    }
}

/// An ordered, possibly empty list of segments together with the
/// comparison list, the attempt history and the metadata the timer
/// touches. A run with no segments cannot be timed; `Timer::new` rejects
/// it.
#[derive(Clone, Debug)]
pub struct Run {
    segments: Vec<Segment>,
    offset: TimeSpan,
    attempt_count: i32,
    attempt_history: Vec<Attempt>,
    comparisons: Vec<String>,
    variables: Vec<CustomVariable>,
    run_id: String,
    modified: bool,
}

impl View for Run {
    type V = RunVal;

    closed spec fn view(&self) -> RunVal {
        RunVal {
            segments: self.segments@.map_values(|s: Segment| s@),
            offset: self.offset@,
            attempt_count: self.attempt_count as int,
            attempt_history: self.attempt_history@.map_values(|a: Attempt| a@),
            comparisons: self.comparisons@.map_values(|s: String| s@),
            variables: self.variables@.map_values(|v: CustomVariable| v@),
            run_id: self.run_id@,
            modified: self.modified,
        }
    }
}

impl Run {
    /// Builds an empty run: no segments, a zero offset, and only the
    /// personal-best comparison.
    pub fn new() -> (r: Run)
        ensures
            r@ == (RunVal {
                segments: Seq::empty(),
                offset: 0,
                attempt_count: 0,
                attempt_history: Seq::empty(),
                comparisons: seq![personal_best_name()],
                variables: Seq::empty(),
                run_id: Seq::<char>::empty(),
                modified: false,
            }),
            r@.wf(),
    {
        let mut comparisons: Vec<String> = Vec::new();
        comparisons.push(personal_best_name_str().to_owned());
        let r = Run {
            segments: Vec::new(),
            offset: TimeSpan::zero(),
            attempt_count: 0,
            attempt_history: Vec::new(),
            comparisons,
            variables: Vec::new(),
            run_id: String::new(),
            modified: false,
        };
        proof {
            assert(r@.segments =~= Seq::<SegmentVal>::empty());
            assert(r@.attempt_history =~= Seq::<AttemptVal>::empty());
            assert(r@.comparisons =~= seq![personal_best_name()]);
            assert(r@.variables =~= Seq::<VariableVal>::empty());
            assert(r@.comparisons[0] == personal_best_name());
            assert(r@.comparisons.contains(personal_best_name()));
        }
        r
    }

    /// Appends a segment at the end of the run.
    pub fn push_segment(&mut self, segment: Segment)
        ensures
            final(self)@ == (RunVal { segments: old(self)@.segments.push(segment@), ..old(self)@ }),
    {
        self.segments.push(segment);
        proof {
            assert(self@.segments =~= old(self)@.segments.push(segment@));
        }
    }

    /// The count of segments.
    pub fn len(&self) -> (r: usize)
        ensures
            r == self@.segments.len(),
    {
        self.segments.len()
    }

    /// Whether the run has no segments.
    pub fn is_empty(&self) -> (r: bool)
        ensures
            r == (self@.segments.len() == 0),
    {
        self.segments.len() == 0
    }

    /// The start offset: the (possibly negative) time the display starts
    /// from when an attempt begins.
    pub fn offset(&self) -> (r: TimeSpan)
        ensures
            r@ == self@.offset,
    {
        self.offset
    }

    /// Replaces the start offset.
    pub fn set_offset(&mut self, offset: TimeSpan)
        ensures
            final(self)@ == (RunVal { offset: offset@, ..old(self)@ }),
    {
        self.offset = offset;
    }

    /// The ordered segments.
    pub fn segments(&self) -> (r: &Vec<Segment>)
        ensures
            r@.map_values(|s: Segment| s@) == self@.segments,
    {
        &self.segments
    }

    /// One segment, by position.
    pub fn segment(&self, index: usize) -> (r: &Segment)
        requires
            index < self@.segments.len(),
        ensures
            r@ == self@.segments[index as int],
    {
        &self.segments[index]
    }

    /// The attempt history, oldest first.
    pub fn attempt_history(&self) -> (r: &Vec<Attempt>)
        ensures
            r@.map_values(|a: Attempt| a@) == self@.attempt_history,
    {
        &self.attempt_history
    }

    /// The count of attempts ever started on this run.
    pub fn attempt_count(&self) -> (r: i32)
        ensures
            r as int == self@.attempt_count,
    {
        self.attempt_count
    }

    /// The ordered comparison names.
    pub fn comparisons(&self) -> (r: &Vec<String>)
        ensures
            r@.map_values(|s: String| s@) == self@.comparisons,
    {
        &self.comparisons
    }

    /// The position of a comparison name in the comparison list, if it is
    /// there; the first position, if a name were ever held twice.
    pub fn find_comparison(&self, name: &str) -> (r: Option<usize>)
        ensures
            match r {
                Some(i) => i < self@.comparisons.len() && self@.comparisons[i as int] == name@
                    && self@.comparisons.contains(name@) && forall|j: int|
                    0 <= j < i ==> self@.comparisons[j] != name@,
                None => !self@.comparisons.contains(name@) && forall|j: int|
                    0 <= j < self@.comparisons.len() ==> self@.comparisons[j] != name@,
            },
    {
        let n = self.comparisons.len();
        let mut i: usize = 0;
        while i < n
            invariant
                n == self@.comparisons.len(),
                i <= n,
                forall|j: int| 0 <= j < i ==> self@.comparisons[j] != name@,
            decreases n - i,
        {
            if str_eq(self.comparisons[i].as_str(), name) {
                proof {
                    assert(self@.comparisons[i as int] == name@);
                }
                return Some(i);
            }
            i = i + 1;
        }
        proof {
            if self@.comparisons.contains(name@) {
                let j = choose|j: int|
                    0 <= j < self@.comparisons.len() && self@.comparisons[j] == name@;
                assert(self@.comparisons[j] != name@);
            }
        }
        None
    }

    /// Adds a comparison. A name already in the list is refused, so the
    /// list stays free of duplicates.
    pub fn add_comparison(&mut self, name: String) -> (r: Result<(), ()>)
        ensures
            final(self)@ == (RunVal {
                comparisons: if old(self)@.comparisons.contains(name@) {
                    old(self)@.comparisons
                } else {
                    old(self)@.comparisons.push(name@)
                },
                ..old(self)@
            }),
            r is Ok <==> !old(self)@.comparisons.contains(name@),
            old(self)@.wf() ==> final(self)@.wf(),
    {
        match self.find_comparison(name.as_str()) {
            Some(_) => Err(()),
            None => {
                let ghost old_comparisons = self@.comparisons;
                self.comparisons.push(name);
                proof {
                    assert(self@.comparisons =~= old_comparisons.push(name@));
                    if old(self)@.wf() {
                        let pb = choose|i: int|
                            0 <= i < old_comparisons.len() && old_comparisons[i]
                                == personal_best_name();
                        assert(self@.comparisons[pb] == personal_best_name());
                        assert(self@.comparisons.contains(personal_best_name()));
                        assert forall|i: int, j: int|
                            0 <= i < j < self@.comparisons.len() implies self@.comparisons[i]
                            != self@.comparisons[j] by {
                            if j == old_comparisons.len() {
                                assert(old_comparisons[i] != name@);
                            }
                        }
                        assert(self@.variables =~= old(self)@.variables);
                        assert(self@.wf());
                    }
                }
                Ok(())
            },
        }
    }

    /// Restores the comparison invariant: appends the personal-best
    /// comparison if it is missing. Everything else is kept.
    pub fn regenerate_comparisons(&mut self)
        ensures
            final(self)@ == (RunVal {
                comparisons: if old(self)@.comparisons.contains(personal_best_name()) {
                    old(self)@.comparisons
                } else {
                    old(self)@.comparisons.push(personal_best_name())
                },
                ..old(self)@
            }),
            (forall|i: int, j: int|
                0 <= i < j < old(self)@.comparisons.len() ==> old(self)@.comparisons[i] != old(
                    self,
                )@.comparisons[j]) ==> final(self)@.comparisons.contains(personal_best_name())
                && (forall|i: int, j: int|
                0 <= i < j < final(self)@.comparisons.len() ==> final(self)@.comparisons[i]
                    != final(self)@.comparisons[j]),
    {
        match self.find_comparison(personal_best_name_str()) {
            Some(_) => {},
            None => {
                let ghost old_comparisons = self@.comparisons;
                self.comparisons.push(personal_best_name_str().to_owned());
                proof {
                    assert(self@.comparisons =~= old_comparisons.push(personal_best_name()));
                    assert(self@.comparisons[old_comparisons.len() as int]
                        == personal_best_name());
                    assert(self@.comparisons.contains(personal_best_name()));
                    if forall|i: int, j: int|
                        0 <= i < j < old_comparisons.len() ==> old_comparisons[i]
                            != old_comparisons[j] {
                        assert forall|i: int, j: int|
                            0 <= i < j < self@.comparisons.len() implies self@.comparisons[i]
                            != self@.comparisons[j] by {
                            if j == old_comparisons.len() {
                                assert(old_comparisons[i] != personal_best_name());
                            } else {
                                assert(old_comparisons[i] != old_comparisons[j]);
                            }
                        }
                    }
                }
            },
        }
    }

    /// Whether the run has unsaved changes.
    pub fn has_been_modified(&self) -> (r: bool)
        ensures
            r == self@.modified,
    {
        self.modified
    }

    /// Records that the run has unsaved changes.
    pub fn mark_as_modified(&mut self)
        ensures
            final(self)@ == (RunVal { modified: true, ..old(self)@ }),
    {
        self.modified = true;
    }

    /// Records that all changes have been saved.
    pub fn mark_as_unmodified(&mut self)
        ensures
            final(self)@ == (RunVal { modified: false, ..old(self)@ }),
    {
        self.modified = false;
    }

    /// Registers the start of a new attempt: bumps the attempt count
    /// (saturating) and marks the run modified.
    pub fn start_next_run(&mut self)
        ensures
            final(self)@ == (RunVal {
                attempt_count: if old(self)@.attempt_count == i32::MAX as int {
                    old(self)@.attempt_count
                } else {
                    old(self)@.attempt_count + 1
                },
                modified: true,
                ..old(self)@
            }),
    {
        if self.attempt_count < i32::MAX {
            self.attempt_count = self.attempt_count + 1;
        }
        self.modified = true;
    }

    /// Appends an attempt to the history, indexed by the current attempt
    /// count.
    pub fn add_attempt(
        &mut self,
        time: Time,
        started: Option<AtomicDateTime>,
        ended: Option<AtomicDateTime>,
        pause_time: Option<TimeSpan>,
    )
        ensures
            final(self)@ == (RunVal {
                attempt_history: old(self)@.attempt_history.push(
                    AttemptVal {
                        index: old(self)@.attempt_count,
                        time: time@,
                        started: date_opt(started),
                        ended: date_opt(ended),
                        pause_time: span_opt(pause_time),
                    },
                ),
                ..old(self)@
            }),
    {
        let attempt = Attempt { index: self.attempt_count, time, started, ended, pause_time };
        self.attempt_history.push(attempt);
        proof {
            assert(self@.attempt_history =~= old(self)@.attempt_history.push(attempt@));
        }
    }

    /// Clears the identifier that links the run to an uploaded copy.
    pub fn clear_run_id(&mut self)
        ensures
            final(self)@ == (RunVal { run_id: Seq::<char>::empty(), ..old(self)@ }),
    {
        self.run_id = String::new();
    }

    /// The identifier that links the run to an uploaded copy.
    pub fn run_id(&self) -> (r: &str)
        ensures
            r@ == self@.run_id,
    {
        self.run_id.as_str()
    }

    /// The custom variables of the run's metadata.
    pub fn custom_variables(&self) -> (r: &Vec<CustomVariable>)
        ensures
            r@.map_values(|v: CustomVariable| v@) == self@.variables,
    {
        &self.variables
    }

    /// Overwrites one segment's split time.
    pub fn set_split_time_at(&mut self, index: usize, time: Time)
        requires
            index < old(self)@.segments.len(),
        ensures
            final(self)@ == (RunVal {
                segments: old(self)@.segments.update(
                    index as int,
                    SegmentVal { split_time: time@, ..old(self)@.segments[index as int] },
                ),
                ..old(self)@
            }),
    {
        let seg = &mut self.segments[index];
        seg.set_split_time(time);
        proof {
            assert(self@.segments =~= old(self)@.segments.update(
                index as int,
                SegmentVal { split_time: time@, ..old(self)@.segments[index as int] },
            ));
        }
    }

    /// Clears one segment's split information.
    pub fn clear_split_info_at(&mut self, index: usize)
        requires
            index < old(self)@.segments.len(),
        ensures
            final(self)@ == (RunVal {
                segments: old(self)@.segments.update(
                    index as int,
                    old(self)@.segments[index as int].cleared(),
                ),
                ..old(self)@
            }),
    {
        let seg = &mut self.segments[index];
        seg.clear_split_info();
        proof {
            assert(self@.segments =~= old(self)@.segments.update(
                index as int,
                old(self)@.segments[index as int].cleared(),
            ));
        }
    }

    /// Clears every segment's split information, as a reset does.
    pub fn clear_all_split_info(&mut self)
        ensures
            final(self)@ == (RunVal {
                segments: old(self)@.segments.map_values(|s: SegmentVal| s.cleared()),
                ..old(self)@
            }),
    {
        let n = self.segments.len();
        let mut i: usize = 0;
        while i < n
            invariant
                n == self@.segments.len(),
                i <= n,
                forall|j: int| i <= j < n ==> self@.segments[j] == old(self)@.segments[j],
                forall|j: int| 0 <= j < i ==> self@.segments[j] == old(self)@.segments[j].cleared(),
                self@ == (RunVal { segments: self@.segments, ..old(self)@ }),
            decreases n - i,
        {
            let ghost pre_vec = self.segments@;
            let ghost pre = self@.segments;
            let seg = &mut self.segments[i];
            seg.clear_split_info();
            proof {
                assert(self.segments@ == pre_vec.update(i as int, self.segments@[i as int]));
                assert forall|j: int| 0 <= j < i + 1 implies self@.segments[j] == old(
                    self,
                )@.segments[j].cleared() by {
                    if j == i {
                        assert(self@.segments[j] == old(self)@.segments[j].cleared());
                    } else {
                        assert(self.segments@[j] == pre_vec[j]);
                        assert(self@.segments[j] == pre[j]);
                        assert(pre[j] == old(self)@.segments[j].cleared());
                    }
                }
                assert forall|j: int| i + 1 <= j < n implies self@.segments[j] == old(
                    self,
                )@.segments[j] by {
                    assert(self.segments@[j] == pre_vec[j]);
                    assert(self@.segments[j] == pre[j]);
                }
            }
            i = i + 1;
        }
        proof {
            assert(self@.segments =~= old(self)@.segments.map_values(
                |s: SegmentVal| s.cleared(),
            ));
        }
    }

    /// Copies every segment's current split time into its personal-best
    /// split time, promoting the current attempt to the personal best.
    pub fn set_splits_as_pb(&mut self)
        ensures
            final(self)@ == (RunVal {
                segments: old(self)@.segments.map_values(
                    |s: SegmentVal| SegmentVal { personal_best_split_time: s.split_time, ..s },
                ),
                ..old(self)@
            }),
    {
        let n = self.segments.len();
        let mut i: usize = 0;
        while i < n
            invariant
                n == self@.segments.len(),
                i <= n,
                forall|j: int| i <= j < n ==> self@.segments[j] == old(self)@.segments[j],
                forall|j: int|
                    0 <= j < i ==> self@.segments[j] == (SegmentVal {
                        personal_best_split_time: old(self)@.segments[j].split_time,
                        ..old(self)@.segments[j]
                    }),
                self@ == (RunVal { segments: self@.segments, ..old(self)@ }),
            decreases n - i,
        {
            let ghost pre_vec = self.segments@;
            let ghost pre = self@.segments;
            let time = self.segments[i].split_time;
            let seg = &mut self.segments[i];
            seg.personal_best_split_time = time;
            proof {
                assert(self.segments@ == pre_vec.update(i as int, self.segments@[i as int]));
                assert forall|j: int|
                    0 <= j < i + 1 implies self@.segments[j] == (SegmentVal {
                        personal_best_split_time: old(self)@.segments[j].split_time,
                        ..old(self)@.segments[j]
                    }) by {
                    if j == i {
                        assert(self@.segments[j] == (SegmentVal {
                            personal_best_split_time: old(self)@.segments[j].split_time,
                            ..old(self)@.segments[j]
                        }));
                    } else {
                        assert(self.segments@[j] == pre_vec[j]);
                        assert(self@.segments[j] == pre[j]);
                    }
                }
                assert forall|j: int| i + 1 <= j < n implies self@.segments[j] == old(
                    self,
                )@.segments[j] by {
                    assert(self.segments@[j] == pre_vec[j]);
                    assert(self@.segments[j] == pre[j]);
                }
            }
            i = i + 1;
        }
        proof {
            assert(self@.segments =~= old(self)@.segments.map_values(
                |s: SegmentVal| SegmentVal { personal_best_split_time: s.split_time, ..s },
            ));
        }
    }

    /// Sets the value of the custom variable with the given name,
    /// creating a temporary (non-permanent) variable if none exists yet.
    /// Returns whether the variable is permanent.
    pub fn set_custom_variable_value(&mut self, name: &str, value: &str) -> (permanent: bool)
        requires
            old(self)@.wf(),
        ensures
            ({
                let vars = old(self)@.variables;
                if exists|k: int| 0 <= k < vars.len() && vars[k].name == name@ {
                    let k = choose|k: int| 0 <= k < vars.len() && vars[k].name == name@;
                    final(self)@ == (RunVal {
                        variables: vars.update(k, VariableVal { value: value@, ..vars[k] }),
                        ..old(self)@
                    }) && permanent == vars[k].is_permanent
                } else {
                    final(self)@ == (RunVal {
                        variables: vars.push(
                            VariableVal { name: name@, value: value@, is_permanent: false },
                        ),
                        ..old(self)@
                    }) && permanent == false
                }
            }),
            final(self)@.wf(),
    {
        let n = self.variables.len();
        let mut i: usize = 0;
        while i < n
            invariant
                n == self@.variables.len(),
                i <= n,
                self@ == old(self)@,
                old(self)@.wf(),
                forall|j: int| 0 <= j < i ==> self@.variables[j].name != name@,
            decreases n - i,
        {
            if str_eq(self.variables[i].name.as_str(), name) {
                proof {
                    assert(self@.variables[i as int].name == name@);
                    let k = choose|k: int|
                        0 <= k < self@.variables.len() && self@.variables[k].name == name@;
                    if k < i as int {
                        assert(self@.variables[k].name != self@.variables[i as int].name);
                    } else if k > i as int {
                        assert(self@.variables[i as int].name != self@.variables[k].name);
                    }
                    assert(k == i as int);
                }
                let permanent = self.variables[i].is_permanent;
                let ghost pre_vec = self.variables@;
                let var = &mut self.variables[i];
                var.value = value.to_owned();
                proof {
                    assert(self.variables@ == pre_vec.update(
                        i as int,
                        self.variables@[i as int],
                    ));
                    assert(self@.variables =~= old(self)@.variables.update(
                        i as int,
                        VariableVal { value: value@, ..old(self)@.variables[i as int] },
                    ));
                    assert forall|a: int, b: int|
                        0 <= a < b < self@.variables.len() implies self@.variables[a].name
                        != self@.variables[b].name by {
                        assert(old(self)@.variables[a].name != old(self)@.variables[b].name);
                    }
                }
                return permanent;
            }
            i = i + 1;
        }
        proof {
            if exists|k: int|
                0 <= k < self@.variables.len() && self@.variables[k].name == name@ {
                let k = choose|k: int|
                    0 <= k < self@.variables.len() && self@.variables[k].name == name@;
                assert(self@.variables[k].name != name@);
            }
        }
        let ghost pre = self@.variables;
        self.variables.push(
            CustomVariable { name: name.to_owned(), value: value.to_owned(), is_permanent: false },
        );
        proof {
            assert(self@.variables =~= pre.push(
                VariableVal { name: name@, value: value@, is_permanent: false },
            ));
            assert forall|a: int, b: int|
                0 <= a < b < self@.variables.len() implies self@.variables[a].name
                != self@.variables[b].name by {
                if b == pre.len() {
                    assert(pre[a].name != name@);
                } else {
                    assert(pre[a].name != pre[b].name);
                }
            }
        }
        false
    }

    /// A copy of the current custom variables as plain name/value pairs,
    /// in order; the snapshot a split writes onto its segment.
    pub fn variables_snapshot(&self) -> (r: Vec<(String, String)>)
        ensures
            r@.map_values(|p: (String, String)| (p.0@, p.1@)) == self@.variables.map_values(
                |v: VariableVal| (v.name, v.value),
            ),
    {
        let n = self.variables.len();
        let mut out: Vec<(String, String)> = Vec::new();
        let mut i: usize = 0;
        while i < n
            invariant
                n == self@.variables.len(),
                i <= n,
                out@.len() == i,
                forall|j: int|
                    0 <= j < i ==> (#[trigger] out@[j]).0@ == self@.variables[j].name && out@[j].1@
                        == self@.variables[j].value,
            decreases n - i,
        {
            let name = self.variables[i].name.clone();
            let value = self.variables[i].value.clone();
            out.push((name, value));
            i = i + 1;
        }
        proof {
            assert(out@.map_values(|p: (String, String)| (p.0@, p.1@))
                =~= self@.variables.map_values(|v: VariableVal| (v.name, v.value)));
        }
        out
    }

    /// Folds the current attempt's split times into every segment's best
    /// segment time: per axis and per segment, the best becomes the
    /// minimum of the old best and this attempt's segment delta; the two
    /// axes are independent.
    pub fn update_best_segments(&mut self)
        ensures
            final(self)@ == (RunVal {
                segments: spec_best_segments_from(old(self)@.segments, 0, 0, 0),
                ..old(self)@
            }),
    {
        let n = self.segments.len();
        let mut prev_rt = TimeSpan::zero();
        let mut prev_gt = TimeSpan::zero();
        let mut i: usize = 0;
        while i < n
            invariant
                n == self@.segments.len(),
                i <= n,
                spec_best_segments_from(old(self)@.segments, 0, 0, 0) == spec_best_segments_from(
                    self@.segments,
                    i as int,
                    prev_rt@,
                    prev_gt@,
                ),
                self@ == (RunVal { segments: self@.segments, ..old(self)@ }),
            decreases n - i,
        {
            let ghost pre = self@.segments;
            let split_time = self.segments[i].split_time;
            let best_time = self.segments[i].best_segment_time;
            let (new_best_r, new_prev_r) = match split_time.real_time {
                Some(st) => {
                    let cur = st.minus(prev_rt);
                    let nb = match best_time.real_time {
                        None => Some(cur),
                        Some(b) => if cur.lt(&b) {
                            Some(cur)
                        } else {
                            Some(b)
                        },
                    };
                    (nb, st)
                },
                None => (best_time.real_time, prev_rt),
            };
            let (new_best_g, new_prev_g) = match split_time.game_time {
                Some(st) => {
                    let cur = st.minus(prev_gt);
                    let nb = match best_time.game_time {
                        None => Some(cur),
                        Some(b) => if cur.lt(&b) {
                            Some(cur)
                        } else {
                            Some(b)
                        },
                    };
                    (nb, st)
                },
                None => (best_time.game_time, prev_gt),
            };
            let ghost pre_vec = self.segments@;
            let seg = &mut self.segments[i];
            seg.best_segment_time = Time { real_time: new_best_r, game_time: new_best_g };
            proof {
                assert(self.segments@ == pre_vec.update(i as int, self.segments@[i as int]));
                let s = pre[i as int];
                let s2 = SegmentVal {
                    best_segment_time: TimeVal {
                        real: best_axis_step(s.split_time.real, prev_rt@, s.best_segment_time.real).0,
                        game: best_axis_step(s.split_time.game, prev_gt@, s.best_segment_time.game).0,
                    },
                    ..s
                };
                assert(self@.segments[i as int] == s2);
                assert(self@.segments =~= pre.update(i as int, s2));
                assert(spec_best_segments_from(pre, i as int, prev_rt@, prev_gt@)
                    == spec_best_segments_from(
                    pre.update(i as int, s2),
                    i as int + 1,
                    new_prev_r@,
                    new_prev_g@,
                ));
            }
            prev_rt = new_prev_r;
            prev_gt = new_prev_g;
            i = i + 1;
        }
    }

    /// Appends the current attempt's per-segment deltas, up to the split
    /// the attempt reached, to each segment's history, keyed by the index
    /// of the youngest attempt in the attempt history.
    pub fn update_segment_history(&mut self, up_to: usize)
        ensures
            final(self)@ == (RunVal {
                segments: spec_segment_history_from(
                    old(self)@.segments,
                    0,
                    up_to as int,
                    spec_latest_attempt_index(old(self)@.attempt_history),
                    0,
                    0,
                ),
                ..old(self)@
            }),
    {
        let id: i32 = if self.attempt_history.len() > 0 {
            self.attempt_history[self.attempt_history.len() - 1].index
        } else {
            0
        };
        proof {
            assert(id as int == spec_latest_attempt_index(self@.attempt_history));
        }
        let n = self.segments.len();
        let mut prev_rt = TimeSpan::zero();
        let mut prev_gt = TimeSpan::zero();
        let mut i: usize = 0;
        while i < n && i < up_to
            invariant
                n == self@.segments.len(),
                i <= n,
                spec_segment_history_from(
                    old(self)@.segments,
                    0,
                    up_to as int,
                    id as int,
                    0,
                    0,
                ) == spec_segment_history_from(
                    self@.segments,
                    i as int,
                    up_to as int,
                    id as int,
                    prev_rt@,
                    prev_gt@,
                ),
                self@ == (RunVal { segments: self@.segments, ..old(self)@ }),
            decreases n - i,
        {
            let ghost pre = self@.segments;
            let split_time = self.segments[i].split_time;
            let (delta_r, new_prev_r) = match split_time.real_time {
                Some(st) => (Some(st.minus(prev_rt)), st),
                None => (None, prev_rt),
            };
            let (delta_g, new_prev_g) = match split_time.game_time {
                Some(st) => (Some(st.minus(prev_gt)), st),
                None => (None, prev_gt),
            };
            let delta = Time { real_time: delta_r, game_time: delta_g };
            let ghost pre_vec = self.segments@;
            let seg = &mut self.segments[i];
            seg.history.push((id, delta));
            proof {
                assert(self.segments@ == pre_vec.update(i as int, self.segments@[i as int]));
                let s = pre[i as int];
                let s2 = SegmentVal {
                    history: s.history.push((id as int, delta@)),
                    ..s
                };
                assert(self.segments@[i as int]@.history =~= s.history.push(
                    (id as int, delta@),
                ));
                assert(self@.segments[i as int] == s2);
                assert(self@.segments =~= pre.update(i as int, s2));
                assert(spec_segment_history_from(
                    pre,
                    i as int,
                    up_to as int,
                    id as int,
                    prev_rt@,
                    prev_gt@,
                ) == spec_segment_history_from(
                    pre.update(i as int, s2),
                    i as int + 1,
                    up_to as int,
                    id as int,
                    new_prev_r@,
                    new_prev_g@,
                ));
            }
            prev_rt = new_prev_r;
            prev_gt = new_prev_g;
            i = i + 1;
        }
    }

    /// Appends the personal best's per-segment deltas to every segment's
    /// history, under a fresh negative attempt index, so that generated
    /// comparisons keep seeing the previous personal best after it is
    /// overwritten.
    pub fn import_pb_into_segment_history(&mut self)
        ensures
            final(self)@ == (RunVal {
                segments: spec_import_pb_from(
                    old(self)@.segments,
                    0,
                    spec_import_id(old(self)@.segments),
                    0,
                    0,
                ),
                ..old(self)@
            }),
    {
        let n = self.segments.len();
        let mut acc: i32 = 0;
        let mut i: usize = 0;
        while i < n
            invariant
                n == self@.segments.len(),
                i <= n,
                self@ == old(self)@,
                spec_min_history_id_from(self@.segments, 0, 0) == spec_min_history_id_from(
                    self@.segments,
                    i as int,
                    acc as int,
                ),
            decreases n - i,
        {
            let h = &self.segments[i].history;
            let m = h.len();
            let mut k: usize = 0;
            let ghost acc_entry = acc;
            while k < m
                invariant
                    m == self@.segments[i as int].history.len(),
                    i < n,
                    n == self@.segments.len(),
                    k <= m,
                    self@ == old(self)@,
                    h@.map_values(|p: (i32, Time)| (p.0 as int, p.1@)) == self@.segments[
                        i as int
                    ].history,
                    spec_min_id_from(self@.segments[i as int].history, 0, acc_entry as int)
                        == spec_min_id_from(
                        self@.segments[i as int].history,
                        k as int,
                        acc as int,
                    ),
                decreases m - k,
            {
                let entry_id = h[k].0;
                if entry_id < acc {
                    acc = entry_id;
                }
                k = k + 1;
            }
            i = i + 1;
        }
        let id: i32 = if acc == i32::MIN {
            acc
        } else {
            acc - 1
        };
        proof {
            assert(id as int == spec_import_id(self@.segments));
        }
        let ghost orig = self@.segments;
        let mut prev_rt = TimeSpan::zero();
        let mut prev_gt = TimeSpan::zero();
        let mut i: usize = 0;
        while i < n
            invariant
                n == self@.segments.len(),
                i <= n,
                spec_import_pb_from(orig, 0, id as int, 0, 0) == spec_import_pb_from(
                    self@.segments,
                    i as int,
                    id as int,
                    prev_rt@,
                    prev_gt@,
                ),
                self@ == (RunVal { segments: self@.segments, ..old(self)@ }),
            decreases n - i,
        {
            let ghost pre = self@.segments;
            let pb_time = self.segments[i].personal_best_split_time;
            let (delta_r, new_prev_r) = match pb_time.real_time {
                Some(st) => (Some(st.minus(prev_rt)), st),
                None => (None, prev_rt),
            };
            let (delta_g, new_prev_g) = match pb_time.game_time {
                Some(st) => (Some(st.minus(prev_gt)), st),
                None => (None, prev_gt),
            };
            let delta = Time { real_time: delta_r, game_time: delta_g };
            let ghost pre_vec = self.segments@;
            let seg = &mut self.segments[i];
            seg.history.push((id, delta));
            proof {
                assert(self.segments@ == pre_vec.update(i as int, self.segments@[i as int]));
                let s = pre[i as int];
                let s2 = SegmentVal {
                    history: s.history.push((id as int, delta@)),
                    ..s
                };
                assert(self.segments@[i as int]@.history =~= s.history.push(
                    (id as int, delta@),
                ));
                assert(self@.segments[i as int] == s2);
                assert(self@.segments =~= pre.update(i as int, s2));
                assert(spec_import_pb_from(pre, i as int, id as int, prev_rt@, prev_gt@)
                    == spec_import_pb_from(
                    pre.update(i as int, s2),
                    i as int + 1,
                    id as int,
                    new_prev_r@,
                    new_prev_g@,
                ));
            }
            prev_rt = new_prev_r;
            prev_gt = new_prev_g;
            i = i + 1;
        }
    }

    /// Overwrites one segment's variable snapshot.
    pub fn set_variables_at(&mut self, index: usize, variables: Vec<(String, String)>)
        requires
            index < old(self)@.segments.len(),
        ensures
            final(self)@ == (RunVal {
                segments: old(self)@.segments.update(
                    index as int,
                    SegmentVal {
                        variables: variables@.map_values(|p: (String, String)| (p.0@, p.1@)),
                        ..old(self)@.segments[index as int]
                    },
                ),
                ..old(self)@
            }),
    {
        let ghost vars_view = variables@.map_values(|p: (String, String)| (p.0@, p.1@));
        let seg = &mut self.segments[index];
        seg.variables = variables;
        proof {
            assert(self@.segments =~= old(self)@.segments.update(
                index as int,
                SegmentVal { variables: vars_view, ..old(self)@.segments[index as int] },
            ));
        }
    }
}

} // verus!
