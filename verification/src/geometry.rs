//! Path events: the normalized, replayable form of a glyph outline.
//!
//! An outline is an ordered, finite sequence of `MoveTo`, `LineTo`, `CubicTo`
//! and `Close` events. A well-formed sequence never starts with anything but
//! `MoveTo`, and never holds a `Close` without an unmatched `MoveTo` since the
//! last `Close`. The predicates and lemmas here pin that shape down; the sink
//! that produces such sequences lives in [`crate::sink`].

use vstd::prelude::*;

verus! {

/// One point of an outline, in the consumer's path space. Coordinates are in
/// fixed-point subpixels; the unverified shell converts the engine's
/// floating-point glyph-space coordinates at the boundary.
#[derive(Clone, Copy, Debug, PartialEq, Eq, Structural)]
pub struct PathPoint {
    pub x: i32,
    pub y: i32,
}

/// One cubic segment as the tessellator hands it out: two control points and
/// the endpoint, still in the engine's glyph space.
#[derive(Clone, Copy, Debug, PartialEq, Eq, Structural)]
pub struct BezierSegment {
    pub control1: PathPoint,
    pub control2: PathPoint,
    pub endpoint: PathPoint,
}

/// One event of a normalized outline.
#[derive(Clone, Copy, Debug, PartialEq, Eq, Structural)]
pub enum PathEvent {
    MoveTo(PathPoint),
    LineTo(PathPoint),
    CubicTo(PathPoint, PathPoint, PathPoint),
    Close,
}

/// The engine's glyph space points its Y axis downward; the consumer's path
/// space points it upward. Every point that reaches an event has its Y
/// coordinate negated on the way.
pub open spec fn flip(p: PathPoint) -> PathPoint {
    PathPoint { x: p.x, y: (0 - p.y) as i32 }
}

/// Negates the Y coordinate of one engine point.
pub fn flip_point(p: PathPoint) -> (r: PathPoint)
    requires
        p.y > i32::MIN,
    ensures
        r == flip(p),
        r.x == p.x && r.y == -(p.y as int),
{
    PathPoint { x: p.x, y: -p.y }
}

/// Whether the sequence ends inside a figure: a `MoveTo` has been emitted
/// with no `Close` after it. Only then may a drawing event or a `Close`
/// follow.
pub open spec fn open_after(s: Seq<PathEvent>) -> bool
    decreases s.len(),
{
    if s.len() == 0 {
        false
    } else {
        match s.last() {
            PathEvent::MoveTo(_) => true,
            PathEvent::LineTo(_) => open_after(s.drop_last()),
            PathEvent::CubicTo(_, _, _) => open_after(s.drop_last()),
            PathEvent::Close => false,
        }
    }
}

/// Whether one event may follow a sequence whose figure state is `open`.
pub open spec fn event_permitted(e: PathEvent, open: bool) -> bool {
    match e {
        PathEvent::MoveTo(_) => true,
        PathEvent::LineTo(_) => open,
        PathEvent::CubicTo(_, _, _) => open,
        PathEvent::Close => open,
    }
}

/// The shape every emitted outline keeps: each event was permitted by the
/// figure state of the events before it.
pub open spec fn wf_events(s: Seq<PathEvent>) -> bool
    decreases s.len(),
{
    if s.len() == 0 {
        true
    } else {
        wf_events(s.drop_last()) && event_permitted(s.last(), open_after(s.drop_last()))
    }
}

/// How one appended event changes well-formedness and the figure state.
pub proof fn lemma_events_push(s: Seq<PathEvent>, e: PathEvent)
    ensures
        wf_events(s.push(e)) == (wf_events(s) && event_permitted(e, open_after(s))),
        open_after(s.push(e)) == (match e {
            PathEvent::MoveTo(_) => true,
            PathEvent::LineTo(_) => open_after(s),
            PathEvent::CubicTo(_, _, _) => open_after(s),
            PathEvent::Close => false,
        }),
{
    assert(s.push(e).drop_last() =~= s);
    assert(s.push(e).last() == e);
}

/// A well-formed, non-empty outline starts with `MoveTo`.
pub proof fn lemma_wf_first_is_move_to(s: Seq<PathEvent>)
    requires
        wf_events(s),
        s.len() > 0,
    ensures
        s[0] is MoveTo,
    decreases s.len(),
{
    if s.len() == 1 {
        assert(s.last() == s[0]);
        assert(!open_after(s.drop_last()));
    } else {
        lemma_wf_first_is_move_to(s.drop_last());
        assert(s.drop_last()[0] == s[0]);
    }
}

/// Well-formedness is closed under taking a prefix.
pub proof fn lemma_wf_prefix(s: Seq<PathEvent>, i: int)
    requires
        wf_events(s),
        0 <= i <= s.len(),
    ensures
        wf_events(s.take(i)),
    decreases s.len(),
{
    if i == s.len() {
        assert(s.take(i) =~= s);
    } else {
        assert(s.drop_last().take(i) =~= s.take(i));
        lemma_wf_prefix(s.drop_last(), i);
    }
}

/// An open figure state names its unmatched `MoveTo`: some `MoveTo` stands in
/// the sequence with no `Close` after it.
pub proof fn lemma_open_has_unmatched_move_to(s: Seq<PathEvent>)
    requires
        open_after(s),
    ensures
        exists|j: int|
            0 <= j < s.len() && s[j] is MoveTo && (forall|l: int|
                j < l < s.len() ==> !(#[trigger] s[l] is Close)),
    decreases s.len(),
{
    if s.last() is MoveTo {
        assert(s[s.len() - 1] is MoveTo);
    } else {
        lemma_open_has_unmatched_move_to(s.drop_last());
        let j = choose|j: int|
            0 <= j < s.drop_last().len() && s.drop_last()[j] is MoveTo && (forall|l: int|
                j < l < s.drop_last().len() ==> !(#[trigger] s.drop_last()[l] is Close));
        assert(s[j] is MoveTo);
        assert(forall|l: int| j < l < s.len() ==> !(#[trigger] s[l] is Close)) by {
            assert(forall|l: int| j < l < s.len() - 1 ==> s.drop_last()[l] == #[trigger] s[l]);
        }
    }
}

/// Every `Close` in a well-formed outline is matched: some `MoveTo` precedes
/// it with no other `Close` in between.
pub open spec fn close_is_matched(s: Seq<PathEvent>, i: int) -> bool {
    exists|j: int|
        0 <= j < i && s[j] is MoveTo && (forall|l: int| j < l < i ==> !(#[trigger] s[l] is Close))
}

/// The shape a consumer may rely on for every well-formed outline: the first
/// event is `MoveTo`, and each `Close` is preceded by an unmatched `MoveTo`
/// since the last `Close`.
pub proof fn lemma_outline_shape(s: Seq<PathEvent>)
    requires
        wf_events(s),
    ensures
        s.len() > 0 ==> s[0] is MoveTo,
        forall|i: int| 0 <= i < s.len() && #[trigger] s[i] is Close ==> close_is_matched(s, i),
{
    if s.len() > 0 {
        lemma_wf_first_is_move_to(s);
    }
    assert forall|i: int| 0 <= i < s.len() && #[trigger] s[i] is Close implies close_is_matched(
        s,
        i,
    ) by {
        lemma_wf_prefix(s, i + 1);
        let p = s.take(i + 1);
        assert(p.drop_last() =~= s.take(i));
        assert(p.last() == s[i]);
        assert(open_after(s.take(i)));
        lemma_open_has_unmatched_move_to(s.take(i));
        let j = choose|j: int|
            0 <= j < s.take(i).len() && s.take(i)[j] is MoveTo && (forall|l: int|
                j < l < s.take(i).len() ==> !(#[trigger] s.take(i)[l] is Close));
        assert(s.take(i)[j] == s[j]);
        assert(forall|l: int| j < l < i ==> s.take(i)[l] == #[trigger] s[l]);
    }
}

/// A list of path commands that represents one glyph in one font: what an
/// outline query hands back. The caller owns the sequence; it is produced by
/// exactly one query and never restarted.
pub struct GlyphOutline {
    pub events: Vec<PathEvent>,
}

impl View for GlyphOutline {
    type V = Seq<PathEvent>;

    open spec fn view(&self) -> Seq<PathEvent> {
        self.events@
    }
}

impl GlyphOutline {
    /// A copy of the events, in emission order.
    pub fn iter(&self) -> (r: Vec<PathEvent>)
        ensures
            r@ == self@,
    {
        let mut out: Vec<PathEvent> = Vec::new();
        let mut i: usize = 0;
        while i < self.events.len()
            invariant
                0 <= i <= self.events.len(),
                out@ =~= self.events@.take(i as int),
            decreases self.events.len() - i,
        {
            out.push(self.events[i]);
            i = i + 1;
        }
        assert(self.events@.take(self.events.len() as int) =~= self.events@);
        out
    }
}

} // verus!
