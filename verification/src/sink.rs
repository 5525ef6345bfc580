//! The geometry sink: receives the engine's imperative outline-tessellation
//! callbacks and accumulates the normalized path-event sequence.
//!
//! The engine drives one sink per outline query, strictly ordered: each figure
//! is a `begin_figure`, then drawing callbacks, then an `end_figure`. Every
//! point has its Y coordinate negated on emission ([`flip`]). `begin_figure`
//! emits exactly one `MoveTo`; `end_figure` of a closed figure emits `Close`,
//! of an open figure nothing. Fill mode and segment flags are accepted and
//! ignored: no winding rule or segment-type distinction is propagated.
//! Multiple figures accumulate into one flat sequence.

use vstd::prelude::*;

use crate::ComError;
use crate::geometry::{
    BezierSegment, PathEvent, PathPoint, flip, flip_point, lemma_events_push,
    open_after, wf_events,
};
use crate::object::ObjectControl;

verus! {

/// Whether a figure is filled or hollow. Accepted for protocol fidelity;
/// the sink does not distinguish them.
#[derive(Clone, Copy, Debug, PartialEq, Eq, Structural)]
pub enum FigureBegin {
    Filled,
    Hollow,
}

/// How a figure ends: a closed figure is terminated by a `Close` event, an
/// open one has no terminator.
#[derive(Clone, Copy, Debug, PartialEq, Eq, Structural)]
pub enum FigureEnd {
    Open,
    Closed,
}

/// How self-intersecting regions fill. Accepted and ignored.
#[derive(Clone, Copy, Debug, PartialEq, Eq, Structural)]
pub enum FillMode {
    Alternate,
    Winding,
}

/// A transient plugin object that turns tessellation callbacks into a
/// path-event sequence. Built fresh for one outline call, filled
/// synchronously, then its sequence is moved out and the object discarded.
pub struct GeometrySink {
    /// The shared plugin-object runtime state.
    pub control: ObjectControl,
    /// The events accumulated so far.
    pub events: Vec<PathEvent>,
    /// Whether a figure has begun and not yet ended.
    pub in_figure: bool,
}

impl GeometrySink {
    /// What every callback preserves: the accumulated sequence is well
    /// formed, and while a figure is in progress its `MoveTo` is unmatched.
    pub open spec fn wf(self) -> bool {
        &&& wf_events(self.events@)
        &&& self.in_figure ==> open_after(self.events@)
    }

    /// A fresh sink: no events, no figure in progress, one reference.
    pub fn new() -> (r: GeometrySink)
        ensures
            r.events@ =~= Seq::<PathEvent>::empty(),
            !r.in_figure,
            r.control.ref_count == 1,
            r.wf(),
    {
        GeometrySink { control: ObjectControl::new(), events: Vec::new(), in_figure: false }
    }

    /// Starts a figure at `start`: emits exactly one `MoveTo` at the flipped
    /// start point.
    pub fn begin_figure(&mut self, start: PathPoint, _begin: FigureBegin)
        requires
            old(self).wf(),
            !old(self).in_figure,
            start.y > i32::MIN,
        ensures
            final(self).events@ == old(self).events@.push(PathEvent::MoveTo(flip(start))),
            final(self).in_figure,
            final(self).control == old(self).control,
            final(self).wf(),
    {
        proof {
            lemma_events_push(self.events@, PathEvent::MoveTo(flip(start)));
        }
        let p = flip_point(start);
        self.events.push(PathEvent::MoveTo(p));
        self.in_figure = true;
    }

    /// Appends one `LineTo` per point, each at its flipped coordinates, in
    /// order.
    pub fn add_lines(&mut self, points: &Vec<PathPoint>)
        requires
            old(self).wf(),
            old(self).in_figure,
            forall|i: int| 0 <= i < points@.len() ==> (#[trigger] points@[i]).y > i32::MIN,
        ensures
            final(self).events@ == old(self).events@ + points@.map_values(
                |p: PathPoint| PathEvent::LineTo(flip(p)),
            ),
            final(self).in_figure,
            final(self).control == old(self).control,
            final(self).wf(),
    {
        let mut i: usize = 0;
        while i < points.len()
            invariant
                old(self).wf(),
                0 <= i <= points@.len(),
                forall|k: int| 0 <= k < points@.len() ==> (#[trigger] points@[k]).y > i32::MIN,
                self.events@ =~= old(self).events@ + points@.take(i as int).map_values(
                    |p: PathPoint| PathEvent::LineTo(flip(p)),
                ),
                self.in_figure,
                self.control == old(self).control,
                self.wf(),
            decreases points@.len() - i,
        {
            proof {
                lemma_events_push(self.events@, PathEvent::LineTo(flip(points@[i as int])));
                assert(points@.take(i + 1).map_values(
                    |p: PathPoint| PathEvent::LineTo(flip(p)),
                ) =~= points@.take(i as int).map_values(
                    |p: PathPoint| PathEvent::LineTo(flip(p)),
                ).push(PathEvent::LineTo(flip(points@[i as int]))));
            }
            let p = flip_point(points[i]);
            self.events.push(PathEvent::LineTo(p));
            i = i + 1;
        }
        assert(points@.take(points@.len() as int) =~= points@);
    }

    /// Appends one `CubicTo` per segment: both control points and the
    /// endpoint flipped, in order.
    pub fn add_beziers(&mut self, beziers: &Vec<BezierSegment>)
        requires
            old(self).wf(),
            old(self).in_figure,
            forall|i: int| 0 <= i < beziers@.len() ==> (#[trigger] beziers@[i]).control1.y
                > i32::MIN && beziers@[i].control2.y > i32::MIN && beziers@[i].endpoint.y
                > i32::MIN,
        ensures
            final(self).events@ == old(self).events@ + beziers@.map_values(
                |b: BezierSegment| PathEvent::CubicTo(flip(b.control1), flip(b.control2), flip(b.endpoint)),
            ),
            final(self).in_figure,
            final(self).control == old(self).control,
            final(self).wf(),
    {
        let mut i: usize = 0;
        while i < beziers.len()
            invariant
                old(self).wf(),
                0 <= i <= beziers@.len(),
                forall|k: int| 0 <= k < beziers@.len() ==> (#[trigger] beziers@[k]).control1.y
                    > i32::MIN && beziers@[k].control2.y > i32::MIN && beziers@[k].endpoint.y
                    > i32::MIN,
                self.events@ =~= old(self).events@ + beziers@.take(i as int).map_values(
                    |b: BezierSegment| PathEvent::CubicTo(flip(b.control1), flip(b.control2), flip(b.endpoint)),
                ),
                self.in_figure,
                self.control == old(self).control,
                self.wf(),
            decreases beziers@.len() - i,
        {
            let b = beziers[i];
            proof {
                let cubic = PathEvent::CubicTo(flip(b.control1), flip(b.control2), flip(b.endpoint));
                lemma_events_push(self.events@, cubic);
                assert(beziers@.take(i + 1).map_values(
                    |b: BezierSegment| PathEvent::CubicTo(flip(b.control1), flip(b.control2), flip(b.endpoint)),
                ) =~= beziers@.take(i as int).map_values(
                    |b: BezierSegment| PathEvent::CubicTo(flip(b.control1), flip(b.control2), flip(b.endpoint)),
                ).push(cubic));
            }
            let c1 = flip_point(b.control1);
            let c2 = flip_point(b.control2);
            let e = flip_point(b.endpoint);
            self.events.push(PathEvent::CubicTo(c1, c2, e));
            i = i + 1;
        }
        assert(beziers@.take(beziers@.len() as int) =~= beziers@);
    }

    /// Ends the figure in progress. A closed figure is terminated by a
    /// `Close` event; an open figure gets no terminator, and the consumer
    /// must tolerate the unterminated subpath.
    pub fn end_figure(&mut self, figure_end: FigureEnd)
        requires
            old(self).wf(),
            old(self).in_figure,
        ensures
            figure_end is Closed ==> final(self).events@ == old(self).events@.push(
                PathEvent::Close,
            ),
            figure_end is Open ==> final(self).events@ == old(self).events@,
            !final(self).in_figure,
            final(self).control == old(self).control,
            final(self).wf(),
    {
        proof {
            lemma_events_push(self.events@, PathEvent::Close);
        }
        if let FigureEnd::Closed = figure_end {
            self.events.push(PathEvent::Close);
        }
        self.in_figure = false;
    }

    /// The tessellator's final call on the sink; nothing is left to do, so it
    /// always reports success.
    pub fn close(&self) -> (r: Result<(), ComError>)
        ensures
            r is Ok,
    {
        Ok(())
    }

    /// Accepted and ignored: no winding rule is propagated.
    pub fn set_fill_mode(&mut self, _mode: FillMode)
        ensures
            *final(self) == *old(self),
    {
    }

    /// Accepted and ignored: no segment-type distinction is propagated.
    pub fn set_segment_flags(&mut self, _flags: u32)
        ensures
            *final(self) == *old(self),
    {
    }

    /// Decides [`GeometrySink::wf`] at run time, for callers outside the
    /// proof: replays the events, tracking the figure state each one was
    /// permitted by.
    pub fn is_well_formed(&self) -> (r: bool)
        ensures
            r == self.wf(),
    {
        let mut open = false;
        let mut i: usize = 0;
        while i < self.events.len()
            invariant
                0 <= i <= self.events@.len(),
                wf_events(self.events@.take(i as int)),
                open == open_after(self.events@.take(i as int)),
            decreases self.events@.len() - i,
        {
            let event = self.events[i];
            proof {
                assert(self.events@.take(i + 1) =~= self.events@.take(i as int).push(
                    self.events@[i as int],
                ));
                lemma_events_push(self.events@.take(i as int), self.events@[i as int]);
            }
            let permitted = match event {
                PathEvent::MoveTo(_) => true,
                PathEvent::LineTo(_) => open,
                PathEvent::CubicTo(_, _, _) => open,
                PathEvent::Close => open,
            };
            if !permitted {
                proof {
                    if wf_events(self.events@) {
                        crate::geometry::lemma_wf_prefix(self.events@, i + 1);
                    }
                }
                return false;
            }
            open = match event {
                PathEvent::MoveTo(_) => true,
                PathEvent::LineTo(_) => open,
                PathEvent::CubicTo(_, _, _) => open,
                PathEvent::Close => false,
            };
            i = i + 1;
        }
        assert(self.events@.take(self.events@.len() as int) =~= self.events@);
        !self.in_figure || open
    }

    /// Moves the captured sequence out to the caller. The sink object may
    /// outlive this if something still holds a reference, but the sequence is
    /// gone either way.
    pub fn take_events(&mut self) -> (r: Vec<PathEvent>)
        ensures
            r@ == old(self).events@,
            final(self).events@ =~= Seq::<PathEvent>::empty(),
            !final(self).in_figure,
            final(self).control == old(self).control,
            final(self).wf(),
    {
        let mut taken: Vec<PathEvent> = Vec::new();
        core::mem::swap(&mut taken, &mut self.events);
        self.in_figure = false;
        taken
    }
}

} // verus!
