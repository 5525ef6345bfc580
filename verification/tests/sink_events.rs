//! The geometry sink: callback sequences and the shape of what they emit.

use font_renderer::geometry::{BezierSegment, PathEvent, PathPoint};
use font_renderer::sink::{FigureBegin, FigureEnd, FillMode, GeometrySink};

fn pt(x: i32, y: i32) -> PathPoint {
    PathPoint { x, y }
}

#[test]
fn closed_figure_emits_move_line_close() {
    let mut sink = GeometrySink::new();
    sink.begin_figure(pt(10, 20), FigureBegin::Filled);
    sink.add_lines(&vec![pt(30, 20)]);
    sink.end_figure(FigureEnd::Closed);
    let events = sink.take_events();
    assert_eq!(
        events,
        vec![
            PathEvent::MoveTo(pt(10, -20)),
            PathEvent::LineTo(pt(30, -20)),
            PathEvent::Close,
        ]
    );
}

#[test]
fn open_figure_has_no_terminator() {
    let mut sink = GeometrySink::new();
    sink.begin_figure(pt(0, 0), FigureBegin::Filled);
    sink.end_figure(FigureEnd::Open);
    let events = sink.take_events();
    assert_eq!(events, vec![PathEvent::MoveTo(pt(0, 0))]);
}

#[test]
fn beziers_flip_every_point() {
    let mut sink = GeometrySink::new();
    sink.begin_figure(pt(1, 2), FigureBegin::Hollow);
    sink.add_beziers(&vec![BezierSegment {
        control1: pt(3, 4),
        control2: pt(5, -6),
        endpoint: pt(7, 8),
    }]);
    sink.end_figure(FigureEnd::Closed);
    let events = sink.take_events();
    assert_eq!(
        events,
        vec![
            PathEvent::MoveTo(pt(1, -2)),
            PathEvent::CubicTo(pt(3, -4), pt(5, 6), pt(7, -8)),
            PathEvent::Close,
        ]
    );
}

#[test]
fn figures_accumulate_into_one_sequence() {
    let mut sink = GeometrySink::new();
    sink.begin_figure(pt(0, 1), FigureBegin::Filled);
    sink.end_figure(FigureEnd::Closed);
    sink.begin_figure(pt(2, 3), FigureBegin::Filled);
    sink.add_lines(&vec![pt(4, 5), pt(6, 7)]);
    sink.end_figure(FigureEnd::Open);
    let events = sink.take_events();
    assert_eq!(
        events,
        vec![
            PathEvent::MoveTo(pt(0, -1)),
            PathEvent::Close,
            PathEvent::MoveTo(pt(2, -3)),
            PathEvent::LineTo(pt(4, -5)),
            PathEvent::LineTo(pt(6, -7)),
        ]
    );
}

#[test]
fn fill_mode_and_segment_flags_are_ignored() {
    let mut sink = GeometrySink::new();
    sink.set_fill_mode(FillMode::Winding);
    sink.set_segment_flags(3);
    sink.begin_figure(pt(9, 9), FigureBegin::Filled);
    sink.set_fill_mode(FillMode::Alternate);
    sink.end_figure(FigureEnd::Closed);
    assert!(sink.close().is_ok());
    let events = sink.take_events();
    assert_eq!(events, vec![PathEvent::MoveTo(pt(9, -9)), PathEvent::Close]);
}

#[test]
fn well_formedness_check_follows_the_figure_state() {
    let mut sink = GeometrySink::new();
    assert!(sink.is_well_formed());
    sink.begin_figure(pt(1, 2), FigureBegin::Filled);
    assert!(sink.is_well_formed());
    sink.add_lines(&vec![pt(3, 4)]);
    sink.end_figure(FigureEnd::Open);
    assert!(sink.is_well_formed());
    sink.begin_figure(pt(5, 6), FigureBegin::Filled);
    sink.end_figure(FigureEnd::Closed);
    assert!(sink.is_well_formed());
}

#[test]
fn take_events_leaves_the_sink_empty() {
    let mut sink = GeometrySink::new();
    sink.begin_figure(pt(1, 1), FigureBegin::Filled);
    sink.end_figure(FigureEnd::Closed);
    let first = sink.take_events();
    assert_eq!(first.len(), 2);
    let second = sink.take_events();
    assert!(second.is_empty());
}
