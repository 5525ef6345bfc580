//! The font context: catalog behaviour, query outcomes, metric scaling, the
//! registration step machine and family-name encoding.

use font_renderer::context::{FontContext, SystemFontLookup};
use font_renderer::family::encode_family_name;
use font_renderer::geometry::{PathEvent, PathPoint};
use font_renderer::metrics::GlyphMetricsData;
use font_renderer::registration::{RegistrationStep, advance_registration};
use font_renderer::sink::{FigureBegin, FigureEnd, GeometrySink};
use font_renderer::{Au, FontError, FontInstance, FontKey, GlyphKey};

fn instance(key: u64, size: i32) -> FontInstance {
    FontInstance::new(FontKey(key), Au(size))
}

#[test]
fn adding_twice_keeps_one_entry_and_the_first_face() {
    let mut ctx = FontContext::new(true).unwrap();
    assert!(ctx.add_font_from_memory(&FontKey(5), Some(11)).is_ok());
    assert_eq!(ctx.font_count(), 1);
    // Same key again: success without consulting the new outcome, and the
    // catalog still holds exactly the one face first materialized.
    assert!(ctx.add_font_from_memory(&FontKey(5), Some(99)).is_ok());
    assert_eq!(ctx.font_count(), 1);
    assert_eq!(ctx.get_font_face(&FontKey(5)), Some(11));
}

#[test]
fn creation_without_a_factory_fails() {
    assert!(matches!(
        FontContext::new(false),
        Err(FontError::InitializationFailure)
    ));
}

#[test]
fn failed_load_inserts_nothing() {
    let mut ctx = FontContext::new(true).unwrap();
    let r = ctx.add_font_from_memory(&FontKey(3), None);
    assert_eq!(r, Err(FontError::LoadFailure));
    assert_eq!(ctx.font_count(), 0);
    assert_eq!(ctx.get_font_face(&FontKey(3)), None);
}

#[test]
fn delete_font_on_absent_key_is_a_noop() {
    let mut ctx = FontContext::new(true).unwrap();
    ctx.delete_font(&FontKey(8));
    assert_eq!(ctx.font_count(), 0);
    assert!(ctx.add_font_from_memory(&FontKey(8), Some(1)).is_ok());
    ctx.delete_font(&FontKey(9));
    assert_eq!(ctx.font_count(), 1);
    ctx.delete_font(&FontKey(8));
    assert_eq!(ctx.font_count(), 0);
    assert_eq!(ctx.get_font_face(&FontKey(8)), None);
}

#[test]
fn system_font_outcomes_map_to_their_errors() {
    let mut ctx = FontContext::new(true).unwrap();
    let r = ctx.add_system_font(&FontKey(1), SystemFontLookup::FamilyNotFound);
    assert_eq!(r, Err(FontError::NotFound));
    let r = ctx.add_system_font(&FontKey(1), SystemFontLookup::Failed);
    assert_eq!(r, Err(FontError::LoadFailure));
    assert_eq!(ctx.font_count(), 0);
    assert!(ctx
        .add_system_font(&FontKey(1), SystemFontLookup::Materialized(4))
        .is_ok());
    assert_eq!(ctx.get_font_face(&FontKey(1)), Some(4));
    // Present key: no-op success, whatever the lookup says.
    assert!(ctx
        .add_system_font(&FontKey(1), SystemFontLookup::FamilyNotFound)
        .is_ok());
    assert_eq!(ctx.get_font_face(&FontKey(1)), Some(4));
}

#[test]
fn glyph_outline_fails_on_unregistered_key() {
    let mut ctx = FontContext::new(true).unwrap();
    let sink = GeometrySink::new();
    let r = ctx.glyph_outline(&instance(2, 720), &GlyphKey::new(1), Some(sink));
    assert_eq!(r.map(|o| o.iter()), Err(FontError::NotFound));
}

#[test]
fn glyph_outline_is_well_formed_on_a_registered_key() {
    let mut ctx = FontContext::new(true).unwrap();
    ctx.add_font_from_memory(&FontKey(2), Some(10)).unwrap();

    let mut sink = GeometrySink::new();
    sink.begin_figure(PathPoint { x: 10, y: 20 }, FigureBegin::Filled);
    sink.add_lines(&vec![PathPoint { x: 30, y: 20 }]);
    sink.end_figure(FigureEnd::Closed);
    sink.begin_figure(PathPoint { x: 1, y: 1 }, FigureBegin::Filled);
    sink.end_figure(FigureEnd::Open);

    let outline = ctx
        .glyph_outline(&instance(2, 720), &GlyphKey::new(1), Some(sink))
        .expect("registered key with a tessellated sink must succeed");
    let events = outline.iter();
    assert!(matches!(events[0], PathEvent::MoveTo(_)));
    // Every Close is preceded by an unmatched MoveTo since the last Close.
    let mut open = false;
    for event in &events {
        match event {
            PathEvent::MoveTo(_) => open = true,
            PathEvent::LineTo(_) | PathEvent::CubicTo(_, _, _) => assert!(open),
            PathEvent::Close => {
                assert!(open);
                open = false;
            }
        }
    }

    let failed = ctx.glyph_outline(&instance(2, 720), &GlyphKey::new(1), None);
    assert_eq!(failed.map(|o| o.iter()), Err(FontError::LoadFailure));
}

#[test]
fn glyph_dimensions_scale_by_size_over_units_per_em() {
    let mut ctx = FontContext::new(true).unwrap();
    ctx.add_font_from_memory(&FontKey(1), Some(10)).unwrap();
    let metrics = GlyphMetricsData {
        units_per_em: 1000,
        advance_width: 600,
        advance_height: 1100,
        left_side_bearing: 50,
        right_side_bearing: 40,
        top_side_bearing: 30,
        bottom_side_bearing: 20,
    };
    // 12 pixels = 720 app units.
    let dims = ctx
        .glyph_dimensions(&instance(1, 720), &GlyphKey::new(7), false, Some(&metrics))
        .expect("present key with metrics must yield dimensions");
    let advance = dims.advance.num as f64 / dims.advance.den as f64;
    assert_eq!(advance, 7.2);
    assert_eq!(dims.advance.num, 600 * 720);
    assert_eq!(dims.advance.den, 60 * 1000);
    assert_eq!(dims.origin_x.num, 50 * 720);
    assert_eq!(dims.origin_y.num, 20 * 720);
    assert_eq!(dims.width.num, (600 - 40 - 50) * 720);
    assert_eq!(dims.height.num, (1100 - 20 - 30) * 720);

    assert!(ctx
        .glyph_dimensions(&instance(9, 720), &GlyphKey::new(7), false, Some(&metrics))
        .is_none());
    assert!(ctx
        .glyph_dimensions(&instance(1, 720), &GlyphKey::new(7), false, None)
        .is_none());
}

#[test]
fn glyph_indices_pass_through_in_order() {
    let mut ctx = FontContext::new(true).unwrap();
    ctx.add_font_from_memory(&FontKey(1), Some(10)).unwrap();
    let characters = vec![65u32, 0x1F600, 66];
    // Index 0 denotes a missing glyph and passes through unchanged.
    let looked_up = vec![36u16, 0, 37];
    let r = ctx.load_glyph_indices_for_characters(&instance(1, 720), &characters, Some(looked_up));
    assert_eq!(r, Ok(vec![36, 0, 37]));
    let r = ctx.load_glyph_indices_for_characters(&instance(1, 720), &characters, None);
    assert_eq!(r, Err(FontError::LoadFailure));
    let r = ctx.load_glyph_indices_for_characters(&instance(2, 720), &characters, Some(vec![1, 2, 3]));
    assert_eq!(r, Err(FontError::NotFound));
}

#[test]
fn pixels_per_unit_reports_design_units() {
    let mut ctx = FontContext::new(true).unwrap();
    ctx.add_font_from_memory(&FontKey(1), Some(10)).unwrap();
    assert_eq!(ctx.pixels_per_unit(&instance(1, 720), 2048), Ok(2048));
    assert_eq!(
        ctx.pixels_per_unit(&instance(2, 720), 2048),
        Err(FontError::NotFound)
    );
}

#[test]
fn native_rasterization_is_unimplemented() {
    let ctx = FontContext::new(true).unwrap();
    let r = ctx.rasterize_glyph_with_native_rasterizer(&instance(1, 720), &GlyphKey::new(3), true);
    assert_eq!(r, Err(FontError::Unimplemented));
}

#[test]
fn registration_completes_only_on_nine_successes() {
    let mut step = RegistrationStep::RegisterFileLoader;
    for _ in 0..9 {
        assert!(!matches!(step, RegistrationStep::Complete));
        step = advance_registration(step, true);
    }
    assert_eq!(step, RegistrationStep::Complete);

    let mut step = RegistrationStep::RegisterFileLoader;
    step = advance_registration(step, true);
    step = advance_registration(step, true);
    step = advance_registration(step, false);
    assert_eq!(step, RegistrationStep::Aborted);
}

#[test]
fn family_names_encode_as_utf16_units() {
    assert_eq!(
        encode_family_name("Arial"),
        vec![65u16, 114, 105, 97, 108]
    );
    assert_eq!(encode_family_name(""), Vec::<u16>::new());
    // A character outside the basic plane takes a surrogate pair.
    assert_eq!(encode_family_name("\u{1F600}"), vec![0xD83D, 0xDE00]);
}
