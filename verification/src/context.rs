//! The font context: owns the catalog of loaded faces, keyed by the caller's
//! font identifier, and answers metric, outline and index queries for them.
//!
//! The host engine is an external collaborator. The unverified shell drives
//! it — registers the loaders, materializes a face, fetches design metrics,
//! runs the tessellator over a [`GeometrySink`] — and hands each outcome to
//! the functions here as plain values; everything decided about those values
//! is decided here. A face is an opaque host-engine handle; the catalog maps
//! each font key to at most one of them.

use vstd::prelude::*;

use crate::geometry::{GlyphOutline, wf_events};
use crate::metrics::{GlyphDimensions, GlyphMetricsData, glyph_dimensions_from_metrics};
use crate::sink::GeometrySink;
use crate::{FontError, FontInstance, FontKey, GlyphKey};

verus! {

/// One catalog slot: a font key and the host-engine handle of the face
/// materialized for it.
#[derive(Clone, Copy, Debug, PartialEq, Eq, Structural)]
pub struct CatalogEntry {
    pub key: u64,
    pub face: u64,
}

/// The map a catalog stands for: later entries win, though a well-formed
/// catalog never repeats a key.
pub open spec fn catalog_map(entries: Seq<CatalogEntry>) -> Map<u64, u64>
    decreases entries.len(),
{
    if entries.len() == 0 {
        Map::empty()
    } else {
        catalog_map(entries.drop_last()).insert(entries.last().key, entries.last().face)
    }
}

/// No key occurs twice.
pub open spec fn unique_keys(entries: Seq<CatalogEntry>) -> bool {
    forall|i: int, j: int|
        0 <= i < j < entries.len() ==> (#[trigger] entries[i]).key != (#[trigger] entries[j]).key
}

/// A key is in the map exactly when some entry carries it.
proof fn lemma_catalog_map_contains(entries: Seq<CatalogEntry>, k: u64)
    ensures
        catalog_map(entries).dom().contains(k) <==> exists|i: int|
            0 <= i < entries.len() && (#[trigger] entries[i]).key == k,
    decreases entries.len(),
{
    if entries.len() > 0 {
        let prev = entries.drop_last();
        lemma_catalog_map_contains(prev, k);
        if entries.last().key == k {
            assert(entries[entries.len() - 1].key == k);
        } else {
            if catalog_map(entries).dom().contains(k) {
                let i = choose|i: int| 0 <= i < prev.len() && (#[trigger] prev[i]).key == k;
                assert(entries[i].key == k);
            }
            if exists|i: int| 0 <= i < entries.len() && (#[trigger] entries[i]).key == k {
                let i = choose|i: int| 0 <= i < entries.len() && (#[trigger] entries[i]).key == k;
                assert(prev[i].key == k);
            }
        }
    }
}

/// In a well-formed catalog, each entry's key maps to that entry's face.
proof fn lemma_catalog_map_value(entries: Seq<CatalogEntry>, i: int)
    requires
        unique_keys(entries),
        0 <= i < entries.len(),
    ensures
        catalog_map(entries).dom().contains(entries[i].key),
        catalog_map(entries)[entries[i].key] == entries[i].face,
    decreases entries.len(),
{
    let prev = entries.drop_last();
    if i == entries.len() - 1 {
    } else {
        assert(unique_keys(prev));
        lemma_catalog_map_value(prev, i);
        assert(prev[i] == entries[i]);
        assert(entries.last().key != entries[i].key);
    }
}

/// Dropping one entry of a well-formed catalog drops exactly its key from the
/// map.
proof fn lemma_catalog_map_remove(entries: Seq<CatalogEntry>, i: int)
    requires
        unique_keys(entries),
        0 <= i < entries.len(),
    ensures
        catalog_map(entries.remove(i)) =~= catalog_map(entries).remove(entries[i].key),
    decreases entries.len(),
{
    let prev = entries.drop_last();
    let k = entries[i].key;
    if i == entries.len() - 1 {
        assert(entries.remove(i) =~= prev);
        lemma_catalog_map_contains(prev, k);
        assert(!catalog_map(prev).dom().contains(k)) by {
            if exists|a: int| 0 <= a < prev.len() && (#[trigger] prev[a]).key == k {
                let a = choose|a: int| 0 <= a < prev.len() && (#[trigger] prev[a]).key == k;
                assert(entries[a].key == entries[i].key);
            }
        }
        assert(catalog_map(entries).remove(k) =~= catalog_map(prev));
    } else {
        assert(unique_keys(prev));
        lemma_catalog_map_remove(prev, i);
        let shorter = entries.remove(i);
        assert(shorter.drop_last() =~= prev.remove(i));
        assert(shorter.last() == entries.last());
        let last = entries.last();
        assert(last.key != k);
        assert(catalog_map(shorter) == catalog_map(prev.remove(i)).insert(last.key, last.face));
        assert(catalog_map(prev).remove(k).insert(last.key, last.face) =~= catalog_map(
            prev,
        ).insert(last.key, last.face).remove(k));
    }
}

/// Dropping an entry keeps the remaining keys unique.
proof fn lemma_unique_keys_remove(entries: Seq<CatalogEntry>, i: int)
    requires
        unique_keys(entries),
        0 <= i < entries.len(),
    ensures
        unique_keys(entries.remove(i)),
{
    entries.remove_ensures(i);
    assert forall|a: int, b: int| 0 <= a < b < entries.remove(i).len() implies (
    #[trigger] entries.remove(i)[a]).key != (#[trigger] entries.remove(i)[b]).key by {
        let a0 = if a < i {
            a
        } else {
            a + 1
        };
        let b0 = if b < i {
            b
        } else {
            b + 1
        };
        assert(entries.remove(i)[a] == entries[a0]);
        assert(entries.remove(i)[b] == entries[b0]);
    }
}

/// A well-formed catalog has exactly one entry per key of its map.
proof fn lemma_catalog_map_len(entries: Seq<CatalogEntry>)
    requires
        unique_keys(entries),
    ensures
        catalog_map(entries).dom().finite(),
        catalog_map(entries).dom().len() == entries.len(),
    decreases entries.len(),
{
    if entries.len() == 0 {
        assert(catalog_map(entries).dom() =~= Set::empty());
    } else {
        let prev = entries.drop_last();
        assert(unique_keys(prev));
        lemma_catalog_map_len(prev);
        let k = entries.last().key;
        lemma_catalog_map_contains(prev, k);
        assert(!catalog_map(prev).dom().contains(k)) by {
            if exists|a: int| 0 <= a < prev.len() && (#[trigger] prev[a]).key == k {
                let a = choose|a: int| 0 <= a < prev.len() && (#[trigger] prev[a]).key == k;
                assert(entries[a].key == entries[entries.len() - 1].key);
            }
        }
        vstd::set::axiom_set_insert_len(catalog_map(prev).dom(), k);
        assert(catalog_map(entries).dom() =~= catalog_map(prev).dom().insert(k));
    }
}

/// How the host engine's one family lookup ended, as the shell reports it:
/// a face was materialized, the family name was absent from the system
/// catalog, or some engine step failed.
#[derive(Clone, Copy, Debug, PartialEq, Eq, Structural)]
pub enum SystemFontLookup {
    /// The family was found and a face materialized: its handle.
    Materialized(u64),
    /// The exact family name is absent from the system font catalog.
    FamilyNotFound,
    /// An engine call failed; no finer cause is exposed.
    Failed,
}

/// A rasterized glyph image. The native rasterization path that would produce
/// one is deliberately unimplemented; the type exists for the signature of
/// that path.
#[derive(Clone, Debug, PartialEq, Eq)]
pub struct GlyphImage {
    pub width: u32,
    pub height: u32,
    pub pixels: Vec<u8>,
}

/// An object that loads fonts through the host shaping engine and answers
/// glyph queries against the loaded faces.
pub struct FontContext {
    catalog: Vec<CatalogEntry>,
}

impl View for FontContext {
    type V = Map<u64, u64>;

    /// The catalog as a map from font-key identifier to face handle.
    closed spec fn view(&self) -> Map<u64, u64> {
        catalog_map(self.catalog@)
    }
}

impl FontContext {
    /// The invariant every operation preserves: a font key maps to at most
    /// one face, because no key occupies two catalog slots.
    pub closed spec fn wf(self) -> bool {
        unique_keys(self.catalog@)
    }

    /// A fresh context with an empty catalog, provided the shell obtained the
    /// engine factory (`factory_available` reports how that call ended);
    /// without a factory nothing can be asked of the engine, and creation
    /// fails with `InitializationFailure`.
    pub fn new(factory_available: bool) -> (r: Result<FontContext, FontError>)
        ensures
            factory_available ==> (r matches Ok(c) && c.wf() && c@ == Map::<u64, u64>::empty()),
            !factory_available ==> r == Err::<FontContext, FontError>(
                FontError::InitializationFailure,
            ),
    {
        if !factory_available {
            return Err(FontError::InitializationFailure);
        }
        Ok(FontContext { catalog: Vec::new() })
    }

    /// The slot holding `key`, if any.
    fn find_entry(&self, key: u64) -> (r: Option<usize>)
        ensures
            match r {
                Some(i) => i < self.catalog@.len() && self.catalog@[i as int].key == key,
                None => forall|i: int|
                    0 <= i < self.catalog@.len() ==> (#[trigger] self.catalog@[i]).key != key,
            },
    {
        let mut i: usize = 0;
        while i < self.catalog.len()
            invariant
                0 <= i <= self.catalog@.len(),
                forall|j: int| 0 <= j < i ==> (#[trigger] self.catalog@[j]).key != key,
            decreases self.catalog@.len() - i,
        {
            if self.catalog[i].key == key {
                return Some(i);
            }
            i = i + 1;
        }
        None
    }

    /// The face handle loaded under `key`, if one is.
    pub fn get_font_face(&self, key: &FontKey) -> (r: Option<u64>)
        requires
            self.wf(),
        ensures
            match r {
                Some(f) => self@.contains_key(key.0) && self@[key.0] == f,
                None => !self@.contains_key(key.0),
            },
    {
        proof {
            lemma_catalog_map_contains(self.catalog@, key.0);
        }
        match self.find_entry(key.0) {
            Some(i) => {
                proof {
                    lemma_catalog_map_value(self.catalog@, i as int);
                }
                Some(self.catalog[i].face)
            },
            None => None,
        }
    }

    /// How many fonts are loaded.
    pub fn font_count(&self) -> (r: usize)
        requires
            self.wf(),
        ensures
            r == self@.dom().len(),
    {
        proof {
            lemma_catalog_map_len(self.catalog@);
        }
        self.catalog.len()
    }

    /// Records the outcome of one memory-font load. If `font_key` is already
    /// present this is a no-op success — the loader chain is not re-driven
    /// and `materialized` is not consulted. Otherwise `materialized` is the
    /// face the shell drove the loader chain to (`None` if any step failed):
    /// a face is inserted under the key, or the load fails generically with
    /// nothing inserted.
    pub fn add_font_from_memory(&mut self, font_key: &FontKey, materialized: Option<u64>) -> (r:
        Result<(), FontError>)
        requires
            old(self).wf(),
        ensures
            final(self).wf(),
            old(self)@.contains_key(font_key.0) ==> r is Ok && final(self)@ == old(self)@,
            !old(self)@.contains_key(font_key.0) ==> (materialized matches Some(face) ==> r is Ok
                && final(self)@ == old(self)@.insert(font_key.0, face)),
            !old(self)@.contains_key(font_key.0) && materialized is None ==> r == Err::<
                (),
                FontError,
            >(FontError::LoadFailure) && final(self)@ == old(self)@,
    {
        if self.get_font_face(font_key).is_some() {
            return Ok(());
        }
        match materialized {
            Some(face) => {
                self.insert_entry(font_key.0, face);
                Ok(())
            },
            None => Err(FontError::LoadFailure),
        }
    }

    /// Records the outcome of one system-font load. If `font_key` is already
    /// present this is a no-op success. Otherwise the shell's family lookup
    /// decides: a materialized face is inserted under the key; an absent
    /// family name fails with `NotFound`; any other engine failure fails
    /// generically. Nothing is inserted on failure.
    pub fn add_system_font(&mut self, font_key: &FontKey, lookup: SystemFontLookup) -> (r: Result<
        (),
        FontError,
    >)
        requires
            old(self).wf(),
        ensures
            final(self).wf(),
            old(self)@.contains_key(font_key.0) ==> r is Ok && final(self)@ == old(self)@,
            !old(self)@.contains_key(font_key.0) ==> (lookup matches SystemFontLookup::Materialized(
                face,
            ) ==> r is Ok && final(self)@ == old(self)@.insert(font_key.0, face)),
            !old(self)@.contains_key(font_key.0) && lookup is FamilyNotFound ==> r == Err::<
                (),
                FontError,
            >(FontError::NotFound) && final(self)@ == old(self)@,
            !old(self)@.contains_key(font_key.0) && lookup is Failed ==> r == Err::<
                (),
                FontError,
            >(FontError::LoadFailure) && final(self)@ == old(self)@,
    {
        if self.get_font_face(font_key).is_some() {
            return Ok(());
        }
        match lookup {
            SystemFontLookup::Materialized(face) => {
                self.insert_entry(font_key.0, face);
                Ok(())
            },
            SystemFontLookup::FamilyNotFound => Err(FontError::NotFound),
            SystemFontLookup::Failed => Err(FontError::LoadFailure),
        }
    }

    /// Appends a fresh entry. Only reached for keys not yet present.
    fn insert_entry(&mut self, key: u64, face: u64)
        requires
            old(self).wf(),
            !old(self)@.contains_key(key),
        ensures
            final(self).wf(),
            final(self)@ == old(self)@.insert(key, face),
    {
        proof {
            lemma_catalog_map_contains(self.catalog@, key);
        }
        self.catalog.push(CatalogEntry { key, face });
        proof {
            assert(self.catalog@.drop_last() =~= old(self).catalog@);
        }
    }

    /// Removes the catalog entry for `font_key` if one is present; on an
    /// absent key this is a no-op that never fails. The context's own
    /// reference goes with the entry; the face may outlive deletion if the
    /// engine or other code still holds references.
    pub fn delete_font(&mut self, font_key: &FontKey)
        requires
            old(self).wf(),
        ensures
            final(self).wf(),
            final(self)@ == old(self)@.remove(font_key.0),
            !old(self)@.contains_key(font_key.0) ==> final(self)@ == old(self)@,
    {
        proof {
            lemma_catalog_map_contains(self.catalog@, font_key.0);
        }
        match self.find_entry(font_key.0) {
            Some(i) => {
                proof {
                    lemma_catalog_map_remove(self.catalog@, i as int);
                    lemma_unique_keys_remove(self.catalog@, i as int);
                }
                self.catalog.remove(i);
            },
            None => {
                proof {
                    assert(catalog_map(self.catalog@).remove(font_key.0) =~= catalog_map(
                        self.catalog@,
                    ));
                }
            },
        }
    }

    /// The dimensions of one glyph at the instance's size: nothing if the
    /// instance's key is absent or the engine's metrics call failed
    /// (`design_metrics` is `None`); otherwise exactly the design metrics
    /// scaled by `size / units_per_em`, as [`crate::metrics::dimensions_of`]
    /// states. The `exact` flag is accepted but not yet differentiated.
    pub fn glyph_dimensions(
        &self,
        font_instance: &FontInstance,
        _glyph_key: &GlyphKey,
        _exact: bool,
        design_metrics: Option<&GlyphMetricsData>,
    ) -> (r: Option<GlyphDimensions>)
        requires
            self.wf(),
            design_metrics matches Some(m) ==> m.units_per_em >= 1,
        ensures
            !self@.contains_key(font_instance.font_key.0) ==> r is None,
            self@.contains_key(font_instance.font_key.0) && design_metrics is None ==> r is None,
            self@.contains_key(font_instance.font_key.0) ==> (design_metrics matches Some(m) ==> r
                == Some(crate::metrics::dimensions_of(*m, font_instance.size))),
    {
        if self.get_font_face(&font_instance.font_key).is_none() {
            return None;
        }
        match design_metrics {
            Some(m) => Some(glyph_dimensions_from_metrics(m, font_instance.size)),
            None => None,
        }
    }

    /// The path commands of one glyph: fails with `NotFound` on an absent
    /// key and generically if the engine's outline call failed
    /// (`tessellation` is `None`); otherwise the sequence captured by the
    /// sink the shell ran the tessellator over, moved out to the caller.
    pub fn glyph_outline(
        &mut self,
        font_instance: &FontInstance,
        _glyph_key: &GlyphKey,
        tessellation: Option<GeometrySink>,
    ) -> (r: Result<GlyphOutline, FontError>)
        requires
            old(self).wf(),
            tessellation matches Some(sink) ==> sink.wf(),
        ensures
            final(self).wf(),
            final(self)@ == old(self)@,
            !old(self)@.contains_key(font_instance.font_key.0) ==> r == Err::<
                GlyphOutline,
                FontError,
            >(FontError::NotFound),
            old(self)@.contains_key(font_instance.font_key.0) && tessellation is None ==> r
                == Err::<GlyphOutline, FontError>(FontError::LoadFailure),
            old(self)@.contains_key(font_instance.font_key.0) ==> (tessellation matches Some(sink)
                ==> r matches Ok(outline) && outline@ == sink.events@ && wf_events(outline@)),
    {
        if self.get_font_face(&font_instance.font_key).is_none() {
            return Err(FontError::NotFound);
        }
        match tessellation {
            Some(mut sink) => {
                let events = sink.take_events();
                Ok(GlyphOutline { events })
            },
            None => Err(FontError::LoadFailure),
        }
    }

    /// Native rasterization: deliberately unimplemented, always fails.
    pub fn rasterize_glyph_with_native_rasterizer(
        &self,
        _font_instance: &FontInstance,
        _glyph_key: &GlyphKey,
        _exact: bool,
    ) -> (r: Result<GlyphImage, FontError>)
        ensures
            r == Err::<GlyphImage, FontError>(FontError::Unimplemented),
    {
        Err(FontError::Unimplemented)
    }

    /// One glyph index per input character, in input order, as the engine's
    /// batch lookup reported them (`glyph_lookup`, `None` if that call
    /// failed). Index `0` denotes a missing glyph and passes through
    /// unchanged. Fails with `NotFound` on an absent key and generically on
    /// a failed lookup.
    pub fn load_glyph_indices_for_characters(
        &self,
        font_instance: &FontInstance,
        characters: &Vec<u32>,
        glyph_lookup: Option<Vec<u16>>,
    ) -> (r: Result<Vec<u16>, FontError>)
        requires
            self.wf(),
            glyph_lookup matches Some(glyphs) ==> glyphs@.len() == characters@.len(),
        ensures
            !self@.contains_key(font_instance.font_key.0) ==> r == Err::<
                Vec<u16>,
                FontError,
            >(FontError::NotFound),
            self@.contains_key(font_instance.font_key.0) && glyph_lookup is None ==> r == Err::<
                Vec<u16>,
                FontError,
            >(FontError::LoadFailure),
            self@.contains_key(font_instance.font_key.0) ==> (glyph_lookup matches Some(glyphs) ==> r
                matches Ok(v) && v@ == glyphs@ && v@.len() == characters@.len()),
    {
        if self.get_font_face(&font_instance.font_key).is_none() {
            return Err(FontError::NotFound);
        }
        match glyph_lookup {
            Some(glyphs) => Ok(glyphs),
            None => Err(FontError::LoadFailure),
        }
    }

    /// The face's design units per em, as the engine reports them for the
    /// instance's face; fails with `NotFound` on an absent key. (The name is
    /// the query's traditional one; the value is design units, and a consumer
    /// divides pixels by it.)
    pub fn pixels_per_unit(&self, font_instance: &FontInstance, units_per_em: u16) -> (r: Result<
        u16,
        FontError,
    >)
        requires
            self.wf(),
        ensures
            !self@.contains_key(font_instance.font_key.0) ==> r == Err::<u16, FontError>(
                FontError::NotFound,
            ),
            self@.contains_key(font_instance.font_key.0) ==> r == Ok::<u16, FontError>(
                units_per_em,
            ),
    {
        if self.get_font_face(&font_instance.font_key).is_none() {
            return Err(FontError::NotFound);
        }
        Ok(units_per_em)
    }
}

/// Loading a font under a key that is already present changes nothing: once a
/// face is inserted under a key the key is present, so a second load with the
/// same key (same bytes or not) returns success by `add_font_from_memory`'s
/// contract without re-driving the loader chain, and the catalog still maps
/// the key to exactly the one face first inserted.
pub proof fn lemma_add_font_idempotent(catalog: Map<u64, u64>, key: u64, face: u64)
    ensures
        catalog.insert(key, face).contains_key(key),
        catalog.insert(key, face)[key] == face,
        catalog.insert(key, face).insert(key, face) == catalog.insert(key, face),
{
    assert(catalog.insert(key, face).insert(key, face) =~= catalog.insert(key, face));
}

} // verus!
