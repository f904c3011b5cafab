//! The texture cache: one long-lived mapping from a rendered-text
//! fingerprint to a previously rasterized texture handle. It is a
//! read-through cache: a hit returns the stored handle and touches the
//! backend not at all; a miss rasterizes exactly once and stores the result;
//! nothing is ever evicted. A rasterization failure propagates to the caller
//! and leaves the cache unchanged.

use vstd::prelude::*;

use crate::backend::{Backend, BackendCall, RasterizationError, TextKey, Texture};
use crate::geometry::{Bounds, FontSettings};

verus! {

/// The cache key: bounds, font settings and content together. Bounds is
/// deliberately part of the key, so every distinct position and size gets
/// its own cached texture.
pub struct TextRenderSettings {
    pub bounds: Bounds,
    pub font_settings: FontSettings,
    pub content: String,
}

impl View for TextRenderSettings {
    type V = TextKey;

    open spec fn view(&self) -> TextKey {
        TextKey {
            bounds: self.bounds,
            font_settings: self.font_settings,
            content: self.content@,
        }
    }
}

impl PartialEq for TextRenderSettings {
    /// Two keys are equal iff all three fields are equal value-wise; content
    /// is compared by full string equality.
    fn eq(&self, other: &Self) -> (r: bool) {
        self.bounds == other.bounds && self.font_settings == other.font_settings
            && self.content == other.content
    }
}

impl vstd::std_specs::cmp::PartialEqSpecImpl for TextRenderSettings {
    open spec fn obeys_eq_spec() -> bool {
        true
    }

    open spec fn eq_spec(&self, other: &Self) -> bool {
        self@ == other@
    }
}

/// The fingerprint under which a piece of styled text at a position is
/// cached.
pub open spec fn text_key(bounds: Bounds, font_settings: FontSettings, content: Seq<char>) -> TextKey {
    TextKey { bounds, font_settings, content }
}

/// The mapping a list of cache entries denotes, later entries winning.
pub open spec fn map_of(s: Seq<(TextRenderSettings, Texture)>) -> Map<TextKey, Texture>
    decreases s.len(),
{
    if s.len() == 0 {
        Map::empty()
    } else {
        map_of(s.drop_last()).insert(s.last().0@, s.last().1)
    }
}

/// A key is in the mapping exactly when some entry carries it.
proof fn lemma_map_of_contains(s: Seq<(TextRenderSettings, Texture)>)
    ensures
        forall|k: TextKey| #[trigger] map_of(s).contains_key(k)
            <==> exists|i: int| 0 <= i < s.len() && #[trigger] s[i].0@ == k,
    decreases s.len(),
{
    if s.len() > 0 {
        let d = s.drop_last();
        lemma_map_of_contains(d);
        assert forall|k: TextKey| #[trigger] map_of(s).contains_key(k)
            implies exists|i: int| 0 <= i < s.len() && #[trigger] s[i].0@ == k by {
            if k == s.last().0@ {
                assert(s[s.len() - 1].0@ == k);
            } else {
                assert(map_of(d).contains_key(k));
                let i = choose|i: int| 0 <= i < d.len() && #[trigger] d[i].0@ == k;
                assert(d[i] == s[i]);
                assert(s[i].0@ == k);
            }
        }
        assert forall|k: TextKey| (exists|i: int| 0 <= i < s.len() && #[trigger] s[i].0@ == k)
            implies #[trigger] map_of(s).contains_key(k) by {
            let i = choose|i: int| 0 <= i < s.len() && #[trigger] s[i].0@ == k;
            if i < s.len() - 1 {
                assert(d[i] == s[i]);
                assert(d[i].0@ == k);
                assert(map_of(d).contains_key(k));
            }
        }
    }
}

/// With pairwise-distinct keys, each entry's value is the mapping's value.
proof fn lemma_map_of_index(s: Seq<(TextRenderSettings, Texture)>, i: int)
    requires
        forall|p: int, q: int| 0 <= p < q < s.len()
            ==> #[trigger] s[p].0@ != #[trigger] s[q].0@,
        0 <= i < s.len(),
    ensures
        map_of(s).contains_key(s[i].0@),
        map_of(s)[s[i].0@] == s[i].1,
    decreases s.len(),
{
    if i < s.len() - 1 {
        lemma_map_of_index(s.drop_last(), i);
        assert(s.drop_last()[i] == s[i]);
        assert(s[i].0@ != s.last().0@);
    }
}

/// The process-wide keyed texture cache, initialized empty and populated
/// lazily. Its model is the mapping from fingerprints to texture handles.
pub struct TextureCache {
    entries: Vec<(TextRenderSettings, Texture)>,
}

impl View for TextureCache {
    type V = Map<TextKey, Texture>;

    closed spec fn view(&self) -> Map<TextKey, Texture> {
        map_of(self.entries@)
    }
}

impl TextureCache {
    /// Entries carry pairwise-distinct keys, so lookup order never matters.
    pub closed spec fn wf(&self) -> bool {
        forall|p: int, q: int| 0 <= p < q < self.entries@.len()
            ==> #[trigger] self.entries@[p].0@ != #[trigger] self.entries@[q].0@
    }

    /// A fresh, empty cache.
    pub fn new() -> (r: TextureCache)
        ensures
            r.wf(),
            r@ == Map::<TextKey, Texture>::empty(),
    {
        TextureCache { entries: Vec::new() }
    }

    /// Look the key up without touching the backend.
    fn lookup(&self, settings: &TextRenderSettings) -> (r: Option<Texture>)
        requires
            self.wf(),
        ensures
            match r {
                Some(t) => self@.contains_key(settings@) && t == self@[settings@],
                None => !self@.contains_key(settings@),
            },
    {
        let n = self.entries.len();
        let mut i: usize = 0;
        while i < n
            invariant
                self.wf(),
                n == self.entries@.len(),
                i <= n,
                forall|j: int| 0 <= j < i ==> #[trigger] self.entries@[j].0@ != settings@,
            decreases n - i,
        {
            if self.entries[i].0 == *settings {
                let t = self.entries[i].1;
                proof {
                    lemma_map_of_index(self.entries@, i as int);
                }
                return Some(t);
            }
            i += 1;
        }
        proof {
            lemma_map_of_contains(self.entries@);
        }
        None
    }

    /// Return the texture cached under the key, rasterizing it first through
    /// the backend exactly when the key is not present yet. A hit issues no
    /// backend call at all; a successful miss issues exactly one
    /// rasterization and stores its result; a failed rasterization leaves
    /// the cache unchanged and propagates the error.
    pub fn get_or_create<B: Backend>(&mut self, backend: &mut B, settings: TextRenderSettings) -> (r: Result<Texture, RasterizationError>)
        requires
            old(self).wf(),
        ensures
            final(self).wf(),
            old(self)@.contains_key(settings@) ==> r == Ok::<Texture, RasterizationError>(old(self)@[settings@])
                && final(self)@ == old(self)@
                && final(backend).calls() == old(backend).calls(),
            !old(self)@.contains_key(settings@) ==> (match r {
                Ok(t) => final(self)@ == old(self)@.insert(settings@, t)
                    && final(backend).calls() == old(backend).calls().push(
                        (BackendCall::RasterizeText { key: settings@ }),
                    ),
                Err(_) => final(self)@ == old(self)@
                    && final(backend).calls() == old(backend).calls(),
            }),
    {
        match self.lookup(&settings) {
            Some(t) => Ok(t),
            None => {
                let texture = match create_text_texture(backend, &settings) {
                    Ok(t) => t,
                    Err(e) => {
                        return Err(e);
                    },
                };
                proof {
                    lemma_map_of_contains(self.entries@);
                }
                let ghost oldentries = self.entries@;
                self.entries.push((settings, texture));
                proof {
                    assert(self.entries@.drop_last() =~= oldentries);
                    assert(forall|j: int| 0 <= j < oldentries.len()
                        ==> #[trigger] oldentries[j].0@ != self.entries@.last().0@);
                }
                Ok(texture)
            },
        }
    }
}

/// Invoke the backend rasterizer for the given fingerprint's text and style.
/// On success the rasterization is the single call issued.
pub fn create_text_texture<B: Backend>(backend: &mut B, settings: &TextRenderSettings) -> (r: Result<Texture, RasterizationError>)
    ensures
        r is Ok ==> final(backend).calls() == old(backend).calls().push(
            (BackendCall::RasterizeText { key: settings@ }),
        ),
        r is Err ==> final(backend).calls() == old(backend).calls(),
{
    backend.rasterize_text(&settings.content, &settings.bounds, &settings.font_settings)
}

/// Fetch or create the texture for one text run: build the fingerprint from
/// bounds, font settings and content, and read through the cache.
pub fn render_text<B: Backend>(cache: &mut TextureCache, backend: &mut B, bounds: &Bounds, font_settings: &FontSettings, content: String) -> (r: Result<Texture, RasterizationError>)
    requires
        old(cache).wf(),
    ensures
        final(cache).wf(),
        old(cache)@.contains_key(text_key(*bounds, *font_settings, content@))
            ==> r == Ok::<Texture, RasterizationError>(
                old(cache)@[text_key(*bounds, *font_settings, content@)],
            ) && final(cache)@ == old(cache)@
                && final(backend).calls() == old(backend).calls(),
        !old(cache)@.contains_key(text_key(*bounds, *font_settings, content@)) ==> (match r {
            Ok(t) => final(cache)@ == old(cache)@.insert(text_key(*bounds, *font_settings, content@), t)
                && final(backend).calls() == old(backend).calls().push(
                    (BackendCall::RasterizeText { key: text_key(*bounds, *font_settings, content@) }),
                ),
            Err(_) => final(cache)@ == old(cache)@
                && final(backend).calls() == old(backend).calls(),
        }),
{
    let settings = TextRenderSettings {
        bounds: *bounds,
        font_settings: *font_settings,
        content,
    };
    cache.get_or_create(backend, settings)
}

/// Cache idempotence: once a missed key stores its rasterized texture, the
/// key is present and maps to that texture, so every later fetch for it is a
/// hit that returns the same handle and rasterizes nothing.
pub proof fn lemma_cache_idempotent(pre: Map<TextKey, Texture>, k: TextKey, t: Texture)
    ensures
        pre.insert(k, t).contains_key(k),
        pre.insert(k, t)[k] == t,
{
}

/// Cache key sensitivity: fingerprints differing in any one field are
/// distinct keys, and an entry stored under one leaves the other's entry
/// untouched.
pub proof fn lemma_key_sensitivity(a: TextKey, b: TextKey, m: Map<TextKey, Texture>, t: Texture)
    requires
        a.content != b.content || a.bounds != b.bounds || a.font_settings != b.font_settings,
    ensures
        a != b,
        m.insert(a, t).contains_key(b) == m.contains_key(b),
        m.contains_key(b) ==> m.insert(a, t)[b] == m[b],
{
}

} // verus!
