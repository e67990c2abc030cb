//! Font faces loaded from TrueType/OpenType data, and what the library reads of them.
use vstd::prelude::*;
use crate::font::GlyphMetrics;
use crate::ttf::{
    FontParseError, face_glyph_index, ttf_ascender, ttf_ascender_of, ttf_cmap_len, ttf_color_tables,
    ttf_color_tables_of, ttf_descender, ttf_descender_of, ttf_face_parse, ttf_glyph_hor_advance,
    ttf_glyph_hor_advance_of, ttf_glyph_index_of, ttf_glyph_y_bounds, ttf_glyph_y_bounds_of,
    ttf_italic_angle, ttf_italic_angle_of, ttf_name_count, ttf_name_count_of, ttf_name_record,
    ttf_name_record_of, ttf_number_of_glyphs, ttf_number_of_glyphs_of, ttf_parse, ttf_parses,
    ttf_subtable_codepoints, ttf_subtable_glyph, ttf_subtable_is_unicode, ttf_units_per_em,
    ttf_subtable_glyph_of, ttf_cmap_len_of, ttf_subtable_is_unicode_of, ttf_subtable_codepoints_of,
    ttf_units_per_em_of,
};

verus! {

/// Whether `cp` is a Unicode scalar value, that is, a code point that is a `char`.
pub open spec fn is_scalar(cp: u32) -> bool {
    cp <= 0x10FFFF && !(0xD800 <= cp && cp <= 0xDFFF)
}

/// The (glyph, character) pairs that `cmap` subtable `i` gives for the code points `cps`,
/// in order: a code point counts when it is a character and the subtable maps it to a
/// glyph other than 0.
pub open spec fn subtable_pairs(data: Seq<u8>, index: u32, i: u16, cps: Seq<u32>) -> Seq<(u16, u32)>
    decreases cps.len(),
{
    if cps.len() == 0 {
        Seq::empty()
    } else {
        let rest = subtable_pairs(data, index, i, cps.drop_last());
        let cp = cps.last();
        match ttf_subtable_glyph(data, index, i, cp) {
            Some(g) => if is_scalar(cp) && g > 0 {
                rest.push((g, cp))
            } else {
                rest
            },
            None => rest,
        }
    }
}

/// The pairs that the Unicode subtables among the first `n` subtables give, in order.
pub open spec fn cmap_pairs(data: Seq<u8>, index: u32, n: nat) -> Seq<(u16, u32)>
    decreases n,
{
    if n == 0 {
        Seq::empty()
    } else {
        let rest = cmap_pairs(data, index, (n - 1) as nat);
        let i = (n - 1) as u16;
        if ttf_subtable_is_unicode(data, index, i) == Some(true) {
            rest + subtable_pairs(data, index, i, ttf_subtable_codepoints(data, index, i))
        } else {
            rest
        }
    }
}

/// Where a walk over the subtables from `i` ends: at `len`, or at the first subtable that
/// cannot be read.
pub open spec fn cmap_walk_end(data: Seq<u8>, index: u32, i: nat, len: nat) -> nat
    decreases len - i,
{
    if i >= len || i > u16::MAX || ttf_subtable_is_unicode(data, index, i as u16) is None {
        i
    } else {
        cmap_walk_end(data, index, i + 1, len)
    }
}

/// Pairs folded into a map where the first pair for a glyph wins.
pub open spec fn first_wins(pairs: Seq<(u16, u32)>) -> Map<u16, u32>
    decreases pairs.len(),
{
    if pairs.len() == 0 {
        Map::empty()
    } else {
        let m = first_wins(pairs.drop_last());
        let p = pairs.last();
        if m.contains_key(p.0) {
            m
        } else {
            m.insert(p.0, p.1)
        }
    }
}

/// Law of the glyph map: a glyph is mapped exactly when some pair names it, and to the
/// character of the first pair that names it, whatever pairs for it follow.
pub proof fn law_first_character_wins(pairs: Seq<(u16, u32)>, i: int)
    requires
        0 <= i < pairs.len(),
        forall|j: int| 0 <= j < i ==> pairs[j].0 != pairs[i].0,
    ensures
        first_wins(pairs).contains_key(pairs[i].0),
        first_wins(pairs)[pairs[i].0] == pairs[i].1,
    decreases pairs.len(),
{
    let p = pairs.drop_last();
    if i < pairs.len() - 1 {
        law_first_character_wins(p, i);
    } else {
        lemma_first_wins_domain(p);
        assert(!first_wins(p).contains_key(pairs[i].0)) by {
            if first_wins(p).contains_key(pairs[i].0) {
                let j = choose|j: int| 0 <= j < p.len() && p[j].0 == pairs[i].0;
                assert(pairs[j].0 == pairs[i].0);
            }
        }
    }
}

/// The glyphs of the glyph map are those that some pair names.
pub proof fn lemma_first_wins_domain(pairs: Seq<(u16, u32)>)
    ensures
        forall|g: u16| first_wins(pairs).contains_key(g) <==> exists|j: int| 0 <= j < pairs.len() && pairs[j].0 == g,
    decreases pairs.len(),
{
    if pairs.len() > 0 {
        let p = pairs.drop_last();
        lemma_first_wins_domain(p);
        let m = first_wins(p);
        let l = pairs.last();
        assert(first_wins(pairs) == (if m.contains_key(l.0) { m } else { m.insert(l.0, l.1) }));
        assert forall|g: u16| first_wins(pairs).contains_key(g) <==> exists|j: int| 0 <= j < pairs.len() && pairs[j].0 == g by {
            if exists|j: int| 0 <= j < pairs.len() && pairs[j].0 == g {
                let j = choose|j: int| 0 <= j < pairs.len() && pairs[j].0 == g;
                if j < p.len() {
                    assert(p[j].0 == g);
                }
            }
            if exists|j: int| 0 <= j < p.len() && p[j].0 == g {
                let j = choose|j: int| 0 <= j < p.len() && p[j].0 == g;
                assert(pairs[j].0 == g);
            }
            if g == pairs.last().0 {
                assert(pairs[pairs.len() - 1].0 == g);
            }
        }
    }
}

/// The character of each glyph: for every glyph, the first character that a Unicode
/// subtable maps to it.
pub open spec fn glyph_char_map(data: Seq<u8>, index: u32) -> Map<u16, u32> {
    match ttf_cmap_len(data, index) {
        None => Map::empty(),
        Some(len) => first_wins(cmap_pairs(data, index, cmap_walk_end(data, index, 0, len as nat))),
    }
}

/// The height of a glyph: the height of its bounding box less the face's descender,
/// computed in 16 bits as the face's integer type does; 1000 without a bounding box.
pub open spec fn glyph_height(data: Seq<u8>, index: u32, glyph: u16) -> u32 {
    match ttf_glyph_y_bounds(data, index, glyph) {
        Some((y_min, y_max)) => (y_max.wrapping_sub(y_min).wrapping_sub(ttf_descender(data, index))) as u32,
        None => 1000,
    }
}

/// The metrics of a glyph: its horizontal advance and height, when it has an advance.
pub open spec fn glyph_metrics_spec(data: Seq<u8>, index: u32, glyph: u16) -> Option<GlyphMetrics> {
    match ttf_glyph_hor_advance(data, index, glyph) {
        Some(w) => Some(GlyphMetrics { width: w as u32, height: glyph_height(data, index, glyph) }),
        None => None,
    }
}

/// The font's name: the text of the first Unicode `name` record with the family name id (1),
/// reading records from `i` up to `count` and stopping at the first one that cannot be read.
pub open spec fn family_name_from(data: Seq<u8>, index: u32, i: nat, count: nat) -> Option<Seq<char>>
    decreases count - i,
{
    if i >= count || i > u16::MAX {
        None
    } else {
        match ttf_name_record(data, index, i as u16) {
            None => None,
            Some((id, text)) => if id == 1 && text is Some {
                text
            } else {
                family_name_from(data, index, i + 1, count)
            },
        }
    }
}

/// The family name of the face.
pub open spec fn family_name(data: Seq<u8>, index: u32) -> Option<Seq<char>> {
    family_name_from(data, index, 0, ttf_name_count(data, index) as nat)
}

/// Whether the face has a colour glyph table (`COLR`, `sbix`, `CBDT` or `SVG `).
pub open spec fn has_color_tables(data: Seq<u8>, index: u32) -> bool {
    let t = ttf_color_tables(data, index);
    t.0 || t.1 || t.2 || t.3
}

proof fn lemma_walk_end(data: Seq<u8>, index: u32, j: nat, i: nat, len: nat)
    requires
        j <= i <= len <= u16::MAX,
        forall|t: u16| j <= t < i ==> (#[trigger] ttf_subtable_is_unicode(data, index, t)) is Some,
        i == len || ttf_subtable_is_unicode(data, index, i as u16) is None,
    ensures
        cmap_walk_end(data, index, j, len) == i,
    decreases i - j,
{
    if j < i {
        lemma_walk_end(data, index, j + 1, i, len);
    }
}

/// The entry for glyph `g` in a table of 65536 slots that holds a glyph → character map.
pub open spec fn slot_of(m: Map<u16, u32>, g: u16) -> Option<u32> {
    if m.contains_key(g) {
        Some(m[g])
    } else {
        None
    }
}

/// Whether a code point is a character.
fn is_scalar_value(cp: u32) -> (r: bool)
    ensures
        r == is_scalar(cp),
{
    cp <= 0x10FFFF && !(0xD800 <= cp && cp <= 0xDFFF)
}

/// A table of 65536 empty slots.
fn empty_slots() -> (slots: Vec<Option<u32>>)
    ensures
        slots.len() == 65536,
        forall|t: int| 0 <= t < 65536 ==> slots@[t] is None,
{
    let mut slots: Vec<Option<u32>> = Vec::new();
    let mut g: usize = 0;
    while g < 65536
        invariant
            g <= 65536,
            slots.len() == g,
            forall|t: int| 0 <= t < g ==> slots@[t] is None,
        decreases 65536 - g,
    {
        slots.push(None);
        g = g + 1;
    }
    slots
}

/// Adds the pairs that `cmap` subtable `i` gives for the code points `cps` to the slots,
/// keeping the first character of each glyph.
fn add_subtable_pairs(data: &[u8], index: u32, i: u16, cps: &Vec<u32>, slots: &mut Vec<Option<u32>>, Ghost(before): Ghost<Seq<(u16, u32)>>)
    requires
        ttf_parses(data@, index),
        old(slots).len() == 65536,
        forall|t: int| 0 <= t < 65536 ==> old(slots)@[t] == slot_of(first_wins(before), t as u16),
    ensures
        final(slots).len() == 65536,
        forall|t: int| 0 <= t < 65536 ==> final(slots)@[t] == slot_of(
            first_wins(before + subtable_pairs(data@, index, i, cps@)),
            t as u16,
        ),
{
    let mut k: usize = 0;
    while k < cps.len()
        invariant
            ttf_parses(data@, index),
            k <= cps.len(),
            slots.len() == 65536,
            forall|t: int| 0 <= t < 65536 ==> slots@[t] == slot_of(
                first_wins(before + subtable_pairs(data@, index, i, cps@.take(k as int))),
                t as u16,
            ),
        decreases cps.len() - k,
    {
        let ghost prev = before + subtable_pairs(data@, index, i, cps@.take(k as int));
        let cp = cps[k];
        proof {
            assert(cps@.take(k + 1).drop_last() =~= cps@.take(k as int));
            assert(cps@.take(k + 1).last() == cp);
        }
        match ttf_subtable_glyph_of(data, index, i, cp) {
            Some(g) => {
                if is_scalar_value(cp) && g > 0 {
                    let ghost pushed = prev.push((g, cp));
                    proof {
                        assert(before + subtable_pairs(data@, index, i, cps@.take(k + 1)) =~= pushed);
                        assert(pushed.drop_last() =~= prev);
                    }
                    if slots[g as usize].is_none() {
                        slots.set(g as usize, Some(cp));
                    }
                    proof {
                        assert forall|t: int| 0 <= t < 65536 implies slots@[t] == slot_of(first_wins(pushed), t as u16) by {
                            if t != g as int {
                                assert((t as u16) != g);
                            }
                        }
                    }
                } else {
                    assert(before + subtable_pairs(data@, index, i, cps@.take(k + 1)) =~= prev);
                }
            },
            None => {
                assert(before + subtable_pairs(data@, index, i, cps@.take(k + 1)) =~= prev);
            },
        }
        k = k + 1;
    }
    assert(cps@.take(cps.len() as int) =~= cps@);
}

/// The glyph → character map of the face, as a table of 65536 slots.
fn glyph_char_slots(data: &[u8], index: u32) -> (slots: Vec<Option<u32>>)
    requires
        ttf_parses(data@, index),
    ensures
        slots.len() == 65536,
        forall|t: int| 0 <= t < 65536 ==> slots@[t] == slot_of(glyph_char_map(data@, index), t as u16),
{
    let mut slots = empty_slots();
    let len = match ttf_cmap_len_of(data, index) {
        None => {
            return slots;
        },
        Some(l) => l,
    };
    assert(first_wins(cmap_pairs(data@, index, 0)) =~= Map::<u16, u32>::empty());
    let mut i: u16 = 0;
    let mut stopped = false;
    while i < len && !stopped
        invariant
            ttf_parses(data@, index),
            ttf_cmap_len(data@, index) == Some(len),
            i <= len,
            slots.len() == 65536,
            forall|t: u16| t < i ==> (#[trigger] ttf_subtable_is_unicode(data@, index, t)) is Some,
            stopped ==> ttf_subtable_is_unicode(data@, index, i) is None,
            forall|t: int| 0 <= t < 65536 ==> slots@[t] == slot_of(first_wins(cmap_pairs(data@, index, i as nat)), t as u16),
        decreases 2 * (len - i) + (if stopped { 0int } else { 1int }),
    {
        let ghost n = (i + 1) as nat;
        assert(((n - 1) as u16) == i);
        match ttf_subtable_is_unicode_of(data, index, i) {
            None => {
                stopped = true;
            },
            Some(false) => {
                assert(cmap_pairs(data@, index, n) == cmap_pairs(data@, index, i as nat));
                i = i + 1;
            },
            Some(true) => {
                let cps = ttf_subtable_codepoints_of(data, index, i);
                add_subtable_pairs(data, index, i, &cps, &mut slots, Ghost(cmap_pairs(data@, index, i as nat)));
                assert(cmap_pairs(data@, index, n) == cmap_pairs(data@, index, i as nat) + subtable_pairs(
                    data@,
                    index,
                    i,
                    cps@,
                ));
                i = i + 1;
            },
        }
    }
    proof {
        lemma_walk_end(data@, index, 0, i as nat, len as nat);
    }
    slots
}

/// The filled slots of a table, as (glyph, character) pairs in glyph order.
fn slots_in_order(slots: &Vec<Option<u32>>) -> (r: Vec<(u16, u32)>)
    requires
        slots.len() == 65536,
    ensures
        r.len() <= 65536,
        forall|a: int, b: int| 0 <= a < b < r.len() ==> r[a].0 < r[b].0,
        forall|k: int| 0 <= k < r.len() ==> slots@[r[k].0 as int] == Some(r[k].1),
        forall|t: int| 0 <= t < 65536 && slots@[t] is Some ==> exists|k: int| 0 <= k < r.len() && r[k].0 == t,
{
    let mut r: Vec<(u16, u32)> = Vec::new();
    let mut g: usize = 0;
    while g < 65536
        invariant
            slots.len() == 65536,
            g <= 65536,
            r.len() <= g,
            forall|a: int, b: int| 0 <= a < b < r.len() ==> r[a].0 < r[b].0,
            forall|k: int| 0 <= k < r.len() ==> r[k].0 < g && slots@[r[k].0 as int] == Some(r[k].1),
            forall|t: int| 0 <= t < g && slots@[t] is Some ==> exists|k: int| 0 <= k < r.len() && r[k].0 == t,
        decreases 65536 - g,
    {
        match slots[g] {
            Some(cp) => {
                let ghost old_r = r@;
                r.push((g as u16, cp));
                proof {
                    assert forall|t: int| 0 <= t < g + 1 && slots@[t] is Some implies exists|k: int|
                        0 <= k < r.len() && r[k].0 == t by {
                        if t == g {
                            assert(r[r.len() - 1].0 == t);
                        } else {
                            let k = choose|k: int| 0 <= k < old_r.len() && old_r[k].0 == t;
                            assert(r[k].0 == t);
                        }
                    }
                }
            },
            None => {},
        }
        g = g + 1;
    }
    r
}

/// A face owned as a byte buffer, with the index of the face in it.
#[derive(Debug, PartialEq)]
pub struct OwnedPdfTtfFont {
    data: Vec<u8>,
    index: u32,
}

impl OwnedPdfTtfFont {
    #[verifier::type_invariant]
    spec fn parses(self) -> bool {
        ttf_parses(self.data@, self.index)
    }

    /// The font data.
    pub closed spec fn bytes(self) -> Seq<u8> {
        self.data@
    }

    /// The index of the face in the font data.
    pub closed spec fn face_index(self) -> u32 {
        self.index
    }

    /// Parses the face at `index` of `data` (use 0 when the index is not known).
    pub fn new_vec(data: Vec<u8>, index: u32) -> (r: Result<Self, FontParseError>)
        ensures
            match r {
                Ok(f) => ttf_face_parse(data@, index) is Ok && f.bytes() == data@ && f.face_index() == index,
                Err(e) => ttf_face_parse(data@, index) == Err::<(), FontParseError>(e),
            },
    {
        match ttf_parse(data.as_slice(), index) {
            Ok(()) => {
                assert(ttf_parses(data@, index));
                Ok(OwnedPdfTtfFont { data, index })
            },
            Err(e) => Err(e),
        }
    }

    /// The font data and face index, with the fact that they parse.
    fn face(&self) -> (r: (&[u8], u32))
        ensures
            r.0@ == self.bytes(),
            r.1 == self.face_index(),
            ttf_parses(r.0@, r.1),
    {
        proof {
            use_type_invariant(self);
        }
        (self.data.as_slice(), self.index)
    }
}

impl Clone for OwnedPdfTtfFont {
    fn clone(&self) -> (r: Self)
        ensures
            r.bytes() == self.bytes(),
            r.face_index() == self.face_index(),
    {
        proof {
            use_type_invariant(self);
        }
        let data = self.data.clone();
        assert(data@ =~= self.data@);
        OwnedPdfTtfFont { data, index: self.index }
    }
}

/// A face over font data that lives for the whole program (embedded in the binary).
#[derive(Debug, PartialEq)]
pub struct StaticTtfFace {
    data: &'static [u8],
    index: u32,
}

impl StaticTtfFace {
    #[verifier::type_invariant]
    spec fn parses(self) -> bool {
        ttf_parses(self.data@, self.index)
    }

    /// The font data.
    pub closed spec fn bytes(self) -> Seq<u8> {
        self.data@
    }

    /// The index of the face in the font data.
    pub closed spec fn face_index(self) -> u32 {
        self.index
    }

    /// Parses the face at `index` of `data`.
    pub fn from_slice(data: &'static [u8], index: u32) -> (r: Result<Self, FontParseError>)
        ensures
            match r {
                Ok(f) => ttf_face_parse(data@, index) is Ok && f.bytes() == data@ && f.face_index() == index,
                Err(e) => ttf_face_parse(data@, index) == Err::<(), FontParseError>(e),
            },
    {
        match ttf_parse(data, index) {
            Ok(()) => Ok(StaticTtfFace { data, index }),
            Err(e) => Err(e),
        }
    }

    /// The font data and face index, with the fact that they parse.
    fn face(&self) -> (r: (&'static [u8], u32))
        ensures
            r.0@ == self.bytes(),
            r.1 == self.face_index(),
            ttf_parses(r.0@, r.1),
    {
        proof {
            use_type_invariant(self);
        }
        (self.data, self.index)
    }
}

impl Clone for StaticTtfFace {
    fn clone(&self) -> (r: Self)
        ensures
            r.bytes() == self.bytes(),
            r.face_index() == self.face_index(),
    {
        proof {
            use_type_invariant(self);
        }
        StaticTtfFace { data: self.data, index: self.index }
    }
}

/// A font loaded from TrueType/OpenType data.
#[derive(Debug, Clone, PartialEq)]
pub enum ExternalFont {
    OwnedTtfParser(OwnedPdfTtfFont),
    StaticTtfParser(StaticTtfFace),
}

impl ExternalFont {
    /// The font data.
    pub open spec fn bytes(self) -> Seq<u8> {
        match self {
            ExternalFont::OwnedTtfParser(f) => f.bytes(),
            ExternalFont::StaticTtfParser(f) => f.bytes(),
        }
    }

    /// The index of the face in the font data.
    pub open spec fn face_index(self) -> u32 {
        match self {
            ExternalFont::OwnedTtfParser(f) => f.face_index(),
            ExternalFont::StaticTtfParser(f) => f.face_index(),
        }
    }

    /// The font data and face index, with the fact that they parse.
    fn face(&self) -> (r: (&[u8], u32))
        ensures
            r.0@ == self.bytes(),
            r.1 == self.face_index(),
            ttf_parses(r.0@, r.1),
    {
        match self {
            ExternalFont::OwnedTtfParser(f) => f.face(),
            ExternalFont::StaticTtfParser(f) => f.face(),
        }
    }

    /// The raw font data.
    pub fn font_bytes(&self) -> (r: &[u8])
        ensures
            r@ == self.bytes(),
    {
        self.face().0
    }

    /// Font units per em, in `16..=16384`.
    pub fn units_per_em(&self) -> (r: u16)
        ensures
            r == ttf_units_per_em(self.bytes(), self.face_index()),
            16 <= r <= 16384,
    {
        let (data, index) = self.face();
        ttf_units_per_em_of(data, index)
    }

    /// The face's ascender, in font units.
    pub fn ascender(&self) -> (r: i16)
        ensures
            r == ttf_ascender(self.bytes(), self.face_index()),
    {
        let (data, index) = self.face();
        ttf_ascender_of(data, index)
    }

    /// The face's descender, in font units.
    pub fn descender(&self) -> (r: i16)
        ensures
            r == ttf_descender(self.bytes(), self.face_index()),
    {
        let (data, index) = self.face();
        ttf_descender_of(data, index)
    }

    /// The face's italic angle, as an integer.
    pub fn italic_angle(&self) -> (r: i64)
        ensures
            r == ttf_italic_angle(self.bytes(), self.face_index()),
    {
        let (data, index) = self.face();
        ttf_italic_angle_of(data, index)
    }

    /// The number of glyphs of the face, never zero.
    pub fn glyph_count(&self) -> (r: u16)
        ensures
            r == ttf_number_of_glyphs(self.bytes(), self.face_index()),
            r > 0,
    {
        let (data, index) = self.face();
        ttf_number_of_glyphs_of(data, index)
    }

    /// The glyph of a character, if the face maps it.
    pub fn glyph_id(&self, c: char) -> (r: Option<u16>)
        ensures
            r == face_glyph_index(self.bytes(), self.face_index(), c as u32),
    {
        let (data, index) = self.face();
        ttf_glyph_index_of(data, index, c)
    }

    /// The metrics of a glyph: its horizontal advance as width, and the height of its
    /// bounding box less the descender (1000 without a bounding box); `None` without an advance.
    pub fn glyph_metrics(&self, glyph_id: u16) -> (r: Option<GlyphMetrics>)
        ensures
            r == glyph_metrics_spec(self.bytes(), self.face_index(), glyph_id),
    {
        let (data, index) = self.face();
        match ttf_glyph_hor_advance_of(data, index, glyph_id) {
            None => None,
            Some(w) => {
                let height: u32 = match ttf_glyph_y_bounds_of(data, index, glyph_id) {
                    Some((y_min, y_max)) => {
                        let d = ttf_descender_of(data, index);
                        (y_max.wrapping_sub(y_min).wrapping_sub(d)) as u32
                    },
                    None => 1000,
                };
                Some(GlyphMetrics { width: w as u32, height })
            },
        }
    }

    /// The characters of the face's glyphs, read from its Unicode `cmap` subtables, as
    /// (glyph, character code) pairs in glyph order: every glyph other than 0 that a
    /// character maps to, with the first such character.
    pub fn glyph_ids(&self) -> (r: Vec<(u16, u32)>)
        ensures
            r.len() <= 65536,
            forall|a: int, b: int| 0 <= a < b < r.len() ==> r[a].0 < r[b].0,
            forall|k: int|
                0 <= k < r.len() ==> {
                    let m = glyph_char_map(self.bytes(), self.face_index());
                    m.contains_key(#[trigger] r[k].0) && m[r[k].0] == r[k].1
                },
            forall|g: u16|
                glyph_char_map(self.bytes(), self.face_index()).contains_key(g) ==> exists|k: int|
                    0 <= k < r.len() && r[k].0 == g,
    {
        let (data, index) = self.face();
        let slots = glyph_char_slots(data, index);
        let r = slots_in_order(&slots);
        proof {
            let m = glyph_char_map(data@, index);
            assert forall|g: u16| m.contains_key(g) implies exists|k: int| 0 <= k < r.len() && r[k].0 == g by {
                assert(slots@[g as int] == slot_of(m, g));
            }
            assert forall|k: int| 0 <= k < r.len() implies m.contains_key(#[trigger] r[k].0) && m[r[k].0] == r[k].1 by {
                assert(slots@[r[k].0 as int] == slot_of(m, r[k].0));
            }
        }
        r
    }

    /// The font's family name, if its `name` table has one in Unicode.
    pub fn font_name(&self) -> (r: Option<String>)
        ensures
            match r {
                Some(s) => family_name(self.bytes(), self.face_index()) == Some(s@),
                None => family_name(self.bytes(), self.face_index()) is None,
            },
    {
        let (data, index) = self.face();
        let count = ttf_name_count_of(data, index);
        let mut i: u16 = 0;
        while i < count
            invariant
                ttf_parses(data@, index),
                data@ == self.bytes(),
                index == self.face_index(),
                count == ttf_name_count(data@, index),
                i <= count,
                family_name(data@, index) == family_name_from(data@, index, i as nat, count as nat),
            decreases count - i,
        {
            let record = ttf_name_record_of(data, index, i);
            assert(((i as nat) as u16) == i);
            match record {
                None => return None,
                Some((id, text)) => {
                    if id == 1 {
                        if let Some(t) = text {
                            return Some(t);
                        }
                    }
                },
            }
            i = i + 1;
        }
        None
    }

    /// Whether the face has colour glyphs (a `COLR`, `sbix`, `CBDT` or `SVG ` table).
    pub fn has_color_glyphs(&self) -> (r: bool)
        ensures
            r == has_color_tables(self.bytes(), self.face_index()),
    {
        let (data, index) = self.face();
        let (colr, sbix, cbdt, svg) = ttf_color_tables_of(data, index);
        colr || sbix || cbdt || svg
    }
}

} // verus!
