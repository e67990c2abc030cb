//! The ToUnicode character map of an embedded font: glyph id to Unicode text.
use vstd::prelude::*;
use crate::text_out::{dec_digits, hex4, hex_value, is_upper_hex, lemma_hex4, push_dec_digits, push_hex4};

verus! {

/// A Unicode code point as UTF-16BE hex: four digits for the Basic Multilingual
/// Plane, a surrogate pair (eight digits) above it.
pub open spec fn utf16be_hex(unicode: u32) -> Seq<char> {
    if unicode > 0xFFFF {
        hex4(surrogate_high(unicode)) + hex4(surrogate_low(unicode))
    } else {
        hex4(unicode as nat)
    }
}

/// The high (leading) surrogate of a code point above the Basic Multilingual Plane.
pub open spec fn surrogate_high(unicode: u32) -> nat {
    (0xD800 + (unicode - 0x10000) / 1024) as nat
}

/// The low (trailing) surrogate of a code point above the Basic Multilingual Plane.
pub open spec fn surrogate_low(unicode: u32) -> nat {
    (0xDC00 + (unicode - 0x10000) % 1024) as nat
}

/// Law of the surrogate pair: for a code point of the supplementary planes, the high
/// surrogate lies in `D800..=DBFF`, the low one in `DC00..=DFFF`, and UTF-16 decoding the
/// pair gives the code point back.
pub proof fn law_surrogate_pair_decodes(unicode: u32)
    requires
        0x10000 <= unicode <= 0x10FFFF,
    ensures
        0xD800 <= surrogate_high(unicode) <= 0xDBFF,
        0xDC00 <= surrogate_low(unicode) <= 0xDFFF,
        (surrogate_high(unicode) - 0xD800) * 1024 + (surrogate_low(unicode) - 0xDC00) + 0x10000 == unicode,
{
    let code = unicode - 0x10000;
    assert(code == 1024 * (code / 1024) + code % 1024) by (nonlinear_arith);
}

/// Law of the UTF-16BE hex text: it is upper-case hexadecimal; for the Basic Multilingual Plane
/// it is four digits that read back as the code point; above it, eight digits whose halves read
/// back as the high and the low surrogate, which decode to the code point
/// (`law_surrogate_pair_decodes`).
pub proof fn law_utf16be_hex_reads_back(unicode: u32)
    requires
        unicode <= 0x10FFFF,
    ensures
        forall|i: int| 0 <= i < utf16be_hex(unicode).len() ==> is_upper_hex(#[trigger] utf16be_hex(unicode)[i]),
        unicode <= 0xFFFF ==> utf16be_hex(unicode).len() == 4 && hex_value(utf16be_hex(unicode)) == unicode,
        unicode > 0xFFFF ==> {
            &&& utf16be_hex(unicode).len() == 8
            &&& hex_value(utf16be_hex(unicode).subrange(0, 4)) == surrogate_high(unicode)
            &&& hex_value(utf16be_hex(unicode).subrange(4, 8)) == surrogate_low(unicode)
            &&& 0xD800 <= surrogate_high(unicode) <= 0xDBFF
            &&& 0xDC00 <= surrogate_low(unicode) <= 0xDFFF
        },
{
    let s = utf16be_hex(unicode);
    if unicode > 0xFFFF {
        law_surrogate_pair_decodes(unicode);
        lemma_hex4(surrogate_high(unicode));
        lemma_hex4(surrogate_low(unicode));
        let h = hex4(surrogate_high(unicode));
        let l = hex4(surrogate_low(unicode));
        assert(s.subrange(0, 4) =~= h);
        assert(s.subrange(4, 8) =~= l);
        assert forall|i: int| 0 <= i < s.len() implies is_upper_hex(#[trigger] s[i]) by {
            if i < 4 {
                assert(s[i] == h[i]);
            } else {
                assert(s[i] == l[i - 4]);
            }
        }
    } else {
        lemma_hex4(unicode as nat);
    }
}

/// Encodes a Unicode codepoint as a UTF-16BE hex string for use in PDF ToUnicode CMaps.
///
/// BMP characters (U+0000..U+FFFF) are encoded as 4 hex digits.
/// Supplementary plane characters (U+10000+) are encoded as a UTF-16 surrogate pair (8 hex digits).
pub fn unicode_to_utf16be_hex(unicode: u32) -> (r: String)
    ensures
        r@ == utf16be_hex(unicode),
{
    let mut s = String::new();
    if unicode > 0xFFFF {
        let code = unicode - 0x10000;
        let high = 0xD800 + code / 1024;
        let low = 0xDC00 + code % 1024;
        push_hex4(&mut s, high);
        push_hex4(&mut s, low);
    } else {
        push_hex4(&mut s, unicode);
    }
    s
}

/// The start of the CMap, up to the face name in the Ordering entry.
pub const CMAP_HEAD: &'static str = "/CIDInit /ProcSet findresource begin\n\n12 dict begin\n\nbegincmap\n\n%!PS-Adobe-3.0 Resource-CMap\n%%DocumentNeededResources: procset CIDInit\n%%IncludeResource: procset CIDInit\n\n/CIDSystemInfo 3 dict dup begin\n    /Registry (FontSpecific) def\n    /Ordering (";

/// The CMap text between the face name in the Ordering entry and the one in the CMapName.
pub const CMAP_MIDDLE: &'static str = ") def\n    /Supplement 0 def\nend def\n\n/CMapName /FontSpecific-";

/// The CMap text after the face name in the CMapName, up to the code space range.
pub const CMAP_TAIL: &'static str = " def\n/CMapVersion 1 def\n/CMapType 2 def\n/WMode 0 def\n\n1 begincodespacerange\n<0000> <FFFF>\nendcodespacerange\n";

/// The end of every CMap.
pub const GID_TO_UNICODE_END: &'static str = "endcmap\nCMapName currentdict /CMap defineresource pop\nend\nend\n";

/// The CMap header for a face: the face name stands in the Ordering and in the CMapName.
pub open spec fn cmap_header(face_name: Seq<char>) -> Seq<char> {
    CMAP_HEAD@ + face_name + CMAP_MIDDLE@ + face_name + CMAP_TAIL@
}

/// One `bfchar` entry: `<gid> <unicode>` and a newline.
pub open spec fn cmap_entry_text(entry: (u32, u32)) -> Seq<char> {
    "<"@ + hex4(entry.0 as nat) + "> <"@ + utf16be_hex(entry.1) + ">\n"@
}

/// The entries of a block, one after the other.
pub open spec fn cmap_entries_text(entries: Seq<(u32, u32)>) -> Seq<char>
    decreases entries.len(),
{
    if entries.len() == 0 {
        Seq::empty()
    } else {
        cmap_entries_text(entries.drop_last()) + cmap_entry_text(entries.last())
    }
}

/// A `beginbfchar` .. `endbfchar` section holding a block's entries.
pub open spec fn cmap_block_text(block: Seq<(u32, u32)>) -> Seq<char> {
    dec_digits(block.len()) + " beginbfchar\r\n"@ + cmap_entries_text(block) + "endbfchar\r\n"@
}

/// The sections of all blocks, one after the other.
pub open spec fn cmap_blocks_text(blocks: Seq<Seq<(u32, u32)>>) -> Seq<char>
    decreases blocks.len(),
{
    if blocks.len() == 0 {
        Seq::empty()
    } else {
        cmap_blocks_text(blocks.drop_last()) + cmap_block_text(blocks.last())
    }
}

/// The whole CMap text for a face and its blocks of (glyph id, unicode) pairs.
pub open spec fn cid_to_unicode_map(face_name: Seq<char>, blocks: Seq<Seq<(u32, u32)>>) -> Seq<
    char,
> {
    cmap_header(face_name) + cmap_blocks_text(blocks) + GID_TO_UNICODE_END@
}

/// The CMap header for the given face name.
pub fn gid_to_unicode_beg(face_name: &str) -> (r: String)
    ensures
        r@ == cmap_header(face_name@),
{
    let mut s = String::new();
    s.append(CMAP_HEAD);
    s.append(face_name);
    s.append(CMAP_MIDDLE);
    s.append(face_name);
    s.append(CMAP_TAIL);
    s
}

/// Builds the ToUnicode CMap text for a face from its blocks of (glyph id, unicode) pairs.
///
/// Every block, empty ones included, becomes one `beginbfchar` section, in order.
pub fn generate_cid_to_unicode_map(face_name: String, all_cmap_blocks: Vec<Vec<(u32, u32)>>) -> (r:
    String)
    ensures
        r@ == cid_to_unicode_map(face_name@, all_cmap_blocks@.map_values(|b: Vec<(u32, u32)>| b@)),
{
    let ghost blocks = all_cmap_blocks@.map_values(|b: Vec<(u32, u32)>| b@);
    let mut s = gid_to_unicode_beg(face_name.as_str());
    let mut i: usize = 0;
    while i < all_cmap_blocks.len()
        invariant
            i <= all_cmap_blocks.len(),
            blocks == all_cmap_blocks@.map_values(|b: Vec<(u32, u32)>| b@),
            s@ == cmap_header(face_name@) + cmap_blocks_text(blocks.take(i as int)),
        decreases all_cmap_blocks.len() - i,
    {
        let block = &all_cmap_blocks[i];
        let ghost before = s@;
        push_dec_digits(&mut s, block.len());
        s.append(" beginbfchar\r\n");
        let mut j: usize = 0;
        while j < block.len()
            invariant
                j <= block.len(),
                s@ == before + dec_digits(block@.len()) + " beginbfchar\r\n"@ + cmap_entries_text(
                    block@.take(j as int),
                ),
            decreases block.len() - j,
        {
            let (glyph_id, unicode) = block[j];
            let ghost mid = s@;
            s.append("<");
            push_hex4(&mut s, glyph_id);
            s.append("> <");
            let hex = unicode_to_utf16be_hex(unicode);
            s.append(hex.as_str());
            s.append(">\n");
            proof {
                assert(block@.take(j + 1).drop_last() == block@.take(j as int));
                assert(block@.take(j + 1).last() == (glyph_id, unicode));
                assert(s@ == mid + cmap_entry_text((glyph_id, unicode)));
            }
            j = j + 1;
        }
        s.append("endbfchar\r\n");
        proof {
            assert(block@.take(block@.len() as int) == block@);
            assert(blocks.take(i + 1).drop_last() == blocks.take(i as int));
            assert(blocks.take(i + 1).last() == block@);
            assert(s@ == before + cmap_block_text(block@));
        }
        i = i + 1;
    }
    s.append(GID_TO_UNICODE_END);
    proof {
        assert(blocks.take(all_cmap_blocks.len() as int) == blocks);
    }
    s
}

} // verus!

verus! {

/// The most entries that one `beginbfchar` section may hold.
pub const MAX_BLOCK_ENTRIES: usize = 100;

/// The 256-glyph page of a glyph id: its high byte, kept to 16 bits.
pub open spec fn glyph_page(gid: u32) -> nat {
    (gid as nat / 256) % 65536
}

/// Splitting entries sorted by glyph id into blocks, read left to right: the state
/// after all entries is the finished blocks, the open block and the page of the open block.
///
/// A new block is opened when an entry's page differs from the open block's page, or when
/// the open block holds `MAX_BLOCK_ENTRIES` entries. The first block starts on page 0.
pub open spec fn cmap_fold(entries: Seq<(u32, u32)>) -> (Seq<Seq<(u32, u32)>>, Seq<(u32, u32)>, nat)
    decreases entries.len(),
{
    if entries.len() == 0 {
        (Seq::empty(), Seq::empty(), 0)
    } else {
        let (blocks, current, page) = cmap_fold(entries.drop_last());
        let e = entries.last();
        if glyph_page(e.0) != page || current.len() >= MAX_BLOCK_ENTRIES {
            (blocks.push(current), seq![e], glyph_page(e.0))
        } else {
            (blocks, current.push(e), page)
        }
    }
}

/// The blocks of a ToUnicode map: the finished blocks followed by the open one.
pub open spec fn cmap_blocks_spec(entries: Seq<(u32, u32)>) -> Seq<Seq<(u32, u32)>> {
    let (blocks, current, page) = cmap_fold(entries);
    blocks.push(current)
}

/// Concatenation of blocks.
pub open spec fn flatten_blocks(blocks: Seq<Seq<(u32, u32)>>) -> Seq<(u32, u32)>
    decreases blocks.len(),
{
    if blocks.len() == 0 {
        Seq::empty()
    } else {
        flatten_blocks(blocks.drop_last()) + blocks.last()
    }
}

/// Splits (glyph id, unicode) entries, in glyph id order, into the blocks of the
/// ToUnicode map: a block never crosses a 256-glyph page and holds at most 100 entries.
pub fn cmap_blocks(entries: &Vec<(u32, u32)>) -> (r: Vec<Vec<(u32, u32)>>)
    ensures
        r@.map_values(|b: Vec<(u32, u32)>| b@) == cmap_blocks_spec(entries@),
{
    let mut all_blocks: Vec<Vec<(u32, u32)>> = Vec::new();
    let mut current: Vec<(u32, u32)> = Vec::new();
    let mut cur_page: u32 = 0;
    let mut i: usize = 0;
    while i < entries.len()
        invariant
            i <= entries.len(),
            cmap_fold(entries@.take(i as int)) == (
                all_blocks@.map_values(|b: Vec<(u32, u32)>| b@),
                current@,
                cur_page as nat,
            ),
        decreases entries.len() - i,
    {
        let (glyph_id, unicode) = entries[i];
        let page = (glyph_id / 256) % 65536;
        let ghost prev_blocks = all_blocks@;
        proof {
            assert(entries@.take(i + 1).drop_last() == entries@.take(i as int));
            assert(entries@.take(i + 1).last() == (glyph_id, unicode));
        }
        if page != cur_page || current.len() >= MAX_BLOCK_ENTRIES {
            let finished = current;
            all_blocks.push(finished);
            current = Vec::new();
            cur_page = page;
            proof {
                assert(all_blocks@.map_values(|b: Vec<(u32, u32)>| b@) == prev_blocks.map_values(
                    |b: Vec<(u32, u32)>| b@,
                ).push(finished@));
            }
        }
        current.push((glyph_id, unicode));
        i = i + 1;
    }
    let ghost prev_blocks = all_blocks@;
    let last = current;
    all_blocks.push(last);
    proof {
        assert(entries@.take(entries.len() as int) == entries@);
        assert(all_blocks@.map_values(|b: Vec<(u32, u32)>| b@) == prev_blocks.map_values(
            |b: Vec<(u32, u32)>| b@,
        ).push(last@));
    }
    all_blocks
}

proof fn lemma_flatten_push(blocks: Seq<Seq<(u32, u32)>>, b: Seq<(u32, u32)>)
    ensures
        flatten_blocks(blocks.push(b)) == flatten_blocks(blocks) + b,
{
    assert(blocks.push(b).drop_last() == blocks);
}

/// Invariant of the fold: everything read so far is in the finished blocks and the open one,
/// in order; no block crosses a page or exceeds the size limit.
proof fn lemma_cmap_fold(entries: Seq<(u32, u32)>)
    ensures
        ({
            let (blocks, current, page) = cmap_fold(entries);
            &&& flatten_blocks(blocks) + current == entries
            &&& current.len() <= MAX_BLOCK_ENTRIES
            &&& forall|k: int| 0 <= k < current.len() ==> glyph_page(#[trigger] current[k].0) == page
            &&& forall|j: int| 0 <= j < blocks.len() ==> (#[trigger] blocks[j]).len() <= MAX_BLOCK_ENTRIES
            &&& forall|j: int, k: int|
                0 <= j < blocks.len() && 0 <= k < blocks[j].len() ==> glyph_page(
                    #[trigger] blocks[j][k].0,
                ) == glyph_page(blocks[j][0].0)
        }),
    decreases entries.len(),
{
    if entries.len() > 0 {
        let prefix = entries.drop_last();
        lemma_cmap_fold(prefix);
        let (blocks, current, page) = cmap_fold(prefix);
        let e = entries.last();
        lemma_flatten_push(blocks, current);
        assert(entries == prefix.push(e));
        if glyph_page(e.0) != page || current.len() >= MAX_BLOCK_ENTRIES {
            let nb = blocks.push(current);
            assert forall|j: int, k: int|
                0 <= j < nb.len() && 0 <= k < nb[j].len() implies glyph_page(#[trigger] nb[j][k].0)
                == glyph_page(nb[j][0].0) by {
                if j < blocks.len() as int {
                    assert(nb[j] == blocks[j]);
                } else {
                    assert(nb[j] == current);
                }
            }
            assert(flatten_blocks(nb) + seq![e] == entries);
        } else {
            assert(flatten_blocks(blocks) + current.push(e) == entries);
        }
    }
}

/// Law of the ToUnicode blocks: concatenated, the blocks give back the entries in order;
/// every block holds at most 100 entries, all on one 256-glyph page.
pub proof fn law_cmap_blocks_partition(entries: Seq<(u32, u32)>)
    ensures
        flatten_blocks(cmap_blocks_spec(entries)) == entries,
        forall|j: int|
            0 <= j < cmap_blocks_spec(entries).len() ==> (#[trigger] cmap_blocks_spec(
                entries,
            )[j]).len() <= MAX_BLOCK_ENTRIES,
        forall|j: int, k: int|
            0 <= j < cmap_blocks_spec(entries).len() && 0 <= k < cmap_blocks_spec(entries)[j].len()
                ==> glyph_page(#[trigger] cmap_blocks_spec(entries)[j][k].0) == glyph_page(
                cmap_blocks_spec(entries)[j][0].0,
            ),
{
    lemma_cmap_fold(entries);
    let (blocks, current, page) = cmap_fold(entries);
    lemma_flatten_push(blocks, current);
    let r = blocks.push(current);
    assert forall|j: int, k: int|
        0 <= j < r.len() && 0 <= k < r[j].len() implies glyph_page(#[trigger] r[j][k].0)
        == glyph_page(r[j][0].0) by {
        if j < blocks.len() as int {
            assert(r[j] == blocks[j]);
        } else {
            assert(r[j] == current);
        }
    }
}

} // verus!

verus! {

/// Grouping per-glyph widths, read by glyph id, into runs of consecutive glyph ids:
/// the finished runs, then the open run's first glyph id, next glyph id and widths.
///
/// A glyph without a width is skipped; a glyph with a width that does not follow the open
/// run closes it and opens a new one. The first open run starts, empty, at glyph 0.
pub open spec fn width_runs_fold(widths: Seq<Option<i64>>) -> (Seq<(nat, Seq<i64>)>, nat, nat, Seq<i64>)
    decreases widths.len(),
{
    if widths.len() == 0 {
        (Seq::empty(), 0, 0, Seq::empty())
    } else {
        let (runs, low, high, current) = width_runs_fold(widths.drop_last());
        let gid = (widths.len() - 1) as nat;
        match widths.last() {
            None => (runs, low, high, current),
            Some(w) => if gid == high {
                (runs, low, high + 1, current.push(w))
            } else {
                (runs.push((low, current)), gid, gid + 1, seq![w])
            },
        }
    }
}

/// The width runs of a CID font (its `W` array): the finished runs followed by the open one.
pub open spec fn width_runs_spec(widths: Seq<Option<i64>>) -> Seq<(nat, Seq<i64>)> {
    let (runs, low, high, current) = width_runs_fold(widths);
    runs.push((low, current))
}

/// Groups the widths of glyphs `0..widths.len()` (`None` for a glyph without metrics) into runs
/// of consecutive glyph ids, each given by its first glyph id and its widths.
pub fn width_runs(widths: &Vec<Option<i64>>) -> (r: Vec<(u16, Vec<i64>)>)
    requires
        widths.len() <= 65535,
    ensures
        r@.map_values(|run: (u16, Vec<i64>)| (run.0 as nat, run.1@)) == width_runs_spec(widths@),
{
    let mut runs: Vec<(u16, Vec<i64>)> = Vec::new();
    let mut low: u16 = 0;
    let mut high: u16 = 0;
    let mut current: Vec<i64> = Vec::new();
    let mut gid: usize = 0;
    while gid < widths.len()
        invariant
            gid <= widths.len() <= 65535,
            high <= gid,
            width_runs_fold(widths@.take(gid as int)) == (
                runs@.map_values(|run: (u16, Vec<i64>)| (run.0 as nat, run.1@)),
                low as nat,
                high as nat,
                current@,
            ),
        decreases widths.len() - gid,
    {
        proof {
            assert(widths@.take(gid + 1).drop_last() == widths@.take(gid as int));
            assert(widths@.take(gid + 1).last() == widths@[gid as int]);
        }
        match widths[gid] {
            None => {},
            Some(w) => {
                if gid == high as usize {
                    current.push(w);
                    high = high + 1;
                } else {
                    let ghost prev = runs@;
                    let finished = current;
                    runs.push((low, finished));
                    proof {
                        assert(runs@.map_values(|run: (u16, Vec<i64>)| (run.0 as nat, run.1@))
                            == prev.map_values(|run: (u16, Vec<i64>)| (run.0 as nat, run.1@)).push(
                            (low as nat, finished@),
                        ));
                    }
                    current = Vec::new();
                    current.push(w);
                    low = gid as u16;
                    high = (gid + 1) as u16;
                }
            },
        }
        gid = gid + 1;
    }
    let ghost prev = runs@;
    let last = current;
    runs.push((low, last));
    proof {
        assert(widths@.take(widths.len() as int) == widths@);
        assert(runs@.map_values(|run: (u16, Vec<i64>)| (run.0 as nat, run.1@)) == prev.map_values(
            |run: (u16, Vec<i64>)| (run.0 as nat, run.1@),
        ).push((low as nat, last@)));
    }
    runs
}

proof fn lemma_width_runs_fold(widths: Seq<Option<i64>>)
    ensures
        ({
            let (runs, low, high, current) = width_runs_fold(widths);
            &&& low + current.len() == high
            &&& high <= widths.len()
            &&& forall|k: int| 0 <= k < current.len() ==> widths[low + k] == Some(#[trigger] current[k])
            &&& forall|j: int, k: int|
                0 <= j < runs.len() && 0 <= k < runs[j].1.len() ==> widths[runs[j].0 + k] == Some(
                    #[trigger] runs[j].1[k],
                )
            &&& forall|j: int| 0 <= j < runs.len() ==> (#[trigger] runs[j]).0 + runs[j].1.len() <= low
        }),
    decreases widths.len(),
{
    if widths.len() > 0 {
        let prefix = widths.drop_last();
        lemma_width_runs_fold(prefix);
        let (runs, low, high, current) = width_runs_fold(prefix);
        let gid = (widths.len() - 1) as nat;
        assert forall|i: int| 0 <= i < prefix.len() implies widths[i] == prefix[i] by {}
        match widths.last() {
            None => {},
            Some(w) => {
                if gid == high {
                } else {
                    let nr = runs.push((low, current));
                    assert forall|j: int, k: int|
                        0 <= j < nr.len() && 0 <= k < nr[j].1.len() implies widths[nr[j].0 + k]
                        == Some(#[trigger] nr[j].1[k]) by {
                        if j < runs.len() as int {
                            assert(nr[j] == runs[j]);
                        } else {
                            assert(nr[j] == (low, current));
                        }
                    }
                    assert forall|j: int| 0 <= j < nr.len() implies (#[trigger] nr[j]).0 + nr[j].1.len()
                        <= gid by {
                        if j < runs.len() as int {
                            assert(nr[j] == runs[j]);
                        }
                    }
                }
            },
        }
    }
}

/// Law of the width runs: every width in a run is the width of the glyph at the run's start plus
/// its place in the run, and runs do not overlap: each ends before the next starts.
pub proof fn law_width_runs_sound(widths: Seq<Option<i64>>)
    ensures
        forall|j: int, k: int|
            0 <= j < width_runs_spec(widths).len() && 0 <= k < width_runs_spec(widths)[j].1.len()
                ==> widths[width_runs_spec(widths)[j].0 + k] == Some(
                #[trigger] width_runs_spec(widths)[j].1[k],
            ),
        forall|j: int|
            0 <= j < width_runs_spec(widths).len() - 1 ==> (#[trigger] width_runs_spec(widths)[j]).0
                + width_runs_spec(widths)[j].1.len() <= width_runs_spec(widths)[j + 1].0,
{
    lemma_width_runs_fold(widths);
    let (runs, low, high, current) = width_runs_fold(widths);
    let r = runs.push((low, current));
    assert forall|j: int, k: int|
        0 <= j < r.len() && 0 <= k < r[j].1.len() implies widths[r[j].0 + k] == Some(
        #[trigger] r[j].1[k],
    ) by {
        if j < runs.len() as int {
            assert(r[j] == runs[j]);
        }
    }
    assert forall|j: int| 0 <= j < r.len() - 1 implies (#[trigger] r[j]).0 + r[j].1.len() <= r[j
        + 1].0 by {
        assert(r[j] == runs[j]);
        lemma_runs_ordered(widths);
    }
}

proof fn lemma_runs_ordered(widths: Seq<Option<i64>>)
    ensures
        ({
            let (runs, low, high, current) = width_runs_fold(widths);
            forall|j: int|
                0 <= j < runs.len() - 1 ==> (#[trigger] runs[j]).0 + runs[j].1.len() <= runs[j + 1].0
        }),
    decreases widths.len(),
{
    if widths.len() > 0 {
        let prefix = widths.drop_last();
        lemma_runs_ordered(prefix);
        lemma_width_runs_fold(prefix);
        let (runs, low, high, current) = width_runs_fold(prefix);
        let nr = runs.push((low, current));
        assert forall|j: int| 0 <= j < nr.len() - 1 implies (#[trigger] nr[j]).0 + nr[j].1.len()
            <= nr[j + 1].0 by {
            assert(nr[j] == runs[j]);
            if j + 1 < runs.len() as int {
                assert(nr[j + 1] == runs[j + 1]);
            } else {
                assert(nr[j + 1] == (low, current));
            }
        }
    }
}

/// Whether a run covers glyph `g`.
pub open spec fn run_covers(run: (nat, Seq<i64>), g: int) -> bool {
    run.0 <= g < run.0 + run.1.len()
}

proof fn lemma_width_runs_cover(widths: Seq<Option<i64>>)
    ensures
        ({
            let (runs, low, high, current) = width_runs_fold(widths);
            forall|g: int|
                0 <= g < widths.len() && #[trigger] widths[g] is Some ==> run_covers((low, current), g)
                    || exists|j: int| 0 <= j < runs.len() && #[trigger] run_covers(runs[j], g)
        }),
    decreases widths.len(),
{
    if widths.len() > 0 {
        let prefix = widths.drop_last();
        lemma_width_runs_cover(prefix);
        lemma_width_runs_fold(prefix);
        let (runs, low, high, current) = width_runs_fold(prefix);
        let (runs2, low2, high2, current2) = width_runs_fold(widths);
        let gid = (widths.len() - 1) as int;
        assert forall|g: int| 0 <= g < prefix.len() implies widths[g] == prefix[g] by {}
        assert forall|g: int| 0 <= g < widths.len() && #[trigger] widths[g] is Some implies run_covers(
            (low2, current2),
            g,
        ) || exists|j: int| 0 <= j < runs2.len() && #[trigger] run_covers(runs2[j], g) by {
            if g < gid {
                assert(prefix[g] is Some);
                if run_covers((low, current), g) {
                    match widths.last() {
                        None => {},
                        Some(w) => {
                            if gid == high {
                            } else {
                                assert(runs2 == runs.push((low, current)));
                                assert(runs2[runs.len() as int] == (low, current));
                                assert(run_covers(runs2[runs.len() as int], g));
                            }
                        },
                    }
                } else {
                    let j = choose|j: int| 0 <= j < runs.len() && #[trigger] run_covers(runs[j], g);
                    assert(runs2[j] == runs[j]);
                    assert(run_covers(runs2[j], g));
                }
            }
        }
    }
}

proof fn lemma_runs_apart(r: Seq<(nat, Seq<i64>)>)
    requires
        forall|j: int| 0 <= j < r.len() - 1 ==> (#[trigger] r[j]).0 + r[j].1.len() <= r[j + 1].0,
    ensures
        forall|i: int, j: int| 0 <= j < i < r.len() ==> #[trigger] r[j].0 + r[j].1.len() <= #[trigger] r[i].0,
    decreases r.len(),
{
    if r.len() > 0 {
        let p = r.drop_last();
        assert forall|j: int| 0 <= j < p.len() - 1 implies (#[trigger] p[j]).0 + p[j].1.len() <= p[j + 1].0 by {
            assert(p[j] == r[j] && p[j + 1] == r[j + 1]);
        }
        lemma_runs_apart(p);
        assert forall|i: int, j: int| 0 <= j < i < r.len() implies #[trigger] r[j].0 + r[j].1.len() <= #[trigger] r[i].0 by {
            if i < r.len() - 1 {
                assert(p[j] == r[j] && p[i] == r[i]);
            } else if j < i - 1 {
                assert(p[j] == r[j] && p[i - 1] == r[i - 1]);
                assert(r[i - 1].0 + r[i - 1].1.len() <= r[i].0);
            }
        }
    }
}

/// Law of the width runs covering the glyphs: every glyph with a width is in exactly one run,
/// and the runs come in the order of their glyphs, each ending before any later one starts.
pub proof fn law_width_runs_complete(widths: Seq<Option<i64>>)
    ensures
        forall|g: int|
            0 <= g < widths.len() && #[trigger] widths[g] is Some ==> exists|j: int|
                0 <= j < width_runs_spec(widths).len() && #[trigger] run_covers(width_runs_spec(widths)[j], g),
        forall|g: int, i: int, j: int|
            0 <= i < width_runs_spec(widths).len() && 0 <= j < width_runs_spec(widths).len()
                && #[trigger] run_covers(width_runs_spec(widths)[i], g) && #[trigger] run_covers(
                width_runs_spec(widths)[j],
                g,
            ) ==> i == j,
        forall|i: int, j: int|
            0 <= j < i < width_runs_spec(widths).len() ==> #[trigger] width_runs_spec(widths)[j].0
                + width_runs_spec(widths)[j].1.len() <= #[trigger] width_runs_spec(widths)[i].0,
{
    lemma_width_runs_cover(widths);
    law_width_runs_sound(widths);
    let (runs, low, high, current) = width_runs_fold(widths);
    let r = width_runs_spec(widths);
    assert(r == runs.push((low, current)));
    lemma_runs_apart(r);
    assert forall|g: int| 0 <= g < widths.len() && #[trigger] widths[g] is Some implies exists|j: int|
        0 <= j < r.len() && #[trigger] run_covers(r[j], g) by {
        if run_covers((low, current), g) {
            assert(run_covers(r[runs.len() as int], g));
        } else {
            let j = choose|j: int| 0 <= j < runs.len() && #[trigger] run_covers(runs[j], g);
            assert(r[j] == runs[j]);
            assert(run_covers(r[j], g));
        }
    }
    assert forall|g: int, i: int, j: int|
        0 <= i < r.len() && 0 <= j < r.len() && #[trigger] run_covers(r[i], g) && #[trigger] run_covers(r[j], g)
            implies i == j by {
        if i < j {
            assert(r[i].0 + r[i].1.len() <= r[j].0);
        } else if j < i {
            assert(r[j].0 + r[j].1.len() <= r[i].0);
        }
    }
}

} // verus!
