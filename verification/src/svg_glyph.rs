//! Preparing the SVG document of a colour font glyph for rendering: giving it a view box
//! over the face's ascender-to-descender range, and hiding the other glyphs that share
//! the document.
use vstd::prelude::*;
use crate::text_out::{dec_digits, push_char, push_dec_digits};

verus! {

/// Whether `p` occurs in `s` at `i`.
pub open spec fn matches_at(s: Seq<char>, p: Seq<char>, i: int) -> bool {
    0 <= i && i + p.len() <= s.len() && s.subrange(i, i + p.len()) == p
}

/// The first place at or after `i` where `p` occurs in `s` (as `str::find` from `i`).
pub open spec fn first_match(s: Seq<char>, p: Seq<char>, i: nat) -> Option<nat>
    decreases s.len() - i,
{
    if i >= s.len() || i + p.len() > s.len() {
        None
    } else if matches_at(s, p, i as int) {
        Some(i)
    } else {
        first_match(s, p, i + 1)
    }
}

/// Whether a character is white space (Unicode `White_Space`, as `char::is_whitespace`).
pub open spec fn is_white_space(c: char) -> bool {
    ('\u{9}' <= c && c <= '\u{d}') || c == ' ' || c == '\u{85}' || c == '\u{a0}' || c == '\u{1680}'
        || ('\u{2000}' <= c && c <= '\u{200a}') || c == '\u{2028}' || c == '\u{2029}' || c == '\u{202f}'
        || c == '\u{205f}' || c == '\u{3000}'
}

/// The number of white space characters at the start of `s`, from `i` on.
pub open spec fn leading_white_space(s: Seq<char>, i: nat) -> nat
    decreases s.len() - i,
{
    if i >= s.len() || !is_white_space(s[i as int]) {
        i
    } else {
        leading_white_space(s, i + 1)
    }
}

/// An integer in decimal, with a leading `-` when negative.
pub open spec fn int_text(v: int) -> Seq<char> {
    if v < 0 {
        seq!['-'] + dec_digits((-v) as nat)
    } else {
        dec_digits(v as nat)
    }
}

/// The size attributes of a glyph document: a view box from the ascender down to the
/// descender over one em, and the width and height of that box.
pub open spec fn size_attributes(ascender: i16, descender: i16, units_per_em: u16) -> Seq<char> {
    "viewBox=\"0 "@ + int_text(-ascender) + " "@ + int_text(units_per_em as int) + " "@ + int_text(
        ascender - descender,
    ) + "\" width=\""@ + int_text(units_per_em as int) + "\" height=\""@ + int_text(ascender - descender)
        + "\""@
}

/// The glyph document with its size: when the text (after leading white space) starts with
/// `<svg`, the size attributes go into that first `<svg` tag; otherwise the text is wrapped
/// in an `<svg>` element that has them.
pub open spec fn svg_with_size(s: Seq<char>, ascender: i16, descender: i16, units_per_em: u16) -> Seq<char> {
    let k = leading_white_space(s, 0);
    if matches_at(s, "<svg"@, k as int) {
        match first_match(s, "<svg"@, 0) {
            Some(m) => s.subrange(0, m as int) + "<svg "@ + size_attributes(ascender, descender, units_per_em)
                + s.subrange(m + 4int, s.len() as int),
            None => s,
        }
    } else {
        "<svg xmlns=\"http://www.w3.org/2000/svg\" "@ + size_attributes(ascender, descender, units_per_em)
            + ">"@ + s + "</svg>"@
    }
}

/// How every glyph group starts.
pub open spec fn glyph_group_start() -> Seq<char> {
    "<g id=\"glyph"@
}

/// The start of the group of glyph `glyph_id`, up to the closing quote of its id.
pub open spec fn target_group(glyph_id: u16) -> Seq<char> {
    glyph_group_start() + dec_digits(glyph_id as nat) + "\""@
}

/// The text from `i` on with every glyph group but the target hidden (`display="none"` added
/// after its id); `None` when a group's id has no closing quote.
pub open spec fn hide_other_glyphs(s: Seq<char>, target: Seq<char>, i: nat) -> Option<Seq<char>>
    decreases s.len() - i,
{
    if i > s.len() {
        None
    } else {
        match first_match(s, glyph_group_start(), i) {
            None => Some(s.subrange(i as int, s.len() as int)),
            Some(pos) => {
                proof {
                    lemma_first_match_bounds(s, glyph_group_start(), i);
                }
                match first_match(s, seq!['"'], pos + 7) {
                    None => None,
                    Some(q) => {
                        proof {
                            lemma_first_match_bounds(s, seq!['"'], pos + 7);
                        }
                        match hide_other_glyphs(s, target, q + 1) {
                            None => None,
                            Some(rest) => Some(
                                s.subrange(i as int, pos as int) + (if matches_at(s, target, pos as int) {
                                    s.subrange(pos as int, q + 1int)
                                } else {
                                    "<g id=\""@ + s.subrange(pos + 7int, q as int) + "\" display=\"none\""@
                                }) + rest,
                            ),
                        }
                    },
                }
            },
        }
    }
}

/// The document to render for a glyph: sized, with the other glyphs hidden.
pub open spec fn glyph_svg_spec(s: Seq<char>, glyph_id: u16, ascender: i16, descender: i16, units_per_em: u16) -> Option<
    Seq<char>,
> {
    hide_other_glyphs(svg_with_size(s, ascender, descender, units_per_em), target_group(glyph_id), 0)
}

/// A match found from `i` lies at or after `i`, inside `s`, and is a match.
pub proof fn lemma_first_match_bounds(s: Seq<char>, p: Seq<char>, i: nat)
    ensures
        first_match(s, p, i) matches Some(k) ==> i <= k && k + p.len() <= s.len() && matches_at(s, p, k as int),
    decreases s.len() - i,
{
    if !(i >= s.len() || i + p.len() > s.len()) && !matches_at(s, p, i as int) {
        lemma_first_match_bounds(s, p, i + 1);
    }
}

proof fn lemma_first_match_skip(s: Seq<char>, p: Seq<char>, i: nat, k: nat)
    requires
        p.len() > 0,
        i <= k <= s.len(),
        forall|t: int| i <= t < k ==> !matches_at(s, p, t),
        matches_at(s, p, k as int),
    ensures
        first_match(s, p, i) == Some(k),
    decreases k - i,
{
    if i < k {
        lemma_first_match_skip(s, p, i + 1, k);
    }
}

/// The characters of a string.
fn chars_of(s: &str) -> (r: Vec<char>)
    ensures
        r@ == s@,
{
    let mut r: Vec<char> = Vec::new();
    for c in iter: s.chars()
        invariant
            iter.seq() == s@,
            r@ == s@.take(iter.index() as int),
    {
        let ghost k = iter.index();
        r.push(c);
        assert(s@.take(k + 1) =~= s@.take(k as int).push(c));
    }
    assert(s@.take(s@.len() as int) =~= s@);
    r
}

/// A string of characters.
fn string_of(v: &Vec<char>) -> (r: String)
    ensures
        r@ == v@,
{
    let mut r = String::new();
    let mut i: usize = 0;
    while i < v.len()
        invariant
            i <= v.len(),
            r@ == v@.take(i as int),
        decreases v.len() - i,
    {
        push_char(&mut r, v[i]);
        assert(v@.take(i + 1) =~= v@.take(i as int).push(v@[i as int]));
        i = i + 1;
    }
    assert(v@.take(v@.len() as int) =~= v@);
    r
}

/// Appends the characters of a string.
fn push_all(out: &mut Vec<char>, s: &str)
    ensures
        final(out)@ == old(out)@ + s@,
{
    let cs = chars_of(s);
    let mut i: usize = 0;
    while i < cs.len()
        invariant
            i <= cs.len(),
            cs@ == s@,
            out@ == old(out)@ + cs@.take(i as int),
        decreases cs.len() - i,
    {
        out.push(cs[i]);
        assert(cs@.take(i + 1) =~= cs@.take(i as int).push(cs@[i as int]));
        i = i + 1;
    }
    assert(cs@.take(cs@.len() as int) =~= cs@);
}

/// Appends `s[from..to]`.
fn push_range(out: &mut Vec<char>, s: &Vec<char>, from: usize, to: usize)
    requires
        from <= to <= s.len(),
    ensures
        final(out)@ == old(out)@ + s@.subrange(from as int, to as int),
{
    let mut i: usize = from;
    while i < to
        invariant
            from <= i <= to <= s.len(),
            out@ == old(out)@ + s@.subrange(from as int, i as int),
        decreases to - i,
    {
        out.push(s[i]);
        assert(s@.subrange(from as int, i + 1) =~= s@.subrange(from as int, i as int).push(s@[i as int]));
        i = i + 1;
    }
}

/// An integer in decimal.
fn push_int(out: &mut Vec<char>, v: i32)
    ensures
        final(out)@ == old(out)@ + int_text(v as int),
{
    let mut s = String::new();
    if v < 0 {
        push_char(&mut s, '-');
        let n: i64 = -(v as i64);
        push_dec_digits(&mut s, n as usize);
    } else {
        push_dec_digits(&mut s, v as usize);
    }
    let cs = chars_of(s.as_str());
    let mut i: usize = 0;
    let ghost start = out@;
    while i < cs.len()
        invariant
            i <= cs.len(),
            cs@ == int_text(v as int),
            out@ == start + cs@.take(i as int),
        decreases cs.len() - i,
    {
        out.push(cs[i]);
        assert(cs@.take(i + 1) =~= cs@.take(i as int).push(cs@[i as int]));
        i = i + 1;
    }
    assert(cs@.take(cs@.len() as int) =~= cs@);
}

/// Whether `p` occurs in `s` at `i`.
fn matches_here(s: &Vec<char>, p: &Vec<char>, i: usize) -> (r: bool)
    ensures
        r == matches_at(s@, p@, i as int),
{
    if i > s.len() || p.len() > s.len() - i {
        return false;
    }
    let mut j: usize = 0;
    while j < p.len()
        invariant
            i + p.len() <= s.len(),
            j <= p.len(),
            forall|t: int| 0 <= t < j ==> s@[i + t] == p@[t],
        decreases p.len() - j,
    {
        if s[i + j] != p[j] {
            assert(s@.subrange(i as int, i + p.len())[j as int] != p@[j as int]);
            return false;
        }
        j = j + 1;
    }
    assert(s@.subrange(i as int, i + p.len()) =~= p@);
    true
}

/// The first place at or after `from` where `p` occurs in `s`.
fn find_from(s: &Vec<char>, p: &Vec<char>, from: usize) -> (r: Option<usize>)
    ensures
        match r {
            Some(k) => first_match(s@, p@, from as nat) == Some(k as nat),
            None => first_match(s@, p@, from as nat) is None,
        },
{
    let mut i: usize = from;
    while i < s.len() && p.len() <= s.len() - i
        invariant
            from <= i,
            first_match(s@, p@, from as nat) == first_match(s@, p@, i as nat),
        decreases s.len() - i,
    {
        if matches_here(s, p, i) {
            return Some(i);
        }
        i = i + 1;
    }
    None
}

/// Whether a character is white space.
fn is_white_space_exec(c: char) -> (r: bool)
    ensures
        r == is_white_space(c),
{
    ('\u{9}' <= c && c <= '\u{d}') || c == ' ' || c == '\u{85}' || c == '\u{a0}' || c == '\u{1680}'
        || ('\u{2000}' <= c && c <= '\u{200a}') || c == '\u{2028}' || c == '\u{2029}' || c == '\u{202f}'
        || c == '\u{205f}' || c == '\u{3000}'
}

/// The size attributes (see `size_attributes`).
fn push_size_attributes(out: &mut Vec<char>, ascender: i16, descender: i16, units_per_em: u16)
    ensures
        final(out)@ == old(out)@ + size_attributes(ascender, descender, units_per_em),
{
    let ghost start = out@;
    let asc = ascender as i32;
    let height = asc - descender as i32;
    let em = units_per_em as i32;
    push_all(out, "viewBox=\"0 ");
    push_int(out, -asc);
    push_all(out, " ");
    push_int(out, em);
    push_all(out, " ");
    push_int(out, height);
    push_all(out, "\" width=\"");
    push_int(out, em);
    push_all(out, "\" height=\"");
    push_int(out, height);
    push_all(out, "\"");
    assert(out@ =~= start + size_attributes(ascender, descender, units_per_em));
}

/// The glyph document with its size (see `svg_with_size`).
fn sized_svg(s: &Vec<char>, ascender: i16, descender: i16, units_per_em: u16) -> (r: Vec<char>)
    ensures
        r@ == svg_with_size(s@, ascender, descender, units_per_em),
{
    let mut k: usize = 0;
    while k < s.len() && is_white_space_exec(s[k])
        invariant
            k <= s.len(),
            leading_white_space(s@, 0) == leading_white_space(s@, k as nat),
            forall|t: int| 0 <= t < k ==> is_white_space(s@[t]),
        decreases s.len() - k,
    {
        k = k + 1;
    }
    let open_tag = chars_of("<svg");
    let mut out: Vec<char> = Vec::new();
    if matches_here(s, &open_tag, k) {
        proof {
            reveal_strlit("<svg");
            assert forall|t: int| 0 <= t < k implies !matches_at(s@, open_tag@, t) by {
                if matches_at(s@, open_tag@, t) {
                    assert(s@.subrange(t, t + 4)[0] == s@[t]);
                }
            }
            lemma_first_match_skip(s@, open_tag@, 0, k as nat);
        }
        push_range(&mut out, s, 0, k);
        push_all(&mut out, "<svg ");
        push_size_attributes(&mut out, ascender, descender, units_per_em);
        push_range(&mut out, s, k + 4, s.len());
    } else {
        push_all(&mut out, "<svg xmlns=\"http://www.w3.org/2000/svg\" ");
        push_size_attributes(&mut out, ascender, descender, units_per_em);
        push_all(&mut out, ">");
        push_range(&mut out, s, 0, s.len());
        push_all(&mut out, "</svg>");
        assert(s@.subrange(0, s@.len() as int) =~= s@);
    }
    out
}

/// The SVG document to render for one glyph of a colour font: the glyph's SVG text, sized
/// to a view box from the ascender down to the descender over one em, with every other
/// glyph group (`<g id="glyphN"`) of the document hidden. `None` when a glyph group's id
/// has no closing quote.
pub fn glyph_svg_document(svg: &str, glyph_id: u16, ascender: i16, descender: i16, units_per_em: u16) -> (r: Option<
    String,
>)
    ensures
        match r {
            Some(d) => glyph_svg_spec(svg@, glyph_id, ascender, descender, units_per_em) == Some(d@),
            None => glyph_svg_spec(svg@, glyph_id, ascender, descender, units_per_em) is None,
        },
{
    let chars = chars_of(svg);
    let s = sized_svg(&chars, ascender, descender, units_per_em);
    let group = chars_of("<g id=\"glyph");
    let quote = chars_of("\"");
    let mut target: Vec<char> = Vec::new();
    push_all(&mut target, "<g id=\"glyph");
    let mut digits = String::new();
    push_dec_digits(&mut digits, glyph_id as usize);
    push_all(&mut target, digits.as_str());
    push_all(&mut target, "\"");
    proof {
        reveal_strlit("\"");
        reveal_strlit("<g id=\"glyph");
        assert(quote@ =~= seq!['"']);
        assert(group@.len() == 12);
    }
    assert(target@ =~= target_group(glyph_id));
    let ghost whole = hide_other_glyphs(s@, target@, 0);
    let mut out: Vec<char> = Vec::new();
    let mut i: usize = 0;
    loop
        invariant
            i <= s.len(),
            s@ == svg_with_size(svg@, ascender, descender, units_per_em),
            target@ == target_group(glyph_id),
            group@ == glyph_group_start(),
            group@.len() == 12,
            quote@ == seq!['"'],
            whole == hide_other_glyphs(s@, target@, 0),
            whole == match hide_other_glyphs(s@, target@, i as nat) {
                Some(rest) => Some(out@ + rest),
                None => None::<Seq<char>>,
            },
        decreases s.len() - i,
    {
        match find_from(&s, &group, i) {
            None => {
                push_range(&mut out, &s, i, s.len());
                let d = string_of(&out);
                return Some(d);
            },
            Some(pos) => {
                proof {
                    lemma_first_match_bounds(s@, group@, i as nat);
                }
                match find_from(&s, &quote, pos + 7) {
                    None => {
                        return None;
                    },
                    Some(q) => {
                        proof {
                            lemma_first_match_bounds(s@, quote@, (pos + 7) as nat);
                        }
                        let ghost before = out@;
                        push_range(&mut out, &s, i, pos);
                        if matches_here(&s, &target, pos) {
                            push_range(&mut out, &s, pos, q + 1);
                        } else {
                            push_all(&mut out, "<g id=\"");
                            push_range(&mut out, &s, pos + 7, q);
                            push_all(&mut out, "\" display=\"none\"");
                        }
                        proof {
                            match hide_other_glyphs(s@, target@, (q + 1) as nat) {
                                Some(rest) => {
                                    assert(before + (s@.subrange(i as int, pos as int) + (if matches_at(
                                        s@,
                                        target@,
                                        pos as int,
                                    ) {
                                        s@.subrange(pos as int, q + 1)
                                    } else {
                                        "<g id=\""@ + s@.subrange(pos + 7, q as int) + "\" display=\"none\""@
                                    }) + rest) =~= out@ + rest);
                                },
                                None => {},
                            }
                        }
                        i = q + 1;
                    },
                }
            },
        }
    }
}

} // verus!
