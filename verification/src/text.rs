//! Text content: items with modifiers, lines of items and blocks of lines.
use vstd::prelude::*;
use crate::font::FontRef;
use crate::text_out::push_char;

verus! {

broadcast use vstd::string::group_string_axioms;

/// Reading text character by character into lines: the finished lines and the open one.
/// A newline finishes the open line, without a carriage return that ends it.
pub open spec fn lines_fold(s: Seq<char>) -> (Seq<Seq<char>>, Seq<char>)
    decreases s.len(),
{
    if s.len() == 0 {
        (Seq::empty(), Seq::empty())
    } else {
        let (done, current) = lines_fold(s.drop_last());
        if s.last() == '\n' {
            (done.push(strip_cr(current)), Seq::empty())
        } else {
            (done, current.push(s.last()))
        }
    }
}

/// A line without the carriage return at its end, if there is one.
pub open spec fn strip_cr(line: Seq<char>) -> Seq<char> {
    if line.len() > 0 && line.last() == '\r' {
        line.drop_last()
    } else {
        line
    }
}

/// The lines of a text as `str::lines` gives them: split at `\n` and `\r\n`, without
/// the line endings; the final line ending is optional; a bare `\r` at the end stays.
pub open spec fn text_lines(s: Seq<char>) -> Seq<Seq<char>> {
    let (done, current) = lines_fold(s);
    if current.len() > 0 {
        done.push(current)
    } else {
        done
    }
}

/// The open line with a carriage return that was held back.
pub open spec fn with_pending(current: Seq<char>, pending_cr: bool) -> Seq<char> {
    if pending_cr {
        current.push('\r')
    } else {
        current
    }
}

/// Splits a text into its lines, as `str::lines` does.
pub fn split_lines(text: &str) -> (r: Vec<String>)
    ensures
        r@.map_values(|l: String| l@) == text_lines(text@),
{
    let mut done: Vec<String> = Vec::new();
    let mut current = String::new();
    let mut pending_cr = false;
    for c in iter: text.chars()
        invariant
            iter.seq() == text@,
            lines_fold(text@.take(iter.index() as int)) == (
                done@.map_values(|l: String| l@),
                with_pending(current@, pending_cr),
            ),
            !pending_cr ==> !(current@.len() > 0 && current@.last() == '\r'),
    {
        let ghost k = iter.index();
        proof {
            assert(text@.take(k + 1).drop_last() == text@.take(k as int));
            assert(text@.take(k + 1).last() == c);
        }
        if c == '\n' {
            let ghost prev = done@;
            let line = current;
            proof {
                assert(strip_cr(with_pending(line@, pending_cr)) == line@);
            }
            done.push(line);
            current = String::new();
            pending_cr = false;
            proof {
                assert(done@.map_values(|l: String| l@) == prev.map_values(|l: String| l@).push(
                    line@,
                ));
            }
        } else {
            if pending_cr {
                push_char(&mut current, '\r');
            }
            if c == '\r' {
                pending_cr = true;
            } else {
                pending_cr = false;
                push_char(&mut current, c);
            }
        }
    }
    if pending_cr {
        push_char(&mut current, '\r');
    }
    proof {
        assert(text@.take(text@.len() as int) == text@);
    }
    if current.as_str().is_empty() {
        done
    } else {
        let ghost prev = done@;
        let line = current;
        done.push(line);
        proof {
            assert(done@.map_values(|l: String| l@) == prev.map_values(|l: String| l@).push(line@));
        }
        done
    }
}


/// A change to the text state that applies to an item or a line.
#[derive(Debug, Clone, PartialEq)]
pub enum TextModifier<U> {
    FontSize(U),
    Font(FontRef),
    TextRise(U),
    CharacterSpacing(U),
    WordSpacing(U),
}

/// A text item is a string with a list of modifiers
#[derive(Debug, Clone, PartialEq, Default)]
pub struct TextItem<U> {
    pub text: String,
    pub modifiers: Vec<TextModifier<U>>,
}

impl<U> TextItem<U> {
    /// An item of the given text, without modifiers.
    pub fn new(text: String) -> (r: Self)
        ensures
            r.text@ == text@,
            r.modifiers@.len() == 0,
    {
        TextItem { text, modifiers: Vec::new() }
    }

    /// An item of the given text, without modifiers.
    pub fn from_str(text: &str) -> (r: Self)
        ensures
            r.text@ == text@,
            r.modifiers@.len() == 0,
    {
        TextItem { text: text.to_owned(), modifiers: Vec::new() }
    }

    /// The item with a font size modifier added after its others.
    pub fn with_font_size(self, size: U) -> (r: Self)
        ensures
            r.text == self.text,
            r.modifiers@ == self.modifiers@.push(TextModifier::FontSize(size)),
    {
        let mut s = self;
        s.modifiers.push(TextModifier::FontSize(size));
        s
    }

    /// The item with a font modifier added after its others.
    pub fn with_font(self, font: FontRef) -> (r: Self)
        ensures
            r.text == self.text,
            r.modifiers@ == self.modifiers@.push(TextModifier::Font(font)),
    {
        let mut s = self;
        s.modifiers.push(TextModifier::Font(font));
        s
    }

    /// The item with a text rise modifier added after its others.
    pub fn with_text_rise(self, rise: U) -> (r: Self)
        ensures
            r.text == self.text,
            r.modifiers@ == self.modifiers@.push(TextModifier::TextRise(rise)),
    {
        let mut s = self;
        s.modifiers.push(TextModifier::TextRise(rise));
        s
    }

    /// The item with a character spacing modifier added after its others.
    pub fn with_character_spacing(self, spacing: U) -> (r: Self)
        ensures
            r.text == self.text,
            r.modifiers@ == self.modifiers@.push(TextModifier::CharacterSpacing(spacing)),
    {
        let mut s = self;
        s.modifiers.push(TextModifier::CharacterSpacing(spacing));
        s
    }

    /// The item with a word spacing modifier added after its others.
    pub fn with_word_spacing(self, spacing: U) -> (r: Self)
        ensures
            r.text == self.text,
            r.modifiers@ == self.modifiers@.push(TextModifier::WordSpacing(spacing)),
    {
        let mut s = self;
        s.modifiers.push(TextModifier::WordSpacing(spacing));
        s
    }
}

/// A text line is a list of text items
///
/// Shared modifiers are applied to all items in the line
#[derive(Debug, Clone, PartialEq, Default)]
pub struct TextLine<U> {
    pub items: Vec<TextItem<U>>,
    pub modifiers: Vec<TextModifier<U>>,
}

impl<U> TextLine<U> {
    /// Adds an item to the line using a builder pattern
    pub fn add_item(self, item: TextItem<U>) -> (r: Self)
        ensures
            r.items@ == self.items@.push(item),
            r.modifiers == self.modifiers,
    {
        let mut s = self;
        s.items.push(item);
        s
    }

    /// A line of one item holding the text, without modifiers.
    pub fn from_text(text: String) -> (r: Self)
        ensures
            r.items@.len() == 1,
            r.items@[0].text@ == text@,
            r.items@[0].modifiers@.len() == 0,
            r.modifiers@.len() == 0,
    {
        let mut items = Vec::new();
        items.push(TextItem::new(text));
        TextLine { items, modifiers: Vec::new() }
    }
}

/// The lines of a block of text.
#[derive(Debug, Clone, PartialEq, Default)]
pub struct TextBlockContent<U>(pub Vec<TextLine<U>>);

/// Whether a line is a single unmodified item holding the given text.
pub open spec fn is_plain_line<U>(line: TextLine<U>, text: Seq<char>) -> bool {
    &&& line.items@.len() == 1
    &&& line.items@[0].text@ == text
    &&& line.items@[0].modifiers@.len() == 0
    &&& line.modifiers@.len() == 0
}

/// The lines of a text, each a single unmodified item.
pub fn str_to_lines<U>(text: &str) -> (r: Vec<TextLine<U>>)
    ensures
        r@.len() == text_lines(text@).len(),
        forall|i: int| 0 <= i < r@.len() ==> is_plain_line(#[trigger] r@[i], text_lines(text@)[i]),
{
    let lines = split_lines(text);
    let ghost views = lines@.map_values(|l: String| l@);
    let mut out: Vec<TextLine<U>> = Vec::new();
    let mut i: usize = 0;
    while i < lines.len()
        invariant
            i <= lines.len(),
            views == lines@.map_values(|l: String| l@),
            views == text_lines(text@),
            out@.len() == i,
            forall|j: int| 0 <= j < i ==> is_plain_line(#[trigger] out@[j], views[j]),
        decreases lines.len() - i,
    {
        let line = lines[i].clone();
        out.push(TextLine::from_text(line));
        i = i + 1;
    }
    out
}

impl<U> TextBlockContent<U> {
    /// Adds a line to the block using a builder pattern
    pub fn add_line(self, line: TextLine<U>) -> (r: Self)
        ensures
            r.0@ == self.0@.push(line),
    {
        let mut s = self;
        s.0.push(line);
        s
    }

    /// The block of a text: one line per line of the text, each a single unmodified item.
    pub fn from_text(text: &str) -> (r: Self)
        ensures
            r.0@.len() == text_lines(text@).len(),
            forall|i: int| 0 <= i < r.0@.len() ==> is_plain_line(#[trigger] r.0@[i], text_lines(text@)[i]),
    {
        TextBlockContent(str_to_lines(text))
    }

    /// The number of lines.
    pub fn len(&self) -> (r: usize)
        ensures
            r == self.0@.len(),
    {
        self.0.len()
    }

    /// Whether the block has no lines.
    pub fn is_empty(&self) -> (r: bool)
        ensures
            r == (self.0@.len() == 0),
    {
        self.0.len() == 0
    }
}

} // verus!

verus! {

/// Whether a character is white space, as `char::is_whitespace` decides it: the characters
/// with the Unicode `White_Space` property.
pub open spec fn is_white_space_char(c: char) -> bool {
    let v = c as u32;
    ||| 0x9 <= v <= 0xD
    ||| v == 0x20
    ||| v == 0x85
    ||| v == 0xA0
    ||| v == 0x1680
    ||| 0x2000 <= v <= 0x200A
    ||| v == 0x2028
    ||| v == 0x2029
    ||| v == 0x202F
    ||| v == 0x205F
    ||| v == 0x3000
}

/// Whether a character is white space.
pub fn is_white_space(c: char) -> (r: bool)
    ensures
        r == is_white_space_char(c),
{
    let v = c as u32;
    (0x9 <= v && v <= 0xD) || v == 0x20 || v == 0x85 || v == 0xA0 || v == 0x1680 || (0x2000 <= v && v
        <= 0x200A) || v == 0x2028 || v == 0x2029 || v == 0x202F || v == 0x205F || v == 0x3000
}

/// The position of the last white space before position `o`, if there is one.
pub open spec fn last_space_before(s: Seq<char>, o: int) -> Option<int>
    decreases o,
{
    if o <= 0 {
        None
    } else if is_white_space_char(s[o - 1]) {
        Some(o - 1)
    } else {
        last_space_before(s, o - 1)
    }
}

/// Where a text is cut when its character at position `o` is the first that does not fit:
/// the end of the part that stays and the start of the part that moves on. The cut is at
/// the last white space before `o`, which neither part keeps; without one, at `o`.
pub open spec fn overflow_cut(s: Seq<char>, o: int) -> (int, int) {
    match last_space_before(s, o) {
        Some(w) => (w, w + 1),
        None => (o, o),
    }
}

/// Where the cut of a text falls, given the first character that does not fit, if any; when
/// every character fits, at the end.
pub open spec fn cut_points(s: Seq<char>, first_overflow: Option<usize>) -> (int, int) {
    match first_overflow {
        Some(o) => overflow_cut(s, o as int),
        None => (s.len() as int, s.len() as int),
    }
}

/// The last white space before a position stands before it, and no white space lies
/// between it and the position.
proof fn lemma_last_space_before(s: Seq<char>, o: int)
    requires
        0 <= o <= s.len(),
    ensures
        match last_space_before(s, o) {
            Some(w) => 0 <= w < o && is_white_space_char(s[w]) && forall|j: int|
                w < j < o ==> !is_white_space_char(#[trigger] s[j]),
            None => forall|j: int| 0 <= j < o ==> !is_white_space_char(#[trigger] s[j]),
        },
    decreases o,
{
    if o > 0 && !is_white_space_char(s[o - 1]) {
        lemma_last_space_before(s, o - 1);
    }
}

/// Law of cutting overflowing text: the part that stays ends before the first character that
/// does not fit; between the two parts at most one character is dropped, a white space, and
/// then no white space follows it before the overflow; nothing else is lost.
pub proof fn law_overflow_cut_keeps_the_text(s: Seq<char>, o: int)
    requires
        0 <= o < s.len(),
    ensures
        ({
            let (end, start) = overflow_cut(s, o);
            &&& 0 <= end <= o
            &&& end <= start <= o
            &&& s == s.subrange(0, end) + s.subrange(end, start) + s.subrange(start, s.len() as int)
            &&& (start == end || (start == end + 1 && is_white_space_char(s[end])))
            &&& start == end + 1 ==> forall|j: int| start <= j < o ==> !is_white_space_char(#[trigger] s[j])
        }),
{
    lemma_last_space_before(s, o);
    let (end, start) = overflow_cut(s, o);
    assert(s =~= s.subrange(0, end) + s.subrange(end, start) + s.subrange(start, s.len() as int));
}

impl<U: Clone> TextItem<U> {
    /// Cuts the item's text where it overflows: `first_overflow` is the position of the first
    /// character that does not fit, `None` when all fit. The item keeps the text before the
    /// cut; the text after it, with the same modifiers, is returned.
    pub fn split_at_overflow(&mut self, first_overflow: Option<usize>) -> (r: TextItem<U>)
        requires
            first_overflow matches Some(o) ==> o < old(self).text@.len(),
        ensures
            final(self).text@ == old(self).text@.subrange(0, cut_points(old(self).text@, first_overflow).0),
            r.text@ == old(self).text@.subrange(
                cut_points(old(self).text@, first_overflow).1,
                old(self).text@.len() as int,
            ),
            final(self).modifiers == old(self).modifiers,
            r.modifiers@.len() == old(self).modifiers@.len(),
            forall|i: int| 0 <= i < r.modifiers@.len() ==> cloned(old(self).modifiers@[i], #[trigger] r.modifiers@[i]),
    {
        let ghost s = self.text@;
        let n = self.text.as_str().unicode_len();
        // The last white space before the overflow.
        let mut last_space: Option<usize> = None;
        let (end, start) = match first_overflow {
            Some(o) => {
                let mut k: usize = 0;
                for c in iter: self.text.chars()
                    invariant
                        iter.seq() == s,
                        s == self.text@,
                        n == s.len(),
                        o < s.len(),
                        k == iter.index(),
                        k <= s.len(),
                        match last_space_before(s, if k <= o { k as int } else { o as int }) {
                            Some(w) => last_space == Some(w as usize),
                            None => last_space is None,
                        },
                {
                    if k < o && is_white_space(c) {
                        last_space = Some(k);
                    }
                    k = k + 1;
                }
                proof {
                    lemma_last_space_before(s, o as int);
                }
                match last_space {
                    Some(w) => (w, w + 1),
                    None => (o, o),
                }
            },
            None => (n, n),
        };
        let kept = String::from_str(self.text.as_str().substring_char(0, end));
        let rest = String::from_str(self.text.as_str().substring_char(start, n));
        self.text = kept;
        TextItem { text: rest, modifiers: self.modifiers.clone() }
    }
}

} // verus!

verus! {

impl<U: Clone> TextLine<U> {
    /// Splits the line where its item at `item` overflows (see `TextItem::split_at_overflow`
    /// for `first_overflow`): this line keeps the items before it and the part of it that
    /// fits; the next line, with the same modifiers, starts with the rest of that item and
    /// goes on with the items after it.
    pub fn split_at_overflow(self, item: usize, first_overflow: Option<usize>) -> (r: (TextLine<U>, TextLine<U>))
        requires
            item < self.items@.len(),
            first_overflow matches Some(o) ==> o < self.items@[item as int].text@.len(),
        ensures
            ({
                let (kept, next) = r;
                let it = self.items@[item as int];
                let (end, start) = cut_points(it.text@, first_overflow);
                &&& kept.modifiers == self.modifiers
                &&& kept.items@.len() == item + 1
                &&& forall|j: int| 0 <= j < item ==> #[trigger] kept.items@[j] == self.items@[j]
                &&& kept.items@[item as int].text@ == it.text@.subrange(0, end)
                &&& kept.items@[item as int].modifiers == it.modifiers
                &&& next.items@.len() == self.items@.len() - item
                &&& next.items@[0].text@ == it.text@.subrange(start, it.text@.len() as int)
                &&& next.items@[0].modifiers@.len() == it.modifiers@.len()
                &&& forall|i: int| 0 <= i < it.modifiers@.len() ==> cloned(it.modifiers@[i], #[trigger] next.items@[0].modifiers@[i])
                &&& forall|j: int| 1 <= j < next.items@.len() ==> #[trigger] next.items@[j] == self.items@[item + j]
                &&& next.modifiers@.len() == self.modifiers@.len()
                &&& forall|i: int| 0 <= i < self.modifiers@.len() ==> cloned(self.modifiers@[i], #[trigger] next.modifiers@[i])
            }),
    {
        let ghost items = self.items@;
        let mut kept_items = self.items;
        let n = kept_items.len();
        assert(item + 1 <= n);
        let tail = kept_items.split_off(item + 1);
        let mut last = kept_items.pop().unwrap();
        let rest = last.split_at_overflow(first_overflow);
        kept_items.push(last);
        let mut next_items: Vec<TextItem<U>> = Vec::new();
        next_items.push(rest);
        let mut tail = tail;
        next_items.append(&mut tail);
        proof {
            assert forall|j: int| 0 <= j < item implies #[trigger] kept_items@[j] == items[j] by {}
            assert forall|j: int| 1 <= j < next_items@.len() implies #[trigger] next_items@[j] == items[item + j] by {}
        }
        let next_modifiers = self.modifiers.clone();
        (TextLine { items: kept_items, modifiers: self.modifiers }, TextLine { items: next_items, modifiers: next_modifiers })
    }
}

} // verus!
