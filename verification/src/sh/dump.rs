//! A hexadecimal view of the code of a shape, record by record, with the
//! relocated pointers marked.

use super::ansi::{b2b, b2h, spec_b2b, spec_b2h, Color, Escape};
use crate::text::put_str;
use vstd::prelude::*;

verus! {

/// What a section of the code is.
#[derive(Clone, Copy, Debug, PartialEq, Eq, Structural)]
pub enum SectionKind {
    /// A record with the given tag.
    Main(u16),
    /// Bytes that were not decoded.
    Unknown,
    /// A record that does not lie in the code.
    Invalid,
}

/// A run of bytes of the code.
#[derive(Clone, Copy, Debug, PartialEq, Eq, Structural)]
pub struct Section {
    pub kind: SectionKind,
    pub offset: usize,
    pub length: usize,
}

impl Section {
    /// The colour that the section is shown in.
    pub open spec fn spec_color(&self) -> Color {
        match self.kind {
            SectionKind::Main(k) => if k == 0xFFFF || k == 0x00F2 || k == 0x00CA || k == 0x00B8
                || k == 0x007A || k == 0x0078 || k == 0x00A6 {
                Color::Blue
            } else if k == 0x00F0 {
                Color::BrightGreen
            } else if k == 0x00DA || k == 0x00CE || k == 0x00C8 || k == 0x00AC {
                Color::Magenta
            } else if k == 0x0042 || k == 0x00E2 {
                Color::Yellow
            } else if k == 0x0082 {
                Color::Green
            } else if k == 0x00FC {
                Color::Cyan
            } else {
                Color::Red
            },
            SectionKind::Unknown => Color::BrightBlack,
            SectionKind::Invalid => Color::Red,
        }
    }

    /// The section of a record with the tag `kind`.
    pub fn new(kind: u16, offset: usize, length: usize) -> (r: Self)
        ensures
            r == (Section { kind: SectionKind::Main(kind), offset, length }),
    {
        Section { kind: SectionKind::Main(kind), offset, length }
    }

    /// A section of bytes that were not decoded.
    pub fn unknown(offset: usize, length: usize) -> (r: Self)
        ensures
            r == (Section { kind: SectionKind::Unknown, offset, length }),
    {
        Section { kind: SectionKind::Unknown, offset, length }
    }

    /// The colour that the section is shown in.
    pub fn color(&self) -> (r: Color)
        ensures
            r == self.spec_color(),
    {
        match self.kind {
            SectionKind::Main(k) => match k {
                0xFFFF => Color::Blue,
                0x00F0 => Color::BrightGreen,
                0x00F2 => Color::Blue,
                0x00DA => Color::Magenta,
                0x00CA => Color::Blue,
                0x00B8 => Color::Blue,
                0x0042 => Color::Yellow,
                0x00E2 => Color::Yellow,
                0x007A => Color::Blue,
                0x00CE => Color::Magenta,
                0x0078 => Color::Blue,
                0x00C8 => Color::Magenta,
                0x00A6 => Color::Blue,
                0x00AC => Color::Magenta,
                0x0082 => Color::Green,
                0x1E1E => Color::Red,
                0x00FC => Color::Cyan,
                _ => Color::Red,
            },
            SectionKind::Unknown => Color::BrightBlack,
            SectionKind::Invalid => Color::Red,
        }
    }

    /// Whether the section is shown. Every section is.
    pub fn show(&self) -> (r: bool)
        ensures
            r,
    {
        true
    }
}

/// What is marked in the code.
#[derive(Debug)]
pub enum TagKind {
    /// A relocated pointer to the outside symbol with the given name.
    RelocatedCall(String),
    /// A relocated pointer into the code.
    RelocatedRef,
    /// What a relocated pointer into the code points at.
    RelocationTarget,
}

/// A mark on a run of bytes of the code.
#[derive(Debug)]
pub struct Tag {
    pub kind: TagKind,
    pub offset: usize,
    pub length: usize,
}

impl Tag {
    /// The two tags mark the same bytes in the same way.
    pub open spec fn spec_same(&self, other: &Tag) -> bool {
        &&& self.offset == other.offset
        &&& self.length == other.length
        &&& match (self.kind, other.kind) {
            (TagKind::RelocatedCall(a), TagKind::RelocatedCall(b)) => a@ == b@,
            (TagKind::RelocatedRef, TagKind::RelocatedRef) => true,
            (TagKind::RelocationTarget, TagKind::RelocationTarget) => true,
            _ => false,
        }
    }

    /// Whether the two tags mark the same bytes in the same way.
    pub fn same(&self, other: &Tag) -> (r: bool)
        ensures
            r == self.spec_same(other),
    {
        if self.offset != other.offset || self.length != other.length {
            return false;
        }
        match &self.kind {
            TagKind::RelocatedCall(a) => match &other.kind {
                TagKind::RelocatedCall(b) => same_text(a, b),
                _ => false,
            },
            TagKind::RelocatedRef => match &other.kind {
                TagKind::RelocatedRef => true,
                _ => false,
            },
            TagKind::RelocationTarget => match &other.kind {
                TagKind::RelocationTarget => true,
                _ => false,
            },
        }
    }

    /// A copy of the tag.
    pub fn duplicate(&self) -> (r: Tag)
        ensures
            r == *self,
    {
        Tag {
            kind: match &self.kind {
                TagKind::RelocatedCall(name) => TagKind::RelocatedCall(name.clone()),
                TagKind::RelocatedRef => TagKind::RelocatedRef,
                TagKind::RelocationTarget => TagKind::RelocationTarget,
            },
            offset: self.offset,
            length: self.length,
        }
    }
}

fn same_text(a: &String, b: &String) -> (r: bool)
    ensures
        r == (a@ == b@),
{
    *a == *b
}

/// Which sections are shown, and how.
#[derive(Clone, Copy, Debug, PartialEq, Eq, Structural)]
pub enum ShowMode {
    /// All sections on one line.
    AllOneLine,
    /// Each section on a line of its own.
    AllPerLine,
    /// The unknown sections that start like a facet, as facets.
    UnknownFacet,
    /// Each unknown section, followed by the three sections before it.
    UnknownMinus,
    /// Each unknown section.
    Unknown,
    /// Each facet, with the section behind it where that is unknown.
    Custom,
}

/// The tag starts in the section.
pub open spec fn spec_tag_in(section: Section, tag: Tag) -> bool {
    section.offset <= tag.offset < section.offset + section.length
}

/// The tags among the first `n` of `tags` that start in the section, in
/// their order.
pub open spec fn spec_tags_in(section: Section, tags: Seq<Tag>, n: int) -> Seq<Tag>
    decreases n,
{
    if n <= 0 {
        Seq::empty()
    } else {
        spec_tags_in(section, tags, n - 1) + if spec_tag_in(section, tags[n - 1]) {
            seq![tags[n - 1]]
        } else {
            Seq::empty()
        }
    }
}

/// The tags that start in the section, in their order.
pub fn find_tags_in_section(section: &Section, tags: &Vec<Tag>) -> (r: Vec<Tag>)
    ensures
        r@ == spec_tags_in(*section, tags@, tags@.len() as int),
{
    let mut out: Vec<Tag> = Vec::new();
    let mut i: usize = 0;
    while i < tags.len()
        invariant
            i <= tags@.len(),
            out@ == spec_tags_in(*section, tags@, i as int),
        decreases tags@.len() - i,
    {
        let t = &tags[i];
        let ghost before = out@;
        if t.offset >= section.offset && t.offset - section.offset < section.length {
            out.push(t.duplicate());
            assert(out@ =~= before + seq![tags@[i as int]]);
        } else {
            assert(out@ =~= before + Seq::<Tag>::empty());
        }
        i += 1;
    }
    out
}

/// The sequence that takes all looks back.
pub open spec fn spec_reset() -> Seq<char> {
    Escape {
        foreground: None,
        background: None,
        bold: false,
        dimmed: false,
        underline: false,
        strike_through: false,
    }.spec_put()
}

/// The sequence that sets the colour of the text.
pub open spec fn spec_fg(color: Color) -> Seq<char> {
    Escape {
        foreground: Some(color),
        background: None,
        bold: false,
        dimmed: false,
        underline: false,
        strike_through: false,
    }.spec_put()
}

/// The sequence that sets the colour of the background.
pub open spec fn spec_bg(color: Color) -> Seq<char> {
    Escape {
        foreground: None,
        background: Some(color),
        bold: false,
        dimmed: false,
        underline: false,
        strike_through: false,
    }.spec_put()
}

/// What is written before the byte at `off` for a tag that ends there:
/// for a pointer to an outside symbol the name of the symbol in red and
/// in brackets, and for every tag the return to the colour of the section.
pub open spec fn spec_closer(tag: Tag, off: int, color: Color) -> Seq<char> {
    if tag.offset + tag.length == off {
        (match tag.kind {
            TagKind::RelocatedCall(target) => spec_reset() + seq!['('] + spec_fg(Color::Red)
                + target@ + spec_reset() + seq![')', ' '],
            _ => Seq::empty(),
        }) + spec_reset() + spec_fg(color)
    } else {
        Seq::empty()
    }
}

/// What is written before the byte at `off` for a tag that starts there:
/// the look of the tagged bytes.
pub open spec fn spec_opener(tag: Tag, off: int) -> Seq<char> {
    if tag.offset == off {
        match tag.kind {
            TagKind::RelocatedCall(_) => Escape {
                foreground: None,
                background: None,
                bold: false,
                dimmed: true,
                underline: false,
                strike_through: false,
            }.spec_put(),
            TagKind::RelocatedRef => Escape {
                foreground: None,
                background: Some(Color::BrightRed),
                bold: true,
                dimmed: false,
                underline: false,
                strike_through: false,
            }.spec_put(),
            TagKind::RelocationTarget => Escape {
                foreground: Some(Color::BrightMagenta),
                background: None,
                bold: false,
                dimmed: false,
                underline: false,
                strike_through: true,
            }.spec_put(),
        }
    } else {
        Seq::empty()
    }
}

/// The closers of the first `n` tags, one after another.
pub open spec fn spec_closers(tags: Seq<Tag>, n: int, off: int, color: Color) -> Seq<char>
    decreases n,
{
    if n <= 0 {
        Seq::empty()
    } else {
        spec_closers(tags, n - 1, off, color) + spec_closer(tags[n - 1], off, color)
    }
}

/// The openers of the first `n` tags, one after another.
pub open spec fn spec_openers(tags: Seq<Tag>, n: int, off: int) -> Seq<char>
    decreases n,
{
    if n <= 0 {
        Seq::empty()
    } else {
        spec_openers(tags, n - 1, off) + spec_opener(tags[n - 1], off)
    }
}

/// The byte at `off` as it is shown within a section: the closers of the
/// tags that end there, a space, the openers of the tags that start there,
/// and the byte in hexadecimal digits.
pub open spec fn spec_byte(code: Seq<u8>, tags: Seq<Tag>, off: int, color: Color) -> Seq<char> {
    spec_closers(tags, tags.len() as int, off, color) + seq![' '] + spec_openers(
        tags,
        tags.len() as int,
        off,
    ) + spec_b2h(code[off])
}

/// The `n` bytes from `start` on as they are shown within a section.
pub open spec fn spec_bytes(code: Seq<u8>, tags: Seq<Tag>, start: int, n: int, color: Color)
    -> Seq<char>
    decreases n,
{
    if n <= 0 {
        Seq::empty()
    } else {
        spec_bytes(code, tags, start, n - 1, color) + spec_byte(code, tags, start + n - 1, color)
    }
}

/// The sequence that underlines.
pub open spec fn spec_underline() -> Seq<char> {
    Escape {
        foreground: None,
        background: None,
        bold: false,
        dimmed: false,
        underline: true,
        strike_through: false,
    }.spec_put()
}

/// A section of one byte as it is shown: the byte on the colour of the
/// section, and a space.
pub open spec fn spec_single(code: Seq<u8>, section: Section) -> Seq<char> {
    spec_bg(section.spec_color()) + spec_b2h(code[section.offset as int]) + spec_reset()
        + seq![' ']
}

/// The first two bytes of a section as they are shown: on the colour of
/// the section, with a space between them; the text that follows has the
/// colour of the section.
pub open spec fn spec_front(code: Seq<u8>, section: Section) -> Seq<char> {
    spec_bg(section.spec_color()) + spec_b2h(code[section.offset as int]) + seq![' ']
        + spec_b2h(code[section.offset + 1]) + spec_reset() + spec_fg(section.spec_color())
}

/// What ends a section: all looks are taken back, and a space.
pub open spec fn spec_tail() -> Seq<char> {
    spec_reset() + seq![' ']
}

/// The section as it is shown.
///
/// An empty section and a section that does not lie in the code are not
/// shown. Of the others, the first two bytes are shown on the colour of
/// the section and the rest in the colour of the section, each byte in
/// hexadecimal digits and behind a space. The section is underlined where
/// the first tag in it starts with it. Within the section, the tags are
/// marked as `spec_byte` says. A space ends the section.
pub open spec fn spec_section_text(code: Seq<u8>, section: Section, tags: Seq<Tag>) -> Seq<char> {
    if section.length == 0 || section.offset + section.length > code.len() {
        Seq::empty()
    } else {
        let inside = spec_tags_in(section, tags, tags.len() as int);
        let head = if inside.len() > 0 && inside[0].offset == section.offset {
            spec_underline()
        } else {
            Seq::empty()
        };
        if section.length == 1 {
            head + spec_single(code, section)
        } else {
            head + (spec_front(code, section) + spec_bytes(
                code,
                inside,
                section.offset + 2,
                section.length - 2,
                section.spec_color(),
            ) + spec_tail())
        }
    }
}

/// The `n` bytes from `start` on, each behind a space.
pub open spec fn spec_plain_bytes(code: Seq<u8>, start: int, n: int) -> Seq<char>
    decreases n,
{
    if n <= 0 {
        Seq::empty()
    } else {
        spec_plain_bytes(code, start, n - 1) + seq![' '] + spec_b2h(code[start + n - 1])
    }
}

/// The section as it is shown where it is taken for a facet: the tag on
/// the colour of the section, the two bytes of the flag word in binary
/// digits with an underscore between them, and the rest in hexadecimal
/// digits. A section of less than three bytes is not shown, nor one that
/// does not end before the end of the code.
pub open spec fn spec_facet_text(code: Seq<u8>, section: Section) -> Seq<char> {
    if section.length < 3 || section.offset + section.length >= code.len() {
        Seq::empty()
    } else {
        let color = section.spec_color();
        spec_bg(color) + spec_b2h(code[section.offset as int]) + spec_reset() + spec_fg(color)
            + seq![' '] + spec_b2b(code[section.offset + 1]) + seq!['_'] + spec_b2b(
            code[section.offset + 2],
        ) + spec_plain_bytes(code, section.offset + 3, section.length - 3) + spec_reset()
            + seq![' ']
    }
}

fn put_closer(v: &mut Vec<char>, tag: &Tag, off: usize, color: Color)
    ensures
        final(v)@ == old(v)@ + spec_closer(*tag, off as int, color),
{
    if tag.offset <= off && off - tag.offset == tag.length {
        if let TagKind::RelocatedCall(target) = &tag.kind {
            Escape::new().put(v);
            v.push('(');
            Escape::new().fg(Color::Red).put(v);
            put_str(v, target.as_str());
            Escape::new().put(v);
            v.push(')');
            v.push(' ');
            assert(v@ =~= old(v)@ + (spec_reset() + seq!['('] + spec_fg(Color::Red) + target@
                + spec_reset() + seq![')', ' ']));
        }
        let ghost mid = v@;
        Escape::new().put(v);
        Escape::new().fg(color).put(v);
        assert(v@ =~= mid + (spec_reset() + spec_fg(color)));
        assert(v@ =~= old(v)@ + spec_closer(*tag, off as int, color));
    } else {
        assert(v@ =~= old(v)@ + Seq::<char>::empty());
    }
}

fn put_opener(v: &mut Vec<char>, tag: &Tag, off: usize)
    ensures
        final(v)@ == old(v)@ + spec_opener(*tag, off as int),
{
    if tag.offset == off {
        match &tag.kind {
            TagKind::RelocatedCall(_) => Escape::new().dimmed().put(v),
            TagKind::RelocatedRef => Escape::new().bg(Color::BrightRed).bold().put(v),
            TagKind::RelocationTarget => Escape::new().fg(Color::BrightMagenta).strike_through().put(
                v,
            ),
        }
    } else {
        assert(v@ =~= old(v)@ + Seq::<char>::empty());
    }
}

fn put_byte(v: &mut Vec<char>, code: &[u8], tags: &Vec<Tag>, off: usize, color: Color)
    requires
        off < code@.len(),
    ensures
        final(v)@ == old(v)@ + spec_byte(code@, tags@, off as int, color),
{
    let mut k: usize = 0;
    while k < tags.len()
        invariant
            k <= tags@.len(),
            v@ == old(v)@ + spec_closers(tags@, k as int, off as int, color),
        decreases tags@.len() - k,
    {
        let ghost before = v@;
        put_closer(v, &tags[k], off, color);
        k += 1;
        assert(v@ =~= old(v)@ + spec_closers(tags@, k as int, off as int, color));
    }
    let ghost closed = v@;
    v.push(' ');
    let mut k: usize = 0;
    while k < tags.len()
        invariant
            k <= tags@.len(),
            v@ == closed + seq![' '] + spec_openers(tags@, k as int, off as int),
        decreases tags@.len() - k,
    {
        put_opener(v, &tags[k], off);
        k += 1;
        assert(v@ =~= closed + seq![' '] + spec_openers(tags@, k as int, off as int));
    }
    b2h(code[off], v);
    assert(v@ =~= old(v)@ + spec_byte(code@, tags@, off as int, color));
}

fn single(code: &[u8], section: &Section) -> (r: Vec<char>)
    requires
        section.offset < code@.len(),
    ensures
        r@ == spec_single(code@, *section),
{
    let mut v: Vec<char> = Vec::new();
    let color = section.color();
    Escape::new().bg(color).put(&mut v);
    b2h(code[section.offset], &mut v);
    Escape::new().put(&mut v);
    v.push(' ');
    assert(v@ =~= spec_single(code@, *section));
    v
}

fn front(code: &[u8], section: &Section) -> (r: Vec<char>)
    requires
        section.offset + 1 < code@.len(),
    ensures
        r@ == spec_front(code@, *section),
{
    let mut v: Vec<char> = Vec::new();
    let color = section.color();
    Escape::new().bg(color).put(&mut v);
    b2h(code[section.offset], &mut v);
    v.push(' ');
    b2h(code[section.offset + 1], &mut v);
    Escape::new().put(&mut v);
    Escape::new().fg(color).put(&mut v);
    assert(v@ =~= spec_front(code@, *section));
    v
}

fn tail() -> (r: Vec<char>)
    ensures
        r@ == spec_tail(),
{
    let mut v: Vec<char> = Vec::new();
    Escape::new().put(&mut v);
    v.push(' ');
    assert(v@ =~= spec_tail());
    v
}

fn bytes_text(code: &[u8], tags: &Vec<Tag>, start: usize, count: usize, color: Color) -> (r: Vec<
    char,
>)
    requires
        start + count <= code@.len(),
    ensures
        r@ == spec_bytes(code@, tags@, start as int, count as int, color),
{
    let mut v: Vec<char> = Vec::new();
    let total: usize = code.len();
    let mut i: usize = 0;
    while i < count
        invariant
            i <= count,
            start + count <= code@.len() == total,
            v@ == spec_bytes(code@, tags@, start as int, i as int, color),
        decreases count - i,
    {
        put_byte(&mut v, code, tags, start + i, color);
        i += 1;
    }
    v
}

/// Writes the section to the end of `v`, as it is shown with the tags
/// `tags`.
pub fn accumulate_section(code: &[u8], section: &Section, tags: &Vec<Tag>, v: &mut Vec<char>)
    ensures
        final(v)@ == old(v)@ + spec_section_text(code@, *section, tags@),
{
    if section.length == 0 || !section.show() || section.offset > code.len() || code.len()
        - section.offset < section.length {
        assert(v@ =~= old(v)@ + Seq::<char>::empty());
        return ;
    }
    let section_tags = find_tags_in_section(section, tags);
    let mut text: Vec<char> = Vec::new();
    if section_tags.len() > 0 && section_tags[0].offset == section.offset {
        Escape::new().underline().put(&mut text);
    }
    let ghost head = text@;
    if section.length == 1 {
        let mut piece = single(code, section);
        text.append(&mut piece);
    } else {
        let mut a = front(code, section);
        let mut b = bytes_text(
            code,
            &section_tags,
            section.offset + 2,
            section.length - 2,
            section.color(),
        );
        let mut c = tail();
        let ghost whole = a@ + b@ + c@;
        a.append(&mut b);
        a.append(&mut c);
        assert(a@ =~= whole);
        text.append(&mut a);
    }
    assert(text@ =~= spec_section_text(code@, *section, tags@));
    v.append(&mut text);
}

/// Writes the section to the end of `line`, as it is shown where it is
/// taken for a facet.
pub fn accumulate_facet_section(code: &[u8], section: &Section, line: &mut Vec<char>)
    ensures
        final(line)@ == old(line)@ + spec_facet_text(code@, *section),
{
    if section.length < 3 || section.offset >= code.len() || code.len() - section.offset
        <= section.length {
        assert(line@ =~= old(line)@ + Seq::<char>::empty());
        return ;
    }
    let color = section.color();
    Escape::new().bg(color).put(line);
    b2h(code[section.offset], line);
    Escape::new().put(line);
    Escape::new().fg(color).put(line);
    line.push(' ');
    b2b(code[section.offset + 1], line);
    line.push('_');
    b2b(code[section.offset + 2], line);
    let ghost front = line@;
    assert(front =~= old(line)@ + spec_bg(color) + spec_b2h(code@[section.offset as int])
        + spec_reset() + spec_fg(color) + seq![' '] + spec_b2b(code@[section.offset + 1])
        + seq!['_'] + spec_b2b(code@[section.offset + 2]));
    let start: usize = section.offset + 3;
    let count: usize = section.length - 3;
    let mut i: usize = 0;
    while i < count
        invariant
            i <= count,
            start + count < code@.len() <= usize::MAX,
            line@ == front + spec_plain_bytes(code@, start as int, i as int),
        decreases count - i,
    {
        line.push(' ');
        b2h(code[start + i], line);
        i += 1;
        assert(line@ =~= front + spec_plain_bytes(code@, start as int, i as int));
    }
    Escape::new().put(line);
    line.push(' ');
    assert(line@ =~= old(line)@ + spec_facet_text(code@, *section));
}

} // verus!
