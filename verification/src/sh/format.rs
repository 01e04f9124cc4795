//! The lines of the hexadecimal view, for each way of showing a shape.

use super::dump::{
    accumulate_facet_section, accumulate_section, spec_facet_text, spec_section_text, Section,
    SectionKind, ShowMode, Tag,
};
use crate::text::chars_to_string;
use vstd::prelude::*;

verus! {

/// The tags of a view overlap: one of them starts within another and ends
/// behind it.
#[derive(Clone, Copy, Debug, PartialEq, Eq, Structural)]
pub enum FormatError {
    OverlappingTags,
}

/// The first index at or after `from` whose tag starts behind `key`, or
/// the length of `s` where there is none.
pub open spec fn spec_upper(s: Seq<Tag>, key: usize, from: int) -> int
    decreases s.len() - from,
{
    if from < 0 || from >= s.len() {
        s.len() as int
    } else if s[from].offset > key {
        from
    } else {
        spec_upper(s, key, from + 1)
    }
}

/// `s` with `x` put in before the first tag that starts behind it.
pub open spec fn spec_insert(s: Seq<Tag>, x: Tag) -> Seq<Tag> {
    s.insert(spec_upper(s, x.offset, 0), x)
}

/// The first `n` tags ordered by their offsets. Tags with the same offset
/// keep their order.
pub open spec fn spec_sort(tags: Seq<Tag>, n: int) -> Seq<Tag>
    decreases n,
{
    if n <= 0 {
        Seq::empty()
    } else {
        spec_insert(spec_sort(tags, n - 1), tags[n - 1])
    }
}

/// The first `n` tags without those that are the same as the tag before
/// them.
pub open spec fn spec_dedup(s: Seq<Tag>, n: int) -> Seq<Tag>
    decreases n,
{
    if n <= 0 {
        Seq::empty()
    } else if n >= 2 && s[n - 1].spec_same(&s[n - 2]) {
        spec_dedup(s, n - 1)
    } else {
        spec_dedup(s, n - 1).push(s[n - 1])
    }
}

/// The tags in order and without repetitions.
pub open spec fn spec_tidy(tags: Seq<Tag>) -> Seq<Tag> {
    spec_dedup(spec_sort(tags, tags.len() as int), tags.len() as int)
}

/// The tag `a` and the tag `b` behind it get along: `b` does not start
/// before `a`, and `a` ends before `b` starts or not before `b` ends.
pub open spec fn spec_pair_clear(a: Tag, b: Tag) -> bool {
    &&& a.offset <= b.offset
    &&& (a.offset + a.length <= b.offset || a.offset + a.length >= b.offset + b.length)
}

/// No two of the tags overlap.
pub open spec fn spec_clear(s: Seq<Tag>) -> bool {
    forall|i: int, j: int| 0 <= i < j < s.len() ==> spec_pair_clear(s[i], s[j])
}

/// One line of text with the given characters.
pub open spec fn spec_one(text: Seq<char>) -> Seq<Seq<char>> {
    seq![text]
}

/// Section `i`, or nothing where there is no such section.
pub open spec fn spec_text_at(code: Seq<u8>, sections: Seq<Section>, tags: Seq<Tag>, i: int)
    -> Seq<char> {
    if 0 <= i < sections.len() {
        spec_section_text(code, sections[i], tags)
    } else {
        Seq::empty()
    }
}

/// The lines that section `i` adds to the view.
///
/// - `AllPerLine`: the section.
/// - `Unknown`: the section, where it is unknown.
/// - `UnknownMinus`: where the section is unknown, the section and behind
///   it the third, the second and the first section before it.
/// - `UnknownFacet`: where the section is unknown and starts with the tag
///   of a facet, the section as a facet.
/// - `Custom`: where the section before it is a facet, `0| `, that facet
///   and this section where this section is unknown, and `1| ` and that
///   facet where it is not.
/// - `AllOneLine`: none; the one line is made of all sections.
pub open spec fn spec_lines_for(
    code: Seq<u8>,
    sections: Seq<Section>,
    tags: Seq<Tag>,
    mode: ShowMode,
    i: int,
) -> Seq<Seq<char>> {
    let section = sections[i];
    match mode {
        ShowMode::AllOneLine => Seq::empty(),
        ShowMode::AllPerLine => spec_one(spec_section_text(code, section, tags)),
        ShowMode::Unknown => if section.kind == SectionKind::Unknown {
            spec_one(spec_section_text(code, section, tags))
        } else {
            Seq::empty()
        },
        ShowMode::UnknownMinus => if section.kind == SectionKind::Unknown {
            spec_one(
                spec_section_text(code, section, tags) + spec_text_at(code, sections, tags, i - 3)
                    + spec_text_at(code, sections, tags, i - 2) + spec_text_at(
                    code,
                    sections,
                    tags,
                    i - 1,
                ),
            )
        } else {
            Seq::empty()
        },
        ShowMode::UnknownFacet => if section.kind == SectionKind::Unknown && section.length > 0
            && section.offset < code.len() && code[section.offset as int] == 0xFC {
            spec_one(spec_facet_text(code, section))
        } else {
            Seq::empty()
        },
        ShowMode::Custom => if i > 0 && sections[i - 1].kind == SectionKind::Main(0xFC) {
            if section.kind == SectionKind::Unknown {
                spec_one(
                    seq!['0', '|', ' '] + spec_facet_text(code, sections[i - 1])
                        + spec_section_text(code, section, tags),
                )
            } else {
                spec_one(seq!['1', '|', ' '] + spec_facet_text(code, sections[i - 1]))
            }
        } else {
            Seq::empty()
        },
    }
}

/// The lines that the first `n` sections add to the view.
pub open spec fn spec_lines(
    code: Seq<u8>,
    sections: Seq<Section>,
    tags: Seq<Tag>,
    mode: ShowMode,
    n: int,
) -> Seq<Seq<char>>
    decreases n,
{
    if n <= 0 {
        Seq::empty()
    } else {
        spec_lines(code, sections, tags, mode, n - 1) + spec_lines_for(
            code,
            sections,
            tags,
            mode,
            n - 1,
        )
    }
}

/// The first `n` sections, one after another.
pub open spec fn spec_all(code: Seq<u8>, sections: Seq<Section>, tags: Seq<Tag>, n: int) -> Seq<
    char,
>
    decreases n,
{
    if n <= 0 {
        Seq::empty()
    } else {
        spec_all(code, sections, tags, n - 1) + spec_section_text(code, sections[n - 1], tags)
    }
}

/// The lines of the view.
pub open spec fn spec_format(
    code: Seq<u8>,
    sections: Seq<Section>,
    tags: Seq<Tag>,
    mode: ShowMode,
) -> Seq<Seq<char>> {
    if mode == ShowMode::AllOneLine {
        spec_one(spec_all(code, sections, tags, sections.len() as int))
    } else {
        spec_lines(code, sections, tags, mode, sections.len() as int)
    }
}

/// The texts of the strings.
pub open spec fn spec_texts(lines: Seq<String>) -> Seq<Seq<char>> {
    lines.map_values(|s: String| s@)
}

fn upper(s: &Vec<Tag>, key: usize) -> (r: usize)
    ensures
        r == spec_upper(s@, key, 0),
        r <= s@.len(),
{
    let mut i: usize = 0;
    while i < s.len()
        invariant
            i <= s@.len(),
            spec_upper(s@, key, i as int) == spec_upper(s@, key, 0),
        decreases s@.len() - i,
    {
        if s[i].offset > key {
            return i;
        }
        i += 1;
    }
    i
}

/// The tags ordered by their offsets, without repetitions.
pub fn tidy(tags: &Vec<Tag>) -> (r: Vec<Tag>)
    ensures
        r@ == spec_tidy(tags@),
{
    let mut sorted: Vec<Tag> = Vec::new();
    let mut i: usize = 0;
    while i < tags.len()
        invariant
            i <= tags@.len(),
            sorted@ == spec_sort(tags@, i as int),
            sorted@.len() == i,
        decreases tags@.len() - i,
    {
        let x = tags[i].duplicate();
        let at: usize = upper(&sorted, x.offset);
        sorted.insert(at, x);
        i += 1;
    }
    let mut out: Vec<Tag> = Vec::new();
    let mut k: usize = 0;
    while k < sorted.len()
        invariant
            k <= sorted@.len(),
            out@ == spec_dedup(sorted@, k as int),
        decreases sorted@.len() - k,
    {
        if k >= 1 && sorted[k].same(&sorted[k - 1]) {
        } else {
            out.push(sorted[k].duplicate());
        }
        k += 1;
    }
    out
}

/// Whether no two of the tags overlap.
pub fn clear(tags: &Vec<Tag>) -> (r: bool)
    ensures
        r == spec_clear(tags@),
{
    let mut i: usize = 0;
    while i < tags.len()
        invariant
            i <= tags@.len(),
            forall|a: int, b: int| 0 <= a < i && a < b < tags@.len() ==> spec_pair_clear(
                tags@[a],
                tags@[b],
            ),
        decreases tags@.len() - i,
    {
        let mut j: usize = i + 1;
        while j < tags.len()
            invariant
                i < j <= tags@.len(),
                forall|a: int, b: int| 0 <= a < i && a < b < tags@.len() ==> spec_pair_clear(
                    tags@[a],
                    tags@[b],
                ),
                forall|b: int| i < b < j ==> spec_pair_clear(tags@[i as int], tags@[b]),
            decreases tags@.len() - j,
        {
            let a = &tags[i];
            let b = &tags[j];
            let a_end: u128 = a.offset as u128 + a.length as u128;
            let b_end: u128 = b.offset as u128 + b.length as u128;
            if !(a.offset <= b.offset && (a_end <= b.offset as u128 || a_end >= b_end)) {
                assert(!spec_pair_clear(tags@[i as int], tags@[j as int]));
                return false;
            }
            j += 1;
        }
        i += 1;
    }
    true
}

fn text_at(code: &[u8], sections: &Vec<Section>, tags: &Vec<Tag>, i: usize, line: &mut Vec<char>)
    requires
        i < sections@.len(),
    ensures
        final(line)@ == old(line)@ + spec_text_at(code@, sections@, tags@, i as int),
{
    accumulate_section(code, &sections[i], tags, line);
}

fn lines_for(code: &[u8], sections: &Vec<Section>, tags: &Vec<Tag>, mode: ShowMode, i: usize)
    -> (r: Option<Vec<char>>)
    requires
        i < sections@.len(),
    ensures
        match r {
            Some(line) => spec_lines_for(code@, sections@, tags@, mode, i as int) == spec_one(
                line@,
            ),
            None => spec_lines_for(code@, sections@, tags@, mode, i as int) == Seq::<
                Seq<char>,
            >::empty(),
        },
{
    let section = &sections[i];
    let unknown: bool = match section.kind {
        SectionKind::Unknown => true,
        _ => false,
    };
    let mut line: Vec<char> = Vec::new();
    match mode {
        ShowMode::AllOneLine => None,
        ShowMode::AllPerLine => {
            accumulate_section(code, section, tags, &mut line);
            assert(line@ =~= spec_section_text(code@, *section, tags@));
            Some(line)
        },
        ShowMode::Unknown => {
            if unknown {
                accumulate_section(code, section, tags, &mut line);
                assert(line@ =~= spec_section_text(code@, *section, tags@));
                Some(line)
            } else {
                None
            }
        },
        ShowMode::UnknownMinus => {
            if unknown {
                accumulate_section(code, section, tags, &mut line);
                let ghost a = line@;
                if i > 2 {
                    text_at(code, sections, tags, i - 3, &mut line);
                }
                let ghost b = line@;
                assert(b =~= a + spec_text_at(code@, sections@, tags@, i - 3));
                if i > 1 {
                    text_at(code, sections, tags, i - 2, &mut line);
                }
                let ghost c = line@;
                assert(c =~= b + spec_text_at(code@, sections@, tags@, i - 2));
                if i > 0 {
                    text_at(code, sections, tags, i - 1, &mut line);
                }
                assert(line@ =~= c + spec_text_at(code@, sections@, tags@, i - 1));
                assert(a =~= spec_section_text(code@, *section, tags@));
                Some(line)
            } else {
                None
            }
        },
        ShowMode::UnknownFacet => {
            if unknown && section.length > 0 && section.offset < code.len()
                && code[section.offset] == 0xFC {
                accumulate_facet_section(code, section, &mut line);
                assert(line@ =~= spec_facet_text(code@, *section));
                Some(line)
            } else {
                None
            }
        },
        ShowMode::Custom => {
            if i == 0 {
                return None;
            }
            let facet: bool = match sections[i - 1].kind {
                SectionKind::Main(k) => k == 0xFC,
                _ => false,
            };
            if !facet {
                return None;
            }
            if unknown {
                line.push('0');
            } else {
                line.push('1');
            }
            line.push('|');
            line.push(' ');
            let ghost head = line@;
            accumulate_facet_section(code, &sections[i - 1], &mut line);
            if unknown {
                let ghost mid = line@;
                accumulate_section(code, section, tags, &mut line);
                assert(line@ =~= seq!['0', '|', ' '] + spec_facet_text(
                    code@,
                    sections@[i - 1],
                ) + spec_section_text(code@, *section, tags@));
            } else {
                assert(line@ =~= seq!['1', '|', ' '] + spec_facet_text(code@, sections@[i - 1]));
            }
            Some(line)
        },
    }
}

/// Makes the lines of the view of `code` that `mode` asks for.
///
/// The tags are first put in the order of their offsets, and repeated
/// tags are taken out; `tags` holds them so afterwards. Where two of them
/// overlap there is no view.
pub fn format_sections(
    code: &[u8],
    sections: &Vec<Section>,
    tags: &mut Vec<Tag>,
    mode: ShowMode,
) -> (r: Result<Vec<String>, FormatError>)
    ensures
        final(tags)@ == spec_tidy(old(tags)@),
        r is Ok <==> spec_clear(final(tags)@),
        r matches Ok(lines) ==> spec_texts(lines@) == spec_format(
            code@,
            sections@,
            final(tags)@,
            mode,
        ),
        r matches Err(e) ==> e == FormatError::OverlappingTags,
{
    let tidied = tidy(tags);
    *tags = tidied;
    if !clear(tags) {
        return Err(FormatError::OverlappingTags);
    }
    let mut out: Vec<String> = Vec::new();
    match mode {
        ShowMode::AllOneLine => {
            let mut line: Vec<char> = Vec::new();
            let mut i: usize = 0;
            while i < sections.len()
                invariant
                    i <= sections@.len(),
                    line@ == spec_all(code@, sections@, tags@, i as int),
                decreases sections@.len() - i,
            {
                accumulate_section(code, &sections[i], tags, &mut line);
                i += 1;
            }
            out.push(chars_to_string(&line));
            assert(spec_texts(out@) =~= spec_one(line@));
        },
        _ => {
            let mut i: usize = 0;
            assert(spec_texts(out@) =~= Seq::<Seq<char>>::empty());
            while i < sections.len()
                invariant
                    i <= sections@.len(),
                    mode != ShowMode::AllOneLine,
                    spec_texts(out@) == spec_lines(code@, sections@, tags@, mode, i as int),
                decreases sections@.len() - i,
            {
                let ghost before = spec_texts(out@);
                match lines_for(code, sections, tags, mode, i) {
                    Some(line) => {
                        out.push(chars_to_string(&line));
                        assert(spec_texts(out@) =~= before + spec_one(line@));
                    },
                    None => {
                        assert(spec_texts(out@) =~= before + Seq::<Seq<char>>::empty());
                    },
                }
                i += 1;
            }
        },
    }
    Ok(out)
}

} // verus!
