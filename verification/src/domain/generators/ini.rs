//! INI-style sections, as AWS configuration files write them.

use vstd::prelude::*;

use crate::text::{owned, push_str};

verus! {

/// A `[header]` followed by `key = value` settings.
pub struct Section {
    header: String,
    settings: Vec<(String, String)>,
}

/// The abstract value of a `Section`.
pub struct SectionView {
    pub header: Seq<char>,
    pub settings: Seq<(Seq<char>, Seq<char>)>,
}

/// The text of a setting.
pub open spec fn setting_view(kv: (String, String)) -> (Seq<char>, Seq<char>) {
    (kv.0@, kv.1@)
}

impl View for Section {
    type V = SectionView;

    closed spec fn view(&self) -> SectionView {
        SectionView {
            header: self.header@,
            settings: self.settings@.map_values(|kv: (String, String)| setting_view(kv)),
        }
    }
}

impl Section {
    /// A section without settings.
    pub fn new(header: String) -> (s: Self)
        ensures
            s@ == (SectionView { header: header@, settings: Seq::empty() }),
    {
        let s = Section { header, settings: Vec::new() };
        assert(s@.settings == Seq::<(Seq<char>, Seq<char>)>::empty());
        s
    }

    /// The section with `key = value` added after its settings.
    pub fn with(self, key: &str, value: String) -> (s: Self)
        ensures
            s@ == (SectionView { header: self@.header, settings: self@.settings.push((key@, value@)) }),
    {
        let mut s = self;
        let ghost before = s@;
        s.settings.push((owned(key), value));
        assert(s@.settings == before.settings.push((key@, value@)));
        s
    }
}

/// The text of settings, one `key = value` line each.
pub open spec fn settings_text(settings: Seq<(Seq<char>, Seq<char>)>) -> Seq<char>
    decreases settings.len(),
{
    if settings.len() == 0 {
        Seq::<char>::empty()
    } else {
        settings_text(settings.drop_last()) + settings.last().0 + " = "@ + settings.last().1 + "\n"@
    }
}

/// The text of a section: its header line, its settings and a blank line.
pub open spec fn section_text(s: SectionView) -> Seq<char> {
    "["@ + s.header + "]\n"@ + settings_text(s.settings) + "\n"@
}

/// The text of sections, in order.
pub open spec fn sections_text(secs: Seq<SectionView>) -> Seq<char>
    decreases secs.len(),
{
    if secs.len() == 0 {
        Seq::<char>::empty()
    } else {
        sections_text(secs.drop_last()) + section_text(secs.last())
    }
}

/// The views of sections.
pub open spec fn sections_view(secs: Seq<Section>) -> Seq<SectionView> {
    secs.map_values(|s: Section| s@)
}

/// Appends the text of one section.
fn push_section(out: &mut String, s: &Section)
    ensures
        final(out)@ == old(out)@ + section_text(s@),
{
    push_str(out, "[");
    push_str(out, s.header.as_str());
    push_str(out, "]\n");
    let ghost start = out@;
    let mut i: usize = 0;
    while i < s.settings.len()
        invariant
            i <= s.settings.len(),
            out@ == start + settings_text(s@.settings.take(i as int)),
        decreases s.settings.len() - i,
    {
        assert(s@.settings[i as int] == setting_view(s.settings@[i as int]));
        push_str(out, s.settings[i].0.as_str());
        push_str(out, " = ");
        push_str(out, s.settings[i].1.as_str());
        push_str(out, "\n");
        assert(s@.settings.take(i + 1).drop_last() == s@.settings.take(i as int));
        i = i + 1;
    }
    assert(s@.settings.take(s.settings.len() as int) == s@.settings);
    push_str(out, "\n");
}

/// The text of sections, in order.
pub fn render_sections(secs: &Vec<Section>) -> (text: String)
    ensures
        text@ == sections_text(sections_view(secs@)),
{
    let mut text = String::new();
    let mut i: usize = 0;
    while i < secs.len()
        invariant
            i <= secs.len(),
            text@ == sections_text(sections_view(secs@).take(i as int)),
        decreases secs.len() - i,
    {
        push_section(&mut text, &secs[i]);
        assert(sections_view(secs@).take(i + 1).drop_last() == sections_view(secs@).take(i as int));
        i = i + 1;
    }
    assert(sections_view(secs@).take(secs.len() as int) == sections_view(secs@));
    text
}

} // verus!
