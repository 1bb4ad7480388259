//! The resume's content, as the content file gives it, and the small pieces of
//! text and style that the header and lists are made of.
use vstd::prelude::*;
use crate::text::{blank, is_blank, join, lemma_join_push, trim_str, trimmed};

verus! {

/// One entry of the navigation list: its title and the text shown for it.
#[derive(Clone, Debug, Default)]
pub struct ResumeSection {
    pub title: String,
    pub body: String,
}

/// The header: title, subtitle and the download button's configuration.
#[derive(Clone, Debug, Default)]
pub struct ResumeHeader {
    pub title: String,
    pub subtitle: String,
    pub download_label: String,
    pub download_url: String,
    pub download_filename: String,
}

/// The footer's hint line.
#[derive(Clone, Debug, Default)]
pub struct ResumeFooter {
    pub hint: String,
}

/// Where the resume's owner can be found.
#[derive(Clone, Debug, Default)]
pub struct Contact {
    pub scholar: String,
    pub github: String,
    pub linkedin: String,
    pub location: String,
}

/// Summary paragraphs and highlighted points.
#[derive(Clone, Debug, Default)]
pub struct Profile {
    pub summary: Vec<String>,
    pub highlights: Vec<String>,
}

/// A position in industry.
#[derive(Clone, Debug, Default)]
pub struct ExperienceEntry {
    pub organization: String,
    pub role: String,
    pub dates: String,
    pub manager: String,
    pub bullets: Vec<String>,
}

/// A research position.
#[derive(Clone, Debug, Default)]
pub struct ResearchEntry {
    pub organization: String,
    pub role: String,
    pub mentor: String,
    pub publications: String,
    pub bullets: Vec<String>,
}

/// Skills in three areas.
#[derive(Clone, Debug, Default)]
pub struct Skills {
    pub software: Vec<String>,
    pub molecular_biology: Vec<String>,
    pub structural_biology: Vec<String>,
}

/// A degree.
#[derive(Clone, Debug, Default)]
pub struct EducationEntry {
    pub degree: String,
    pub institution: String,
    pub dates: String,
    pub notes: Vec<String>,
}

/// A further position, with the manager or mentor who guided it.
#[derive(Clone, Debug, Default)]
pub struct PositionEntry {
    pub title: String,
    pub organization: String,
    pub mentor: String,
    pub manager: String,
}

/// The whole content of the resume.
#[derive(Clone, Debug, Default)]
pub struct ResumeData {
    pub header: ResumeHeader,
    pub contact: Contact,
    pub profile: Profile,
    pub experience: Vec<ExperienceEntry>,
    pub research: Vec<ResearchEntry>,
    pub skills: Skills,
    pub education: Vec<EducationEntry>,
    pub awards: Vec<String>,
    pub positions: Vec<PositionEntry>,
    pub footer: ResumeFooter,
}

impl PositionEntry {
    /// Who guided the holder of a position: the manager where one is named,
    /// else the mentor where one is named, each trimmed, with its label.
    pub open spec fn guide(self) -> Option<(Seq<char>, Seq<char>)> {
        if !is_blank(self.manager@) {
            Some(("Manager"@, trimmed(self.manager@)))
        } else if !is_blank(self.mentor@) {
            Some(("Mentor"@, trimmed(self.mentor@)))
        } else {
            None
        }
    }

    pub fn guide_label_and_name(&self) -> (r: Option<(&str, &str)>)
        ensures
            match r {
                Some((label, name)) => self.guide() == Some((label@, name@)),
                None => self.guide() is None,
            },
    {
        let manager = trim_str(self.manager.as_str());
        if !manager.is_empty() {
            return Some(("Manager", manager));
        }
        let mentor = trim_str(self.mentor.as_str());
        if !mentor.is_empty() {
            Some(("Mentor", mentor))
        } else {
            None
        }
    }
}

/// A named manager is the guide, trimmed; without one a named mentor is,
/// trimmed; without either there is none.
pub proof fn lemma_guide_prefers_manager(p: PositionEntry)
    ensures
        !is_blank(p.manager@) ==> p.guide() == Some(("Manager"@, trimmed(p.manager@))),
        is_blank(p.manager@) && !is_blank(p.mentor@) ==> p.guide() == Some(
            ("Mentor"@, trimmed(p.mentor@)),
        ),
        is_blank(p.manager@) && is_blank(p.mentor@) ==> p.guide() is None,
{
}

/// Each line as a list item, `- ` before it, one item per line.
pub open spec fn bullet_list(lines: Seq<String>) -> Seq<char> {
    join(lines.map_values(|l: String| "- "@ + l@), "\n"@)
}

/// The lines as a list, each item `- ` and the line, one item per line.
pub fn bullets(lines: &[String]) -> (r: String)
    ensures
        r@ == bullet_list(lines@),
{
    let ghost items = lines@.map_values(|l: String| "- "@ + l@);
    let mut r = String::new();
    let mut i: usize = 0;
    while i < lines.len()
        invariant
            i <= lines.len(),
            items == lines@.map_values(|l: String| "- "@ + l@),
            r@ == join(items.take(i as int), "\n"@),
        decreases lines.len() - i,
    {
        let ghost before = r@;
        if i > 0 {
            r.append("\n");
        }
        r.append("- ");
        r.append(lines[i].as_str());
        proof {
            assert(items.take(i + 1).drop_last() =~= items.take(i as int));
            assert(items.take(i + 1).last() == "- "@ + lines@[i as int]@);
            if i == 0 {
                assert(r@ =~= items.take(1)[0]);
            } else {
                assert(r@ =~= before + "\n"@ + ("- "@ + lines@[i as int]@));
            }
        }
        i = i + 1;
    }
    proof {
        assert(items.take(lines.len() as int) =~= items);
    }
    r
}

/// No lines make an empty list; one line more adds a line break, `- ` and
/// that line at the end.
pub proof fn lemma_bullet_list_push(lines: Seq<String>, line: String)
    ensures
        bullet_list(Seq::empty()) == Seq::<char>::empty(),
        bullet_list(lines.push(line)) == if lines.len() == 0 {
            "- "@ + line@
        } else {
            bullet_list(lines) + "\n"@ + ("- "@ + line@)
        },
{
    let f = |l: String| "- "@ + l@;
    assert(Seq::<String>::empty().map_values(f) =~= Seq::empty());
    assert(lines.push(line).map_values(f) =~= lines.map_values(f).push("- "@ + line@));
    lemma_join_push(lines.map_values(f), "\n"@, "- "@ + line@);
}

/// The list for the Markdown export; the same text as [`bullets`].
pub fn markdown_bullets(lines: &[String]) -> (r: String)
    ensures
        r@ == bullet_list(lines@),
{
    bullets(lines)
}

/// A download link is configured when the header names a URL that is not blank.
pub fn has_download_url(header: &ResumeHeader) -> (b: bool)
    ensures
        b == !is_blank(header.download_url@),
{
    !blank(header.download_url.as_str())
}

/// Where the site runs: in a browser, where a resume can always be offered
/// for download, or natively, where only a configured link can be followed.
#[derive(Clone, Copy, Debug, PartialEq, Eq, Structural)]
pub enum Target {
    Web,
    Native,
}

/// Whether the header's download button is active.
pub fn is_download_enabled(header: &ResumeHeader, target: Target) -> (b: bool)
    ensures
        b == match target {
            Target::Web => true,
            Target::Native => !is_blank(header.download_url@),
        },
{
    match target {
        Target::Web => true,
        Target::Native => has_download_url(header),
    }
}

/// The label of the download button: the configured label, trimmed, or
/// `Download CV` when none is configured.
pub open spec fn button_label(header: ResumeHeader) -> Seq<char> {
    if is_blank(header.download_label@) {
        "Download CV"@
    } else {
        trimmed(header.download_label@)
    }
}

/// The download button's text: its label in square brackets.
pub open spec fn button_text(header: ResumeHeader) -> Seq<char> {
    "["@ + button_label(header) + "]"@
}

/// A label that is not blank is shown trimmed, whatever its length, between
/// square brackets; a blank one shows `[Download CV]`.
pub proof fn lemma_button_shows_configured_label(header: ResumeHeader)
    ensures
        !is_blank(header.download_label@) ==> button_text(header) == "["@ + trimmed(
            header.download_label@,
        ) + "]"@,
        is_blank(header.download_label@) ==> button_text(header) == "[Download CV]"@,
{
    reveal_strlit("[");
    reveal_strlit("]");
    reveal_strlit("Download CV");
    reveal_strlit("[Download CV]");
    assert("["@ + "Download CV"@ + "]"@ =~= "[Download CV]"@);
}

pub fn download_button_text(header: &ResumeHeader) -> (r: String)
    ensures
        r@ == button_text(*header),
{
    let trimmed_label = trim_str(header.download_label.as_str());
    let label = if trimmed_label.is_empty() {
        "Download CV"
    } else {
        trimmed_label
    };
    let mut r = String::from_str("[");
    r.append(label);
    r.append("]");
    r
}

/// The colours of the site's theme.
#[derive(Clone, Copy, Debug, PartialEq, Eq, Structural)]
pub enum Palette {
    BgBase,
    Surface,
    SurfaceAlt,
    TextPrimary,
    TextMuted,
    AccentBlue,
    LinkYellow,
    LinkOrange,
    LinkRed,
}

impl Palette {
    pub open spec fn spec_rgb(self) -> (u8, u8, u8) {
        match self {
            Palette::BgBase => (24, 34, 49),
            Palette::Surface => (43, 54, 71),
            Palette::SurfaceAlt => (54, 68, 89),
            Palette::TextPrimary => (222, 229, 239),
            Palette::TextMuted => (167, 178, 196),
            Palette::AccentBlue => (136, 192, 208),
            Palette::LinkYellow => (214, 195, 124),
            Palette::LinkOrange => (210, 156, 110),
            Palette::LinkRed => (195, 121, 125),
        }
    }

    /// Red, green and blue of the colour.
    pub fn rgb(self) -> (c: (u8, u8, u8))
        ensures
            c == self.spec_rgb(),
    {
        match self {
            Palette::BgBase => (24, 34, 49),
            Palette::Surface => (43, 54, 71),
            Palette::SurfaceAlt => (54, 68, 89),
            Palette::TextPrimary => (222, 229, 239),
            Palette::TextMuted => (167, 178, 196),
            Palette::AccentBlue => (136, 192, 208),
            Palette::LinkYellow => (214, 195, 124),
            Palette::LinkOrange => (210, 156, 110),
            Palette::LinkRed => (195, 121, 125),
        }
    }
}

/// Foreground colour and emphasis of a piece of text.
#[derive(Clone, Copy, Debug, PartialEq, Eq, Structural)]
pub struct TextStyle {
    pub fg: Palette,
    pub bold: bool,
    pub underlined: bool,
}

/// The download button is accented and underlined when active, muted when not;
/// bold either way.
pub fn download_button_style(is_enabled: bool) -> (s: TextStyle)
    ensures
        s == (if is_enabled {
            TextStyle { fg: Palette::AccentBlue, bold: true, underlined: true }
        } else {
            TextStyle { fg: Palette::TextMuted, bold: true, underlined: false }
        }),
{
    if is_enabled {
        TextStyle { fg: Palette::AccentBlue, bold: true, underlined: true }
    } else {
        TextStyle { fg: Palette::TextMuted, bold: true, underlined: false }
    }
}

} // verus!
