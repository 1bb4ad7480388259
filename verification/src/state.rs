//! The site's state: the resume, its sections and which one is selected; the
//! state a freshly loaded site starts in; and how the selection moves.
use vstd::prelude::*;
use crate::resume::{ResumeData, ResumeSection};
use crate::sections::{render_sections, section_list, section_views};

verus! {

/// Width of the navigation panel when the terminal is wide enough.
pub const NAV_WIDTH_COLS: u16 = 30;

/// Rows taken by the header, its bottom border included.
pub const HEADER_HEIGHT_ROWS: u16 = 5;

/// Row of the header that holds the subtitle and the download button.
pub const HEADER_BUTTON_ROW: u16 = 1;

/// Row of the header that holds the links.
pub const HEADER_LINKS_ROW: u16 = 2;

/// The links row, centred in the header.
pub const LINKS_LINE: &'static str = "Links: LinkedIn | GitHub | Scholar";

/// Columns that a freshly loaded state assumes, parsed or fallback, until the
/// first frame is drawn.
pub const INITIAL_COLS: u16 = 120;

pub struct AppState {
    pub selected_section: usize,
    pub resume: ResumeData,
    pub sections: Vec<ResumeSection>,
    pub last_cols: u16,
    pub last_nav_width: u16,
}

/// The section after `sel`, the first after the last.
pub open spec fn next_index(sel: int, len: int) -> int {
    (sel + 1) % len
}

/// The section before `sel`, the last before the first.
pub open spec fn previous_index(sel: int, len: int) -> int {
    if sel == 0 {
        len - 1
    } else {
        sel - 1
    }
}

/// Everything but the selection is as it was.
pub open spec fn same_but_selection(a: AppState, b: AppState) -> bool {
    &&& a.resume == b.resume
    &&& a.sections@ == b.sections@
    &&& a.last_cols == b.last_cols
    &&& a.last_nav_width == b.last_nav_width
}

/// The fallback resume shown when the content file cannot be read.
pub open spec fn is_fallback_resume(r: ResumeData) -> bool {
    &&& r.header.title@ == "Resume Site Error"@
    &&& r.header.subtitle@ == "Failed to parse resume.toml"@
    &&& r.header.download_label@.len() == 0
    &&& r.header.download_url@.len() == 0
    &&& r.header.download_filename@.len() == 0
    &&& r.contact.scholar@.len() == 0
    &&& r.contact.github@.len() == 0
    &&& r.contact.linkedin@.len() == 0
    &&& r.contact.location@.len() == 0
    &&& r.profile.summary@.len() == 0
    &&& r.profile.highlights@.len() == 0
    &&& r.experience@.len() == 0
    &&& r.research@.len() == 0
    &&& r.skills.software@.len() == 0
    &&& r.skills.molecular_biology@.len() == 0
    &&& r.skills.structural_biology@.len() == 0
    &&& r.education@.len() == 0
    &&& r.awards@.len() == 0
    &&& r.positions@.len() == 0
    &&& r.footer.hint@
        == "Fix resume.toml and rebuild. Navigation keys are disabled in fallback mode."@
}

impl AppState {
    /// A section is selected and it is one of the sections.
    pub open spec fn wf(self) -> bool {
        self.selected_section < self.sections@.len()
    }

    pub fn next(&mut self)
        requires
            old(self).sections@.len() > 0,
            old(self).selected_section < usize::MAX,
        ensures
            final(self).selected_section == next_index(
                old(self).selected_section as int,
                old(self).sections@.len() as int,
            ),
            final(self).wf(),
            same_but_selection(*final(self), *old(self)),
    {
        self.selected_section = (self.selected_section + 1) % self.sections.len();
    }

    pub fn previous(&mut self)
        requires
            old(self).sections@.len() > 0,
        ensures
            final(self).selected_section == previous_index(
                old(self).selected_section as int,
                old(self).sections@.len() as int,
            ),
            old(self).wf() ==> final(self).wf(),
            same_but_selection(*final(self), *old(self)),
    {
        if self.selected_section == 0 {
            self.selected_section = self.sections.len() - 1;
        } else {
            self.selected_section -= 1;
        }
    }

    pub fn first(&mut self)
        ensures
            final(self).selected_section == 0,
            old(self).sections@.len() > 0 ==> final(self).wf(),
            same_but_selection(*final(self), *old(self)),
    {
        self.selected_section = 0;
    }

    pub fn last(&mut self)
        requires
            old(self).sections@.len() > 0,
        ensures
            final(self).selected_section == old(self).sections@.len() - 1,
            final(self).wf(),
            same_but_selection(*final(self), *old(self)),
    {
        self.selected_section = self.sections.len() - 1;
    }
}

/// Stepping back undoes stepping forward.
pub proof fn lemma_previous_undoes_next(sel: int, len: int)
    requires
        0 <= sel < len,
    ensures
        previous_index(next_index(sel, len), len) == sel,
{
    if sel + 1 < len {
        vstd::arithmetic::div_mod::lemma_small_mod((sel + 1) as nat, len as nat);
    } else {
        vstd::arithmetic::div_mod::lemma_mod_self_0(len);
    }
}

/// Stepping forward undoes stepping back.
pub proof fn lemma_next_undoes_previous(sel: int, len: int)
    requires
        0 <= sel < len,
    ensures
        next_index(previous_index(sel, len), len) == sel,
{
    if sel == 0 {
        vstd::arithmetic::div_mod::lemma_mod_self_0(len);
    } else {
        vstd::arithmetic::div_mod::lemma_small_mod(sel as nat, len as nat);
    }
}

/// The list wraps around: after the last section comes the first, and before
/// the first comes the last.
pub proof fn lemma_navigation_wraps(len: int)
    requires
        len > 0,
    ensures
        next_index(len - 1, len) == 0,
        previous_index(0, len) == len - 1,
{
    vstd::arithmetic::div_mod::lemma_mod_self_0(len);
}

/// Stepping forward `k` times from `sel`.
pub open spec fn advance(sel: int, len: int, k: nat) -> int
    decreases k,
{
    if k == 0 {
        sel
    } else {
        next_index(advance(sel, len, (k - 1) as nat), len)
    }
}

/// Stepping forward through as many sections as there are comes back to the
/// section one started from.
pub proof fn lemma_full_cycle_returns(sel: int, len: int)
    requires
        0 <= sel < len,
    ensures
        advance(sel, len, len as nat) == sel,
{
    assert forall|k: nat| k <= len implies #[trigger] advance(sel, len, k) == (sel + k) % len by {
        lemma_advance(sel, len, k);
    }
    vstd::arithmetic::div_mod::lemma_mod_add_multiples_vanish(sel, len);
    vstd::arithmetic::div_mod::lemma_small_mod(sel as nat, len as nat);
}

/// Stepping forward `k` times from a valid selection moves it `k` sections on,
/// wrapping past the last: `k` calls of `next` select `(sel + k) % len`.
pub proof fn lemma_advance(sel: int, len: int, k: nat)
    requires
        0 <= sel < len,
    ensures
        advance(sel, len, k) == (sel + k) % len,
    decreases k,
{
    if k > 0 {
        lemma_advance(sel, len, (k - 1) as nat);
        vstd::arithmetic::div_mod::lemma_add_mod_noop_right(1, sel + k - 1, len);
    } else {
        vstd::arithmetic::div_mod::lemma_small_mod(sel as nat, len as nat);
    }
}

/// Section `t` is reached from `sel` in fewer than `len` steps forward.
pub open spec fn reached_within(sel: int, len: int, t: int) -> bool {
    exists|k: nat| k < len && #[trigger] advance(sel, len, k) == t
}

/// A full cycle of `len` steps forward visits every section exactly once:
/// the first `len` positions reached are pairwise distinct, and each section
/// is among them.
pub proof fn lemma_cycle_visits_each_section(sel: int, len: int)
    requires
        0 <= sel < len,
    ensures
        forall|i: nat, j: nat|
            i < j < len ==> #[trigger] advance(sel, len, i) != #[trigger] advance(sel, len, j),
        forall|t: int| 0 <= t < len ==> #[trigger] reached_within(sel, len, t),
{
    assert forall|i: nat, j: nat| i < j < len implies #[trigger] advance(sel, len, i)
        != #[trigger] advance(sel, len, j) by {
        lemma_advance(sel, len, i);
        lemma_advance(sel, len, j);
        vstd::arithmetic::div_mod::lemma_fundamental_div_mod(sel + i, len);
        vstd::arithmetic::div_mod::lemma_fundamental_div_mod(sel + j, len);
        if (sel + i) % len == (sel + j) % len {
            vstd::arithmetic::div_mod::lemma_mod_equivalence(sel + j, sel + i, len);
            vstd::arithmetic::div_mod::lemma_small_mod((j - i) as nat, len as nat);
        }
    }
    assert forall|t: int| 0 <= t < len implies #[trigger] reached_within(sel, len, t) by {
        let k: nat = if t >= sel { (t - sel) as nat } else { (t - sel + len) as nat };
        lemma_advance(sel, len, k);
        if t >= sel {
            vstd::arithmetic::div_mod::lemma_small_mod(t as nat, len as nat);
        } else {
            vstd::arithmetic::div_mod::lemma_mod_add_multiples_vanish(t, len);
            vstd::arithmetic::div_mod::lemma_small_mod(t as nat, len as nat);
        }
        assert(advance(sel, len, k) == t);
    }
}

/// The state of a freshly loaded site: the parsed resume with its sections,
/// or, where the content could not be parsed, a fallback resume with one
/// section that shows the parser's message.
pub fn build_app_state(parsed: Result<ResumeData, String>) -> (s: AppState)
    ensures
        s.selected_section == 0,
        s.last_cols == INITIAL_COLS,
        s.last_nav_width == NAV_WIDTH_COLS,
        s.wf(),
        match parsed {
            Ok(r) => s.resume == r && section_views(s.sections@) == section_list(r),
            Err(e) => {
                &&& is_fallback_resume(s.resume)
                &&& s.sections@.len() == 1
                &&& s.sections@[0].title@ == "Configuration Error"@
                &&& s.sections@[0].body@ == "The application could not parse resume.toml.\n\n"@
                    + e@
            },
        },
{
    match parsed {
        Ok(resume) => {
            let sections = render_sections(&resume);
            proof {
                assert(section_views(sections@).len() == 8);
            }
            AppState {
                selected_section: 0,
                sections,
                resume,
                last_cols: INITIAL_COLS,
                last_nav_width: NAV_WIDTH_COLS,
            }
        },
        Err(err) => {
            let resume = fallback_resume();
            let mut body = String::from_str("The application could not parse resume.toml.\n\n");
            body.append(err.as_str());
            let mut sections: Vec<ResumeSection> = Vec::new();
            sections.push(
                ResumeSection { title: String::from_str("Configuration Error"), body: body },
            );
            AppState {
                selected_section: 0,
                resume,
                sections,
                last_cols: INITIAL_COLS,
                last_nav_width: NAV_WIDTH_COLS,
            }
        },
    }
}

fn fallback_resume() -> (r: ResumeData)
    ensures
        is_fallback_resume(r),
{
    ResumeData {
        header: crate::resume::ResumeHeader {
            title: String::from_str("Resume Site Error"),
            subtitle: String::from_str("Failed to parse resume.toml"),
            download_label: String::new(),
            download_url: String::new(),
            download_filename: String::new(),
        },
        contact: crate::resume::Contact {
            scholar: String::new(),
            github: String::new(),
            linkedin: String::new(),
            location: String::new(),
        },
        profile: crate::resume::Profile { summary: Vec::new(), highlights: Vec::new() },
        experience: Vec::new(),
        research: Vec::new(),
        skills: crate::resume::Skills {
            software: Vec::new(),
            molecular_biology: Vec::new(),
            structural_biology: Vec::new(),
        },
        education: Vec::new(),
        awards: Vec::new(),
        positions: Vec::new(),
        footer: crate::resume::ResumeFooter {
            hint: String::from_str(
                "Fix resume.toml and rebuild. Navigation keys are disabled in fallback mode.",
            ),
        },
    }
}

} // verus!
