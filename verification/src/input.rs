//! What a key press or a click does to the site's state, and what it asks of
//! the page: to follow a link, to offer the resume for download, to zoom.
use vstd::prelude::*;
use crate::filename::{pdf_filename, pdf_name};
use crate::markdown::{build_resume_markdown, resume_markdown};
use crate::resume::{button_text, download_button_text, has_download_url, ResumeData, Target};
use crate::state::{
    next_index, previous_index, same_but_selection, AppState, HEADER_BUTTON_ROW,
    HEADER_HEIGHT_ROWS, HEADER_LINKS_ROW, LINKS_LINE, NAV_WIDTH_COLS,
};
use crate::text::{is_blank, trim_str, trimmed};

verus! {

/// The keys that the site reacts to.
#[derive(Clone, Copy, Debug, PartialEq, Eq, Structural)]
pub enum Key {
    Down,
    Up,
    Home,
    End,
    Char(char),
    Other,
}

/// What a key press asks of the page beyond moving the selection.
#[derive(Clone, Copy, Debug, PartialEq, Eq, Structural)]
pub enum KeyAction {
    Nothing,
    Download,
    ZoomIn,
    ZoomOut,
    ZoomReset,
}

/// A request to open `url` in the browsing context named `target`.
pub struct LinkRequest {
    pub url: String,
    pub target: String,
}

/// What the download action asks of the page.
pub enum DownloadAction {
    /// Follow the configured download link.
    OpenLink(LinkRequest),
    /// Turn the Markdown `content` into a PDF saved as `file_name`.
    GeneratePdf { content: String, file_name: String },
    /// Nothing can be offered.
    Nothing,
}

/// What a click asks of the page beyond moving the selection.
pub enum ClickAction {
    Nothing,
    Download,
    OpenLink(String),
}

/// External links open in a new browsing context.
pub fn open_external_link(url: &str) -> (r: LinkRequest)
    ensures
        r.url@ == url@,
        r.target@ == "_blank"@,
{
    LinkRequest { url: String::from_str(url), target: String::from_str("_blank") }
}

/// The download action follows the configured link, trimmed, where there is
/// one; otherwise a browser generates a PDF of the Markdown resume under its
/// file name, and elsewhere nothing happens.
pub fn trigger_download_action(resume: &ResumeData, target: Target) -> (a: DownloadAction)
    ensures
        !is_blank(resume.header.download_url@) ==> {
            &&& a matches DownloadAction::OpenLink(req)
            &&& req.url@ == trimmed(resume.header.download_url@)
            &&& req.target@ == "_blank"@
        },
        is_blank(resume.header.download_url@) && target == Target::Web ==> {
            &&& a matches DownloadAction::GeneratePdf { content, file_name }
            &&& content@ == resume_markdown(*resume)
            &&& file_name@ == pdf_name(*resume)
        },
        is_blank(resume.header.download_url@) && target == Target::Native ==> a is Nothing,
{
    if has_download_url(&resume.header) {
        DownloadAction::OpenLink(
            open_external_link(trim_str(resume.header.download_url.as_str())),
        )
    } else {
        match target {
            Target::Web => DownloadAction::GeneratePdf {
                content: build_resume_markdown(resume),
                file_name: pdf_filename(resume),
            },
            Target::Native => DownloadAction::Nothing,
        }
    }
}

/// The key's effect on the selection and what it asks of the page.
pub open spec fn key_effect(sel: int, len: int, key: Key) -> (int, KeyAction) {
    match key {
        Key::Down | Key::Char('j') => (next_index(sel, len), KeyAction::Nothing),
        Key::Up | Key::Char('k') => (previous_index(sel, len), KeyAction::Nothing),
        Key::Home => (0, KeyAction::Nothing),
        Key::End => (len - 1, KeyAction::Nothing),
        Key::Char('d') => (sel, KeyAction::Download),
        Key::Char('x') => (sel, KeyAction::ZoomIn),
        Key::Char('z') => (sel, KeyAction::ZoomOut),
        Key::Char('c') => (sel, KeyAction::ZoomReset),
        _ => (sel, KeyAction::Nothing),
    }
}

impl AppState {
    /// Down and `j` select the next section, Up and `k` the previous one,
    /// Home the first and End the last; `d` asks for the download, `x` and
    /// `z` to zoom in and out, `c` to reset the zoom.
    pub fn handle_key(&mut self, key: Key) -> (a: KeyAction)
        requires
            old(self).sections@.len() > 0,
            old(self).selected_section < usize::MAX,
        ensures
            (final(self).selected_section as int, a) == key_effect(
                old(self).selected_section as int,
                old(self).sections@.len() as int,
                key,
            ),
            old(self).wf() ==> final(self).wf(),
            same_but_selection(*final(self), *old(self)),
    {
        match key {
            Key::Down | Key::Char('j') => {
                self.next();
                KeyAction::Nothing
            },
            Key::Up | Key::Char('k') => {
                self.previous();
                KeyAction::Nothing
            },
            Key::Home => {
                self.first();
                KeyAction::Nothing
            },
            Key::End => {
                self.last();
                KeyAction::Nothing
            },
            Key::Char('d') => KeyAction::Download,
            Key::Char('x') => KeyAction::ZoomIn,
            Key::Char('z') => KeyAction::ZoomOut,
            Key::Char('c') => KeyAction::ZoomReset,
            _ => KeyAction::Nothing,
        }
    }
}

/// Columns of the links row.
pub open spec fn links_len() -> u16 {
    34
}

/// The download button sits at the right end of the button row.
pub open spec fn on_download_button(s: AppState, row: u16, col: u16) -> bool {
    let len: u16 = button_text(s.resume.header).len() as u16;
    let start: u16 = s.last_cols.saturating_sub(len);
    let end: u16 = start.saturating_add(len);
    row == HEADER_BUTTON_ROW && start <= col && col < end
}

/// The link under a click on the centred links row: LinkedIn, GitHub or
/// Scholar, by where the click falls in `Links: LinkedIn | GitHub | Scholar`.
pub open spec fn link_at(s: AppState, row: u16, col: u16) -> Option<Seq<char>> {
    let start: u16 = (s.last_cols.saturating_sub(links_len()) / 2) as u16;
    let end: u16 = start.saturating_add(links_len());
    if row == HEADER_LINKS_ROW && start <= col && col < end {
        let rel: int = col - start;
        if 7 <= rel < 15 {
            Some(s.resume.contact.linkedin@)
        } else if 18 <= rel < 24 {
            Some(s.resume.contact.github@)
        } else if 27 <= rel < 34 {
            Some(s.resume.contact.scholar@)
        } else {
            None
        }
    } else {
        None
    }
}

/// The download button takes the last columns of the button row, as many as
/// its text has characters (all of the row when the text is wider); a
/// click there is on it, and a click on any other column or row is not.
pub proof fn lemma_download_button_at_right_end(s: AppState, row: u16, col: u16)
    requires
        button_text(s.resume.header).len() <= u16::MAX,
    ensures
        ({
            let len: int = button_text(s.resume.header).len() as int;
            let start: int = if s.last_cols >= len {
                s.last_cols - len
            } else {
                0
            };
            on_download_button(s, row, col) <==> (row == HEADER_BUTTON_ROW && start <= col
                < start + len)
        }),
{
}

/// A click left of the navigation panel's edge on the row of the `k`-th
/// entry, the `k + 1`-th row below the header, selects section `k`; a click
/// on the header, right of the edge, or below the last entry selects none.
pub proof fn lemma_click_selects_entry_row(s: AppState, row: u16, col: u16)
    ensures
        col < s.last_nav_width && row >= HEADER_HEIGHT_ROWS + 1 && row - (HEADER_HEIGHT_ROWS + 1)
            < s.sections@.len() ==> section_at(s, row, col) == Some(
            row - (HEADER_HEIGHT_ROWS + 1),
        ),
        col >= s.last_nav_width || row <= HEADER_HEIGHT_ROWS || row - (HEADER_HEIGHT_ROWS + 1)
            >= s.sections@.len() ==> section_at(s, row, col) is None,
{
}

/// The links row shows [`LINKS_LINE`], centred in the terminal (from column
/// 0 where the terminal is narrower). A click on any column of the word
/// `LinkedIn`, `GitHub` or `Scholar` opens that link, whatever the state, and
/// a click anywhere else on the row, or on any other row, opens none. The
/// download button is on another row.
pub proof fn lemma_links_follow_words(s: AppState, row: u16, col: u16)
    ensures
        LINKS_LINE@.len() == 34,
        LINKS_LINE@.subrange(7, 15) == "LinkedIn"@,
        LINKS_LINE@.subrange(18, 24) == "GitHub"@,
        LINKS_LINE@.subrange(27, 34) == "Scholar"@,
        row != HEADER_LINKS_ROW ==> link_at(s, row, col) is None,
        row == HEADER_LINKS_ROW ==> !on_download_button(s, row, col),
        ({
            let start: int = if s.last_cols >= 34 {
                (s.last_cols - 34) / 2
            } else {
                0
            };
            let rel: int = col - start;
            &&& row == HEADER_LINKS_ROW && 7 <= rel < 15 ==> link_at(s, row, col) == Some(
                s.resume.contact.linkedin@,
            )
            &&& row == HEADER_LINKS_ROW && 18 <= rel < 24 ==> link_at(s, row, col) == Some(
                s.resume.contact.github@,
            )
            &&& row == HEADER_LINKS_ROW && 27 <= rel < 34 ==> link_at(s, row, col) == Some(
                s.resume.contact.scholar@,
            )
            &&& !(7 <= rel < 15 || 18 <= rel < 24 || 27 <= rel < 34) ==> link_at(s, row, col) is None
        }),
{
    reveal_strlit("Links: LinkedIn | GitHub | Scholar");
    reveal_strlit("LinkedIn");
    reveal_strlit("GitHub");
    reveal_strlit("Scholar");
    assert(LINKS_LINE@.subrange(7, 15) =~= "LinkedIn"@);
    assert(LINKS_LINE@.subrange(18, 24) =~= "GitHub"@);
    assert(LINKS_LINE@.subrange(27, 34) =~= "Scholar"@);
}

/// The section under a click in the navigation panel, whose items start
/// on the row below the panel's top border.
pub open spec fn section_at(s: AppState, row: u16, col: u16) -> Option<int> {
    let first_row: int = HEADER_HEIGHT_ROWS + 1;
    if col >= s.last_nav_width || row < first_row {
        None
    } else if row - first_row < s.sections@.len() {
        Some(row - first_row)
    } else {
        None
    }
}

impl AppState {
    /// A click on the download button asks for the download; one on a link
    /// asks to open it; one on a section's entry in the navigation panel
    /// selects that section. Any other click does nothing.
    pub fn handle_click(&mut self, row: u16, col: u16) -> (a: ClickAction)
        ensures
            same_but_selection(*final(self), *old(self)),
            on_download_button(*old(self), row, col) ==> {
                &&& a is Download
                &&& final(self).selected_section == old(self).selected_section
            },
            !on_download_button(*old(self), row, col) && link_at(*old(self), row, col) is Some
                ==> {
                &&& a matches ClickAction::OpenLink(url)
                &&& Some(url@) == link_at(*old(self), row, col)
                &&& final(self).selected_section == old(self).selected_section
            },
            !on_download_button(*old(self), row, col) && link_at(*old(self), row, col) is None
                ==> {
                &&& a is Nothing
                &&& final(self).selected_section == match section_at(*old(self), row, col) {
                    Some(i) => i,
                    None => old(self).selected_section as int,
                }
            },
            old(self).wf() ==> final(self).wf(),
    {
        if row == HEADER_BUTTON_ROW {
            let text = download_button_text(&self.resume.header);
            let button_len: u16 = text.as_str().unicode_len() as u16;
            let start_col: u16 = self.last_cols.saturating_sub(button_len);
            let end_col: u16 = start_col.saturating_add(button_len);
            if col >= start_col && col < end_col {
                return ClickAction::Download;
            }
        }
        let line_len: u16 = LINKS_LINE.unicode_len() as u16;
        proof {
            reveal_strlit("Links: LinkedIn | GitHub | Scholar");
            assert(line_len == links_len());
        }
        let start_col: u16 = self.last_cols.saturating_sub(line_len) / 2;
        let end_col: u16 = start_col.saturating_add(line_len);
        if row == HEADER_LINKS_ROW && col >= start_col && col < end_col {
            let rel: u16 = col - start_col;
            if 7 <= rel && rel < 15 {
                return ClickAction::OpenLink(self.resume.contact.linkedin.clone());
            } else if 18 <= rel && rel < 24 {
                return ClickAction::OpenLink(self.resume.contact.github.clone());
            } else if 27 <= rel && rel < 34 {
                return ClickAction::OpenLink(self.resume.contact.scholar.clone());
            }
        }
        if col >= self.last_nav_width {
            return ClickAction::Nothing;
        }
        let first_row: u16 = HEADER_HEIGHT_ROWS + 1;
        if row < first_row {
            return ClickAction::Nothing;
        }
        let idx: usize = (row - first_row) as usize;
        if idx < self.sections.len() {
            self.selected_section = idx;
        }
        ClickAction::Nothing
    }
}

/// The cell under a pointer `pixel` pixels into a canvas `extent` pixels long
/// that shows `cells` cells along the same axis: the pixel's share of the
/// canvas, counted in cells and rounded down; 0 on a canvas of no extent.
pub fn cell_at(pixel: u32, extent: u32, cells: u16) -> (c: u16)
    ensures
        extent == 0 ==> c == 0,
        extent > 0 && pixel < extent ==> c == (pixel as int) * (cells as int) / (extent as int),
        extent > 0 && pixel >= extent ==> c == cells,
{
    if extent == 0 {
        return 0;
    }
    if pixel >= extent {
        return cells;
    }
    assert((pixel as u64) * (cells as u64) <= 0xffff_ffff * 0xffff) by (nonlinear_arith)
        requires
            pixel <= 0xffff_ffff,
            cells <= 0xffff,
    ;
    let product: u64 = (pixel as u64) * (cells as u64);
    let q: u64 = product / (extent as u64);
    proof {
        let p: int = pixel as int;
        let e: int = extent as int;
        let n: int = cells as int;
        assert(p * n <= e * n) by (nonlinear_arith)
            requires
                0 <= p < e,
                n >= 0,
        ;
        vstd::arithmetic::div_mod::lemma_div_is_ordered(p * n, e * n, e);
        vstd::arithmetic::div_mod::lemma_div_multiples_vanish(n, e);
        assert(e * n == n * e) by (nonlinear_arith);
        assert(product == p * n);
    }
    q as u16
}

/// Width of the navigation panel in a terminal `width` columns wide: thirty
/// columns, fewer where twelve must be left for the details, one at least.
pub fn nav_panel_width(width: u16) -> (w: u16)
    ensures
        w == if width >= 42 {
            30
        } else if width > 12 {
            width - 12
        } else {
            1
        },
{
    let avail: u16 = width.saturating_sub(12);
    let w: u16 = if NAV_WIDTH_COLS < avail {
        NAV_WIDTH_COLS
    } else {
        avail
    };
    if w < 1 {
        1
    } else {
        w
    }
}

/// A section's entry in the navigation list: `> ` before the selected one,
/// two spaces before the others.
pub fn nav_item_label(index: usize, selected: usize, title: &str) -> (r: String)
    ensures
        r@ == (if index == selected {
            "> "@
        } else {
            "  "@
        }) + title@,
{
    let mut r = if index == selected {
        String::from_str("> ")
    } else {
        String::from_str("  ")
    };
    r.append(title);
    r
}

/// The title of the details panel: the section's title with a space on
/// either side.
pub fn panel_title(title: &str) -> (r: String)
    ensures
        r@ == " "@ + title@ + " "@,
{
    let mut r = String::from_str(" ");
    r.append(title);
    r.append(" ");
    r
}

} // verus!
