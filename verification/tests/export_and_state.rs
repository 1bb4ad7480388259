use resume_site::filename::pdf_filename;
use resume_site::input::{
    nav_item_label, nav_panel_width, open_external_link, panel_title, trigger_download_action,
    ClickAction, DownloadAction, Key, KeyAction,
};
use resume_site::markdown::build_resume_markdown;
use resume_site::resume::{
    Contact, EducationEntry, ExperienceEntry, PositionEntry, Profile, ResearchEntry, ResumeData,
    ResumeHeader, Skills, Target,
};
use resume_site::state::{build_app_state, AppState};

fn s(x: &str) -> String {
    x.to_string()
}

fn strings(xs: &[&str]) -> Vec<String> {
    xs.iter().map(|x| x.to_string()).collect()
}

fn with_header(title: &str, url: &str, filename: &str) -> ResumeData {
    ResumeData {
        header: ResumeHeader {
            title: s(title),
            subtitle: s("Sub"),
            download_label: s(""),
            download_url: s(url),
            download_filename: s(filename),
        },
        ..ResumeData::default()
    }
}

#[test]
fn pdf_filename_from_configuration() {
    assert_eq!(pdf_filename(&with_header("T", "", "  cv.PDF ")), "cv.PDF");
    assert_eq!(pdf_filename(&with_header("T", "", "cv.pdf")), "cv.pdf");
    assert_eq!(pdf_filename(&with_header("T", "", " my cv ")), "my cv.pdf");
    assert_eq!(pdf_filename(&with_header("T", "", "pdf")), "pdf.pdf");
    assert_eq!(pdf_filename(&with_header("T", "", "x.pdf.txt")), "x.pdf.txt.pdf");
}

#[test]
fn pdf_filename_from_title() {
    assert_eq!(pdf_filename(&with_header("Jane Q. Doe", "", "")), "jane_q_doe.pdf");
    assert_eq!(pdf_filename(&with_header("  __Kyle--Stiers, PhD!!  ", "", " ")), "kyle_stiers_phd.pdf");
    assert_eq!(pdf_filename(&with_header("Ünïcode Námé 2024", "", "")), "n_code_n_m_2024.pdf");
    assert_eq!(pdf_filename(&with_header("", "", "")), "resume.pdf");
    assert_eq!(pdf_filename(&with_header("!!! ...", "", "")), "resume.pdf");
    assert_eq!(pdf_filename(&with_header("ABC", "", "")), "abc.pdf");
}

fn full_resume() -> ResumeData {
    ResumeData {
        header: ResumeHeader {
            title: s("Jane"),
            subtitle: s("Sub"),
            download_label: s(""),
            download_url: s(""),
            download_filename: s(""),
        },
        contact: Contact { scholar: s("sc"), github: s("gh"), linkedin: s("li"), location: s("loc") },
        profile: Profile { summary: strings(&["S1", "S2"]), highlights: strings(&["h"]) },
        experience: vec![ExperienceEntry {
            organization: s("O"),
            role: s("R"),
            dates: s("D"),
            manager: s("M"),
            bullets: strings(&["b1", "b2"]),
        }],
        research: vec![ResearchEntry {
            organization: s("L"),
            role: s("RA"),
            mentor: s("Me"),
            publications: s("P"),
            bullets: strings(&[]),
        }],
        skills: Skills {
            software: strings(&["sw"]),
            molecular_biology: strings(&["mb"]),
            structural_biology: strings(&["sb"]),
        },
        education: vec![EducationEntry {
            degree: s("BS"),
            institution: s("U"),
            dates: s("Y"),
            notes: strings(&["n"]),
        }],
        awards: strings(&["A1", "A2"]),
        positions: vec![
            PositionEntry { title: s("T1"), organization: s("O1"), mentor: s("Mt"), manager: s("Mg") },
            PositionEntry { title: s("T2"), organization: s("O2"), mentor: s(""), manager: s("") },
        ],
        footer: Default::default(),
    }
}

#[test]
fn markdown_export_of_full_resume() {
    let expected = "# Jane\n\nSub\n\nLinks: LinkedIn | GitHub | Scholar\nLinkedIn: li\nGitHub: gh\nScholar: sc\nLocation: loc\n\n\
## Profile\nS1\n\nS2\n\n### Highlights\n- h\n\n\
## Data Science Experience\n### R | O\nD\nManager: M\n- b1\n- b2\n\n\
## Research Experience\n### RA | L\nMentor: Me\nPublications: P\n\n\n\
## Technical Skills\n### Software Development and Computing\n- sw\n\n### Molecular Biology and Protein Biochemistry\n- mb\n\n### Structural Biology and Biophysics\n- sb\n\n\
## Education\n### BS\nU\nY\n- n\n\n\
## Awards\n- A1\n- A2\n\n\
## Positions\n- T1 | O1 (Manager: Mg)\n- T2 | O2\n\n";
    assert_eq!(build_resume_markdown(&full_resume()), expected);
}

#[test]
fn markdown_export_of_empty_resume() {
    let expected = "# \n\n\n\nLinks: LinkedIn | GitHub | Scholar\nLinkedIn: \nGitHub: \nScholar: \nLocation: \n\n\
## Profile\n### Highlights\n\n\n## Data Science Experience\n## Research Experience\n\
## Technical Skills\n### Software Development and Computing\n\n\n### Molecular Biology and Protein Biochemistry\n\n\n### Structural Biology and Biophysics\n\n\n\
## Education\n## Awards\n\n\n## Positions\n\n";
    assert_eq!(build_resume_markdown(&ResumeData::default()), expected);
}

fn state_with(n: usize) -> AppState {
    let mut st = build_app_state(Ok(full_resume()));
    st.sections.truncate(n);
    st
}

#[test]
fn build_app_state_from_parsed_resume() {
    let st = build_app_state(Ok(full_resume()));
    assert_eq!(st.selected_section, 0);
    assert_eq!(st.sections.len(), 8);
    assert_eq!(st.last_cols, 120);
    assert_eq!(st.last_nav_width, 30);
    assert_eq!(st.resume.header.title, "Jane");
}

#[test]
fn build_app_state_from_parse_error() {
    let st = build_app_state(Err(s("expected `=`")));
    assert_eq!(st.selected_section, 0);
    assert_eq!(st.sections.len(), 1);
    assert_eq!(st.sections[0].title, "Configuration Error");
    assert_eq!(
        st.sections[0].body,
        "The application could not parse resume.toml.\n\nexpected `=`"
    );
    assert_eq!(st.resume.header.title, "Resume Site Error");
    assert_eq!(st.resume.header.subtitle, "Failed to parse resume.toml");
    assert_eq!(
        st.resume.footer.hint,
        "Fix resume.toml and rebuild. Navigation keys are disabled in fallback mode."
    );
    assert!(st.resume.experience.is_empty());
}

#[test]
fn navigation_wraps_around() {
    let mut st = state_with(8);
    st.previous();
    assert_eq!(st.selected_section, 7);
    st.next();
    assert_eq!(st.selected_section, 0);
    st.next();
    st.next();
    assert_eq!(st.selected_section, 2);
    st.previous();
    assert_eq!(st.selected_section, 1);
    st.last();
    assert_eq!(st.selected_section, 7);
    st.first();
    assert_eq!(st.selected_section, 0);
}

#[test]
fn full_cycle_returns_to_start() {
    let mut st = state_with(8);
    st.next();
    st.next();
    for _ in 0..8 {
        st.next();
    }
    assert_eq!(st.selected_section, 2);
}

#[test]
fn k_steps_forward_wrap() {
    for k in 0..20usize {
        let mut st = state_with(8);
        st.selected_section = 2;
        let mut seen = [false; 8];
        for _ in 0..k {
            st.next();
        }
        assert_eq!(st.selected_section, (2 + k) % 8);
        let mut st = state_with(8);
        st.selected_section = 2;
        for _ in 0..8 {
            seen[st.selected_section] = true;
            st.next();
        }
        assert!(seen.iter().all(|v| *v));
    }
}

#[test]
fn previous_undoes_next_on_every_section() {
    for start in 0..8 {
        let mut st = state_with(8);
        st.selected_section = start;
        st.next();
        st.previous();
        assert_eq!(st.selected_section, start);
        st.previous();
        st.next();
        assert_eq!(st.selected_section, start);
    }
}

#[test]
fn keys() {
    let mut st = state_with(8);
    assert_eq!(st.handle_key(Key::Down), KeyAction::Nothing);
    assert_eq!(st.selected_section, 1);
    assert_eq!(st.handle_key(Key::Char('j')), KeyAction::Nothing);
    assert_eq!(st.selected_section, 2);
    st.handle_key(Key::Char('k'));
    assert_eq!(st.selected_section, 1);
    st.handle_key(Key::Up);
    st.handle_key(Key::Up);
    assert_eq!(st.selected_section, 7);
    st.handle_key(Key::Home);
    assert_eq!(st.selected_section, 0);
    st.handle_key(Key::End);
    assert_eq!(st.selected_section, 7);
    assert_eq!(st.handle_key(Key::Char('d')), KeyAction::Download);
    assert_eq!(st.handle_key(Key::Char('x')), KeyAction::ZoomIn);
    assert_eq!(st.handle_key(Key::Char('z')), KeyAction::ZoomOut);
    assert_eq!(st.handle_key(Key::Char('c')), KeyAction::ZoomReset);
    assert_eq!(st.handle_key(Key::Char('q')), KeyAction::Nothing);
    assert_eq!(st.handle_key(Key::Other), KeyAction::Nothing);
    assert_eq!(st.selected_section, 7);
}

#[test]
fn keys_in_fallback_state_keep_the_only_section() {
    let mut st = build_app_state(Err(s("bad")));
    st.handle_key(Key::Down);
    assert_eq!(st.selected_section, 0);
    st.handle_key(Key::Up);
    assert_eq!(st.selected_section, 0);
    st.handle_key(Key::End);
    assert_eq!(st.selected_section, 0);
}

#[test]
fn click_on_download_button() {
    // "[Download CV]" is 13 columns wide, at the right end of 120 columns.
    let mut st = state_with(8);
    assert!(matches!(st.handle_click(1, 107), ClickAction::Download));
    assert!(matches!(st.handle_click(1, 119), ClickAction::Download));
    assert!(matches!(st.handle_click(1, 106), ClickAction::Nothing));
    assert!(matches!(st.handle_click(1, 120), ClickAction::Nothing));
    assert_eq!(st.selected_section, 0);
}

#[test]
fn click_on_links() {
    // The links row is 34 columns wide, centred in 120 columns from column 43.
    let mut st = state_with(8);
    match st.handle_click(2, 50) {
        ClickAction::OpenLink(u) => assert_eq!(u, "li"),
        _ => panic!("expected LinkedIn"),
    }
    match st.handle_click(2, 43 + 18) {
        ClickAction::OpenLink(u) => assert_eq!(u, "gh"),
        _ => panic!("expected GitHub"),
    }
    match st.handle_click(2, 43 + 33) {
        ClickAction::OpenLink(u) => assert_eq!(u, "sc"),
        _ => panic!("expected Scholar"),
    }
    assert!(matches!(st.handle_click(2, 43 + 15), ClickAction::Nothing));
    assert!(matches!(st.handle_click(2, 43), ClickAction::Nothing));
    assert_eq!(st.selected_section, 0);
}

#[test]
fn click_in_navigation_panel() {
    let mut st = state_with(8);
    assert!(matches!(st.handle_click(6, 3), ClickAction::Nothing));
    assert_eq!(st.selected_section, 0);
    st.handle_click(9, 3);
    assert_eq!(st.selected_section, 3);
    st.handle_click(13, 0);
    assert_eq!(st.selected_section, 7);
    st.handle_click(14, 0);
    assert_eq!(st.selected_section, 7);
    st.handle_click(8, 30);
    assert_eq!(st.selected_section, 7);
    st.handle_click(5, 3);
    assert_eq!(st.selected_section, 7);
}

#[test]
fn narrow_terminal_moves_the_links() {
    let mut st = state_with(8);
    st.last_cols = 20;
    // Nothing to centre: the links start at column 0.
    match st.handle_click(2, 8) {
        ClickAction::OpenLink(u) => assert_eq!(u, "li"),
        _ => panic!("expected LinkedIn"),
    }
    // The button fills the last 13 of 20 columns.
    assert!(matches!(st.handle_click(1, 7), ClickAction::Download));
    assert!(matches!(st.handle_click(1, 6), ClickAction::Nothing));
}

#[test]
fn download_action() {
    let r = with_header("Jane Doe", "  https://example.org/cv.pdf ", "");
    match trigger_download_action(&r, Target::Web) {
        DownloadAction::OpenLink(req) => {
            assert_eq!(req.url, "https://example.org/cv.pdf");
            assert_eq!(req.target, "_blank");
        }
        _ => panic!("expected a link"),
    }
    match trigger_download_action(&r, Target::Native) {
        DownloadAction::OpenLink(req) => assert_eq!(req.url, "https://example.org/cv.pdf"),
        _ => panic!("expected a link"),
    }
    let r = with_header("Jane Doe", " ", "");
    match trigger_download_action(&r, Target::Web) {
        DownloadAction::GeneratePdf { content, file_name } => {
            assert_eq!(file_name, "jane_doe.pdf");
            assert_eq!(content, build_resume_markdown(&r));
            assert!(content.starts_with("# Jane Doe\n\nSub\n\n"));
        }
        _ => panic!("expected a generated PDF"),
    }
    assert!(matches!(trigger_download_action(&r, Target::Native), DownloadAction::Nothing));
}

#[test]
fn link_request() {
    let req = open_external_link("https://x.org");
    assert_eq!(req.url, "https://x.org");
    assert_eq!(req.target, "_blank");
}

#[test]
fn layout_helpers() {
    assert_eq!(nav_panel_width(120), 30);
    assert_eq!(nav_panel_width(42), 30);
    assert_eq!(nav_panel_width(41), 29);
    assert_eq!(nav_panel_width(13), 1);
    assert_eq!(nav_panel_width(12), 1);
    assert_eq!(nav_panel_width(0), 1);
    assert_eq!(nav_item_label(2, 2, "Awards"), "> Awards");
    assert_eq!(nav_item_label(1, 2, "Awards"), "  Awards");
    assert_eq!(panel_title("Profile"), " Profile ");
}
