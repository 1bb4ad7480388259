use resume_site::resume::{
    bullets, download_button_style, download_button_text, has_download_url, is_download_enabled,
    markdown_bullets, Contact, EducationEntry, ExperienceEntry, Palette, PositionEntry, Profile,
    ResearchEntry, ResumeData, ResumeFooter, ResumeHeader, Skills, Target, TextStyle,
};
use resume_site::sections::render_sections;
use resume_site::text::{blank, join_strings};

fn s(x: &str) -> String {
    x.to_string()
}

fn strings(xs: &[&str]) -> Vec<String> {
    xs.iter().map(|x| x.to_string()).collect()
}

fn header(label: &str, url: &str, filename: &str, title: &str) -> ResumeHeader {
    ResumeHeader {
        title: s(title),
        subtitle: s("Scientist"),
        download_label: s(label),
        download_url: s(url),
        download_filename: s(filename),
    }
}

fn sample_resume() -> ResumeData {
    ResumeData {
        header: header("", "", "", "Jane Doe"),
        contact: Contact {
            scholar: s("sch"),
            github: s("gh"),
            linkedin: s("li"),
            location: s("Here"),
        },
        profile: Profile {
            summary: strings(&["First.", "Second."]),
            highlights: strings(&["h1", "h2"]),
        },
        experience: vec![ExperienceEntry {
            organization: s("Org"),
            role: s("Role"),
            dates: s("2020"),
            manager: s("Boss"),
            bullets: strings(&["did a"]),
        }],
        research: vec![ResearchEntry {
            organization: s("Lab"),
            role: s("RA"),
            mentor: s("Prof"),
            publications: s("P1"),
            bullets: strings(&["r1", "r2"]),
        }],
        skills: Skills {
            software: strings(&["Rust"]),
            molecular_biology: strings(&[]),
            structural_biology: strings(&["Cryo"]),
        },
        education: vec![EducationEntry {
            degree: s("PhD"),
            institution: s("Uni"),
            dates: s("2019"),
            notes: strings(&["thesis"]),
        }],
        awards: strings(&["Prize"]),
        positions: vec![
            PositionEntry {
                title: s("Fellow"),
                organization: s("Inst"),
                mentor: s(" Dr M "),
                manager: s("  "),
            },
            PositionEntry {
                title: s("Intern"),
                organization: s("Co"),
                mentor: s(""),
                manager: s(""),
            },
        ],
        footer: ResumeFooter { hint: s("hint") },
    }
}

#[test]
fn trim_and_blank() {
    assert_eq!(download_button_text(&header("  a b \t\n", "", "", "")), "[a b]");
    assert_eq!(download_button_text(&header("\u{3000}x\u{a0}", "", "", "")), "[x]");
    assert!(blank("\u{2028}\u{205f}"));
    assert!(blank(" \t\n"));
    assert!(blank(""));
    assert!(!blank(" x "));
}

#[test]
fn join_strings_puts_separator_between() {
    assert_eq!(join_strings(&strings(&["a", "b", "c"]), ", "), "a, b, c");
    assert_eq!(join_strings(&strings(&["a"]), ", "), "a");
    assert_eq!(join_strings(&strings(&[]), ", "), "");
}

#[test]
fn bullets_one_item_per_line() {
    assert_eq!(bullets(&strings(&["one", "two"])), "- one\n- two");
    assert_eq!(bullets(&strings(&["only"])), "- only");
    assert_eq!(bullets(&strings(&[])), "");
    assert_eq!(markdown_bullets(&strings(&["x", ""])), "- x\n- ");
}

#[test]
fn guide_prefers_manager_then_mentor() {
    let p = PositionEntry {
        title: s("T"),
        organization: s("O"),
        mentor: s(" Mentor Name "),
        manager: s("  Boss  "),
    };
    assert_eq!(p.guide_label_and_name(), Some(("Manager", "Boss")));
    let p = PositionEntry { manager: s(" \t"), ..p };
    assert_eq!(p.guide_label_and_name(), Some(("Mentor", "Mentor Name")));
    let p = PositionEntry { mentor: s(""), ..p };
    assert_eq!(p.guide_label_and_name(), None);
}

#[test]
fn download_button() {
    assert_eq!(download_button_text(&header("", "", "", "")), "[Download CV]");
    assert_eq!(download_button_text(&header("   ", "", "", "")), "[Download CV]");
    assert_eq!(download_button_text(&header("  Get PDF ", "", "", "")), "[Get PDF]");
    assert!(!has_download_url(&header("", "  ", "", "")));
    assert!(has_download_url(&header("", " https://x ", "", "")));
    assert!(is_download_enabled(&header("", "", "", ""), Target::Web));
    assert!(!is_download_enabled(&header("", "", "", ""), Target::Native));
    assert!(is_download_enabled(&header("", "u", "", ""), Target::Native));
}

#[test]
fn button_style_and_palette() {
    assert_eq!(
        download_button_style(true),
        TextStyle { fg: Palette::AccentBlue, bold: true, underlined: true }
    );
    assert_eq!(
        download_button_style(false),
        TextStyle { fg: Palette::TextMuted, bold: true, underlined: false }
    );
    assert_eq!(Palette::AccentBlue.rgb(), (136, 192, 208));
    assert_eq!(Palette::BgBase.rgb(), (24, 34, 49));
    assert_eq!(Palette::LinkRed.rgb(), (195, 121, 125));
}

#[test]
fn sections_of_sample_resume() {
    let sections = render_sections(&sample_resume());
    let titles: Vec<&str> = sections.iter().map(|x| x.title.as_str()).collect();
    assert_eq!(
        titles,
        vec![
            "Profile",
            "Data Science Experience",
            "Research Experience",
            "Technical Skills",
            "Education",
            "Awards",
            "Positions",
            "Contact"
        ]
    );
    assert_eq!(sections[0].body, "First.\n\nSecond.\n\nHighlights\n- h1\n- h2");
    assert_eq!(sections[1].body, "Role | Org\nManager: Boss\n2020\n- did a");
    assert_eq!(sections[2].body, "RA | Lab\nMentor: Prof\nPublications: P1\n- r1\n- r2");
    assert_eq!(
        sections[3].body,
        "Software Development and Computing\n- Rust\n\nMolecular Biology and Protein Biochemistry\n\n\nStructural Biology and Biophysics\n- Cryo"
    );
    assert_eq!(sections[4].body, "PhD\nUni\n2019\n- thesis");
    assert_eq!(sections[5].body, "- Prize");
    assert_eq!(sections[6].body, "Fellow\nInst\nMentor: Dr M\n\nIntern\nCo");
    assert_eq!(
        sections[7].body,
        "GitHub: gh\nLinkedIn: li\nGoogle Scholar: sch\nLocation: Here"
    );
}

#[test]
fn sections_of_empty_resume() {
    let sections = render_sections(&ResumeData::default());
    assert_eq!(sections.len(), 8);
    assert_eq!(sections[0].body, "\n\nHighlights\n");
    assert_eq!(sections[1].body, "");
    assert_eq!(sections[6].body, "");
    assert_eq!(sections[7].body, "GitHub: \nLinkedIn: \nGoogle Scholar: \nLocation: ");
}

#[test]
fn several_entries_are_separated_by_a_blank_line() {
    let mut r = sample_resume();
    let e = r.experience[0].clone();
    r.experience.push(ExperienceEntry { role: s("Lead"), bullets: vec![], ..e });
    let sections = render_sections(&r);
    assert_eq!(
        sections[1].body,
        "Role | Org\nManager: Boss\n2020\n- did a\n\nLead | Org\nManager: Boss\n2020\n"
    );
}
