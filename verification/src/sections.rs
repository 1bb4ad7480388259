//! The sections that the site lists in its navigation panel, each with the
//! text it shows.
use vstd::prelude::*;
use crate::resume::{
    bullet_list, bullets, EducationEntry, ExperienceEntry, PositionEntry, ResearchEntry,
    ResumeData, ResumeSection,
};
use crate::text::{is_blank, join, join_strings, lemma_join_push, trimmed, views};

verus! {

pub open spec fn experience_block(e: ExperienceEntry) -> Seq<char> {
    e.role@ + " | "@ + e.organization@ + "\nManager: "@ + e.manager@ + "\n"@ + e.dates@ + "\n"@
        + bullet_list(e.bullets@)
}

pub open spec fn research_block(e: ResearchEntry) -> Seq<char> {
    e.role@ + " | "@ + e.organization@ + "\nMentor: "@ + e.mentor@ + "\nPublications: "@
        + e.publications@ + "\n"@ + bullet_list(e.bullets@)
}

pub open spec fn education_block(e: EducationEntry) -> Seq<char> {
    e.degree@ + "\n"@ + e.institution@ + "\n"@ + e.dates@ + "\n"@ + bullet_list(e.notes@)
}

pub open spec fn position_block(p: PositionEntry) -> Seq<char> {
    match p.guide() {
        Some((label, name)) => p.title@ + "\n"@ + p.organization@ + "\n"@ + label + ": "@ + name,
        None => p.title@ + "\n"@ + p.organization@,
    }
}

pub open spec fn profile_body(r: ResumeData) -> Seq<char> {
    join(views(r.profile.summary@), "\n\n"@) + "\n\nHighlights\n"@ + bullet_list(
        r.profile.highlights@,
    )
}

pub open spec fn experience_body(r: ResumeData) -> Seq<char> {
    join(r.experience@.map_values(|e: ExperienceEntry| experience_block(e)), "\n\n"@)
}

pub open spec fn research_body(r: ResumeData) -> Seq<char> {
    join(r.research@.map_values(|e: ResearchEntry| research_block(e)), "\n\n"@)
}

pub open spec fn skills_body(r: ResumeData) -> Seq<char> {
    "Software Development and Computing\n"@ + bullet_list(r.skills.software@)
        + "\n\nMolecular Biology and Protein Biochemistry\n"@ + bullet_list(
        r.skills.molecular_biology@,
    ) + "\n\nStructural Biology and Biophysics\n"@ + bullet_list(r.skills.structural_biology@)
}

pub open spec fn education_body(r: ResumeData) -> Seq<char> {
    join(r.education@.map_values(|e: EducationEntry| education_block(e)), "\n\n"@)
}

pub open spec fn positions_body(r: ResumeData) -> Seq<char> {
    join(r.positions@.map_values(|p: PositionEntry| position_block(p)), "\n\n"@)
}

pub open spec fn contact_body(r: ResumeData) -> Seq<char> {
    "GitHub: "@ + r.contact.github@ + "\nLinkedIn: "@ + r.contact.linkedin@
        + "\nGoogle Scholar: "@ + r.contact.scholar@ + "\nLocation: "@ + r.contact.location@
}

/// The sections of the site in order, each as its title and its text.
pub open spec fn section_list(r: ResumeData) -> Seq<(Seq<char>, Seq<char>)> {
    seq![
        ("Profile"@, profile_body(r)),
        ("Data Science Experience"@, experience_body(r)),
        ("Research Experience"@, research_body(r)),
        ("Technical Skills"@, skills_body(r)),
        ("Education"@, education_body(r)),
        ("Awards"@, bullet_list(r.awards@)),
        ("Positions"@, positions_body(r)),
        ("Contact"@, contact_body(r)),
    ]
}

/// The title and text of each section.
pub open spec fn section_views(s: Seq<ResumeSection>) -> Seq<(Seq<char>, Seq<char>)> {
    s.map_values(|x: ResumeSection| (x.title@, x.body@))
}

/// Without education entries the Education section is empty; one entry more
/// adds a blank line and that entry's degree, institution, dates and notes,
/// one per line, at the end. Other content plays no part.
pub proof fn lemma_education_section_grows(a: ResumeData, b: ResumeData, e: EducationEntry)
    requires
        b.education@ == a.education@.push(e),
    ensures
        a.education@.len() == 0 ==> section_list(a)[4].1 == Seq::<char>::empty(),
        section_list(b)[4].1 == if a.education@.len() == 0 {
            e.degree@ + "\n"@ + e.institution@ + "\n"@ + e.dates@ + "\n"@ + bullet_list(e.notes@)
        } else {
            section_list(a)[4].1 + "\n\n"@ + (e.degree@ + "\n"@ + e.institution@ + "\n"@ + e.dates@
                + "\n"@ + bullet_list(e.notes@))
        },
{
    let f = |x: EducationEntry| education_block(x);
    assert(b.education@.map_values(f) =~= a.education@.map_values(f).push(education_block(e)));
    lemma_join_push(a.education@.map_values(f), "\n\n"@, education_block(e));
    if a.education@.len() == 0 {
        assert(a.education@.map_values(f) =~= Seq::empty());
    }
}

/// Without experience entries the experience section is empty; one entry
/// more adds a blank line and that entry's role and organization, manager,
/// dates and bullets at the end.
pub proof fn lemma_experience_section_grows(a: ResumeData, b: ResumeData, e: ExperienceEntry)
    requires
        b.experience@ == a.experience@.push(e),
    ensures
        a.experience@.len() == 0 ==> section_list(a)[1].1 == Seq::<char>::empty(),
        section_list(b)[1].1 == if a.experience@.len() == 0 {
            e.role@ + " | "@ + e.organization@ + "\nManager: "@ + e.manager@ + "\n"@ + e.dates@
                + "\n"@ + bullet_list(e.bullets@)
        } else {
            section_list(a)[1].1 + "\n\n"@ + (e.role@ + " | "@ + e.organization@ + "\nManager: "@
                + e.manager@ + "\n"@ + e.dates@ + "\n"@ + bullet_list(e.bullets@))
        },
{
    let f = |x: ExperienceEntry| experience_block(x);
    assert(b.experience@.map_values(f) =~= a.experience@.map_values(f).push(experience_block(e)));
    lemma_join_push(a.experience@.map_values(f), "\n\n"@, experience_block(e));
    if a.experience@.len() == 0 {
        assert(a.experience@.map_values(f) =~= Seq::empty());
    }
}

/// Without research entries the research section is empty; one entry more
/// adds a blank line and that entry's role and organization, mentor,
/// publications and bullets at the end.
pub proof fn lemma_research_section_grows(a: ResumeData, b: ResumeData, e: ResearchEntry)
    requires
        b.research@ == a.research@.push(e),
    ensures
        a.research@.len() == 0 ==> section_list(a)[2].1 == Seq::<char>::empty(),
        section_list(b)[2].1 == if a.research@.len() == 0 {
            e.role@ + " | "@ + e.organization@ + "\nMentor: "@ + e.mentor@ + "\nPublications: "@
                + e.publications@ + "\n"@ + bullet_list(e.bullets@)
        } else {
            section_list(a)[2].1 + "\n\n"@ + (e.role@ + " | "@ + e.organization@ + "\nMentor: "@
                + e.mentor@ + "\nPublications: "@ + e.publications@ + "\n"@ + bullet_list(
                e.bullets@,
            ))
        },
{
    let f = |x: ResearchEntry| research_block(x);
    assert(b.research@.map_values(f) =~= a.research@.map_values(f).push(research_block(e)));
    lemma_join_push(a.research@.map_values(f), "\n\n"@, research_block(e));
    if a.research@.len() == 0 {
        assert(a.research@.map_values(f) =~= Seq::empty());
    }
}

/// The text of a position in the Positions section: title and organization
/// on their own lines, then `Manager: ` and the trimmed manager where one is
/// named, else `Mentor: ` and the trimmed mentor where one is named.
pub open spec fn position_lines(p: PositionEntry) -> Seq<char> {
    if !is_blank(p.manager@) {
        p.title@ + "\n"@ + p.organization@ + "\n"@ + "Manager"@ + ": "@ + trimmed(p.manager@)
    } else if !is_blank(p.mentor@) {
        p.title@ + "\n"@ + p.organization@ + "\n"@ + "Mentor"@ + ": "@ + trimmed(p.mentor@)
    } else {
        p.title@ + "\n"@ + p.organization@
    }
}

/// Without positions the Positions section is empty; one position more adds
/// a blank line and that position's [`position_lines`] at the end.
pub proof fn lemma_positions_section_grows(a: ResumeData, b: ResumeData, p: PositionEntry)
    requires
        b.positions@ == a.positions@.push(p),
    ensures
        a.positions@.len() == 0 ==> section_list(a)[6].1 == Seq::<char>::empty(),
        section_list(b)[6].1 == if a.positions@.len() == 0 {
            position_lines(p)
        } else {
            section_list(a)[6].1 + "\n\n"@ + position_lines(p)
        },
{
    let f = |x: PositionEntry| position_block(x);
    assert(b.positions@.map_values(f) =~= a.positions@.map_values(f).push(position_block(p)));
    lemma_join_push(a.positions@.map_values(f), "\n\n"@, position_block(p));
    if a.positions@.len() == 0 {
        assert(a.positions@.map_values(f) =~= Seq::empty());
    }
}

/// One summary paragraph more adds a blank line and the paragraph after the
/// others, before the highlights; the Profile section lists the highlights
/// after a `Highlights` line.
pub proof fn lemma_profile_section_grows(a: ResumeData, b: ResumeData, line: String)
    requires
        b.profile.summary@ == a.profile.summary@.push(line),
        b.profile.highlights@ == a.profile.highlights@,
    ensures
        section_list(b)[0].1 == (if a.profile.summary@.len() == 0 {
            line@
        } else {
            join(views(a.profile.summary@), "\n\n"@) + "\n\n"@ + line@
        }) + "\n\nHighlights\n"@ + bullet_list(a.profile.highlights@),
        a.profile.summary@.len() == 0 ==> section_list(a)[0].1 == "\n\nHighlights\n"@
            + bullet_list(a.profile.highlights@),
{
    assert(views(b.profile.summary@) =~= views(a.profile.summary@).push(line@));
    lemma_join_push(views(a.profile.summary@), "\n\n"@, line@);
    if a.profile.summary@.len() == 0 {
        assert(views(a.profile.summary@) =~= Seq::empty());
        assert(Seq::<char>::empty() + "\n\nHighlights\n"@ =~= "\n\nHighlights\n"@);
    }
}

/// Which sections there are, and in which order, does not depend on the
/// content: every resume gets the same eight titles.
pub proof fn lemma_section_titles_fixed(a: ResumeData, b: ResumeData)
    ensures
        section_list(a).len() == 8,
        section_list(b).len() == 8,
        forall|i: int| 0 <= i < 8 ==> #[trigger] section_list(a)[i].0 == section_list(b)[i].0,
{
}

fn experience_text(e: &ExperienceEntry) -> (r: String)
    ensures
        r@ == experience_block(*e),
{
    let mut r = e.role.clone();
    r.append(" | ");
    r.append(e.organization.as_str());
    r.append("\nManager: ");
    r.append(e.manager.as_str());
    r.append("\n");
    r.append(e.dates.as_str());
    r.append("\n");
    let b = bullets(e.bullets.as_slice());
    r.append(b.as_str());
    r
}

fn research_text(e: &ResearchEntry) -> (r: String)
    ensures
        r@ == research_block(*e),
{
    let mut r = e.role.clone();
    r.append(" | ");
    r.append(e.organization.as_str());
    r.append("\nMentor: ");
    r.append(e.mentor.as_str());
    r.append("\nPublications: ");
    r.append(e.publications.as_str());
    r.append("\n");
    let b = bullets(e.bullets.as_slice());
    r.append(b.as_str());
    r
}

fn education_text(e: &EducationEntry) -> (r: String)
    ensures
        r@ == education_block(*e),
{
    let mut r = e.degree.clone();
    r.append("\n");
    r.append(e.institution.as_str());
    r.append("\n");
    r.append(e.dates.as_str());
    r.append("\n");
    let b = bullets(e.notes.as_slice());
    r.append(b.as_str());
    r
}

fn position_text(p: &PositionEntry) -> (r: String)
    ensures
        r@ == position_block(*p),
{
    let mut r = p.title.clone();
    r.append("\n");
    r.append(p.organization.as_str());
    match p.guide_label_and_name() {
        Some((label, name)) => {
            r.append("\n");
            r.append(label);
            r.append(": ");
            r.append(name);
        },
        None => {},
    }
    r
}

fn experience_section(entries: &Vec<ExperienceEntry>) -> (r: String)
    ensures
        r@ == join(entries@.map_values(|e: ExperienceEntry| experience_block(e)), "\n\n"@),
{
    let mut items: Vec<String> = Vec::new();
    let mut i: usize = 0;
    while i < entries.len()
        invariant
            i <= entries.len(),
            items@.len() == i,
            forall|j: int| 0 <= j < i ==> #[trigger] items@[j]@ == experience_block(entries@[j]),
        decreases entries.len() - i,
    {
        items.push(experience_text(&entries[i]));
        i = i + 1;
    }
    assert(views(items@) =~= entries@.map_values(|e: ExperienceEntry| experience_block(e)));
    join_strings(&items, "\n\n")
}

fn research_section(entries: &Vec<ResearchEntry>) -> (r: String)
    ensures
        r@ == join(entries@.map_values(|e: ResearchEntry| research_block(e)), "\n\n"@),
{
    let mut items: Vec<String> = Vec::new();
    let mut i: usize = 0;
    while i < entries.len()
        invariant
            i <= entries.len(),
            items@.len() == i,
            forall|j: int| 0 <= j < i ==> #[trigger] items@[j]@ == research_block(entries@[j]),
        decreases entries.len() - i,
    {
        items.push(research_text(&entries[i]));
        i = i + 1;
    }
    assert(views(items@) =~= entries@.map_values(|e: ResearchEntry| research_block(e)));
    join_strings(&items, "\n\n")
}

fn education_section(entries: &Vec<EducationEntry>) -> (r: String)
    ensures
        r@ == join(entries@.map_values(|e: EducationEntry| education_block(e)), "\n\n"@),
{
    let mut items: Vec<String> = Vec::new();
    let mut i: usize = 0;
    while i < entries.len()
        invariant
            i <= entries.len(),
            items@.len() == i,
            forall|j: int| 0 <= j < i ==> #[trigger] items@[j]@ == education_block(entries@[j]),
        decreases entries.len() - i,
    {
        items.push(education_text(&entries[i]));
        i = i + 1;
    }
    assert(views(items@) =~= entries@.map_values(|e: EducationEntry| education_block(e)));
    join_strings(&items, "\n\n")
}

fn positions_section(entries: &Vec<PositionEntry>) -> (r: String)
    ensures
        r@ == join(entries@.map_values(|p: PositionEntry| position_block(p)), "\n\n"@),
{
    let mut items: Vec<String> = Vec::new();
    let mut i: usize = 0;
    while i < entries.len()
        invariant
            i <= entries.len(),
            items@.len() == i,
            forall|j: int| 0 <= j < i ==> #[trigger] items@[j]@ == position_block(entries@[j]),
        decreases entries.len() - i,
    {
        items.push(position_text(&entries[i]));
        i = i + 1;
    }
    assert(views(items@) =~= entries@.map_values(|p: PositionEntry| position_block(p)));
    join_strings(&items, "\n\n")
}

fn section(title: &str, body: String) -> (s: ResumeSection)
    ensures
        s.title@ == title@,
        s.body@ == body@,
{
    ResumeSection { title: String::from_str(title), body }
}

/// The sections of the resume, as [`section_list`] says.
pub fn render_sections(resume: &ResumeData) -> (sections: Vec<ResumeSection>)
    ensures
        section_views(sections@) == section_list(*resume),
{
    let mut sections: Vec<ResumeSection> = Vec::new();

    let mut profile = join_strings(&resume.profile.summary, "\n\n");
    profile.append("\n\nHighlights\n");
    let highlights = bullets(resume.profile.highlights.as_slice());
    profile.append(highlights.as_str());
    sections.push(section("Profile", profile));

    sections.push(section("Data Science Experience", experience_section(&resume.experience)));
    sections.push(section("Research Experience", research_section(&resume.research)));

    let mut skills = String::from_str("Software Development and Computing\n");
    let software = bullets(resume.skills.software.as_slice());
    skills.append(software.as_str());
    skills.append("\n\nMolecular Biology and Protein Biochemistry\n");
    let molecular = bullets(resume.skills.molecular_biology.as_slice());
    skills.append(molecular.as_str());
    skills.append("\n\nStructural Biology and Biophysics\n");
    let structural = bullets(resume.skills.structural_biology.as_slice());
    skills.append(structural.as_str());
    sections.push(section("Technical Skills", skills));

    sections.push(section("Education", education_section(&resume.education)));
    sections.push(section("Awards", bullets(resume.awards.as_slice())));
    sections.push(section("Positions", positions_section(&resume.positions)));

    let mut contact = String::from_str("GitHub: ");
    contact.append(resume.contact.github.as_str());
    contact.append("\nLinkedIn: ");
    contact.append(resume.contact.linkedin.as_str());
    contact.append("\nGoogle Scholar: ");
    contact.append(resume.contact.scholar.as_str());
    contact.append("\nLocation: ");
    contact.append(resume.contact.location.as_str());
    sections.push(section("Contact", contact));

    assert(section_views(sections@) =~= section_list(*resume));
    sections
}

} // verus!
