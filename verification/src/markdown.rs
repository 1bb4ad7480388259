//! The whole resume as one Markdown document, the text from which the site
//! generates a PDF when no download link is configured.
use vstd::prelude::*;
use crate::resume::{
    bullet_list, markdown_bullets, EducationEntry, ExperienceEntry, PositionEntry, ResearchEntry,
    ResumeData,
};
use crate::text::{concat, is_blank, lemma_concat_push, trimmed};

verus! {

pub open spec fn md_header(r: ResumeData) -> Seq<char> {
    "# "@ + r.header.title@ + "\n\n"@ + r.header.subtitle@ + "\n\n"@
        + "Links: LinkedIn | GitHub | Scholar\n"@ + "LinkedIn: "@ + r.contact.linkedin@ + "\n"@
        + "GitHub: "@ + r.contact.github@ + "\n"@ + "Scholar: "@ + r.contact.scholar@ + "\n"@
        + "Location: "@ + r.contact.location@ + "\n\n"@
}

pub open spec fn md_profile(r: ResumeData) -> Seq<char> {
    "## Profile\n"@ + concat(r.profile.summary@.map_values(|l: String| l@ + "\n\n"@))
        + "### Highlights\n"@ + bullet_list(r.profile.highlights@) + "\n\n"@
}

pub open spec fn md_experience(e: ExperienceEntry) -> Seq<char> {
    "### "@ + e.role@ + " | "@ + e.organization@ + "\n"@ + e.dates@ + "\nManager: "@ + e.manager@
        + "\n"@ + bullet_list(e.bullets@) + "\n\n"@
}

pub open spec fn md_research(e: ResearchEntry) -> Seq<char> {
    "### "@ + e.role@ + " | "@ + e.organization@ + "\nMentor: "@ + e.mentor@ + "\nPublications: "@
        + e.publications@ + "\n"@ + bullet_list(e.bullets@) + "\n\n"@
}

pub open spec fn md_skills(r: ResumeData) -> Seq<char> {
    "## Technical Skills\n"@ + "### Software Development and Computing\n"@ + bullet_list(
        r.skills.software@,
    ) + "\n\n### Molecular Biology and Protein Biochemistry\n"@ + bullet_list(
        r.skills.molecular_biology@,
    ) + "\n\n### Structural Biology and Biophysics\n"@ + bullet_list(r.skills.structural_biology@)
        + "\n\n"@
}

pub open spec fn md_education(e: EducationEntry) -> Seq<char> {
    "### "@ + e.degree@ + "\n"@ + e.institution@ + "\n"@ + e.dates@ + "\n"@ + bullet_list(e.notes@)
        + "\n\n"@
}

pub open spec fn md_position(p: PositionEntry) -> Seq<char> {
    match p.guide() {
        Some((label, name)) => "- "@ + p.title@ + " | "@ + p.organization@ + " ("@ + label + ": "@
            + name + ")\n"@,
        None => "- "@ + p.title@ + " | "@ + p.organization@ + "\n"@,
    }
}

/// The Markdown document: header and links, profile, the two kinds of
/// experience, skills, education, awards and positions, in that order.
pub open spec fn resume_markdown(r: ResumeData) -> Seq<char> {
    md_header(r) + md_profile(r) + "## Data Science Experience\n"@ + concat(
        r.experience@.map_values(|e: ExperienceEntry| md_experience(e)),
    ) + "## Research Experience\n"@ + concat(
        r.research@.map_values(|e: ResearchEntry| md_research(e)),
    ) + md_skills(r) + "## Education\n"@ + concat(
        r.education@.map_values(|e: EducationEntry| md_education(e)),
    ) + "## Awards\n"@ + bullet_list(r.awards@) + "\n\n"@ + "## Positions\n"@ + concat(
        r.positions@.map_values(|p: PositionEntry| md_position(p)),
    ) + "\n"@
}

/// A position's Markdown list item: `- `, title, ` | `, organization, then
/// the trimmed manager where one is named, else the trimmed mentor where one
/// is named, in brackets after its label, and a line break.
pub open spec fn position_item(p: PositionEntry) -> Seq<char> {
    if !is_blank(p.manager@) {
        "- "@ + p.title@ + " | "@ + p.organization@ + " ("@ + "Manager"@ + ": "@ + trimmed(
            p.manager@,
        ) + ")\n"@
    } else if !is_blank(p.mentor@) {
        "- "@ + p.title@ + " | "@ + p.organization@ + " ("@ + "Mentor"@ + ": "@ + trimmed(
            p.mentor@,
        ) + ")\n"@
    } else {
        "- "@ + p.title@ + " | "@ + p.organization@ + "\n"@
    }
}

/// Each position's line in the export names the guide that the position
/// names: the manager first, else the mentor.
pub proof fn lemma_position_line_names_guide(p: PositionEntry)
    ensures
        md_position(p) == position_item(p),
{
}

/// Content that two resumes share everywhere but in the given list.
pub open spec fn same_outside_lists(a: ResumeData, b: ResumeData) -> bool {
    &&& a.header == b.header
    &&& a.contact == b.contact
    &&& a.profile.summary@ == b.profile.summary@
    &&& a.profile.highlights@ == b.profile.highlights@
    &&& a.skills.software@ == b.skills.software@
    &&& a.skills.molecular_biology@ == b.skills.molecular_biology@
    &&& a.skills.structural_biology@ == b.skills.structural_biology@
    &&& a.awards@ == b.awards@
}

/// One position more adds its list item at the end of the document, before
/// the closing blank line.
#[verifier::rlimit(40)]
pub proof fn lemma_markdown_position_added(a: ResumeData, b: ResumeData, p: PositionEntry)
    requires
        same_outside_lists(a, b),
        a.experience@ == b.experience@,
        a.research@ == b.research@,
        a.education@ == b.education@,
        b.positions@ == a.positions@.push(p),
    ensures
        resume_markdown(b) == resume_markdown(a).drop_last() + position_item(p) + "\n"@,
{
    let f = |x: PositionEntry| md_position(x);
    assert(b.positions@.map_values(f) =~= a.positions@.map_values(f).push(md_position(p)));
    lemma_concat_push(a.positions@.map_values(f), md_position(p));
    reveal_strlit("\n");
    assert(resume_markdown(a).drop_last() + position_item(p) + "\n"@ =~= resume_markdown(b));
}


/// One research entry more inserts its block after those of the entries
/// before it, leaving the rest of the document as it was.
spec fn md_before_research(r: ResumeData) -> Seq<char> {
    md_header(r) + md_profile(r) + "## Data Science Experience\n"@ + concat(
        r.experience@.map_values(|x: ExperienceEntry| md_experience(x)),
    ) + "## Research Experience\n"@
}

spec fn md_after_research(r: ResumeData) -> Seq<char> {
    md_skills(r) + "## Education\n"@ + concat(
        r.education@.map_values(|x: EducationEntry| md_education(x)),
    ) + "## Awards\n"@ + bullet_list(r.awards@) + "\n\n"@ + "## Positions\n"@ + concat(
        r.positions@.map_values(|x: PositionEntry| md_position(x)),
    ) + "\n"@
}

#[verifier::rlimit(40)]
proof fn lemma_markdown_around_research(r: ResumeData)
    ensures
        resume_markdown(r) == md_before_research(r) + concat(
            r.research@.map_values(|x: ResearchEntry| md_research(x)),
        ) + md_after_research(r),
{
    assert(resume_markdown(r) =~= md_before_research(r) + concat(
        r.research@.map_values(|x: ResearchEntry| md_research(x)),
    ) + md_after_research(r));
}

proof fn lemma_research_concat_push(a: ResumeData, b: ResumeData, e: ResearchEntry)
    requires
        b.research@ == a.research@.push(e),
    ensures
        concat(b.research@.map_values(|x: ResearchEntry| md_research(x))) == concat(
            a.research@.map_values(|x: ResearchEntry| md_research(x)),
        ) + md_research(e),
{
    let f = |x: ResearchEntry| md_research(x);
    assert(b.research@.map_values(f) =~= a.research@.map_values(f).push(md_research(e)));
    lemma_concat_push(a.research@.map_values(f), md_research(e));
}

/// One research entry more inserts its block after those of the entries
/// before it, leaving the rest of the document as it was.
#[verifier::rlimit(40)]
pub proof fn lemma_markdown_research_added(a: ResumeData, b: ResumeData, e: ResearchEntry)
    requires
        same_outside_lists(a, b),
        a.experience@ == b.experience@,
        b.research@ == a.research@.push(e),
        a.education@ == b.education@,
        a.positions@ == b.positions@,
    ensures
        exists|pre: Seq<char>, post: Seq<char>|
            {
                &&& resume_markdown(a) == pre + post
                &&& resume_markdown(b) == pre + ("### "@ + e.role@ + " | "@ + e.organization@
                    + "\nMentor: "@ + e.mentor@ + "\nPublications: "@ + e.publications@ + "\n"@
                    + bullet_list(e.bullets@) + "\n\n"@) + post
            },
{
    lemma_markdown_around_research(a);
    lemma_markdown_around_research(b);
    lemma_research_concat_push(a, b, e);
    assert(md_header(a) == md_header(b));
    assert(md_profile(a) =~= md_profile(b));
    assert(md_skills(a) =~= md_skills(b));
    assert(md_before_research(a) == md_before_research(b));
    assert(md_after_research(a) == md_after_research(b));
    let r_a = concat(a.research@.map_values(|x: ResearchEntry| md_research(x)));
    let pre = md_before_research(a) + r_a;
    let post = md_after_research(a);
    assert(resume_markdown(a) == pre + post);
    assert(resume_markdown(b) =~= pre + md_research(e) + post);
}


spec fn md_before_experience(r: ResumeData) -> Seq<char> {
    md_header(r) + md_profile(r) + "## Data Science Experience\n"@
}

spec fn md_after_experience(r: ResumeData) -> Seq<char> {
    "## Research Experience\n"@ + concat(r.research@.map_values(|x: ResearchEntry| md_research(x)))
        + md_after_research(r)
}

#[verifier::rlimit(40)]
proof fn lemma_markdown_around_experience(r: ResumeData)
    ensures
        resume_markdown(r) == md_before_experience(r) + concat(
            r.experience@.map_values(|x: ExperienceEntry| md_experience(x)),
        ) + md_after_experience(r),
{
    lemma_markdown_around_research(r);
    assert(resume_markdown(r) =~= md_before_experience(r) + concat(
        r.experience@.map_values(|x: ExperienceEntry| md_experience(x)),
    ) + md_after_experience(r));
}

proof fn lemma_experience_concat_push(a: ResumeData, b: ResumeData, e: ExperienceEntry)
    requires
        b.experience@ == a.experience@.push(e),
    ensures
        concat(b.experience@.map_values(|x: ExperienceEntry| md_experience(x))) == concat(
            a.experience@.map_values(|x: ExperienceEntry| md_experience(x)),
        ) + md_experience(e),
{
    let f = |x: ExperienceEntry| md_experience(x);
    assert(b.experience@.map_values(f) =~= a.experience@.map_values(f).push(md_experience(e)));
    lemma_concat_push(a.experience@.map_values(f), md_experience(e));
}

/// One experience entry more inserts its block, heading, dates, manager and
/// bullets, after those of the entries before it, leaving the rest of the
/// document as it was.
#[verifier::rlimit(40)]
pub proof fn lemma_markdown_experience_added(a: ResumeData, b: ResumeData, e: ExperienceEntry)
    requires
        same_outside_lists(a, b),
        b.experience@ == a.experience@.push(e),
        a.research@ == b.research@,
        a.education@ == b.education@,
        a.positions@ == b.positions@,
    ensures
        exists|pre: Seq<char>, post: Seq<char>|
            {
                &&& resume_markdown(a) == pre + post
                &&& resume_markdown(b) == pre + ("### "@ + e.role@ + " | "@ + e.organization@
                    + "\n"@ + e.dates@ + "\nManager: "@ + e.manager@ + "\n"@ + bullet_list(
                    e.bullets@,
                ) + "\n\n"@) + post
            },
{
    lemma_markdown_around_experience(a);
    lemma_markdown_around_experience(b);
    lemma_experience_concat_push(a, b, e);
    assert(md_header(a) == md_header(b));
    assert(md_profile(a) =~= md_profile(b));
    assert(md_skills(a) =~= md_skills(b));
    assert(md_before_experience(a) == md_before_experience(b));
    assert(md_after_research(a) == md_after_research(b));
    assert(md_after_experience(a) == md_after_experience(b));
    let pre = md_before_experience(a) + concat(
        a.experience@.map_values(|x: ExperienceEntry| md_experience(x)),
    );
    let post = md_after_experience(a);
    assert(resume_markdown(a) == pre + post);
    assert(resume_markdown(b) =~= pre + md_experience(e) + post);
}

spec fn md_before_education(r: ResumeData) -> Seq<char> {
    md_before_research(r) + concat(r.research@.map_values(|x: ResearchEntry| md_research(x)))
        + md_skills(r) + "## Education\n"@
}

spec fn md_after_education(r: ResumeData) -> Seq<char> {
    "## Awards\n"@ + bullet_list(r.awards@) + "\n\n"@ + "## Positions\n"@ + concat(
        r.positions@.map_values(|x: PositionEntry| md_position(x)),
    ) + "\n"@
}

#[verifier::rlimit(40)]
proof fn lemma_markdown_around_education(r: ResumeData)
    ensures
        resume_markdown(r) == md_before_education(r) + concat(
            r.education@.map_values(|x: EducationEntry| md_education(x)),
        ) + md_after_education(r),
{
    assert(resume_markdown(r) =~= md_before_education(r) + concat(
        r.education@.map_values(|x: EducationEntry| md_education(x)),
    ) + md_after_education(r));
}

proof fn lemma_education_concat_push(a: ResumeData, b: ResumeData, e: EducationEntry)
    requires
        b.education@ == a.education@.push(e),
    ensures
        concat(b.education@.map_values(|x: EducationEntry| md_education(x))) == concat(
            a.education@.map_values(|x: EducationEntry| md_education(x)),
        ) + md_education(e),
{
    let f = |x: EducationEntry| md_education(x);
    assert(b.education@.map_values(f) =~= a.education@.map_values(f).push(md_education(e)));
    lemma_concat_push(a.education@.map_values(f), md_education(e));
}

/// One education entry more inserts its block, heading, institution, dates
/// and notes, after those of the entries before it, leaving the rest of the
/// document as it was.
#[verifier::rlimit(40)]
pub proof fn lemma_markdown_education_added(a: ResumeData, b: ResumeData, e: EducationEntry)
    requires
        same_outside_lists(a, b),
        a.experience@ == b.experience@,
        a.research@ == b.research@,
        b.education@ == a.education@.push(e),
        a.positions@ == b.positions@,
    ensures
        exists|pre: Seq<char>, post: Seq<char>|
            {
                &&& resume_markdown(a) == pre + post
                &&& resume_markdown(b) == pre + ("### "@ + e.degree@ + "\n"@ + e.institution@
                    + "\n"@ + e.dates@ + "\n"@ + bullet_list(e.notes@) + "\n\n"@) + post
            },
{
    lemma_markdown_around_education(a);
    lemma_markdown_around_education(b);
    lemma_education_concat_push(a, b, e);
    assert(md_header(a) == md_header(b));
    assert(md_profile(a) =~= md_profile(b));
    assert(md_skills(a) =~= md_skills(b));
    assert(md_before_education(a) == md_before_education(b));
    assert(md_after_education(a) == md_after_education(b));
    let pre = md_before_education(a) + concat(
        a.education@.map_values(|x: EducationEntry| md_education(x)),
    );
    let post = md_after_education(a);
    assert(resume_markdown(a) == pre + post);
    assert(resume_markdown(b) =~= pre + md_education(e) + post);
}

spec fn md_after_summary(r: ResumeData) -> Seq<char> {
    "### Highlights\n"@ + bullet_list(r.profile.highlights@) + "\n\n"@
        + "## Data Science Experience\n"@ + concat(
        r.experience@.map_values(|e: ExperienceEntry| md_experience(e)),
    ) + "## Research Experience\n"@ + concat(
        r.research@.map_values(|x: ResearchEntry| md_research(x)),
    ) + md_after_research(r)
}

#[verifier::rlimit(40)]
proof fn lemma_markdown_around_summary(r: ResumeData)
    ensures
        resume_markdown(r) == md_header(r) + "## Profile\n"@ + concat(
            r.profile.summary@.map_values(|l: String| l@ + "\n\n"@),
        ) + md_after_summary(r),
{
    lemma_markdown_around_research(r);
    assert(resume_markdown(r) =~= md_header(r) + "## Profile\n"@ + concat(
        r.profile.summary@.map_values(|l: String| l@ + "\n\n"@),
    ) + md_after_summary(r));
}

proof fn lemma_summary_concat_push(a: ResumeData, b: ResumeData, line: String)
    requires
        b.profile.summary@ == a.profile.summary@.push(line),
    ensures
        concat(b.profile.summary@.map_values(|l: String| l@ + "\n\n"@)) == concat(
            a.profile.summary@.map_values(|l: String| l@ + "\n\n"@),
        ) + (line@ + "\n\n"@),
{
    let f = |l: String| l@ + "\n\n"@;
    assert(b.profile.summary@.map_values(f) =~= a.profile.summary@.map_values(f).push(
        line@ + "\n\n"@,
    ));
    lemma_concat_push(a.profile.summary@.map_values(f), line@ + "\n\n"@);
}

/// One summary paragraph more inserts it, followed by a blank line, after
/// the paragraphs before it, leaving the rest of the document as it was.
#[verifier::rlimit(40)]
pub proof fn lemma_markdown_summary_added(a: ResumeData, b: ResumeData, line: String)
    requires
        a.header == b.header,
        a.contact == b.contact,
        b.profile.summary@ == a.profile.summary@.push(line),
        a.profile.highlights@ == b.profile.highlights@,
        a.skills.software@ == b.skills.software@,
        a.skills.molecular_biology@ == b.skills.molecular_biology@,
        a.skills.structural_biology@ == b.skills.structural_biology@,
        a.awards@ == b.awards@,
        a.experience@ == b.experience@,
        a.research@ == b.research@,
        a.education@ == b.education@,
        a.positions@ == b.positions@,
    ensures
        exists|pre: Seq<char>, post: Seq<char>|
            {
                &&& resume_markdown(a) == pre + post
                &&& resume_markdown(b) == pre + (line@ + "\n\n"@) + post
            },
{
    lemma_markdown_around_summary(a);
    lemma_markdown_around_summary(b);
    lemma_summary_concat_push(a, b, line);
    assert(md_header(a) == md_header(b));
    assert(md_skills(a) =~= md_skills(b));
    assert(md_after_research(a) == md_after_research(b));
    assert(md_after_summary(a) == md_after_summary(b));
    let pre = md_header(a) + "## Profile\n"@ + concat(
        a.profile.summary@.map_values(|l: String| l@ + "\n\n"@),
    );
    let post = md_after_summary(a);
    assert(resume_markdown(a) == pre + post);
    assert(resume_markdown(b) =~= pre + (line@ + "\n\n"@) + post);
}

fn header_markdown(resume: &ResumeData) -> (r: String)
    ensures
        r@ == md_header(*resume),
{
    let mut out = String::from_str("# ");
    out.append(resume.header.title.as_str());
    out.append("\n\n");
    out.append(resume.header.subtitle.as_str());
    out.append("\n\n");
    out.append("Links: LinkedIn | GitHub | Scholar\n");
    out.append("LinkedIn: ");
    out.append(resume.contact.linkedin.as_str());
    out.append("\n");
    out.append("GitHub: ");
    out.append(resume.contact.github.as_str());
    out.append("\n");
    out.append("Scholar: ");
    out.append(resume.contact.scholar.as_str());
    out.append("\n");
    out.append("Location: ");
    out.append(resume.contact.location.as_str());
    out.append("\n\n");
    out
}

fn profile_markdown(resume: &ResumeData) -> (r: String)
    ensures
        r@ == md_profile(*resume),
{
    let lines = &resume.profile.summary;
    let ghost parts = lines@.map_values(|l: String| l@ + "\n\n"@);
    let mut body = String::new();
    let mut i: usize = 0;
    while i < lines.len()
        invariant
            i <= lines.len(),
            parts == lines@.map_values(|l: String| l@ + "\n\n"@),
            body@ == concat(parts.take(i as int)),
        decreases lines.len() - i,
    {
        body.append(lines[i].as_str());
        body.append("\n\n");
        proof {
            assert(parts.take(i + 1).drop_last() =~= parts.take(i as int));
        }
        i = i + 1;
    }
    proof {
        assert(parts.take(lines.len() as int) =~= parts);
    }
    let mut out = String::from_str("## Profile\n");
    out.append(body.as_str());
    out.append("### Highlights\n");
    let highlights = markdown_bullets(resume.profile.highlights.as_slice());
    out.append(highlights.as_str());
    out.append("\n\n");
    out
}

fn experience_markdown(e: &ExperienceEntry) -> (r: String)
    ensures
        r@ == md_experience(*e),
{
    let mut out = String::from_str("### ");
    out.append(e.role.as_str());
    out.append(" | ");
    out.append(e.organization.as_str());
    out.append("\n");
    out.append(e.dates.as_str());
    out.append("\nManager: ");
    out.append(e.manager.as_str());
    out.append("\n");
    let b = markdown_bullets(e.bullets.as_slice());
    out.append(b.as_str());
    out.append("\n\n");
    out
}

fn research_markdown(e: &ResearchEntry) -> (r: String)
    ensures
        r@ == md_research(*e),
{
    let mut out = String::from_str("### ");
    out.append(e.role.as_str());
    out.append(" | ");
    out.append(e.organization.as_str());
    out.append("\nMentor: ");
    out.append(e.mentor.as_str());
    out.append("\nPublications: ");
    out.append(e.publications.as_str());
    out.append("\n");
    let b = markdown_bullets(e.bullets.as_slice());
    out.append(b.as_str());
    out.append("\n\n");
    out
}

fn skills_markdown(resume: &ResumeData) -> (r: String)
    ensures
        r@ == md_skills(*resume),
{
    let mut out = String::from_str("## Technical Skills\n");
    out.append("### Software Development and Computing\n");
    let software = markdown_bullets(resume.skills.software.as_slice());
    out.append(software.as_str());
    out.append("\n\n### Molecular Biology and Protein Biochemistry\n");
    let molecular = markdown_bullets(resume.skills.molecular_biology.as_slice());
    out.append(molecular.as_str());
    out.append("\n\n### Structural Biology and Biophysics\n");
    let structural = markdown_bullets(resume.skills.structural_biology.as_slice());
    out.append(structural.as_str());
    out.append("\n\n");
    out
}

fn education_markdown(e: &EducationEntry) -> (r: String)
    ensures
        r@ == md_education(*e),
{
    let mut out = String::from_str("### ");
    out.append(e.degree.as_str());
    out.append("\n");
    out.append(e.institution.as_str());
    out.append("\n");
    out.append(e.dates.as_str());
    out.append("\n");
    let b = markdown_bullets(e.notes.as_slice());
    out.append(b.as_str());
    out.append("\n\n");
    out
}

fn position_markdown(p: &PositionEntry) -> (r: String)
    ensures
        r@ == md_position(*p),
{
    let mut out = String::from_str("- ");
    out.append(p.title.as_str());
    out.append(" | ");
    out.append(p.organization.as_str());
    match p.guide_label_and_name() {
        Some((label, name)) => {
            out.append(" (");
            out.append(label);
            out.append(": ");
            out.append(name);
            out.append(")\n");
        },
        None => {
            out.append("\n");
        },
    }
    out
}

fn experience_entries_markdown(entries: &Vec<ExperienceEntry>) -> (r: String)
    ensures
        r@ == concat(entries@.map_values(|e: ExperienceEntry| md_experience(e))),
{
    let ghost parts = entries@.map_values(|e: ExperienceEntry| md_experience(e));
    let mut out = String::new();
    let mut i: usize = 0;
    while i < entries.len()
        invariant
            i <= entries.len(),
            parts == entries@.map_values(|e: ExperienceEntry| md_experience(e)),
            out@ == concat(parts.take(i as int)),
        decreases entries.len() - i,
    {
        let text = experience_markdown(&entries[i]);
        out.append(text.as_str());
        proof {
            assert(parts.take(i + 1).drop_last() =~= parts.take(i as int));
        }
        i = i + 1;
    }
    proof {
        assert(parts.take(entries.len() as int) =~= parts);
    }
    out
}

fn research_entries_markdown(entries: &Vec<ResearchEntry>) -> (r: String)
    ensures
        r@ == concat(entries@.map_values(|e: ResearchEntry| md_research(e))),
{
    let ghost parts = entries@.map_values(|e: ResearchEntry| md_research(e));
    let mut out = String::new();
    let mut i: usize = 0;
    while i < entries.len()
        invariant
            i <= entries.len(),
            parts == entries@.map_values(|e: ResearchEntry| md_research(e)),
            out@ == concat(parts.take(i as int)),
        decreases entries.len() - i,
    {
        let text = research_markdown(&entries[i]);
        out.append(text.as_str());
        proof {
            assert(parts.take(i + 1).drop_last() =~= parts.take(i as int));
        }
        i = i + 1;
    }
    proof {
        assert(parts.take(entries.len() as int) =~= parts);
    }
    out
}

fn education_entries_markdown(entries: &Vec<EducationEntry>) -> (r: String)
    ensures
        r@ == concat(entries@.map_values(|e: EducationEntry| md_education(e))),
{
    let ghost parts = entries@.map_values(|e: EducationEntry| md_education(e));
    let mut out = String::new();
    let mut i: usize = 0;
    while i < entries.len()
        invariant
            i <= entries.len(),
            parts == entries@.map_values(|e: EducationEntry| md_education(e)),
            out@ == concat(parts.take(i as int)),
        decreases entries.len() - i,
    {
        let text = education_markdown(&entries[i]);
        out.append(text.as_str());
        proof {
            assert(parts.take(i + 1).drop_last() =~= parts.take(i as int));
        }
        i = i + 1;
    }
    proof {
        assert(parts.take(entries.len() as int) =~= parts);
    }
    out
}

fn position_entries_markdown(entries: &Vec<PositionEntry>) -> (r: String)
    ensures
        r@ == concat(entries@.map_values(|p: PositionEntry| md_position(p))),
{
    let ghost parts = entries@.map_values(|p: PositionEntry| md_position(p));
    let mut out = String::new();
    let mut i: usize = 0;
    while i < entries.len()
        invariant
            i <= entries.len(),
            parts == entries@.map_values(|p: PositionEntry| md_position(p)),
            out@ == concat(parts.take(i as int)),
        decreases entries.len() - i,
    {
        let text = position_markdown(&entries[i]);
        out.append(text.as_str());
        proof {
            assert(parts.take(i + 1).drop_last() =~= parts.take(i as int));
        }
        i = i + 1;
    }
    proof {
        assert(parts.take(entries.len() as int) =~= parts);
    }
    out
}

/// The resume as Markdown, as [`resume_markdown`] says.
pub fn build_resume_markdown(resume: &ResumeData) -> (out: String)
    ensures
        out@ == resume_markdown(*resume),
{
    let mut out = header_markdown(resume);
    let profile = profile_markdown(resume);
    out.append(profile.as_str());

    out.append("## Data Science Experience\n");
    let experience = experience_entries_markdown(&resume.experience);
    out.append(experience.as_str());

    out.append("## Research Experience\n");
    let research = research_entries_markdown(&resume.research);
    out.append(research.as_str());

    let skills = skills_markdown(resume);
    out.append(skills.as_str());

    out.append("## Education\n");
    let education = education_entries_markdown(&resume.education);
    out.append(education.as_str());

    out.append("## Awards\n");
    let awards = markdown_bullets(resume.awards.as_slice());
    out.append(awards.as_str());
    out.append("\n\n");

    out.append("## Positions\n");
    let positions = position_entries_markdown(&resume.positions);
    out.append(positions.as_str());
    out.append("\n");
    out
}

} // verus!
