//! The file name under which a generated resume is saved.
use vstd::prelude::*;
use crate::resume::ResumeData;
use crate::text::{join, lemma_join_push, trim_str, trimmed};

verus! {

pub open spec fn is_ascii_upper(c: char) -> bool {
    'A' <= c <= 'Z'
}

pub open spec fn is_ascii_alphanumeric(c: char) -> bool {
    ||| 'A' <= c <= 'Z'
    ||| 'a' <= c <= 'z'
    ||| '0' <= c <= '9'
}

/// `char::to_ascii_lowercase`: ASCII capitals become small letters, all else
/// stays.
pub open spec fn ascii_lower(c: char) -> char {
    if is_ascii_upper(c) {
        ((c as u32) + 32) as char
    } else {
        c
    }
}

/// A name ends in `.pdf`, capitals or not, when its last four characters,
/// set in small ASCII letters, are `.`, `p`, `d`, `f`.
pub open spec fn has_pdf_extension(s: Seq<char>) -> bool {
    let n: int = s.len() as int;
    &&& n >= 4
    &&& ascii_lower(s[n - 4]) == '.'
    &&& ascii_lower(s[n - 3]) == 'p'
    &&& ascii_lower(s[n - 2]) == 'd'
    &&& ascii_lower(s[n - 1]) == 'f'
}

/// ASCII letters and digits stay, in small letters; every other character
/// becomes `_`.
pub open spec fn normalize_char(c: char) -> char {
    if is_ascii_alphanumeric(c) {
        ascii_lower(c)
    } else {
        '_'
    }
}

pub open spec fn normalized(s: Seq<char>) -> Seq<char> {
    s.map_values(|c: char| normalize_char(c))
}

/// `str::split`: the pieces of `s` between the occurrences of `sep`, empty
/// pieces included, so one more piece than there are separators.
pub open spec fn split_on(s: Seq<char>, sep: char) -> Seq<Seq<char>>
    decreases s.len(),
{
    if s.len() == 0 {
        seq![Seq::empty()]
    } else {
        let pieces = split_on(s.drop_last(), sep);
        if s.last() == sep {
            pieces.push(Seq::empty())
        } else {
            pieces.update(pieces.len() - 1, pieces.last().push(s.last()))
        }
    }
}

/// The pieces that are not empty, in order.
pub open spec fn non_empty(pieces: Seq<Seq<char>>) -> Seq<Seq<char>>
    decreases pieces.len(),
{
    if pieces.len() == 0 {
        pieces
    } else {
        let kept = non_empty(pieces.drop_last());
        if pieces.last().len() > 0 {
            kept.push(pieces.last())
        } else {
            kept
        }
    }
}

/// The words of `s` between its underscores, joined by single underscores.
pub open spec fn compact(s: Seq<char>) -> Seq<char> {
    join(non_empty(split_on(s, '_')), seq!['_'])
}

/// The name of the generated resume file: the configured file name, trimmed,
/// with `.pdf` added unless it already ends so; without one, the title
/// reduced to its ASCII letters and digits, in small letters, words joined
/// by `_`, then `.pdf`; `resume.pdf` when nothing of the title is left.
pub open spec fn pdf_name(resume: ResumeData) -> Seq<char> {
    let configured = trimmed(resume.header.download_filename@);
    if configured.len() > 0 {
        if has_pdf_extension(configured) {
            configured
        } else {
            configured + ".pdf"@
        }
    } else {
        let stem = compact(normalized(resume.header.title@));
        if stem.len() == 0 {
            "resume.pdf"@
        } else {
            stem + ".pdf"@
        }
    }
}

pub proof fn lemma_split_on_not_empty(s: Seq<char>, sep: char)
    ensures
        split_on(s, sep).len() >= 1,
    decreases s.len(),
{
    if s.len() > 0 {
        lemma_split_on_not_empty(s.drop_last(), sep);
    }
}

/// A character of a generated file name stem: a small ASCII letter, a digit,
/// or `_`.
pub open spec fn is_stem_char(c: char) -> bool {
    ||| 'a' <= c <= 'z'
    ||| '0' <= c <= '9'
    ||| c == '_'
}

/// Underscores separate words: none leads, none trails, no two are adjacent.
pub open spec fn underscores_separate(w: Seq<char>) -> bool {
    &&& w.len() > 0 ==> w[0] != '_' && w.last() != '_'
    &&& forall|i: int| 0 <= i < w.len() - 1 ==> !(#[trigger] w[i] == '_' && w[i + 1] == '_')
}

/// Every name that [`pdf_filename`] gives ends in `.pdf`.
pub proof fn lemma_pdf_name_has_pdf_extension(resume: ResumeData)
    ensures
        has_pdf_extension(pdf_name(resume)),
{
    reveal_strlit(".pdf");
    reveal_strlit("resume.pdf");
}

/// A configured file name that is not blank is used, trimmed, whatever its
/// length: as it is where it already ends in `.pdf`, else with `.pdf` added.
/// The title plays no part then.
pub proof fn lemma_configured_name_is_used(resume: ResumeData)
    requires
        trimmed(resume.header.download_filename@).len() > 0,
    ensures
        ({
            let t = trimmed(resume.header.download_filename@);
            &&& has_pdf_extension(t) ==> pdf_name(resume) == t
            &&& !has_pdf_extension(t) ==> pdf_name(resume) == t + ".pdf"@
            &&& pdf_name(resume).subrange(0, t.len() as int) == t
        }),
{
    let t = trimmed(resume.header.download_filename@);
    assert((t + ".pdf"@).subrange(0, t.len() as int) =~= t);
    assert(t.subrange(0, t.len() as int) =~= t);
}

/// Without a configured file name, the name depends on the title alone.
pub proof fn lemma_unconfigured_name_follows_title(a: ResumeData, b: ResumeData)
    requires
        trimmed(a.header.download_filename@).len() == 0,
        trimmed(b.header.download_filename@).len() == 0,
        a.header.title@ == b.header.title@,
    ensures
        pdf_name(a) == pdf_name(b),
{
}

proof fn lemma_split_pieces(s: Seq<char>)
    ensures
        split_on(s, '_').len() >= 1,
        forall|k: int, j: int|
            0 <= k < split_on(s, '_').len() && 0 <= j < split_on(s, '_')[k].len() ==> {
                &&& #[trigger] split_on(s, '_')[k][j] != '_'
                &&& exists|m: int| 0 <= m < s.len() && s[m] == split_on(s, '_')[k][j]
            },
    decreases s.len(),
{
    if s.len() > 0 {
        let t = s.drop_last();
        lemma_split_pieces(t);
        let p = split_on(t, '_');
        assert forall|k: int, j: int|
            0 <= k < split_on(s, '_').len() && 0 <= j < split_on(s, '_')[k].len() implies {
                &&& #[trigger] split_on(s, '_')[k][j] != '_'
                &&& exists|m: int| 0 <= m < s.len() && s[m] == split_on(s, '_')[k][j]
            } by {
            let c = split_on(s, '_')[k][j];
            if s.last() != '_' && k == p.len() - 1 && j == p.last().len() {
                assert(s[s.len() - 1] == c);
            } else {
                assert(c == p[k][j]);
                let m = choose|m: int| 0 <= m < t.len() && t[m] == p[k][j];
                assert(s[m] == c);
            }
        }
    }
}

proof fn lemma_non_empty_pieces(pieces: Seq<Seq<char>>)
    ensures
        forall|k: int| 0 <= k < non_empty(pieces).len() ==> #[trigger] non_empty(pieces)[k].len() > 0,
        forall|k: int|
            0 <= k < non_empty(pieces).len() ==> exists|i: int|
                0 <= i < pieces.len() && pieces[i] == #[trigger] non_empty(pieces)[k],
    decreases pieces.len(),
{
    if pieces.len() > 0 {
        lemma_non_empty_pieces(pieces.drop_last());
        let kept = non_empty(pieces.drop_last());
        assert forall|k: int| 0 <= k < non_empty(pieces).len() implies exists|i: int|
            0 <= i < pieces.len() && pieces[i] == #[trigger] non_empty(pieces)[k] by {
            if k < kept.len() {
                let i = choose|i: int|
                    0 <= i < pieces.drop_last().len() && pieces.drop_last()[i] == kept[k];
                assert(pieces[i] == kept[k]);
            } else {
                assert(pieces[pieces.len() - 1] == non_empty(pieces)[k]);
            }
        }
    }
}

proof fn lemma_join_words(words: Seq<Seq<char>>)
    requires
        forall|k: int| 0 <= k < words.len() ==> #[trigger] words[k].len() > 0,
        forall|k: int, j: int| 0 <= k < words.len() && 0 <= j < words[k].len() ==> #[trigger] words[k][j] != '_',
    ensures
        underscores_separate(join(words, seq!['_'])),
        forall|j: int| 0 <= j < join(words, seq!['_']).len() ==> {
            ||| #[trigger] join(words, seq!['_'])[j] == '_'
            ||| exists|k: int, i: int| 0 <= k < words.len() && 0 <= i < words[k].len() && words[k][i] == join(words, seq!['_'])[j]
        },
    decreases words.len(),
{
    if words.len() == 1 {
        let w = join(words, seq!['_']);
        assert(w == words[0]);
        assert forall|j: int| 0 <= j < w.len() implies {
            ||| #[trigger] w[j] == '_'
            ||| exists|k: int, i: int| 0 <= k < words.len() && 0 <= i < words[k].len() && words[k][i] == w[j]
        } by {
            assert(words[0][j] == w[j]);
        }
    } else if words.len() > 1 {
        let front = words.drop_last();
        let x = words.last();
        lemma_join_words(front);
        let a = join(front, seq!['_']);
        let w = join(words, seq!['_']);
        assert(w == a + seq!['_'] + x);
        assert(front[0].len() > 0);
        assert(a.len() > 0) by {
            lemma_join_len(front);
        }
        assert(x[0] != '_');
        assert(x[x.len() - 1] != '_');
        assert(w[0] == a[0]);
        assert(w.last() == x.last());
        assert forall|i: int| 0 <= i < w.len() - 1 implies !(#[trigger] w[i] == '_' && w[i + 1] == '_') by {
            if i < a.len() - 1 {
                assert(w[i] == a[i] && w[i + 1] == a[i + 1]);
            } else if i == a.len() - 1 {
                assert(w[i] == a.last());
            } else if i == a.len() {
                assert(w[i + 1] == x[0]);
            } else {
                assert(w[i] == x[i - a.len() - 1]);
            }
        }
        assert forall|j: int| 0 <= j < w.len() implies {
            ||| #[trigger] w[j] == '_'
            ||| exists|k: int, i: int| 0 <= k < words.len() && 0 <= i < words[k].len() && words[k][i] == w[j]
        } by {
            if j < a.len() {
                assert(w[j] == a[j]);
                if a[j] != '_' {
                    let (k, i) = choose|k: int, i: int| 0 <= k < front.len() && 0 <= i < front[k].len() && front[k][i] == a[j];
                    assert(words[k][i] == w[j]);
                }
            } else if j > a.len() {
                assert(words[words.len() - 1][j - a.len() - 1] == w[j]);
            }
        }
    }
}

proof fn lemma_join_len(words: Seq<Seq<char>>)
    requires
        words.len() > 0,
        words[0].len() > 0,
    ensures
        join(words, seq!['_']).len() > 0,
    decreases words.len(),
{
    if words.len() > 1 {
        lemma_join_len(words.drop_last());
    }
}

/// A stem made from a title holds only small ASCII letters, digits and
/// underscores, and its underscores separate words: none leads, none
/// trails, no two are adjacent.
pub proof fn lemma_compact_title_is_clean(title: Seq<char>)
    ensures
        underscores_separate(compact(normalized(title))),
        forall|j: int| 0 <= j < compact(normalized(title)).len() ==> is_stem_char(
            #[trigger] compact(normalized(title))[j],
        ),
{
    let s = normalized(title);
    let pieces = split_on(s, '_');
    let words = non_empty(pieces);
    lemma_split_pieces(s);
    lemma_non_empty_pieces(pieces);
    assert forall|k: int, j: int| 0 <= k < words.len() && 0 <= j < words[k].len() implies #[trigger] words[k][j] != '_' && is_stem_char(words[k][j]) by {
        let i = choose|i: int| 0 <= i < pieces.len() && pieces[i] == words[k];
        assert(pieces[i][j] != '_');
        let m = choose|m: int| 0 <= m < s.len() && s[m] == pieces[i][j];
        assert(s[m] == normalize_char(title[m]));
    }
    lemma_join_words(words);
    let w = compact(s);
    assert forall|j: int| 0 <= j < w.len() implies is_stem_char(#[trigger] w[j]) by {
        if w[j] != '_' {
            let (k, i) = choose|k: int, i: int| 0 <= k < words.len() && 0 <= i < words[k].len() && words[k][i] == w[j];
            assert(is_stem_char(words[k][i]));
        }
    }
}

/// The title's words: its maximal runs of ASCII letters and digits, in order,
/// set in small letters.
pub open spec fn title_words(s: Seq<char>) -> Seq<Seq<char>>
    decreases s.len(),
{
    if s.len() == 0 {
        Seq::empty()
    } else {
        let t = s.drop_last();
        let w = title_words(t);
        let c = s.last();
        if !is_ascii_alphanumeric(c) {
            w
        } else if t.len() > 0 && is_ascii_alphanumeric(t.last()) {
            w.update(w.len() - 1, w.last().push(ascii_lower(c)))
        } else {
            w.push(seq![ascii_lower(c)])
        }
    }
}

proof fn lemma_normalize_char_underscore(c: char)
    ensures
        (normalize_char(c) == '_') == !is_ascii_alphanumeric(c),
{
    if is_ascii_upper(c) {
        assert(((c as u32) + 32) as char != '_');
    }
}

proof fn lemma_title_words_pieces(s: Seq<char>)
    ensures
        non_empty(split_on(normalized(s), '_')) == title_words(s),
        title_words(s).len() > 0 <==> (exists|j: int| 0 <= j < s.len() && is_ascii_alphanumeric(#[trigger] s[j])),
    decreases s.len(),
{
    if s.len() == 0 {
        assert(normalized(s) =~= Seq::<char>::empty());
        let e = seq![Seq::<char>::empty()];
        assert(split_on(normalized(s), '_') == e);
        assert(e.drop_last() =~= Seq::<Seq<char>>::empty());
        assert(non_empty(e.drop_last()) =~= Seq::<Seq<char>>::empty());
        assert(non_empty(e) =~= Seq::<Seq<char>>::empty());
    } else {
        let t = s.drop_last();
        let c = s.last();
        lemma_title_words_pieces(t);
        let n = normalized(s);
        assert(n.drop_last() =~= normalized(t));
        lemma_normalize_char_underscore(c);
        lemma_split_on_not_empty(normalized(t), '_');
        let p = split_on(normalized(t), '_');
        if t.len() > 0 {
            lemma_normalize_char_underscore(t.last());
            assert(normalized(t).last() == normalize_char(t.last()));
        }
        // the last piece of `p` is empty exactly when `t` does not end in a
        // letter or digit
        assert(p.last().len() == 0 <==> (t.len() == 0 || !is_ascii_alphanumeric(t.last()))) by {
            if t.len() > 0 {
                let q = split_on(normalized(t).drop_last(), '_');
                lemma_split_on_not_empty(normalized(t).drop_last(), '_');
            } else {
                assert(normalized(t) =~= Seq::<char>::empty());
            }
        }
        if !is_ascii_alphanumeric(c) {
            assert(split_on(n, '_') == p.push(Seq::empty()));
            assert(p.push(Seq::<char>::empty()).drop_last() =~= p);
        } else {
            let lc = ascii_lower(c);
            let q = p.update(p.len() - 1, p.last().push(lc));
            assert(split_on(n, '_') == q);
            assert(q.drop_last() =~= p.drop_last());
            assert(q.last() == p.last().push(lc));
            assert(p.drop_last().push(p.last()) =~= p);
            let w = title_words(t);
            if t.len() > 0 && is_ascii_alphanumeric(t.last()) {
                assert(non_empty(p) == non_empty(p.drop_last()).push(p.last()));
                assert(non_empty(q) =~= w.update(w.len() - 1, w.last().push(lc)));
            } else {
                assert(non_empty(p) == non_empty(p.drop_last()));
                assert(p.last() =~= Seq::<char>::empty());
                assert(p.last().push(lc) =~= seq![lc]);
            }
        }
        if title_words(s).len() > 0 {
            if !is_ascii_alphanumeric(c) {
                let j = choose|j: int| 0 <= j < t.len() && is_ascii_alphanumeric(#[trigger] t[j]);
                assert(s[j] == t[j]);
            } else {
                assert(is_ascii_alphanumeric(s[s.len() - 1]));
            }
        }
        if exists|j: int| 0 <= j < s.len() && is_ascii_alphanumeric(#[trigger] s[j]) {
            if !is_ascii_alphanumeric(c) {
                let j = choose|j: int| 0 <= j < s.len() && is_ascii_alphanumeric(#[trigger] s[j]);
                assert(t[j] == s[j]);
            }
        }
    }
}

/// Without a configured file name, the name is the title's words joined by
/// `_`, then `.pdf`; `resume.pdf` when the title has no ASCII letter or digit.
pub proof fn lemma_unconfigured_name_is_title_words(resume: ResumeData)
    requires
        trimmed(resume.header.download_filename@).len() == 0,
    ensures
        title_words(resume.header.title@).len() == 0 ==> pdf_name(resume) == "resume.pdf"@,
        title_words(resume.header.title@).len() > 0 ==> pdf_name(resume) == join(
            title_words(resume.header.title@),
            seq!['_'],
        ) + ".pdf"@,
        title_words(resume.header.title@).len() == 0 <==> forall|j: int|
            0 <= j < resume.header.title@.len() ==> !is_ascii_alphanumeric(
                #[trigger] resume.header.title@[j],
            ),
{
    let title = resume.header.title@;
    lemma_title_words_pieces(title);
    let words = title_words(title);
    if words.len() > 0 {
        assert(words[0].len() > 0) by {
            lemma_non_empty_pieces(split_on(normalized(title), '_'));
        }
        lemma_join_len(words);
    }
}

/// The title's ASCII letters and digits, in order, set in small letters.
pub open spec fn title_letters(s: Seq<char>) -> Seq<char>
    decreases s.len(),
{
    if s.len() == 0 {
        Seq::empty()
    } else {
        let r = title_letters(s.drop_last());
        if is_ascii_alphanumeric(s.last()) {
            r.push(ascii_lower(s.last()))
        } else {
            r
        }
    }
}

/// `s` with its underscores left out.
pub open spec fn without_underscores(s: Seq<char>) -> Seq<char>
    decreases s.len(),
{
    if s.len() == 0 {
        Seq::empty()
    } else {
        let r = without_underscores(s.drop_last());
        if s.last() == '_' {
            r
        } else {
            r.push(s.last())
        }
    }
}

proof fn lemma_without_underscores_append(a: Seq<char>, b: Seq<char>)
    ensures
        without_underscores(a + b) == without_underscores(a) + without_underscores(b),
    decreases b.len(),
{
    if b.len() == 0 {
        assert(a + b =~= a);
    } else {
        lemma_without_underscores_append(a, b.drop_last());
        assert((a + b).drop_last() =~= a + b.drop_last());
    }
}

proof fn lemma_without_underscores_none(w: Seq<char>)
    requires
        forall|j: int| 0 <= j < w.len() ==> w[j] != '_',
    ensures
        without_underscores(w) == w,
    decreases w.len(),
{
    if w.len() > 0 {
        lemma_without_underscores_none(w.drop_last());
        assert(w.drop_last().push(w.last()) =~= w);
    }
}

proof fn lemma_without_underscores_empty(w: Seq<char>)
    requires
        without_underscores(w).len() == 0,
    ensures
        forall|j: int| 0 <= j < w.len() ==> w[j] == '_',
    decreases w.len(),
{
    if w.len() > 0 {
        lemma_without_underscores_empty(w.drop_last());
        assert forall|j: int| 0 <= j < w.len() implies w[j] == '_' by {
            if j < w.len() - 1 {
                assert(w[j] == w.drop_last()[j]);
            }
        }
    }
}

proof fn lemma_normalized_letters(s: Seq<char>)
    ensures
        without_underscores(normalized(s)) == title_letters(s),
    decreases s.len(),
{
    if s.len() > 0 {
        lemma_normalized_letters(s.drop_last());
        assert(normalized(s).drop_last() =~= normalized(s.drop_last()));
        let c = s.last();
        if is_ascii_upper(c) {
            assert(((c as u32) + 32) as char != '_');
        }
    }
}

proof fn lemma_join_words_letters(words: Seq<Seq<char>>)
    requires
        forall|k: int, j: int|
            0 <= k < words.len() && 0 <= j < words[k].len() ==> #[trigger] words[k][j] != '_',
    ensures
        without_underscores(join(words, seq!['_'])) == crate::text::concat(words),
    decreases words.len(),
{
    if words.len() > 0 {
        let front = words.drop_last();
        let x = words.last();
        lemma_join_words_letters(front);
        assert(front.push(x) =~= words);
        crate::text::lemma_concat_push(front, x);
        lemma_without_underscores_none(x);
        if front.len() == 0 {
            assert(crate::text::concat(front) =~= Seq::<char>::empty());
            assert(crate::text::concat(words) =~= x);
        } else {
            lemma_join_push(front, seq!['_'], x);
            let a = join(front, seq!['_']);
            lemma_without_underscores_append(a + seq!['_'], x);
            lemma_without_underscores_append(a, seq!['_']);
            assert(without_underscores(seq!['_']) =~= Seq::<char>::empty()) by {
                let u = seq!['_'];
                assert(u.drop_last() =~= Seq::<char>::empty());
                assert(without_underscores(u.drop_last()) =~= Seq::<char>::empty());
                assert(u.last() == '_');
            }
            assert(without_underscores(a) + Seq::<char>::empty() =~= without_underscores(a));
        }
    }
}

proof fn lemma_non_empty_concat(pieces: Seq<Seq<char>>)
    ensures
        crate::text::concat(non_empty(pieces)) == crate::text::concat(pieces),
    decreases pieces.len(),
{
    if pieces.len() > 0 {
        lemma_non_empty_concat(pieces.drop_last());
        let kept = non_empty(pieces.drop_last());
        if pieces.last().len() > 0 {
            crate::text::lemma_concat_push(kept, pieces.last());
        } else {
            assert(crate::text::concat(pieces.drop_last()) + pieces.last()
                =~= crate::text::concat(pieces.drop_last()));
        }
    }
}

proof fn lemma_split_concat(s: Seq<char>)
    ensures
        crate::text::concat(split_on(s, '_')) == without_underscores(s),
    decreases s.len(),
{
    if s.len() == 0 {
        assert(crate::text::concat(seq![Seq::<char>::empty()]) =~= Seq::<char>::empty()) by {
            let e = seq![Seq::<char>::empty()];
            assert(e.drop_last() =~= Seq::<Seq<char>>::empty());
            assert(crate::text::concat(e.drop_last()) =~= Seq::<char>::empty());
            assert(e.last() =~= Seq::<char>::empty());
        }
    } else {
        let t = s.drop_last();
        lemma_split_concat(t);
        lemma_split_on_not_empty(t, '_');
        let p = split_on(t, '_');
        if s.last() == '_' {
            crate::text::lemma_concat_push(p, Seq::empty());
            assert(crate::text::concat(p) + Seq::<char>::empty() =~= crate::text::concat(p));
        } else {
            let q = p.update(p.len() - 1, p.last().push(s.last()));
            assert(q.drop_last() =~= p.drop_last());
            assert(p.drop_last().push(p.last()) =~= p);
            assert(crate::text::concat(q) =~= crate::text::concat(p).push(s.last()));
        }
    }
}

/// Without a configured file name: where the title holds no ASCII letter
/// or digit the name is `resume.pdf`; otherwise it is a stem and `.pdf`,
/// where the stem, its underscores left out, is exactly the title's ASCII
/// letters and digits in order and in small letters, and its underscores
/// separate words.
pub proof fn lemma_unconfigured_name_from_title_letters(resume: ResumeData)
    requires
        trimmed(resume.header.download_filename@).len() == 0,
    ensures
        title_letters(resume.header.title@).len() == 0 ==> pdf_name(resume) == "resume.pdf"@,
        title_letters(resume.header.title@).len() > 0 ==> exists|stem: Seq<char>|
            {
                &&& pdf_name(resume) == stem + ".pdf"@
                &&& without_underscores(stem) == title_letters(resume.header.title@)
                &&& underscores_separate(stem)
                &&& forall|j: int| 0 <= j < stem.len() ==> is_stem_char(#[trigger] stem[j])
            },
{
    let title = resume.header.title@;
    let s = normalized(title);
    let pieces = split_on(s, '_');
    let words = non_empty(pieces);
    lemma_split_pieces(s);
    lemma_non_empty_pieces(pieces);
    assert forall|k: int, j: int| 0 <= k < words.len() && 0 <= j < words[k].len() implies #[trigger] words[k][j] != '_' by {
        let i = choose|i: int| 0 <= i < pieces.len() && pieces[i] == words[k];
        assert(pieces[i][j] != '_');
    }
    lemma_join_words_letters(words);
    lemma_non_empty_concat(pieces);
    lemma_split_concat(s);
    lemma_normalized_letters(title);
    lemma_compact_title_is_clean(title);
    let stem = compact(s);
    assert(without_underscores(stem) == title_letters(title));
    if title_letters(title).len() == 0 {
        if stem.len() > 0 {
            lemma_without_underscores_empty(stem);
            assert(stem[0] == '_');
        }
    } else {
        assert(stem.len() > 0) by {
            if stem.len() == 0 {
                assert(without_underscores(stem) =~= Seq::<char>::empty());
            }
        }
        assert(pdf_name(resume) == stem + ".pdf"@);
    }
}

fn lower_ascii(c: char) -> (r: char)
    ensures
        r == ascii_lower(c),
{
    if 'A' <= c && c <= 'Z' {
        let b: u8 = c as u8;
        assert(b == c as u32);
        ((b + 32) as char)
    } else {
        c
    }
}

fn normalize(c: char) -> (r: char)
    ensures
        r == normalize_char(c),
{
    if ('A' <= c && c <= 'Z') || ('a' <= c && c <= 'z') || ('0' <= c && c <= '9') {
        lower_ascii(c)
    } else {
        '_'
    }
}

fn ends_with_pdf(s: &str) -> (b: bool)
    ensures
        b == has_pdf_extension(s@),
{
    let n: usize = s.unicode_len();
    if n < 4 {
        return false;
    }
    lower_ascii(s.get_char(n - 4)) == '.' && lower_ascii(s.get_char(n - 3)) == 'p'
        && lower_ascii(s.get_char(n - 2)) == 'd' && lower_ascii(s.get_char(n - 1)) == 'f'
}

/// The title reduced to its words, as [`compact`] of [`normalized`] says.
fn compact_title(title: &str) -> (r: String)
    ensures
        r@ == compact(normalized(title@)),
{
    let ghost all = normalized(title@);
    let n: usize = title.unicode_len();
    let mut done = String::new();
    let mut any = false;
    let mut cur = String::new();
    let mut i: usize = 0;
    proof {
        assert(all.take(0) =~= Seq::<char>::empty());
        assert(split_on(all.take(0), '_').drop_last() =~= Seq::<Seq<char>>::empty());
    }
    while i < n
        invariant
            i <= n,
            n == title@.len(),
            all == normalized(title@),
            split_on(all.take(i as int), '_').len() >= 1,
            cur@ == split_on(all.take(i as int), '_').last(),
            done@ == join(non_empty(split_on(all.take(i as int), '_').drop_last()), seq!['_']),
            any == (non_empty(split_on(all.take(i as int), '_').drop_last()).len() > 0),
        decreases n - i,
    {
        let c = normalize(title.get_char(i));
        let ghost prefix = all.take(i as int);
        let ghost pieces = split_on(prefix, '_');
        let ghost next = all.take(i + 1);
        proof {
            assert(next.drop_last() =~= prefix);
            assert(next.last() == c);
        }
        if c == '_' {
            proof {
                assert(split_on(next, '_') == pieces.push(Seq::empty()));
                assert(pieces.push(Seq::<char>::empty()).drop_last() =~= pieces);
                assert(pieces.drop_last().push(pieces.last()) =~= pieces);
            }
            if cur.as_str().unicode_len() > 0 {
                proof {
                    lemma_join_push(non_empty(pieces.drop_last()), seq!['_'], cur@);
                }
                if any {
                    push_underscore(&mut done);
                }
                done.append(cur.as_str());
                any = true;
                cur = String::new();
            } else {
                cur = String::new();
            }
            proof {
                lemma_split_on_not_empty(next, '_');
            }
        } else {
            proof {
                assert(split_on(next, '_') == pieces.update(pieces.len() - 1, pieces.last().push(c)));
                assert(pieces.update(pieces.len() - 1, pieces.last().push(c)).drop_last()
                    =~= pieces.drop_last());
            }
            crate::text::push_char(&mut cur, c);
        }
        i = i + 1;
    }
    proof {
        assert(all.take(n as int) =~= all);
        let pieces = split_on(all, '_');
        assert(pieces.drop_last().push(pieces.last()) =~= pieces);
        lemma_join_push(non_empty(pieces.drop_last()), seq!['_'], cur@);
    }
    if cur.as_str().unicode_len() > 0 {
        if any {
            push_underscore(&mut done);
        }
        done.append(cur.as_str());
    }
    done
}

fn push_underscore(s: &mut String)
    ensures
        final(s)@ == old(s)@ + seq!['_'],
{
    crate::text::push_char(s, '_');
    proof {
        assert(old(s)@.push('_') =~= old(s)@ + seq!['_']);
    }
}

/// The file name for the generated resume, as [`pdf_name`] says.
pub fn pdf_filename(resume: &ResumeData) -> (r: String)
    ensures
        r@ == pdf_name(*resume),
{
    let from_toml = trim_str(resume.header.download_filename.as_str());
    if !from_toml.is_empty() {
        if ends_with_pdf(from_toml) {
            return String::from_str(from_toml);
        }
        let mut r = String::from_str(from_toml);
        r.append(".pdf");
        return r;
    }
    let mut stem = compact_title(resume.header.title.as_str());
    if stem.as_str().unicode_len() == 0 {
        String::from_str("resume.pdf")
    } else {
        stem.append(".pdf");
        stem
    }
}

} // verus!
