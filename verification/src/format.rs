use crate::chars::{append_str, chars_to_string, matches_at, spec_matches_at, str_to_chars, subvec};
use crate::config::FormatStandard;
use crate::date::{push_formatted_date, seq_concat_assoc, spec_format_date};
use crate::digits::{push_four_digits, push_i64_digits, spec_four_digits, spec_int_digits};
use crate::source::{Source, SourceV};
use vstd::prelude::*;

verus! {

// ---------------------------------------------------------------------------
// The citation formatter: a pure function from a record, a format standard
// and a custom template to citation text.
//
// The Default standard renders
//     [<id>] <author-or-placeholder>[ (<year>)]: <title> URL: <url> [as of <viewed>]
// where the year segment is dropped when the published date is unknown, the
// author placeholder replaces an empty author, the year is four digits and
// the viewed date is rendered day.month.year.
//
// The Custom standard substitutes placeholder tokens into the configured
// template.  At each position the parenthesized date tokens
// `{P_DATE(<fmt>)}` / `{V_DATE(<fmt>)}` are recognized before the plain
// tokens `{INDEX}`, `{TITLE}`, `{URL}`, `{AUTHOR}`, `{COMMENT}`, `{P_DATE}`,
// `{V_DATE}`, so a plain-token pass can never corrupt a parenthesized token;
// substituted text is never scanned again.  Unknown or malformed tokens stay
// verbatim; they are not an error.
// ---------------------------------------------------------------------------

/// An attempt to format under a standard with no rendering rule.
#[derive(Clone, Copy, PartialEq, Eq, Structural, Debug)]
pub enum FormatError {
    UnsupportedStandard(FormatStandard),
}

/// The placeholder shown when a record's author is empty.
pub open spec fn unknown_author_text() -> Seq<char> {
    seq!['U', 'n', 'b', 'e', 'k', 'a', 'n', 'n', 't']
}

/// The author as rendered: the placeholder when the author is empty.
pub open spec fn spec_author_text(author: Seq<char>) -> Seq<char> {
    if author.len() == 0 {
        unknown_author_text()
    } else {
        author
    }
}

/// The fallback pattern for published dates: the four-digit year.
pub open spec fn year_pattern() -> Seq<char> {
    seq!['%', 'Y']
}

/// The fallback pattern for viewed dates: day.month.year.
pub open spec fn dmy_pattern() -> Seq<char> {
    seq!['%', 'd', '.', '%', 'm', '.', '%', 'Y']
}

/// The Default-standard rendering of a record.
pub open spec fn spec_default_format(s: SourceV) -> Seq<char> {
    seq!['['] + spec_int_digits(s.id) + seq![']', ' '] + spec_author_text(s.author) + (
    if s.published_date_unknown {
        Seq::<char>::empty()
    } else {
        seq![' ', '('] + spec_four_digits(s.published_date.year as int) + seq![')']
    }) + seq![':', ' '] + s.title + seq![' ', 'U', 'R', 'L', ':', ' '] + s.url + seq![
        ' ',
        '[',
        'a',
        's',
        ' ',
        'o',
        'f',
        ' ',
    ] + spec_format_date(s.viewed_date, dmy_pattern()) + seq![']']
}

/// Appends the author, or the unknown-author placeholder when it is empty.
fn append_author(out: &mut Vec<char>, author: &String)
    ensures
        final(out)@ == old(out)@ + spec_author_text(author@),
{
    if author.as_str().is_empty() {
        out.push('U');
        out.push('n');
        out.push('b');
        out.push('e');
        out.push('k');
        out.push('a');
        out.push('n');
        out.push('n');
        out.push('t');
        assert(out@ =~= old(out)@ + unknown_author_text());
    } else {
        append_str(out, author.as_str());
    }
}

/// The Default-standard rendering of a record, as characters.
fn render_default(s: &Source) -> (out: Vec<char>)
    requires
        s@.dates_wf(),
    ensures
        out@ == spec_default_format(s@),
{
    let mut out: Vec<char> = Vec::new();
    out.push('[');
    push_i64_digits(&mut out, s.id);
    out.push(']');
    out.push(' ');
    append_author(&mut out, &s.author);
    if !s.published_date_unknown {
        out.push(' ');
        out.push('(');
        push_four_digits(&mut out, s.published_date.year as u32);
        out.push(')');
    }
    out.push(':');
    out.push(' ');
    append_str(&mut out, s.title.as_str());
    out.push(' ');
    out.push('U');
    out.push('R');
    out.push('L');
    out.push(':');
    out.push(' ');
    append_str(&mut out, s.url.as_str());
    out.push(' ');
    out.push('[');
    out.push('a');
    out.push('s');
    out.push(' ');
    out.push('o');
    out.push('f');
    out.push(' ');
    let dmy = dmy_pattern_vec();
    push_formatted_date(&mut out, &s.viewed_date, &dmy);
    out.push(']');
    assert(out@ =~= spec_default_format(s@));
    out
}

fn dmy_pattern_vec() -> (v: Vec<char>)
    ensures
        v@ == dmy_pattern(),
{
    let mut v: Vec<char> = Vec::new();
    v.push('%');
    v.push('d');
    v.push('.');
    v.push('%');
    v.push('m');
    v.push('.');
    v.push('%');
    v.push('Y');
    assert(v@ =~= dmy_pattern());
    v
}

fn year_pattern_vec() -> (v: Vec<char>)
    ensures
        v@ == year_pattern(),
{
    let mut v: Vec<char> = Vec::new();
    v.push('%');
    v.push('Y');
    assert(v@ =~= year_pattern());
    v
}

// ---------------------------------------------------------------------------
// The custom template token grammar.
// ---------------------------------------------------------------------------

pub open spec fn tok_index() -> Seq<char> {
    seq!['{', 'I', 'N', 'D', 'E', 'X', '}']
}

pub open spec fn tok_title() -> Seq<char> {
    seq!['{', 'T', 'I', 'T', 'L', 'E', '}']
}

pub open spec fn tok_url() -> Seq<char> {
    seq!['{', 'U', 'R', 'L', '}']
}

pub open spec fn tok_author() -> Seq<char> {
    seq!['{', 'A', 'U', 'T', 'H', 'O', 'R', '}']
}

pub open spec fn tok_comment() -> Seq<char> {
    seq!['{', 'C', 'O', 'M', 'M', 'E', 'N', 'T', '}']
}

pub open spec fn tok_pdate() -> Seq<char> {
    seq!['{', 'P', '_', 'D', 'A', 'T', 'E', '}']
}

pub open spec fn tok_vdate() -> Seq<char> {
    seq!['{', 'V', '_', 'D', 'A', 'T', 'E', '}']
}

/// The opening of a parenthesized published-date token, `{P_DATE(`.
pub open spec fn tok_pdate_open() -> Seq<char> {
    seq!['{', 'P', '_', 'D', 'A', 'T', 'E', '(']
}

/// The opening of a parenthesized viewed-date token, `{V_DATE(`.
pub open spec fn tok_vdate_open() -> Seq<char> {
    seq!['{', 'V', '_', 'D', 'A', 'T', 'E', '(']
}

/// The position of the first `)` at or after `from`, or -1 if there is none.
pub open spec fn find_close(t: Seq<char>, from: int) -> int
    decreases t.len() - from,
{
    if from < 0 || from >= t.len() {
        -1
    } else if t[from] == ')' {
        from
    } else {
        find_close(t, from + 1)
    }
}

/// There is no `)` before the one `find_close` names.
pub proof fn lemma_find_close_first(t: Seq<char>, from: int, j: int)
    requires
        0 <= from <= j,
        forall|m: int| from <= m < j ==> t[m] != ')',
        j < t.len(),
        t[j] == ')',
    ensures
        find_close(t, from) == j,
    decreases j - from,
{
    if from < j {
        lemma_find_close_first(t, from + 1, j);
    }
}

/// A parenthesized date token opened by `head` sits at position `i`: the
/// head, then format characters up to the first `)`, then `}` right after.
pub open spec fn spec_paren_at(t: Seq<char>, i: int, head: Seq<char>) -> bool {
    spec_matches_at(t, i, head) && find_close(t, i + head.len()) >= i + head.len() && find_close(
        t,
        i + head.len(),
    ) + 1 < t.len() && t[find_close(t, i + head.len()) + 1] == '}'
}

/// The embedded format characters of the parenthesized token at `i`.
pub open spec fn paren_fmt(t: Seq<char>, i: int, head: Seq<char>) -> Seq<char> {
    t.subrange(i + head.len(), find_close(t, i + head.len()))
}

/// The position right after the parenthesized token at `i`.
pub open spec fn paren_end(t: Seq<char>, i: int, head: Seq<char>) -> int {
    find_close(t, i + head.len()) + 2
}

/// A pattern, or the fallback when it is empty.
pub open spec fn spec_pattern_or(f: Seq<char>, dflt: Seq<char>) -> Seq<char> {
    if f.len() == 0 {
        dflt
    } else {
        f
    }
}

/// The position right after the token starting at position `i` of the
/// template, or -1 when no token starts there.  Which (if any) token starts
/// at a position depends on the template alone, not on the record.
pub open spec fn token_end_at(t: Seq<char>, i: int) -> int {
    if spec_paren_at(t, i, tok_pdate_open()) {
        paren_end(t, i, tok_pdate_open())
    } else if spec_paren_at(t, i, tok_vdate_open()) {
        paren_end(t, i, tok_vdate_open())
    } else if spec_matches_at(t, i, tok_index()) {
        i + tok_index().len()
    } else if spec_matches_at(t, i, tok_title()) {
        i + tok_title().len()
    } else if spec_matches_at(t, i, tok_url()) {
        i + tok_url().len()
    } else if spec_matches_at(t, i, tok_author()) {
        i + tok_author().len()
    } else if spec_matches_at(t, i, tok_comment()) {
        i + tok_comment().len()
    } else if spec_matches_at(t, i, tok_pdate()) {
        i + tok_pdate().len()
    } else if spec_matches_at(t, i, tok_vdate()) {
        i + tok_vdate().len()
    } else {
        -1
    }
}

/// What replaces the token starting at position `i` of the template.
pub open spec fn token_repl_at(t: Seq<char>, i: int, s: SourceV) -> Seq<char> {
    if spec_paren_at(t, i, tok_pdate_open()) {
        spec_format_date(
            s.published_date,
            spec_pattern_or(paren_fmt(t, i, tok_pdate_open()), year_pattern()),
        )
    } else if spec_paren_at(t, i, tok_vdate_open()) {
        spec_format_date(
            s.viewed_date,
            spec_pattern_or(paren_fmt(t, i, tok_vdate_open()), dmy_pattern()),
        )
    } else if spec_matches_at(t, i, tok_index()) {
        spec_int_digits(s.id)
    } else if spec_matches_at(t, i, tok_title()) {
        s.title
    } else if spec_matches_at(t, i, tok_url()) {
        s.url
    } else if spec_matches_at(t, i, tok_author()) {
        spec_author_text(s.author)
    } else if spec_matches_at(t, i, tok_comment()) {
        s.comment
    } else if spec_matches_at(t, i, tok_pdate()) {
        spec_format_date(s.published_date, year_pattern())
    } else if spec_matches_at(t, i, tok_vdate()) {
        spec_format_date(s.viewed_date, dmy_pattern())
    } else {
        Seq::empty()
    }
}

/// The Custom-standard rendering of the template from position `i` on: a
/// single left-to-right pass that replaces each token it meets and copies
/// every other character verbatim.
pub open spec fn spec_render_from(t: Seq<char>, i: int, s: SourceV) -> Seq<char>
    decreases t.len() - i,
{
    if i < 0 || i >= t.len() {
        Seq::empty()
    } else if token_end_at(t, i) >= 0 {
        token_repl_at(t, i, s) + spec_render_from(t, token_end_at(t, i), s)
    } else {
        seq![t[i]] + spec_render_from(t, i + 1, s)
    }
}

/// The Custom-standard rendering of a record under a template.
pub open spec fn spec_render_custom(t: Seq<char>, s: SourceV) -> Seq<char> {
    spec_render_from(t, 0, s)
}

/// The executable copies of the token texts.
struct TokenVecs {
    index: Vec<char>,
    title: Vec<char>,
    url: Vec<char>,
    author: Vec<char>,
    comment: Vec<char>,
    pdate: Vec<char>,
    vdate: Vec<char>,
    pdate_open: Vec<char>,
    vdate_open: Vec<char>,
}

impl TokenVecs {
    spec fn wf(self) -> bool {
        self.index@ == tok_index() && self.title@ == tok_title() && self.url@ == tok_url()
            && self.author@ == tok_author() && self.comment@ == tok_comment() && self.pdate@
            == tok_pdate() && self.vdate@ == tok_vdate() && self.pdate_open@ == tok_pdate_open()
            && self.vdate_open@ == tok_vdate_open()
    }

    fn new() -> (r: TokenVecs)
        ensures
            r.wf(),
    {
        let index = str_to_chars("{INDEX}");
        let title = str_to_chars("{TITLE}");
        let url = str_to_chars("{URL}");
        let author = str_to_chars("{AUTHOR}");
        let comment = str_to_chars("{COMMENT}");
        let pdate = str_to_chars("{P_DATE}");
        let vdate = str_to_chars("{V_DATE}");
        let pdate_open = str_to_chars("{P_DATE(");
        let vdate_open = str_to_chars("{V_DATE(");
        proof {
            reveal_strlit("{INDEX}");
            reveal_strlit("{TITLE}");
            reveal_strlit("{URL}");
            reveal_strlit("{AUTHOR}");
            reveal_strlit("{COMMENT}");
            reveal_strlit("{P_DATE}");
            reveal_strlit("{V_DATE}");
            reveal_strlit("{P_DATE(");
            reveal_strlit("{V_DATE(");
            assert(index@ =~= tok_index());
            assert(title@ =~= tok_title());
            assert(url@ =~= tok_url());
            assert(author@ =~= tok_author());
            assert(comment@ =~= tok_comment());
            assert(pdate@ =~= tok_pdate());
            assert(vdate@ =~= tok_vdate());
            assert(pdate_open@ =~= tok_pdate_open());
            assert(vdate_open@ =~= tok_vdate_open());
        }
        TokenVecs { index, title, url, author, comment, pdate, vdate, pdate_open, vdate_open }
    }
}

/// Looks for a parenthesized date token opened by `head` at position `i`;
/// on a match, returns the position of the closing `)`.
fn paren_match(t: &Vec<char>, i: usize, head: &Vec<char>) -> (r: Option<usize>)
    requires
        i <= t@.len(),
    ensures
        match r {
            Some(fc) => spec_paren_at(t@, i as int, head@) && fc == find_close(
                t@,
                i + head@.len(),
            ) && i + head@.len() <= fc && fc + 2 <= t@.len(),
            None => !spec_paren_at(t@, i as int, head@),
        },
{
    if !matches_at(t, i, head) {
        return None;
    }
    let n = t.len();
    assert(i + head@.len() <= n);
    let start = i + head.len();
    let mut j: usize = start;
    while j < n
        invariant
            spec_matches_at(t@, i as int, head@),
            start == i + head@.len(),
            start <= j <= n == t@.len(),
            find_close(t@, start as int) == find_close(t@, j as int),
        decreases n - j,
    {
        if t[j] == ')' {
            assert(find_close(t@, j as int) == j);
            if j + 1 < n {
                if t[j + 1] == '}' {
                    return Some(j);
                }
            }
            assert(!spec_paren_at(t@, i as int, head@));
            return None;
        }
        assert(find_close(t@, j as int) == find_close(t@, j + 1));
        j = j + 1;
    }
    assert(find_close(t@, start as int) == -1);
    None
}

/// The Custom-standard rendering of a record, as characters.
fn render_custom_chars(t: &Vec<char>, s: &Source) -> (out: Vec<char>)
    requires
        s@.dates_wf(),
    ensures
        out@ == spec_render_custom(t@, s@),
{
    let toks = TokenVecs::new();
    let mut out: Vec<char> = Vec::new();
    let mut i: usize = 0;
    let n = t.len();
    while i < n
        invariant
            i <= n == t@.len(),
            s@.dates_wf(),
            toks.wf(),
            spec_render_from(t@, 0, s@) == out@ + spec_render_from(t@, i as int, s@),
        decreases n - i,
    {
        let ghost prev = out@;
        let ghost gi = i as int;
        if let Some(fc) = paren_match(t, i, &toks.pdate_open) {
            let fmt_raw = subvec(t, i + toks.pdate_open.len(), fc);
            let f = if fmt_raw.len() == 0 {
                year_pattern_vec()
            } else {
                fmt_raw
            };
            assert(f@ == spec_pattern_or(paren_fmt(t@, gi, tok_pdate_open()), year_pattern()));
            push_formatted_date(&mut out, &s.published_date, &f);
            proof {
                assert(token_end_at(t@, gi) == fc + 2);
                assert(out@ == prev + token_repl_at(t@, gi, s@));
                seq_concat_assoc(
                    prev,
                    token_repl_at(t@, gi, s@),
                    spec_render_from(t@, fc + 2, s@),
                );
            }
            i = fc + 2;
        } else if let Some(fc) = paren_match(t, i, &toks.vdate_open) {
            let fmt_raw = subvec(t, i + toks.vdate_open.len(), fc);
            let f = if fmt_raw.len() == 0 {
                dmy_pattern_vec()
            } else {
                fmt_raw
            };
            assert(f@ == spec_pattern_or(paren_fmt(t@, gi, tok_vdate_open()), dmy_pattern()));
            push_formatted_date(&mut out, &s.viewed_date, &f);
            proof {
                assert(token_end_at(t@, gi) == fc + 2);
                assert(out@ == prev + token_repl_at(t@, gi, s@));
                seq_concat_assoc(
                    prev,
                    token_repl_at(t@, gi, s@),
                    spec_render_from(t@, fc + 2, s@),
                );
            }
            i = fc + 2;
        } else if matches_at(t, i, &toks.index) {
            push_i64_digits(&mut out, s.id);
            proof {
                assert(token_end_at(t@, gi) == gi + 7);
                seq_concat_assoc(
                    prev,
                    token_repl_at(t@, gi, s@),
                    spec_render_from(t@, gi + 7, s@),
                );
            }
            i = i + 7;
        } else if matches_at(t, i, &toks.title) {
            append_str(&mut out, s.title.as_str());
            proof {
                assert(token_end_at(t@, gi) == gi + 7);
                seq_concat_assoc(
                    prev,
                    token_repl_at(t@, gi, s@),
                    spec_render_from(t@, gi + 7, s@),
                );
            }
            i = i + 7;
        } else if matches_at(t, i, &toks.url) {
            append_str(&mut out, s.url.as_str());
            proof {
                assert(token_end_at(t@, gi) == gi + 5);
                seq_concat_assoc(
                    prev,
                    token_repl_at(t@, gi, s@),
                    spec_render_from(t@, gi + 5, s@),
                );
            }
            i = i + 5;
        } else if matches_at(t, i, &toks.author) {
            append_author(&mut out, &s.author);
            proof {
                assert(token_end_at(t@, gi) == gi + 8);
                seq_concat_assoc(
                    prev,
                    token_repl_at(t@, gi, s@),
                    spec_render_from(t@, gi + 8, s@),
                );
            }
            i = i + 8;
        } else if matches_at(t, i, &toks.comment) {
            append_str(&mut out, s.comment.as_str());
            proof {
                assert(token_end_at(t@, gi) == gi + 9);
                seq_concat_assoc(
                    prev,
                    token_repl_at(t@, gi, s@),
                    spec_render_from(t@, gi + 9, s@),
                );
            }
            i = i + 9;
        } else if matches_at(t, i, &toks.pdate) {
            let f = year_pattern_vec();
            push_formatted_date(&mut out, &s.published_date, &f);
            proof {
                assert(token_end_at(t@, gi) == gi + 8);
                seq_concat_assoc(
                    prev,
                    token_repl_at(t@, gi, s@),
                    spec_render_from(t@, gi + 8, s@),
                );
            }
            i = i + 8;
        } else if matches_at(t, i, &toks.vdate) {
            let f = dmy_pattern_vec();
            push_formatted_date(&mut out, &s.viewed_date, &f);
            proof {
                assert(token_end_at(t@, gi) == gi + 8);
                seq_concat_assoc(
                    prev,
                    token_repl_at(t@, gi, s@),
                    spec_render_from(t@, gi + 8, s@),
                );
            }
            i = i + 8;
        } else {
            out.push(t[i]);
            proof {
                assert(token_end_at(t@, gi) == -1);
                assert(out@ =~= prev + seq![t@[gi]]);
                seq_concat_assoc(prev, seq![t@[gi]], spec_render_from(t@, gi + 1, s@));
            }
            i = i + 1;
        }
    }
    proof {
        assert(out@ + spec_render_from(t@, n as int, s@) =~= out@);
    }
    out
}

impl Source {
    /// The citation text for this record under the given standard.
    ///
    /// The custom template is consulted only by the Custom standard.  The
    /// unsupported standards yield their distinct error and nothing else;
    /// Default and Custom always succeed.
    pub fn format(&self, standard: &FormatStandard, custom_template: &str) -> (r: Result<
        String,
        FormatError,
    >)
        requires
            self@.dates_wf(),
        ensures
            *standard is Default ==> r is Ok && r->Ok_0@ == spec_default_format(self@),
            *standard is Custom ==> r is Ok && r->Ok_0@ == spec_render_custom(
                custom_template@,
                self@,
            ),
            (*standard is Ieee || *standard is Apa) <==> r is Err,
            r is Err ==> r->Err_0 == FormatError::UnsupportedStandard(*standard),
    {
        match standard {
            FormatStandard::Default => {
                let v = render_default(self);
                Ok(chars_to_string(&v))
            },
            FormatStandard::Custom => {
                let t = str_to_chars(custom_template);
                let v = render_custom_chars(&t, self);
                Ok(chars_to_string(&v))
            },
            FormatStandard::Ieee => Err(FormatError::UnsupportedStandard(FormatStandard::Ieee)),
            FormatStandard::Apa => Err(FormatError::UnsupportedStandard(FormatStandard::Apa)),
        }
    }
}

/// The rendering of one record under a supported standard.
pub open spec fn spec_format_one(s: SourceV, standard: FormatStandard, tpl: Seq<char>) -> Seq<
    char,
> {
    if standard is Default {
        spec_default_format(s)
    } else {
        spec_render_custom(tpl, s)
    }
}

/// The renderings of the records from index `i` on, each followed by a line
/// break.
pub open spec fn spec_format_all_from(
    list: Seq<SourceV>,
    i: int,
    standard: FormatStandard,
    tpl: Seq<char>,
) -> Seq<char>
    decreases list.len() - i,
{
    if i < 0 || i >= list.len() {
        Seq::empty()
    } else {
        spec_format_one(list[i], standard, tpl) + seq!['\n'] + spec_format_all_from(
            list,
            i + 1,
            standard,
            tpl,
        )
    }
}

/// The citation text for a whole list of records, one line per record.
pub fn format_all(sources: &Vec<Source>, standard: &FormatStandard, custom_template: &str) -> (r:
    Result<String, FormatError>)
    requires
        forall|i: int| 0 <= i < sources@.len() ==> (#[trigger] sources@[i])@.dates_wf(),
    ensures
        (*standard is Default || *standard is Custom) ==> r is Ok && r->Ok_0@
            == spec_format_all_from(sources.deep_view(), 0, *standard, custom_template@),
        (*standard is Ieee || *standard is Apa) <==> r is Err,
        r is Err ==> r->Err_0 == FormatError::UnsupportedStandard(*standard),
{
    match standard {
        FormatStandard::Ieee => {
            return Err(FormatError::UnsupportedStandard(FormatStandard::Ieee));
        },
        FormatStandard::Apa => {
            return Err(FormatError::UnsupportedStandard(FormatStandard::Apa));
        },
        _ => {},
    }
    let tpl = str_to_chars(custom_template);
    let mut out: Vec<char> = Vec::new();
    let n = sources.len();
    let mut i: usize = 0;
    while i < n
        invariant
            i <= n == sources@.len(),
            *standard is Default || *standard is Custom,
            tpl@ == custom_template@,
            forall|k: int| 0 <= k < sources@.len() ==> (#[trigger] sources@[k])@.dates_wf(),
            spec_format_all_from(sources.deep_view(), 0, *standard, custom_template@) == out@
                + spec_format_all_from(sources.deep_view(), i as int, *standard, custom_template@),
        decreases n - i,
    {
        let ghost prev = out@;
        let s = &sources[i];
        let piece: Vec<char> = match standard {
            FormatStandard::Default => render_default(s),
            _ => render_custom_chars(&tpl, s),
        };
        crate::chars::append_chars(&mut out, &piece);
        out.push('\n');
        proof {
            assert(sources.deep_view()[i as int] == s@);
            assert(piece@ == spec_format_one(sources.deep_view()[i as int], *standard, custom_template@));
            assert(out@ =~= prev + (piece@ + seq!['\n']));
            seq_concat_assoc(
                prev,
                piece@ + seq!['\n'],
                spec_format_all_from(sources.deep_view(), i + 1, *standard, custom_template@),
            );
            assert(spec_format_one(sources.deep_view()[i as int], *standard, custom_template@)
                + seq!['\n'] + spec_format_all_from(
                sources.deep_view(),
                i + 1,
                *standard,
                custom_template@,
            ) =~= (piece@ + seq!['\n']) + spec_format_all_from(
                sources.deep_view(),
                i + 1,
                *standard,
                custom_template@,
            ));
        }
        i = i + 1;
    }
    proof {
        assert(out@ + spec_format_all_from(sources.deep_view(), n as int, *standard, custom_template@)
            =~= out@);
    }
    Ok(chars_to_string(&out))
}

// ---------------------------------------------------------------------------
// Laws of the formatter.
// ---------------------------------------------------------------------------

/// Default-format output carries the record's title and url verbatim.
pub proof fn lemma_default_contains_title_url(s: SourceV)
    ensures
        crate::chars::spec_contains(spec_default_format(s), s.title),
        crate::chars::spec_contains(spec_default_format(s), s.url),
{
    let year_part = if s.published_date_unknown {
        Seq::<char>::empty()
    } else {
        seq![' ', '('] + spec_four_digits(s.published_date.year as int) + seq![')']
    };
    let pre_title = seq!['['] + spec_int_digits(s.id) + seq![']', ' '] + spec_author_text(s.author)
        + year_part + seq![':', ' '];
    let post_title = seq![' ', 'U', 'R', 'L', ':', ' '] + s.url + seq![
        ' ',
        '[',
        'a',
        's',
        ' ',
        'o',
        'f',
        ' ',
    ] + spec_format_date(s.viewed_date, dmy_pattern()) + seq![']'];
    assert(spec_default_format(s) =~= pre_title + s.title + post_title);
    crate::chars::lemma_contains_middle(pre_title, s.title, post_title);
    let pre_url = pre_title + s.title + seq![' ', 'U', 'R', 'L', ':', ' '];
    let post_url = seq![' ', '[', 'a', 's', ' ', 'o', 'f', ' '] + spec_format_date(
        s.viewed_date,
        dmy_pattern(),
    ) + seq![']'];
    assert(spec_default_format(s) =~= pre_url + s.url + post_url);
    crate::chars::lemma_contains_middle(pre_url, s.url, post_url);
}

/// With an unknown published date, Default-format output does not depend on
/// the published date at all: two records differing only there render the
/// same.
pub proof fn lemma_unknown_published_date_ignored(s1: SourceV, s2: SourceV)
    requires
        s1.published_date_unknown,
        s2.published_date_unknown,
        s2.id == s1.id,
        s2.title == s1.title,
        s2.url == s1.url,
        s2.author == s1.author,
        s2.viewed_date == s1.viewed_date,
        s2.comment == s1.comment,
    ensures
        spec_default_format(s1) == spec_default_format(s2),
{
}

/// An empty author renders as the unknown-author placeholder, never as a
/// blank gap, in Default-format output.
pub proof fn lemma_empty_author_placeholder(s: SourceV)
    requires
        s.author.len() == 0,
    ensures
        crate::chars::spec_contains(spec_default_format(s), unknown_author_text()),
{
    let year_part = if s.published_date_unknown {
        Seq::<char>::empty()
    } else {
        seq![' ', '('] + spec_four_digits(s.published_date.year as int) + seq![')']
    };
    let pre = seq!['['] + spec_int_digits(s.id) + seq![']', ' '];
    let post = year_part + seq![':', ' '] + s.title + seq![' ', 'U', 'R', 'L', ':', ' '] + s.url
        + seq![' ', '[', 'a', 's', ' ', 'o', 'f', ' '] + spec_format_date(
        s.viewed_date,
        dmy_pattern(),
    ) + seq![']'];
    assert(spec_default_format(s) =~= pre + unknown_author_text() + post);
    crate::chars::lemma_contains_middle(pre, unknown_author_text(), post);
}

/// Rendering a template with no token in `[i, len)` copies it verbatim.
pub proof fn lemma_render_token_free(t: Seq<char>, i: int, s: SourceV)
    requires
        0 <= i <= t.len(),
        forall|k: int| i <= k < t.len() ==> token_end_at(t, k) == -1,
    ensures
        spec_render_from(t, i, s) == t.subrange(i, t.len() as int),
    decreases t.len() - i,
{
    if i < t.len() {
        lemma_render_token_free(t, i + 1, s);
        assert(spec_render_from(t, i, s) =~= t.subrange(i, t.len() as int));
    } else {
        assert(spec_render_from(t, i, s) =~= t.subrange(i, t.len() as int));
    }
}

/// Rendering copies the template verbatim up to the first token position.
pub proof fn lemma_render_until_token(t: Seq<char>, i: int, k: int, s: SourceV)
    requires
        0 <= i <= k <= t.len(),
        forall|m: int| i <= m < k ==> token_end_at(t, m) == -1,
    ensures
        spec_render_from(t, i, s) == t.subrange(i, k) + spec_render_from(t, k, s),
    decreases k - i,
{
    if i < k {
        lemma_render_until_token(t, i + 1, k, s);
        assert(spec_render_from(t, i, s) =~= t.subrange(i, k) + spec_render_from(t, k, s));
    } else {
        assert(t.subrange(i, k) =~= Seq::<char>::empty());
        assert(spec_render_from(t, i, s) =~= t.subrange(i, k) + spec_render_from(t, k, s));
    }
}

/// A template whose only token starts at `k` renders to the text before it,
/// the token's replacement, and the text after it, all other characters
/// unchanged.
pub proof fn lemma_render_single_token(t: Seq<char>, k: int, s: SourceV)
    requires
        0 <= k < t.len(),
        token_end_at(t, k) >= 0,
        forall|m: int| 0 <= m < k ==> token_end_at(t, m) == -1,
        forall|m: int| token_end_at(t, k) <= m < t.len() ==> token_end_at(t, m) == -1,
    ensures
        token_end_at(t, k) <= t.len(),
        spec_render_custom(t, s) == t.subrange(0, k) + token_repl_at(t, k, s) + t.subrange(
            token_end_at(t, k),
            t.len() as int,
        ),
{
    let end = token_end_at(t, k);
    if spec_paren_at(t, k, tok_pdate_open()) {
        assert(end <= t.len());
    } else if spec_paren_at(t, k, tok_vdate_open()) {
        assert(end <= t.len());
    } else {
        assert(end <= t.len());
    }
    lemma_render_until_token(t, 0, k, s);
    lemma_render_token_free(t, end, s);
    assert(spec_render_custom(t, s) =~= t.subrange(0, k) + token_repl_at(t, k, s) + t.subrange(
        end,
        t.len() as int,
    ));
}

/// A custom template holding `{URL}` exactly once renders to itself with
/// the record's url substituted for the token, exactly once, and every
/// other character unchanged.
pub proof fn lemma_url_substituted_once(t: Seq<char>, k: int, s: SourceV)
    requires
        0 <= k,
        k + 5 <= t.len(),
        t.subrange(k, k + 5) == tok_url(),
        forall|m: int| 0 <= m < k ==> token_end_at(t, m) == -1,
        forall|m: int| k + 5 <= m < t.len() ==> token_end_at(t, m) == -1,
    ensures
        spec_render_custom(t, s) == t.subrange(0, k) + s.url + t.subrange(k + 5, t.len() as int),
{
    assert(t[k] == '{' && t[k + 1] == 'U' && t[k + 2] == 'R' && t[k + 3] == 'L' && t[k + 4]
        == '}') by {
        assert(t.subrange(k, k + 5)[0] == t[k]);
        assert(t.subrange(k, k + 5)[1] == t[k + 1]);
        assert(t.subrange(k, k + 5)[2] == t[k + 2]);
        assert(t.subrange(k, k + 5)[3] == t[k + 3]);
        assert(t.subrange(k, k + 5)[4] == t[k + 4]);
    }
    assert(!spec_matches_at(t, k, tok_pdate_open())) by {
        if spec_matches_at(t, k, tok_pdate_open()) {
            assert(t.subrange(k, k + 8)[1] == t[k + 1]);
        }
    }
    assert(!spec_matches_at(t, k, tok_vdate_open())) by {
        if spec_matches_at(t, k, tok_vdate_open()) {
            assert(t.subrange(k, k + 8)[1] == t[k + 1]);
        }
    }
    assert(!spec_matches_at(t, k, tok_index())) by {
        if spec_matches_at(t, k, tok_index()) {
            assert(t.subrange(k, k + 7)[1] == t[k + 1]);
        }
    }
    assert(!spec_matches_at(t, k, tok_title())) by {
        if spec_matches_at(t, k, tok_title()) {
            assert(t.subrange(k, k + 7)[1] == t[k + 1]);
        }
    }
    assert(spec_matches_at(t, k, tok_url())) by {
        assert(t.subrange(k, k + 5) =~= t.subrange(k, k + tok_url().len() as int));
    }
    assert(token_end_at(t, k) == k + 5);
    assert(token_repl_at(t, k, s) == s.url);
    lemma_render_single_token(t, k, s);
}

/// `{P_DATE(<fmt>)}` with a nonempty, close-paren-free pattern renders the
/// published date under exactly that pattern, whatever the fallback
/// patterns are.
pub proof fn lemma_pdate_pattern_exact(a: Seq<char>, f: Seq<char>, b: Seq<char>, s: SourceV)
    requires
        f.len() > 0,
        forall|m: int| 0 <= m < f.len() ==> f[m] != ')',
        ({
            let t = a + tok_pdate_open() + f + seq![')', '}'] + b;
            (forall|m: int| 0 <= m < a.len() ==> token_end_at(t, m) == -1) && (forall|m: int|
                a.len() + 10 + f.len() <= m < t.len() ==> token_end_at(t, m) == -1)
        }),
    ensures
        spec_render_custom(a + tok_pdate_open() + f + seq![')', '}'] + b, s) == a
            + spec_format_date(s.published_date, f) + b,
{
    let t = a + tok_pdate_open() + f + seq![')', '}'] + b;
    let k = a.len() as int;
    let fs = k + 8;
    let fc = fs + f.len() as int;
    assert(t.len() == a.len() + 10 + f.len() + b.len());
    assert forall|m: int| fs <= m < fc implies t[m] != ')' by {
        assert(t[m] == f[m - fs]);
    }
    assert(t[fc] == ')');
    assert(t[fc + 1] == '}');
    lemma_find_close_first(t, fs, fc);
    assert(spec_matches_at(t, k, tok_pdate_open())) by {
        assert(t.subrange(k, k + 8) =~= tok_pdate_open());
    }
    assert(spec_paren_at(t, k, tok_pdate_open()));
    assert(paren_fmt(t, k, tok_pdate_open()) =~= f);
    assert(token_end_at(t, k) == fc + 2);
    assert(token_repl_at(t, k, s) == spec_format_date(s.published_date, f));
    lemma_render_single_token(t, k, s);
    assert(t.subrange(0, k) =~= a);
    assert(t.subrange(fc + 2, t.len() as int) =~= b);
}

} // verus!
