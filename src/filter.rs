use vstd::prelude::*;
use vstd::string::{StrSliceExecFns, StringExecFns};
use crate::text::{same_text, trim_text, trimmed};

verus! {

/// What `char::to_uppercase` makes of `c`.
pub uninterp spec fn upper_of(c: char) -> Seq<char>;

/// Relies on `char::to_uppercase`: the upper case of one character, which
/// may be several characters.
#[verifier::external_body]
fn uppercase(c: char) -> (r: String)
    ensures
        r@ == upper_of(c),
{
    c.to_uppercase().collect()
}

/// The characters that split a MIME subtype into words.
pub open spec fn is_word_separator(c: char) -> bool {
    c == '-' || c == '.' || c == '+' || c == '|' || c == ' ' || c == '(' || c == ')'
}

/// Parentheses are left out of descriptions: they would end the pattern list.
pub open spec fn is_paren(c: char) -> bool {
    c == '(' || c == ')'
}

/// A separator shown as a space; other characters as they are.
pub open spec fn blanked(c: char) -> char {
    if c == '-' || c == '.' || c == '+' || c == '|' || c == '(' || c == ')' {
        ' '
    } else {
        c
    }
}

/// `s` opens with the vendor prefix `vnd.`.
pub open spec fn has_vnd_prefix(s: Seq<char>) -> bool {
    s.len() >= 4 && s[0] == 'v' && s[1] == 'n' && s[2] == 'd' && s[3] == '.'
}

/// `s` opens with the unregistered-type prefix `x-`.
pub open spec fn has_x_prefix(s: Seq<char>) -> bool {
    s.len() >= 2 && s[0] == 'x' && s[1] == '-'
}

/// The subtype without its vendor prefix `vnd.`, and then without an
/// `x-` prefix.
pub open spec fn stripped_subtype(sub: Seq<char>) -> Seq<char> {
    let rest = if has_vnd_prefix(sub) {
        sub.subrange(4, sub.len() as int)
    } else {
        sub
    };
    if has_x_prefix(rest) {
        rest.subrange(2, rest.len() as int)
    } else {
        rest
    }
}

/// The upper case of each character of `s`, in order.
pub open spec fn upper_text(s: Seq<char>) -> Seq<char>
    decreases s.len(),
{
    if s.len() == 0 {
        seq![]
    } else {
        upper_text(s.drop_last()) + upper_of(s.last())
    }
}

/// `s` without its parentheses.
pub open spec fn no_parens(s: Seq<char>) -> Seq<char>
    decreases s.len(),
{
    if s.len() == 0 {
        seq![]
    } else if is_paren(s.last()) {
        no_parens(s.drop_last())
    } else {
        no_parens(s.drop_last()).push(s.last())
    }
}

/// Whether `c` splits: a space when `spaces_only`, else any word separator.
pub open spec fn splits_at(c: char, spaces_only: bool) -> bool {
    if spaces_only {
        c == ' '
    } else {
        is_word_separator(c)
    }
}

/// The pieces of `s` between the characters that split it, empty pieces
/// included, as `str::split` gives them.
pub open spec fn split_by(s: Seq<char>, spaces_only: bool) -> Seq<Seq<char>>
    decreases s.len(),
{
    if s.len() == 0 {
        seq![seq![]]
    } else {
        let ws = split_by(s.drop_last(), spaces_only);
        if splits_at(s.last(), spaces_only) {
            ws.push(seq![])
        } else {
            ws.update(ws.len() - 1, ws.last().push(s.last()))
        }
    }
}

/// The words of `s` between separators, empty words included.
pub open spec fn words(s: Seq<char>) -> Seq<Seq<char>> {
    split_by(s, false)
}

/// Word `i`: in upper case when it is short enough to be an acronym (at
/// most three UTF-8 bytes for the first word, four for the others).
pub open spec fn word_text(w: Seq<char>, i: int) -> Seq<char> {
    if vstd::utf8::encode_utf8(w).len() <= (if i == 0 { 3int } else { 4int }) {
        upper_text(w)
    } else {
        w
    }
}

/// The words, each as `word_text` shows it, separated by spaces.
pub open spec fn joined_words(ws: Seq<Seq<char>>) -> Seq<char>
    decreases ws.len(),
{
    if ws.len() == 0 {
        seq![]
    } else {
        let i = ws.len() - 1;
        joined_words(ws.drop_last()) + (if i == 0 { seq![] } else { seq![' '] }) + word_text(ws.last(), i)
    }
}

/// How a subtype reads: its first character capitalized, its short words
/// in upper case, and a space after it.
pub open spec fn subtype_text(sub: Seq<char>) -> Seq<char> {
    let s = stripped_subtype(sub);
    if s.len() == 0 {
        joined_words(words(s)) + seq![' ']
    } else {
        upper_of(blanked(s[0])) + joined_words(words(s.drop_first())) + seq![' ']
    }
}

/// `s` without parentheses, its first other character in upper case.
pub open spec fn capitalized_no_parens(s: Seq<char>) -> Seq<char>
    decreases s.len(),
{
    if s.len() == 0 {
        seq![]
    } else if is_paren(s[0]) {
        capitalized_no_parens(s.drop_first())
    } else {
        upper_of(s[0]) + no_parens(s.drop_first())
    }
}

/// The description of the MIME type `top`/`sub` that opens a file filter,
/// up to the parenthesis that the patterns follow: "Plain Text files (",
/// "PNG Images (" for `image/png`, "Audio files (" for `audio/*`.
pub open spec fn mime_description(top: Seq<char>, sub: Seq<char>) -> Seq<char> {
    (if sub == "*"@ { seq![] } else { subtype_text(sub) }) + (if sub == "*"@ {
        capitalized_no_parens(top)
    } else {
        no_parens(top)
    }) + (if top == "image"@ { "s ("@ } else { " files ("@ })
}

proof fn lemma_split_nonempty(s: Seq<char>, spaces_only: bool)
    ensures
        split_by(s, spaces_only).len() >= 1,
    decreases s.len(),
{
    if s.len() > 0 {
        lemma_split_nonempty(s.drop_last(), spaces_only);
    }
}

/// Appends the upper case of `s`.
fn append_upper(s: &str, output: &mut String)
    ensures
        final(output)@ == old(output)@ + upper_text(s@),
{
    let n = s.unicode_len();
    let mut i: usize = 0;
    while i < n
        invariant
            n == s@.len(),
            i <= n,
            output@ == old(output)@ + upper_text(s@.take(i as int)),
        decreases n - i,
    {
        let u = uppercase(s.get_char(i));
        output.append(u.as_str());
        proof {
            assert(s@.take(i + 1).drop_last() =~= s@.take(i as int));
            assert(output@ =~= old(output)@ + upper_text(s@.take(i + 1)));
        }
        i = i + 1;
    }
    assert(s@.take(n as int) =~= s@);
}

/// Appends `s` without its parentheses.
fn append_without_parens(s: &str, output: &mut String)
    ensures
        final(output)@ == old(output)@ + no_parens(s@),
{
    let n = s.unicode_len();
    let mut i: usize = 0;
    while i < n
        invariant
            n == s@.len(),
            i <= n,
            output@ == old(output)@ + no_parens(s@.take(i as int)),
        decreases n - i,
    {
        let c = s.get_char(i);
        proof {
            assert(s@.take(i + 1).drop_last() =~= s@.take(i as int));
            assert(s@.take(i + 1).last() == c);
        }
        if c != '(' && c != ')' {
            output.append(s.substring_char(i, i + 1));
            proof {
                assert(s@.subrange(i as int, i + 1) =~= seq![c]);
                assert(output@ =~= old(output)@ + no_parens(s@.take(i + 1)));
            }
        }
        i = i + 1;
    }
    assert(s@.take(n as int) =~= s@);
}

/// Appends `s` without parentheses, its first other character in upper case.
fn append_capitalized_without_parens(s: &str, output: &mut String)
    ensures
        final(output)@ == old(output)@ + capitalized_no_parens(s@),
{
    let n = s.unicode_len();
    let mut i: usize = 0;
    assert(s@.subrange(0, n as int) =~= s@);
    while i < n
        invariant
            n == s@.len(),
            i <= n,
            capitalized_no_parens(s@) == capitalized_no_parens(s@.subrange(i as int, n as int)),
            output@ == old(output)@,
        decreases n - i,
    {
        let c = s.get_char(i);
        proof {
            assert(s@.subrange(i as int, n as int).drop_first() =~= s@.subrange(i + 1, n as int));
            assert(s@.subrange(i as int, n as int)[0] == c);
        }
        if c != '(' && c != ')' {
            let u = uppercase(c);
            output.append(u.as_str());
            append_without_parens(s.substring_char(i + 1, n), output);
            return;
        }
        i = i + 1;
    }
    assert(s@.subrange(n as int, n as int).len() == 0);
}

/// The subtype without its vendor prefix `vnd.`, and then without an
/// `x-` prefix.
fn strip_subtype(sub: &str) -> (r: &str)
    ensures
        r@ == stripped_subtype(sub@),
{
    let n = sub.unicode_len();
    let vendor = n >= 4 && sub.get_char(0) == 'v' && sub.get_char(1) == 'n' && sub.get_char(2) == 'd'
        && sub.get_char(3) == '.';
    let start: usize = if vendor { 4 } else { 0 };
    let rest = sub.substring_char(start, n);
    let m = rest.unicode_len();
    if m >= 2 && rest.get_char(0) == 'x' && rest.get_char(1) == '-' {
        rest.substring_char(2, m)
    } else {
        rest
    }
}

/// The pieces of `s` between the characters that split it.
fn split_words(s: &str, spaces_only: bool) -> (r: Vec<String>)
    ensures
        r@.map_values(|w: String| w@) == split_by(s@, spaces_only),
{
    let n = s.unicode_len();
    let mut ws: Vec<String> = Vec::new();
    ws.push(String::new());
    let mut i: usize = 0;
    proof {
        assert(ws@.map_values(|w: String| w@) =~= split_by(s@.take(0), spaces_only));
    }
    while i < n
        invariant
            n == s@.len(),
            i <= n,
            ws@.map_values(|w: String| w@) == split_by(s@.take(i as int), spaces_only),
        decreases n - i,
    {
        let c = s.get_char(i);
        let ghost before = ws@.map_values(|w: String| w@);
        proof {
            assert(s@.take(i + 1).drop_last() =~= s@.take(i as int));
            assert(s@.take(i + 1).last() == c);
            lemma_split_nonempty(s@.take(i as int), spaces_only);
        }
        let splits = if spaces_only {
            c == ' '
        } else {
            c == '-' || c == '.' || c == '+' || c == '|' || c == ' ' || c == '(' || c == ')'
        };
        if splits {
            ws.push(String::new());
            proof {
                assert(ws@.map_values(|w: String| w@) =~= before.push(seq![]));
            }
        } else {
            let ghost raw = ws@;
            let mut last = ws.pop().unwrap();
            let ghost popped = last@;
            last.append(s.substring_char(i, i + 1));
            let ghost grown = last@;
            ws.push(last);
            proof {
                assert(s@.subrange(i as int, i + 1) =~= seq![c]);
                assert(popped == before.last());
                assert(grown =~= before.last().push(c));
                assert(ws@ =~= raw.drop_last().push(ws@.last()));
                assert(ws@.map_values(|w: String| w@) =~= before.update(before.len() - 1, before.last().push(c)));
            }
        }
        i = i + 1;
    }
    assert(s@.take(n as int) =~= s@);
    ws
}

/// Appends the words, short ones in upper case, separated by spaces.
fn append_words(ws: &Vec<String>, output: &mut String)
    ensures
        final(output)@ == old(output)@ + joined_words(ws@.map_values(|w: String| w@)),
{
    let ghost all = ws@.map_values(|w: String| w@);
    let mut i: usize = 0;
    while i < ws.len()
        invariant
            i <= ws@.len(),
            all == ws@.map_values(|w: String| w@),
            output@ == old(output)@ + joined_words(all.take(i as int)),
        decreases ws@.len() - i,
    {
        let ghost mid = output@;
        proof {
            assert(all.take(i + 1).drop_last() =~= all.take(i as int));
            assert(all.take(i + 1).last() == ws@[i as int]@);
        }
        if i != 0 {
            output.append(" ");
            proof { reveal_strlit(" "); }
        }
        let ghost sep: Seq<char> = if i == 0 { seq![] } else { seq![' '] };
        assert(output@ == mid + sep);
        let w = ws[i].as_str();
        assert(w@ == all[i as int]);
        let limit: usize = if i == 0 { 3 } else { 4 };
        let byte_len = w.as_bytes().len();
        assert(byte_len == vstd::utf8::encode_utf8(w@).len());
        if byte_len <= limit {
            append_upper(w, output);
        } else {
            output.append(w);
        }
        proof {
            assert(output@ == mid + sep + word_text(all[i as int], i as int));
            assert(joined_words(all.take(i + 1)) == joined_words(all.take(i as int)) + sep
                + word_text(all[i as int], i as int));
            assert(output@ =~= old(output)@ + joined_words(all.take(i + 1)));
        }
        i = i + 1;
    }
    assert(all.take(ws@.len() as int) =~= all);
}

/// Appends the description of the MIME type `top`/`sub` that opens a file
/// filter, up to the parenthesis that the patterns follow.
pub fn append_mime_desc(top: &str, sub: &str, output: &mut String)
    ensures
        final(output)@ == old(output)@ + mime_description(top@, sub@),
{
    let star = same_text(sub, "*");
    let ghost start = output@;
    if !star {
        let s = strip_subtype(sub);
        let n = s.unicode_len();
        if n > 0 {
            let c = s.get_char(0);
            let shown = if c == '-' || c == '.' || c == '+' || c == '|' || c == '(' || c == ')' { ' ' } else { c };
            let u = uppercase(shown);
            output.append(u.as_str());
            let ws = split_words(s.substring_char(1, n), false);
            proof {
                assert(s@.subrange(1, n as int) =~= s@.drop_first());
            }
            append_words(&ws, output);
        } else {
            let ws = split_words(s, false);
            append_words(&ws, output);
        }
        output.append(" ");
        proof {
            reveal_strlit(" ");
            assert(output@ =~= start + subtype_text(sub@));
        }
    }
    if star {
        append_capitalized_without_parens(top, output);
    } else {
        append_without_parens(top, output);
    }
    if same_text(top, "image") {
        output.append("s (");
    } else {
        output.append(" files (");
    }
    proof {
        assert(output@ =~= old(output)@ + mime_description(top@, sub@));
    }
}

/// A file filter of an auto splitter's file setting: patterns with an
/// optional description, or a MIME type.
pub enum FileFilter {
    Name { description: Option<String>, pattern: String },
    MimeType(String),
}

/// The MIME type, as top-level type and subtype, that `mime_guess` takes
/// first for the file extension `ext`.
pub uninterp spec fn mime_type_of(ext: Seq<char>) -> Option<(Seq<char>, Seq<char>)>;

/// The file extensions that `mime_guess` knows for the MIME type `top`/`sub`.
pub uninterp spec fn mime_extensions(top: Seq<char>, sub: Seq<char>) -> Option<Seq<Seq<char>>>;

/// Relies on `mime_guess::from_ext` and `MimeGuess::first`: the MIME type
/// of a file extension.
#[verifier::external_body]
fn mime_for_extension(ext: &str) -> (r: Option<(String, String)>)
    ensures
        text_pair(r) == mime_type_of(ext@),
{
    mime_guess::from_ext(ext).first().map(|m| (m.type_().as_str().to_owned(), m.subtype().as_str().to_owned()))
}

/// Relies on `mime_guess::get_extensions`: the extensions of a MIME type.
#[verifier::external_body]
fn extensions_for(top: &str, sub: &str) -> (r: Option<Vec<String>>)
    ensures
        r matches Some(v) ==> mime_extensions(top@, sub@) == Some(v@.map_values(|e: String| e@)),
        r is None ==> mime_extensions(top@, sub@) is None,
{
    mime_guess::get_extensions(top, sub).map(|exts| exts.iter().map(|e| e.to_string()).collect())
}

/// The texts of an optional pair of strings.
pub open spec fn text_pair(p: Option<(String, String)>) -> Option<(Seq<char>, Seq<char>)> {
    match p {
        Some((a, b)) => Some((a@, b@)),
        None => None,
    }
}

/// Whether `s` holds `;;`, which separates the filters of a list.
pub open spec fn has_list_separator(s: Seq<char>) -> bool {
    exists|i: int| 0 <= i < s.len() - 1 && #[trigger] s[i] == ';' && s[i + 1] == ';'
}

/// A description as a filter shows it: without `;;` and without parentheses.
pub open spec fn description_text(s: Seq<char>) -> Seq<char>
    decreases s.len(),
{
    if s.len() == 0 {
        seq![]
    } else if s.len() >= 2 && s[0] == ';' && s[1] == ';' {
        description_text(s.subrange(2, s.len() as int))
    } else if is_paren(s[0]) {
        description_text(s.drop_first())
    } else {
        seq![s[0]] + description_text(s.drop_first())
    }
}

/// The index of the last `.` of `s`, -1 when there is none.
pub open spec fn last_dot(s: Seq<char>) -> int
    decreases s.len(),
{
    if s.len() == 0 {
        -1
    } else if s.last() == '.' {
        s.len() - 1
    } else {
        last_dot(s.drop_last())
    }
}

/// What follows the last `.` of `s`.
pub open spec fn extension(s: Seq<char>) -> Seq<char> {
    s.subrange(last_dot(s) + 1, s.len() as int)
}

/// A pattern `*.ext` that matches all files of one extension.
pub open spec fn is_extension_pattern(p: Seq<char>) -> bool {
    &&& last_dot(p) >= 0
    &&& p.subrange(0, last_dot(p)) == seq!['*']
    &&& !extension(p).contains('*')
}

/// The MIME type of the first extension pattern among `ps` whose extension
/// `mime_guess` knows.
pub open spec fn first_mime(ps: Seq<Seq<char>>) -> Option<(Seq<char>, Seq<char>)>
    decreases ps.len(),
{
    if ps.len() == 0 {
        None
    } else if is_extension_pattern(ps[0]) && mime_type_of(extension(ps[0])) is Some {
        mime_type_of(extension(ps[0]))
    } else {
        first_mime(ps.drop_first())
    }
}

/// The extensions of `ps[..k]` in upper case, parentheses left out, joined
/// by ", " and, before the last of all `n`, by " or ".
pub open spec fn extension_list(ps: Seq<Seq<char>>, k: int, n: int) -> Seq<char>
    decreases k,
{
    if k <= 0 {
        seq![]
    } else {
        let i = k - 1;
        let sep: Seq<char> = if i == 0 {
            seq![]
        } else if i + 1 != n {
            seq![',', ' ']
        } else {
            seq![' ', 'o', 'r', ' ']
        };
        extension_list(ps, k - 1, n) + sep + no_parens(upper_text(extension(ps[i])))
    }
}

/// The label of a filter of patterns, up to the parenthesis that the
/// patterns follow.
pub open spec fn pattern_label(description: Option<Seq<char>>, pattern: Seq<char>) -> Seq<char> {
    let ps = split_by(pattern, true);
    match description {
        Some(d) => description_text(trimmed(d)) + " ("@,
        None => match first_mime(ps) {
            Some((top, sub)) => mime_description(top, sub),
            None => if forall|i: int| 0 <= i < ps.len() ==> is_extension_pattern(#[trigger] ps[i]) {
                extension_list(ps, ps.len() as int, ps.len() as int) + " files ("@
            } else {
                no_parens(trimmed(pattern)) + " ("@
            },
        },
    }
}

/// The index of the first `/` of `s`, -1 when there is none.
pub open spec fn first_slash(s: Seq<char>) -> int
    decreases s.len(),
{
    if s.len() == 0 {
        -1
    } else if s.last() == '/' && first_slash(s.drop_last()) < 0 {
        s.len() - 1
    } else {
        first_slash(s.drop_last())
    }
}

/// The patterns `*.ext` of `exts`, separated by spaces.
pub open spec fn extension_patterns(exts: Seq<Seq<char>>) -> Seq<char>
    decreases exts.len(),
{
    if exts.len() == 0 {
        seq![]
    } else {
        extension_patterns(exts.drop_last()) + (if exts.len() == 1 { seq![] } else { seq![' '] }) + seq!['*', '.']
            + exts.last()
    }
}

/// Separates a filter from what `out` already holds.
pub open spec fn separated(out: Seq<char>) -> Seq<char> {
    if out.len() > 0 {
        out + seq![';', ';']
    } else {
        out
    }
}

/// `out` with the filter `f` appended; a filter that cannot be shown adds
/// nothing.
pub open spec fn with_filter(out: Seq<char>, f: FileFilter) -> Seq<char> {
    match f {
        FileFilter::Name { description, pattern } => {
            if has_list_separator(pattern@) {
                out
            } else {
                let d = match description {
                    Some(t) => Some(t@),
                    None => None,
                };
                separated(out) + pattern_label(d, pattern@) + pattern@ + seq![')']
            }
        },
        FileFilter::MimeType(m) => {
            let k = first_slash(m@);
            let top = m@.subrange(0, k);
            let sub = m@.subrange(k + 1, m@.len() as int);
            if k < 0 || top == seq!['*'] || mime_extensions(top, sub) is None {
                out
            } else {
                separated(out) + mime_description(top, sub) + extension_patterns(mime_extensions(top, sub)->0)
                    + seq![')']
            }
        },
    }
}

/// `out` with the filters `fs` appended in order.
pub open spec fn with_filters(out: Seq<char>, fs: Seq<FileFilter>) -> Seq<char>
    decreases fs.len(),
{
    if fs.len() == 0 {
        out
    } else {
        with_filter(with_filters(out, fs.drop_last()), fs.last())
    }
}

/// The filter list of a file dialog: `out`, the filters `fs`, and a last
/// filter for all files, separated by `;;`.
pub open spec fn filter_list(out: Seq<char>, fs: Seq<FileFilter>) -> Seq<char> {
    separated(with_filters(out, fs)) + "All files (*.*)"@
}

/// Whether `s` holds `;;`.
fn holds_list_separator(s: &str) -> (r: bool)
    ensures
        r == has_list_separator(s@),
{
    let n = s.unicode_len();
    let mut i: usize = 0;
    while i < n
        invariant
            n == s@.len(),
            forall|k: int| 0 <= k < i && k < n - 1 ==> !(#[trigger] s@[k] == ';' && s@[k + 1] == ';'),
        decreases n - i,
    {
        if i + 1 < n && s.get_char(i) == ';' && s.get_char(i + 1) == ';' {
            return true;
        }
        i = i + 1;
    }
    false
}

/// Appends a description without `;;` and without parentheses.
fn append_description(s: &str, output: &mut String)
    ensures
        final(output)@ == old(output)@ + description_text(s@),
{
    let n = s.unicode_len();
    let mut i: usize = 0;
    assert(s@.subrange(0, n as int) =~= s@);
    while i < n
        invariant
            n == s@.len(),
            i <= n,
            old(output)@ + description_text(s@) == output@ + description_text(s@.subrange(i as int, n as int)),
        decreases n - i,
    {
        let ghost rest = s@.subrange(i as int, n as int);
        let c = s.get_char(i);
        if c == ';' && i + 1 < n && s.get_char(i + 1) == ';' {
            proof {
                assert(rest.subrange(2, rest.len() as int) =~= s@.subrange(i + 2, n as int));
            }
            i = i + 2;
        } else {
            proof {
                assert(rest.drop_first() =~= s@.subrange(i + 1, n as int));
            }
            if c != '(' && c != ')' {
                output.append(s.substring_char(i, i + 1));
                proof {
                    assert(s@.subrange(i as int, i + 1) =~= seq![c]);
                    assert(output@ + description_text(rest.drop_first()) =~= old(output)@ + description_text(s@));
                }
            }
            i = i + 1;
        }
    }
    assert(s@.subrange(n as int, n as int).len() == 0);
}

/// The index of the last `.` of `s`.
fn find_last_dot(s: &str) -> (r: Option<usize>)
    ensures
        r is None <==> last_dot(s@) < 0,
        r matches Some(k) ==> k == last_dot(s@) && k < s@.len(),
{
    let n = s.unicode_len();
    let mut j: usize = n;
    assert(s@.take(n as int) =~= s@);
    while j > 0
        invariant
            j <= s@.len(),
            last_dot(s@) == last_dot(s@.take(j as int)),
        decreases j,
    {
        proof {
            assert(s@.take(j as int).drop_last() =~= s@.take(j - 1));
        }
        if s.get_char(j - 1) == '.' {
            return Some(j - 1);
        }
        j = j - 1;
    }
    None
}

/// The extension of an extension pattern `*.ext`; `None` for any other pattern.
fn pattern_extension(p: &str) -> (r: Option<&str>)
    ensures
        r is Some <==> is_extension_pattern(p@),
        r matches Some(e) ==> e@ == extension(p@),
{
    let n = p.unicode_len();
    match find_last_dot(p) {
        Some(k) => {
            let ext = p.substring_char(k + 1, n);
            let star = k == 1 && p.get_char(0) == '*';
            proof {
                let name = p@.subrange(0, k as int);
                if name == seq!['*'] {
                    assert(name.len() == 1);
                    assert(name[0] == '*');
                    assert(p@[0] == '*');
                }
                if star {
                    assert(name =~= seq!['*']);
                }
            }
            if star && !holds_char(ext, '*') {
                Some(ext)
            } else {
                None
            }
        },
        None => None,
    }
}

/// Whether `s` holds the character `c`.
fn holds_char(s: &str, c: char) -> (r: bool)
    ensures
        r == s@.contains(c),
{
    let n = s.unicode_len();
    let mut i: usize = 0;
    while i < n
        invariant
            n == s@.len(),
            i <= n,
            forall|k: int| 0 <= k < i ==> s@[k] != c,
        decreases n - i,
    {
        if s.get_char(i) == c {
            assert(s@[i as int] == c);
            return true;
        }
        i = i + 1;
    }
    false
}

/// The MIME type of the first pattern whose extension `mime_guess` knows.
fn first_known_mime(ps: &Vec<String>) -> (r: Option<(String, String)>)
    ensures
        text_pair(r) == first_mime(ps@.map_values(|w: String| w@)),
{
    let ghost all = ps@.map_values(|w: String| w@);
    let mut i: usize = 0;
    assert(all.subrange(0, all.len() as int) =~= all);
    while i < ps.len()
        invariant
            i <= ps@.len(),
            all == ps@.map_values(|w: String| w@),
            first_mime(all) == first_mime(all.subrange(i as int, all.len() as int)),
        decreases ps@.len() - i,
    {
        let ghost rest = all.subrange(i as int, all.len() as int);
        proof {
            assert(rest.drop_first() =~= all.subrange(i + 1, all.len() as int));
            assert(rest[0] == ps@[i as int]@);
        }
        if let Some(ext) = pattern_extension(ps[i].as_str()) {
            let m = mime_for_extension(ext);
            if m.is_some() {
                return m;
            }
        }
        i = i + 1;
    }
    assert(all.subrange(i as int, all.len() as int).len() == 0);
    None
}

/// Appends the extensions of the patterns, all extension patterns, in upper
/// case, joined by ", " and " or ".
fn append_extension_list(ps: &Vec<String>, output: &mut String)
    requires
        forall|i: int| 0 <= i < ps@.len() ==> is_extension_pattern(#[trigger] ps@[i]@),
    ensures
        final(output)@ == old(output)@ + extension_list(
            ps@.map_values(|w: String| w@),
            ps@.len() as int,
            ps@.len() as int,
        ),
{
    let ghost all = ps@.map_values(|w: String| w@);
    let n = ps.len();
    let mut i: usize = 0;
    while i < n
        invariant
            n == ps@.len(),
            i <= n,
            all == ps@.map_values(|w: String| w@),
            forall|k: int| 0 <= k < ps@.len() ==> is_extension_pattern(#[trigger] ps@[k]@),
            output@ == old(output)@ + extension_list(all, i as int, n as int),
        decreases n - i,
    {
        let ghost mid = output@;
        if i != 0 {
            if i + 1 != n {
                output.append(", ");
                proof { reveal_strlit(", "); }
            } else {
                output.append(" or ");
                proof { reveal_strlit(" or "); }
            }
        }
        let ghost sep = output@.subrange(mid.len() as int, output@.len() as int);
        proof {
            assert(is_extension_pattern(ps@[i as int]@));
            assert(all[i as int] == ps@[i as int]@);
        }
        let ext = pattern_extension(ps[i].as_str()).unwrap();
        let mut upper = String::new();
        append_upper(ext, &mut upper);
        append_without_parens(upper.as_str(), output);
        proof {
            if i == 0 {
                assert(sep =~= seq![]);
            } else if i + 1 != n {
                assert(sep =~= seq![',', ' ']);
            } else {
                assert(sep =~= seq![' ', 'o', 'r', ' ']);
            }
            assert(output@ =~= old(output)@ + extension_list(all, i + 1, n as int));
        }
        i = i + 1;
    }
}

/// The label of a filter of patterns, up to the parenthesis that the
/// patterns follow.
fn append_pattern_label(description: &Option<String>, pattern: &str, output: &mut String)
    ensures
        final(output)@ == old(output)@ + pattern_label(
            match description {
                Some(t) => Some(t@),
                None => None,
            },
            pattern@,
        ),
{
    match description {
        Some(d) => {
            append_description(trim_text(d.as_str()), output);
            output.append(" (");
        },
        None => {
            let ps = split_words(pattern, true);
            let ghost all = ps@.map_values(|w: String| w@);
            match first_known_mime(&ps) {
                Some((top, sub)) => {
                    append_mime_desc(top.as_str(), sub.as_str(), output);
                },
                None => {
                    let mut only_extensions = true;
                    let mut i: usize = 0;
                    while i < ps.len()
                        invariant
                            i <= ps@.len(),
                            all == ps@.map_values(|w: String| w@),
                            only_extensions == forall|k: int| 0 <= k < i ==> is_extension_pattern(#[trigger] all[k]),
                        decreases ps@.len() - i,
                    {
                        proof {
                            assert(all[i as int] == ps@[i as int]@);
                        }
                        if pattern_extension(ps[i].as_str()).is_none() {
                            only_extensions = false;
                        }
                        i = i + 1;
                    }
                    if only_extensions {
                        proof {
                            assert forall|k: int| 0 <= k < ps@.len() implies is_extension_pattern(#[trigger] ps@[k]@) by {
                                assert(all[k] == ps@[k]@);
                            }
                        }
                        append_extension_list(&ps, output);
                        output.append(" files (");
                    } else {
                        append_without_parens(trim_text(pattern), output);
                        output.append(" (");
                    }
                },
            }
        },
    }
}

/// The index of the first `/` of `s`.
fn find_first_slash(s: &str) -> (r: Option<usize>)
    ensures
        r is None <==> first_slash(s@) < 0,
        r matches Some(k) ==> k == first_slash(s@) && k < s@.len(),
{
    let n = s.unicode_len();
    let mut i: usize = 0;
    while i < n
        invariant
            n == s@.len(),
            i <= n,
            first_slash(s@.take(i as int)) < 0,
            forall|k: int| 0 <= k < i ==> s@[k] != '/',
        decreases n - i,
    {
        proof {
            assert(s@.take(i + 1).drop_last() =~= s@.take(i as int));
        }
        if s.get_char(i) == '/' {
            proof { lemma_first_slash_prefix(s@, i + 1); }
            return Some(i);
        }
        i = i + 1;
    }
    assert(s@.take(n as int) =~= s@);
    None
}

proof fn lemma_first_slash_prefix(s: Seq<char>, j: int)
    requires
        0 < j <= s.len(),
        first_slash(s.take(j)) >= 0,
    ensures
        first_slash(s) == first_slash(s.take(j)),
    decreases s.len() - j,
{
    if j < s.len() {
        assert(s.take(j + 1).drop_last() =~= s.take(j));
        lemma_first_slash_prefix(s, j + 1);
    } else {
        assert(s.take(j) =~= s);
    }
}

/// Appends the patterns `*.ext` of the extensions, separated by spaces.
fn append_extension_patterns(exts: &Vec<String>, output: &mut String)
    ensures
        final(output)@ == old(output)@ + extension_patterns(exts@.map_values(|e: String| e@)),
{
    let ghost all = exts@.map_values(|e: String| e@);
    let mut i: usize = 0;
    while i < exts.len()
        invariant
            i <= exts@.len(),
            all == exts@.map_values(|e: String| e@),
            output@ == old(output)@ + extension_patterns(all.take(i as int)),
        decreases exts@.len() - i,
    {
        if i != 0 {
            output.append(" ");
            proof { reveal_strlit(" "); }
        }
        output.append("*.");
        output.append(exts[i].as_str());
        proof {
            reveal_strlit("*.");
            assert(all.take(i + 1).drop_last() =~= all.take(i as int));
            assert(all.take(i + 1).last() == exts@[i as int]@);
            assert(output@ =~= old(output)@ + extension_patterns(all.take(i + 1)));
        }
        i = i + 1;
    }
    assert(all.take(exts@.len() as int) =~= all);
}

/// Appends `;;` when `output` already holds something.
fn separate(output: &mut String)
    ensures
        final(output)@ == separated(old(output)@),
{
    if !output.as_str().is_empty() {
        output.append(";;");
        proof { reveal_strlit(";;"); }
    }
}

/// Appends one filter to the filter list in `output`.
fn append_filter(filter: &FileFilter, output: &mut String)
    ensures
        final(output)@ == with_filter(old(output)@, *filter),
{
    match filter {
        FileFilter::Name { description, pattern } => {
            if holds_list_separator(pattern.as_str()) {
                return;
            }
            separate(output);
            append_pattern_label(description, pattern.as_str(), output);
            output.append(pattern.as_str());
            output.append(")");
            proof {
                reveal_strlit(")");
                assert(output@ =~= with_filter(old(output)@, *filter));
            }
        },
        FileFilter::MimeType(mime_type) => {
            let m = mime_type.as_str();
            let k = match find_first_slash(m) {
                Some(k) => k,
                None => return,
            };
            let n = m.unicode_len();
            let top = m.substring_char(0, k);
            let sub = m.substring_char(k + 1, n);
            proof {
                reveal_strlit("*");
                assert(top@ == m@.subrange(0, k as int));
                assert(sub@ == m@.subrange(k + 1, m@.len() as int));
            }
            if same_text(top, "*") {
                proof {
                    assert(top@ =~= seq!['*']);
                }
                return;
            }
            proof {
                assert(top@ != seq!['*']) by {
                    if top@ == seq!['*'] {
                        assert(top@ =~= "*"@);
                    }
                }
            }
            let extensions = match extensions_for(top, sub) {
                Some(e) => e,
                None => return,
            };
            separate(output);
            append_mime_desc(top, sub, output);
            append_extension_patterns(&extensions, output);
            output.append(")");
            proof {
                reveal_strlit(")");
                assert(output@ =~= with_filter(old(output)@, *filter));
            }
        },
    }
}

/// Builds the filter list of a file dialog from the filters of a file
/// setting: each filter as "Label (patterns)", a last one for all files,
/// separated by `;;`, appended to `output`.
pub fn build_filter(filters: &[FileFilter], output: &mut String)
    ensures
        final(output)@ == filter_list(old(output)@, filters@),
{
    let mut i: usize = 0;
    while i < filters.len()
        invariant
            i <= filters@.len(),
            output@ == with_filters(old(output)@, filters@.take(i as int)),
        decreases filters@.len() - i,
    {
        proof {
            assert(filters@.take(i + 1).drop_last() =~= filters@.take(i as int));
        }
        append_filter(&filters[i], output);
        i = i + 1;
    }
    assert(filters@.take(filters@.len() as int) =~= filters@);
    separate(output);
    output.append("All files (*.*)");
}

} // verus!
