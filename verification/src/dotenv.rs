//! Parsing of `.env` files and the choice of which variables to set.
//!
//! A `.env` file is read line by line. Blank lines and lines whose first non-blank
//! character is `#` are skipped, as are lines without `=` and lines whose key is empty.
//! Key and value are trimmed of surrounding whitespace, and one pair of matching
//! double or single quotes around the value is removed. Each pair is then set in the
//! environment unless its variable is set there at that moment, so existing variables
//! are never overwritten and the first line that names a variable wins.
use vstd::prelude::*;
use crate::text::chars_of;

verus! {

/// A parsed `KEY=value` pair, as a pair of character sequences.
pub type EntryView = (Seq<char>, Seq<char>);

/// Unicode `White_Space`, the set that `char::is_whitespace` and `str::trim` use.
pub open spec fn is_whitespace(c: char) -> bool {
    ||| c == '\t' || c == '\n' || c == '\u{0B}' || c == '\u{0C}' || c == '\r' || c == ' '
    ||| c == '\u{85}' || c == '\u{A0}' || c == '\u{1680}'
    ||| ('\u{2000}' <= c && c <= '\u{200A}')
    ||| c == '\u{2028}' || c == '\u{2029}' || c == '\u{202F}' || c == '\u{205F}' || c == '\u{3000}'
}

/// `s` without its leading whitespace.
pub open spec fn trim_start(s: Seq<char>) -> Seq<char>
    decreases s.len(),
{
    if s.len() > 0 && is_whitespace(s[0]) {
        trim_start(s.drop_first())
    } else {
        s
    }
}

/// `s` without its trailing whitespace.
pub open spec fn trim_end(s: Seq<char>) -> Seq<char>
    decreases s.len(),
{
    if s.len() > 0 && is_whitespace(s.last()) {
        trim_end(s.drop_last())
    } else {
        s
    }
}

/// `s` without leading and trailing whitespace, as `str::trim` gives it.
pub open spec fn trim(s: Seq<char>) -> Seq<char> {
    trim_end(trim_start(s))
}

/// The position of the first `c` in `s`, if there is one.
pub open spec fn first_index(s: Seq<char>, c: char) -> Option<int>
    decreases s.len(),
{
    if s.len() == 0 {
        None
    } else if s[0] == c {
        Some(0)
    } else {
        match first_index(s.drop_first(), c) {
            Some(i) => Some(i + 1),
            None => None,
        }
    }
}

/// `s` without one pair of matching double or single quotes around it.
pub open spec fn unquote(s: Seq<char>) -> Seq<char> {
    if s.len() >= 2 && ((s[0] == '"' && s.last() == '"') || (s[0] == '\'' && s.last() == '\'')) {
        s.subrange(1, s.len() - 1)
    } else {
        s
    }
}

/// The pair that one line of a `.env` file gives, if it gives one.
pub open spec fn parse_line(line: Seq<char>) -> Option<EntryView> {
    let t = trim(line);
    if t.len() == 0 || t[0] == '#' {
        None
    } else {
        match first_index(t, '=') {
            None => None,
            Some(i) => {
                let key = trim(t.subrange(0, i));
                if key.len() == 0 {
                    None
                } else {
                    Some((key, unquote(trim(t.subrange(i + 1, t.len() as int)))))
                }
            },
        }
    }
}

/// The pairs of one line: none or one.
pub open spec fn line_entries(line: Seq<char>) -> Seq<EntryView> {
    match parse_line(line) {
        Some(e) => seq![e],
        None => seq![],
    }
}

/// The pairs of the text `cur + rest`, where `cur` is the beginning of a line and the
/// text is split into lines at each `\n`.
pub open spec fn parse_lines_from(cur: Seq<char>, rest: Seq<char>) -> Seq<EntryView>
    decreases rest.len(),
{
    if rest.len() == 0 {
        line_entries(cur)
    } else if rest[0] == '\n' {
        line_entries(cur) + parse_lines_from(seq![], rest.drop_first())
    } else {
        parse_lines_from(cur.push(rest[0]), rest.drop_first())
    }
}

/// The pairs of a whole `.env` text, in the order of its lines.
pub open spec fn parse_dotenv_spec(content: Seq<char>) -> Seq<EntryView> {
    parse_lines_from(seq![], content)
}

/// The view of one parsed pair.
pub open spec fn pair_view(p: (String, String)) -> EntryView {
    (p.0@, p.1@)
}

/// The views of a list of parsed pairs.
pub open spec fn entries_view(v: Seq<(String, String)>) -> Seq<EntryView> {
    v.map_values(|p: (String, String)| pair_view(p))
}

proof fn lemma_trim_start(s: Seq<char>, n: int)
    requires
        0 <= n <= s.len(),
        forall|k: int| 0 <= k < n ==> is_whitespace(#[trigger] s[k]),
        n == s.len() || !is_whitespace(s[n]),
    ensures
        trim_start(s) == s.subrange(n, s.len() as int),
    decreases n,
{
    if n == 0 {
        assert(s.subrange(0, s.len() as int) =~= s);
    } else {
        let t = s.drop_first();
        assert forall|k: int| 0 <= k < n - 1 implies is_whitespace(#[trigger] t[k]) by {
            assert(t[k] == s[k + 1]);
        }
        lemma_trim_start(t, n - 1);
        assert(t.subrange(n - 1, t.len() as int) =~= s.subrange(n, s.len() as int));
    }
}

proof fn lemma_trim_end(s: Seq<char>, m: int)
    requires
        0 <= m <= s.len(),
        forall|k: int| m <= k < s.len() ==> is_whitespace(#[trigger] s[k]),
        m == 0 || !is_whitespace(s[m - 1]),
    ensures
        trim_end(s) == s.subrange(0, m),
    decreases s.len() - m,
{
    if m == s.len() {
        assert(s.subrange(0, m) =~= s);
    } else {
        let t = s.drop_last();
        assert(is_whitespace(s[s.len() - 1]));
        lemma_trim_end(t, m);
        assert(t.subrange(0, m) =~= s.subrange(0, m));
    }
}

proof fn lemma_first_index(s: Seq<char>, c: char, n: int)
    requires
        0 <= n <= s.len(),
        forall|k: int| 0 <= k < n ==> #[trigger] s[k] != c,
    ensures
        n < s.len() && s[n] == c ==> first_index(s, c) == Some(n),
        n == s.len() ==> first_index(s, c) is None,
    decreases n,
{
    if n > 0 {
        let t = s.drop_first();
        assert forall|k: int| 0 <= k < n - 1 implies #[trigger] t[k] != c by {
            assert(t[k] == s[k + 1]);
        }
        assert(s[0] != c);
        lemma_first_index(t, c, n - 1);
    }
}

proof fn lemma_trim_start_shape(s: Seq<char>) -> (a: int)
    ensures
        0 <= a <= s.len(),
        trim_start(s) == s.subrange(a, s.len() as int),
        a < s.len() ==> !is_whitespace(s[a]),
        forall|k: int| 0 <= k < a ==> is_whitespace(#[trigger] s[k]),
    decreases s.len(),
{
    if s.len() > 0 && is_whitespace(s[0]) {
        let a: int = lemma_trim_start_shape(s.drop_first());
        assert(s.drop_first().subrange(a, s.len() - 1) =~= s.subrange(a + 1, s.len() as int));
        assert forall|k: int| 0 <= k < a + 1 implies is_whitespace(#[trigger] s[k]) by {
            if k > 0 {
                assert(s[k] == s.drop_first()[k - 1]);
            }
        }
        a + 1
    } else {
        assert(s.subrange(0, s.len() as int) =~= s);
        0
    }
}

proof fn lemma_trim_end_shape(s: Seq<char>) -> (b: int)
    ensures
        0 <= b <= s.len(),
        trim_end(s) == s.subrange(0, b),
        b > 0 ==> !is_whitespace(s[b - 1]),
        forall|k: int| b <= k < s.len() ==> is_whitespace(#[trigger] s[k]),
    decreases s.len(),
{
    if s.len() > 0 && is_whitespace(s.last()) {
        let b: int = lemma_trim_end_shape(s.drop_last());
        assert(s.drop_last().subrange(0, b) =~= s.subrange(0, b));
        assert forall|k: int| b <= k < s.len() implies is_whitespace(#[trigger] s[k]) by {
            if k < s.len() - 1 {
                assert(s[k] == s.drop_last()[k]);
            }
        }
        b
    } else {
        assert(s.subrange(0, s.len() as int) =~= s);
        s.len() as int
    }
}

/// `trim(s)` is a piece of `s` that neither starts nor ends with whitespace.
proof fn lemma_trim_shape(s: Seq<char>) -> (r: (int, int))
    ensures
        0 <= r.0 <= r.1 <= s.len(),
        trim(s) == s.subrange(r.0, r.1),
        trim(s).len() > 0 ==> !is_whitespace(trim(s)[0]) && !is_whitespace(trim(s).last()),
        forall|k: int| 0 <= k < r.0 ==> is_whitespace(#[trigger] s[k]),
        forall|k: int| r.1 <= k < s.len() ==> is_whitespace(#[trigger] s[k]),
{
    let a: int = lemma_trim_start_shape(s);
    let t = s.subrange(a, s.len() as int);
    let b: int = lemma_trim_end_shape(t);
    assert(t.subrange(0, b) =~= s.subrange(a, a + b));
    assert forall|k: int| a + b <= k < s.len() implies is_whitespace(#[trigger] s[k]) by {
        assert(s[k] == t[k - a]);
    }
    if b > 0 {
        assert(trim(s)[0] == t[0]);
        assert(trim(s).last() == t[b - 1]);
    }
    (a, a + b)
}

/// A text that neither starts nor ends with whitespace is its own trim.
proof fn lemma_trim_of_trimmed(s: Seq<char>)
    requires
        s.len() == 0 || (!is_whitespace(s[0]) && !is_whitespace(s.last())),
    ensures
        trim(s) == s,
{
    lemma_trim_start(s, 0);
    assert(s.subrange(0, s.len() as int) =~= s);
    lemma_trim_end(s, s.len() as int);
}

proof fn lemma_first_index_prefix(s: Seq<char>, c: char)
    ensures
        first_index(s, c) matches Some(i) ==> 0 <= i < s.len() && s[i] == c && forall|j: int|
            0 <= j < i ==> #[trigger] s[j] != c,
    decreases s.len(),
{
    if s.len() > 0 && s[0] != c {
        lemma_first_index_prefix(s.drop_first(), c);
        if let Some(i) = first_index(s.drop_first(), c) {
            assert forall|j: int| 0 <= j < i + 1 implies #[trigger] s[j] != c by {
                if j > 0 {
                    assert(s[j] == s.drop_first()[j - 1]);
                }
            }
        }
    }
}

/// Whether a key is one that a `.env` line can give: not empty, without `=`, and
/// neither starting nor ending with whitespace.
pub open spec fn is_valid_key(key: Seq<char>) -> bool {
    &&& key.len() > 0
    &&& !is_whitespace(key[0])
    &&& !is_whitespace(key.last())
    &&& forall|j: int| 0 <= j < key.len() ==> #[trigger] key[j] != '='
}

/// Every key that a line gives is valid.
proof fn lemma_parse_line_key(line: Seq<char>)
    ensures
        parse_line(line) matches Some(e) ==> is_valid_key(e.0),
{
    if let Some(e) = parse_line(line) {
        let t = trim(line);
        lemma_first_index_prefix(t, '=');
        let i: int = first_index(t, '=').unwrap();
        let pre = t.subrange(0, i);
        let r = lemma_trim_shape(pre);
        assert forall|j: int| 0 <= j < e.0.len() implies #[trigger] e.0[j] != '=' by {
            assert(e.0[j] == pre[r.0 + j]);
            assert(pre[r.0 + j] == t[r.0 + j]);
        }
    }
}

proof fn lemma_parse_lines_from_keys(cur: Seq<char>, rest: Seq<char>)
    ensures
        forall|k: int|
            0 <= k < parse_lines_from(cur, rest).len() ==> is_valid_key(
                (#[trigger] parse_lines_from(cur, rest)[k]).0,
            ),
    decreases rest.len(),
{
    lemma_parse_line_key(cur);
    assert forall|k: int| 0 <= k < line_entries(cur).len() implies is_valid_key(
        (#[trigger] line_entries(cur)[k]).0,
    ) by {
        assert(line_entries(cur)[k] == parse_line(cur).unwrap());
    }
    if rest.len() > 0 {
        if rest[0] == '\n' {
            lemma_parse_lines_from_keys(seq![], rest.drop_first());
            let l = line_entries(cur);
            let p = parse_lines_from(seq![], rest.drop_first());
            assert forall|k: int| 0 <= k < (l + p).len() implies is_valid_key(
                (#[trigger] (l + p)[k]).0,
            ) by {
                if k >= l.len() {
                    assert((l + p)[k] == p[k - l.len()]);
                } else {
                    assert((l + p)[k] == l[k]);
                }
            }
            assert(parse_lines_from(cur, rest) == l + p);
        } else {
            lemma_parse_lines_from_keys(cur.push(rest[0]), rest.drop_first());
            assert(parse_lines_from(cur, rest) == parse_lines_from(cur.push(rest[0]), rest.drop_first()));
        }
    } else {
        assert(parse_lines_from(cur, rest) == line_entries(cur));
    }
}

/// Every variable that a `.env` text sets has a valid name: not empty, without `=`,
/// and without surrounding whitespace.
pub proof fn law_parsed_keys_valid(content: Seq<char>)
    ensures
        forall|k: int|
            0 <= k < parse_dotenv_spec(content).len() ==> is_valid_key(
                (#[trigger] parse_dotenv_spec(content)[k]).0,
            ),
{
    lemma_parse_lines_from_keys(seq![], content);
}

/// Whether a value is read back unchanged: it neither starts nor ends with whitespace
/// and is not wrapped in a pair of matching quotes.
pub open spec fn is_plain_value(v: Seq<char>) -> bool {
    &&& v.len() == 0 || (!is_whitespace(v[0]) && !is_whitespace(v.last()))
    &&& !(v.len() >= 2 && ((v[0] == '"' && v.last() == '"') || (v[0] == '\'' && v.last() == '\'')))
}

/// A line `KEY=value`, for a valid key that does not start a comment and a plain value,
/// reads back as the pair it was written from.
pub proof fn law_line_roundtrip(key: Seq<char>, value: Seq<char>)
    requires
        is_valid_key(key),
        key[0] != '#',
        is_plain_value(value),
    ensures
        parse_line(key + seq!['='] + value) == Some((key, value)),
{
    let line = key + seq!['='] + value;
    let n: int = key.len() as int;
    assert(line[0] == key[0]);
    if value.len() > 0 {
        assert(line.last() == value.last());
    } else {
        assert(line.last() == '=');
    }
    lemma_trim_of_trimmed(line);
    assert forall|j: int| 0 <= j < n implies #[trigger] line[j] != '=' by {
        assert(line[j] == key[j]);
    }
    assert(line[n] == '=');
    lemma_first_index(line, '=', n);
    assert(line.subrange(0, n) =~= key);
    assert(line.subrange(n + 1, line.len() as int) =~= value);
    lemma_trim_of_trimmed(key);
    lemma_trim_of_trimmed(value);
}

proof fn lemma_parse_lines_from_split(cur: Seq<char>, a: Seq<char>, b: Seq<char>)
    ensures
        parse_lines_from(cur, a + seq!['\n'] + b) == parse_lines_from(cur, a) + parse_lines_from(
            seq![],
            b,
        ),
    decreases a.len(),
{
    let rest = a + seq!['\n'] + b;
    if a.len() == 0 {
        assert(rest[0] == '\n');
        assert(rest.drop_first() =~= b);
    } else {
        assert(rest[0] == a[0]);
        let a2 = a.drop_first();
        assert(rest.drop_first() =~= a2 + seq!['\n'] + b);
        if a[0] == '\n' {
            lemma_parse_lines_from_split(seq![], a2, b);
            let l = line_entries(cur);
            assert(l + (parse_lines_from(seq![], a2) + parse_lines_from(seq![], b)) =~= (l
                + parse_lines_from(seq![], a2)) + parse_lines_from(seq![], b));
        } else {
            lemma_parse_lines_from_split(cur.push(a[0]), a2, b);
        }
    }
}

proof fn lemma_parse_lines_from_last(cur: Seq<char>, a: Seq<char>)
    requires
        forall|j: int| 0 <= j < a.len() ==> #[trigger] a[j] != '\n',
    ensures
        parse_lines_from(cur, a) == line_entries(cur + a),
    decreases a.len(),
{
    if a.len() == 0 {
        assert(cur + a =~= cur);
    } else {
        let a2 = a.drop_first();
        assert forall|j: int| 0 <= j < a2.len() implies #[trigger] a2[j] != '\n' by {
            assert(a2[j] == a[j + 1]);
        }
        lemma_parse_lines_from_last(cur.push(a[0]), a2);
        assert(cur.push(a[0]) + a2 =~= cur + a);
    }
}

/// Reading two texts joined by a `\n` gives the pairs of the first followed by those
/// of the second.
pub proof fn law_parse_concat(first: Seq<char>, second: Seq<char>)
    ensures
        parse_dotenv_spec(first + seq!['\n'] + second) == parse_dotenv_spec(first)
            + parse_dotenv_spec(second),
{
    lemma_parse_lines_from_split(seq![], first, second);
}

/// A text without `\n` is a single line.
pub proof fn law_parse_single_line(line: Seq<char>)
    requires
        forall|j: int| 0 <= j < line.len() ==> #[trigger] line[j] != '\n',
    ensures
        parse_dotenv_spec(line) == line_entries(line),
{
    lemma_parse_lines_from_last(seq![], line);
    assert(Seq::<char>::empty() + line =~= line);
}

proof fn lemma_trim_start_push(s: Seq<char>, c: char)
    requires
        is_whitespace(c),
    ensures
        trim_start(s.push(c)) == (if trim_start(s).len() > 0 {
            trim_start(s).push(c)
        } else {
            seq![]
        }),
    decreases s.len(),
{
    if s.len() == 0 {
        assert(s.push(c)[0] == c);
        assert(s.push(c).drop_first() =~= Seq::<char>::empty());
        assert(trim_start(Seq::<char>::empty()) == Seq::<char>::empty());
    } else {
        assert(s.push(c)[0] == s[0]);
        if is_whitespace(s[0]) {
            assert(s.push(c).drop_first() =~= s.drop_first().push(c));
            lemma_trim_start_push(s.drop_first(), c);
        }
    }
}

/// `trim` ignores one whitespace character on each side.
proof fn lemma_trim_padded(c: char, line: Seq<char>)
    requires
        is_whitespace(c),
    ensures
        trim(seq![c] + line + seq![c]) == trim(line),
{
    let padded = seq![c] + line + seq![c];
    assert(padded[0] == c);
    assert(padded.drop_first() =~= line.push(c));
    lemma_trim_start_push(line, c);
    let t = trim_start(line);
    if t.len() > 0 {
        assert(t.push(c).last() == c);
        assert(t.push(c).drop_last() =~= t);
    }
}

/// Lines are trimmed of Unicode white space (the `White_Space` property that `str::trim`
/// uses): a white-space character on each side of a line changes nothing.
pub proof fn law_surrounding_white_space_ignored(c: char, line: Seq<char>)
    requires
        c == '\t' || c == '\n' || c == '\u{0B}' || c == '\u{0C}' || c == '\r' || c == ' '
            || c == '\u{85}' || c == '\u{A0}' || c == '\u{1680}' || ('\u{2000}' <= c && c
            <= '\u{200A}') || c == '\u{2028}' || c == '\u{2029}' || c == '\u{202F}' || c
            == '\u{205F}' || c == '\u{3000}',
    ensures
        parse_line(seq![c] + line + seq![c]) == parse_line(line),
{
    lemma_trim_padded(c, line);
}

/// Characters outside Unicode white space are never trimmed: a one-character key and a
/// one-character value of such characters are kept as they are.
pub proof fn law_other_characters_kept(k: char, v: char)
    requires
        !(k == '\t' || k == '\n' || k == '\u{0B}' || k == '\u{0C}' || k == '\r' || k == ' '
            || k == '\u{85}' || k == '\u{A0}' || k == '\u{1680}' || ('\u{2000}' <= k && k
            <= '\u{200A}') || k == '\u{2028}' || k == '\u{2029}' || k == '\u{202F}' || k
            == '\u{205F}' || k == '\u{3000}'),
        !(v == '\t' || v == '\n' || v == '\u{0B}' || v == '\u{0C}' || v == '\r' || v == ' '
            || v == '\u{85}' || v == '\u{A0}' || v == '\u{1680}' || ('\u{2000}' <= v && v
            <= '\u{200A}') || v == '\u{2028}' || v == '\u{2029}' || v == '\u{202F}' || v
            == '\u{205F}' || v == '\u{3000}'),
        k != '=',
        k != '#',
    ensures
        parse_line(seq![k, '=', v]) == Some((seq![k], seq![v])),
{
    let line = seq![k, '=', v];
    lemma_trim_of_trimmed(line);
    assert(line[0] != '=');
    lemma_first_index(line, '=', 1);
    assert(line.subrange(0, 1) =~= seq![k]);
    assert(line.subrange(2, 3) =~= seq![v]);
    lemma_trim_of_trimmed(seq![k]);
    lemma_trim_of_trimmed(seq![v]);
}

/// The trim of a text that starts with a character outside white space starts with it.
proof fn lemma_trim_keeps_first(s: Seq<char>)
    requires
        s.len() > 0,
        !is_whitespace(s[0]),
    ensures
        trim(s).len() > 0,
        trim(s)[0] == s[0],
{
    let r = lemma_trim_shape(s);
    if r.0 > 0 {
        assert(is_whitespace(s[0]));
    }
    if r.1 == 0 {
        assert(is_whitespace(s[0]));
    }
}

/// A line whose first character is `#` is a comment and gives nothing.
pub proof fn law_comment_line_skipped(rest: Seq<char>)
    ensures
        parse_line(seq!['#'] + rest) is None,
{
    let line = seq!['#'] + rest;
    assert(line[0] == '#');
    lemma_trim_keeps_first(line);
}

/// A line without `=` gives nothing.
pub proof fn law_line_without_equals_skipped(line: Seq<char>)
    requires
        forall|j: int| 0 <= j < line.len() ==> #[trigger] line[j] != '=',
    ensures
        parse_line(line) is None,
{
    let r = lemma_trim_shape(line);
    let t = trim(line);
    lemma_first_index_prefix(t, '=');
    if let Some(i) = first_index(t, '=') {
        assert(t[i] == line[r.0 + i]);
    }
}

/// A line whose key is empty, such as `=value`, gives nothing.
pub proof fn law_empty_key_skipped(value: Seq<char>)
    ensures
        parse_line(seq!['='] + value) is None,
{
    let line = seq!['='] + value;
    assert(line[0] == '=');
    lemma_trim_keeps_first(line);
    let t = trim(line);
    lemma_first_index(t, '=', 0);
    assert(t.subrange(0, 0) =~= Seq::<char>::empty());
}

/// A value in double or single quotes is read without them, whatever it holds.
pub proof fn law_quoted_value_unquoted(key: Seq<char>, value: Seq<char>, q: char)
    requires
        is_valid_key(key),
        key[0] != '#',
        q == '"' || q == '\'',
    ensures
        parse_line(key + seq!['='] + (seq![q] + value + seq![q])) == Some((key, value)),
{
    let quoted = seq![q] + value + seq![q];
    let line = key + seq!['='] + quoted;
    let n = key.len() as int;
    assert(line[0] == key[0]);
    assert(line.last() == q);
    lemma_trim_of_trimmed(line);
    assert forall|j: int| 0 <= j < n implies #[trigger] line[j] != '=' by {
        assert(line[j] == key[j]);
    }
    assert(line[n] == '=');
    lemma_first_index(line, '=', n);
    assert(line.subrange(0, n) =~= key);
    assert(line.subrange(n + 1, line.len() as int) =~= quoted);
    lemma_trim_of_trimmed(key);
    assert(quoted[0] == q && quoted.last() == q);
    lemma_trim_of_trimmed(quoted);
    assert(quoted.subrange(1, quoted.len() - 1) =~= value);
}

/// Whether `c` is whitespace in the sense of `char::is_whitespace`.
pub fn is_whitespace_char(c: char) -> (b: bool)
    ensures
        b == is_whitespace(c),
{
    c == '\t' || c == '\n' || c == '\u{0B}' || c == '\u{0C}' || c == '\r' || c == ' '
        || c == '\u{85}' || c == '\u{A0}' || c == '\u{1680}'
        || ('\u{2000}' <= c && c <= '\u{200A}')
        || c == '\u{2028}' || c == '\u{2029}' || c == '\u{202F}' || c == '\u{205F}'
        || c == '\u{3000}'
}

/// The bounds of `trim(cs[a..b])` within `cs`.
fn trim_bounds(cs: &Vec<char>, a: usize, b: usize) -> (r: (usize, usize))
    requires
        a <= b <= cs@.len(),
    ensures
        a <= r.0 <= r.1 <= b,
        cs@.subrange(r.0 as int, r.1 as int) == trim(cs@.subrange(a as int, b as int)),
{
    let mut s: usize = a;
    while s < b && is_whitespace_char(cs[s])
        invariant
            a <= s <= b,
            b <= cs@.len(),
            forall|k: int| a <= k < s ==> is_whitespace(#[trigger] cs@[k]),
        decreases b - s,
    {
        s = s + 1;
    }
    let mut e: usize = b;
    while e > s && is_whitespace_char(cs[e - 1])
        invariant
            a <= s <= e <= b,
            b <= cs@.len(),
            forall|k: int| e <= k < b ==> is_whitespace(#[trigger] cs@[k]),
        decreases e,
    {
        e = e - 1;
    }
    proof {
        let sub = cs@.subrange(a as int, b as int);
        assert forall|k: int| 0 <= k < s - a implies is_whitespace(#[trigger] sub[k]) by {
            assert(sub[k] == cs@[a + k]);
        }
        lemma_trim_start(sub, s - a);
        let sub2 = cs@.subrange(s as int, b as int);
        assert(sub.subrange(s - a, sub.len() as int) =~= sub2);
        assert forall|k: int| e - s <= k < sub2.len() implies is_whitespace(#[trigger] sub2[k]) by {
            assert(sub2[k] == cs@[s + k]);
        }
        lemma_trim_end(sub2, e - s);
        assert(sub2.subrange(0, e - s) =~= cs@.subrange(s as int, e as int));
    }
    (s, e)
}

/// The position of the first `c` in `cs[a..b]`, counted from the start of `cs`.
fn find_char(cs: &Vec<char>, a: usize, b: usize, c: char) -> (r: Option<usize>)
    requires
        a <= b <= cs@.len(),
    ensures
        match r {
            Some(i) => a <= i < b && first_index(cs@.subrange(a as int, b as int), c) == Some(
                i - a,
            ),
            None => first_index(cs@.subrange(a as int, b as int), c) is None,
        },
{
    let ghost sub = cs@.subrange(a as int, b as int);
    let mut i: usize = a;
    while i < b
        invariant
            a <= i <= b,
            b <= cs@.len(),
            sub == cs@.subrange(a as int, b as int),
            forall|k: int| 0 <= k < i - a ==> #[trigger] sub[k] != c,
        decreases b - i,
    {
        if cs[i] == c {
            proof {
                assert(sub[i - a] == c);
                lemma_first_index(sub, c, i - a);
            }
            return Some(i);
        }
        assert(sub[i - a] == cs@[i as int]);
        i = i + 1;
    }
    proof {
        lemma_first_index(sub, c, sub.len() as int);
    }
    None
}

/// Removes one pair of matching double or single quotes around `s`, if it has them.
pub fn strip_quotes(s: &str) -> (r: &str)
    ensures
        r@ == unquote(s@),
{
    let n: usize = s.unicode_len();
    if n >= 2 {
        let first = s.get_char(0);
        let last = s.get_char(n - 1);
        if (first == '"' && last == '"') || (first == '\'' && last == '\'') {
            return s.substring_char(1, n - 1);
        }
    }
    s
}

/// The pair that the line `cs[a..b]` gives, taken out of `content`, whose characters `cs` are.
fn parse_line_at(content: &str, cs: &Vec<char>, a: usize, b: usize) -> (r: Option<(String, String)>)
    requires
        cs@ == content@,
        a <= b <= cs@.len(),
    ensures
        match r {
            Some(p) => parse_line(cs@.subrange(a as int, b as int)) == Some(pair_view(p)),
            None => parse_line(cs@.subrange(a as int, b as int)) is None,
        },
{
    let (ts, te) = trim_bounds(cs, a, b);
    let ghost t = cs@.subrange(ts as int, te as int);
    if ts == te || cs[ts] == '#' {
        return None;
    }
    match find_char(cs, ts, te, '=') {
        None => None,
        Some(eq) => {
            let (ks, ke) = trim_bounds(cs, ts, eq);
            assert(t.subrange(0, eq - ts) =~= cs@.subrange(ts as int, eq as int));
            if ks == ke {
                return None;
            }
            let (vs, ve) = trim_bounds(cs, eq + 1, te);
            assert(t.subrange(eq - ts + 1, t.len() as int) =~= cs@.subrange(eq + 1, te as int));
            let key = String::from_str(content.substring_char(ks, ke));
            let value = String::from_str(strip_quotes(content.substring_char(vs, ve)));
            Some((key, value))
        },
    }
}

/// Parses the text of a `.env` file into its `KEY=value` pairs, in the order of its lines.
pub fn parse_dotenv(content: &str) -> (r: Vec<(String, String)>)
    ensures
        entries_view(r@) == parse_dotenv_spec(content@),
{
    let cs = chars_of(content);
    let n: usize = cs.len();
    let mut out: Vec<(String, String)> = Vec::new();
    let mut start: usize = 0;
    let mut i: usize = 0;
    assert(cs@.subrange(0, 0) =~= Seq::<char>::empty());
    assert(cs@.skip(0) =~= cs@);
    assert(entries_view(out@) =~= Seq::<EntryView>::empty());
    assert(Seq::<EntryView>::empty() + parse_dotenv_spec(content@) =~= parse_dotenv_spec(content@));
    while i < n
        invariant
            cs@ == content@,
            n == cs@.len(),
            start <= i <= n,
            entries_view(out@) + parse_lines_from(cs@.subrange(start as int, i as int), cs@.skip(i as int))
                == parse_dotenv_spec(content@),
        decreases n - i,
    {
        let ghost cur = cs@.subrange(start as int, i as int);
        let ghost rest = cs@.skip(i as int);
        let ghost before = entries_view(out@);
        assert(rest[0] == cs@[i as int]);
        assert(rest.drop_first() =~= cs@.skip(i + 1));
        if cs[i] == '\n' {
            let e = parse_line_at(content, &cs, start, i);
            match e {
                Some(p) => {
                    out.push(p);
                    assert(entries_view(out@) =~= before + line_entries(cur));
                },
                None => {
                    assert(before + line_entries(cur) =~= before);
                },
            }
            start = i + 1;
            assert(cs@.subrange(start as int, start as int) =~= Seq::<char>::empty());
            assert(before + (line_entries(cur) + parse_lines_from(seq![], rest.drop_first())) =~= (
            before + line_entries(cur)) + parse_lines_from(seq![], rest.drop_first()));
        } else {
            assert(cur.push(cs@[i as int]) =~= cs@.subrange(start as int, i + 1));
        }
        i = i + 1;
    }
    let ghost cur = cs@.subrange(start as int, n as int);
    let ghost before = entries_view(out@);
    assert(cs@.skip(n as int) =~= Seq::<char>::empty());
    let e = parse_line_at(content, &cs, start, n);
    match e {
        Some(p) => {
            out.push(p);
            assert(entries_view(out@) =~= before + line_entries(cur));
        },
        None => {
            assert(before + line_entries(cur) =~= before);
        },
    }
    out
}

/// What to set for one parsed pair, given whether its variable is set in the environment
/// at the moment the pair comes up: the pair itself when it is not, else nothing.
pub open spec fn assignment_spec(entry: EntryView, currently_set: bool) -> Option<EntryView> {
    if currently_set {
        None
    } else {
        Some(entry)
    }
}

/// What to set for one parsed pair, given whether its variable is set in the environment
/// at the moment the pair comes up: the pair itself when it is not, else nothing.
pub fn assignment_for(entry: (String, String), currently_set: bool) -> (r: Option<(String, String)>)
    ensures
        r == (if currently_set {
            None
        } else {
            Some(entry)
        }),
        match r {
            Some(p) => assignment_spec(pair_view(entry), currently_set) == Some(pair_view(p)),
            None => assignment_spec(pair_view(entry), currently_set) is None,
        },
{
    if currently_set {
        None
    } else {
        Some(entry)
    }
}

/// A model of the environment: the value of each variable, keyed by its name as the
/// platform compares names. `norm` gives that form of a name: the identity where names
/// are compared as exact text (Unix), a case folding where case is ignored (Windows).
pub type EnvView = Map<Seq<char>, Seq<char>>;

/// The environment after one pair comes up and what `assignment_spec` decides for it
/// is carried out.
pub open spec fn apply_entry(norm: spec_fn(Seq<char>) -> Seq<char>, env: EnvView, e: EntryView) -> EnvView {
    match assignment_spec(e, env.dom().contains(norm(e.0))) {
        Some(p) => env.insert(norm(p.0), p.1),
        None => env,
    }
}

/// The environment after the pairs come up one by one, in order.
pub open spec fn apply_entries(
    norm: spec_fn(Seq<char>) -> Seq<char>,
    env: EnvView,
    entries: Seq<EntryView>,
) -> EnvView
    decreases entries.len(),
{
    if entries.len() == 0 {
        env
    } else {
        apply_entries(norm, apply_entry(norm, env, entries[0]), entries.drop_first())
    }
}

/// The environment after loading a `.env` text into `env`.
pub open spec fn load_spec(norm: spec_fn(Seq<char>) -> Seq<char>, env: EnvView, content: Seq<char>) -> EnvView {
    apply_entries(norm, env, parse_dotenv_spec(content))
}

proof fn lemma_apply_concat(
    norm: spec_fn(Seq<char>) -> Seq<char>,
    env: EnvView,
    s1: Seq<EntryView>,
    s2: Seq<EntryView>,
)
    ensures
        apply_entries(norm, env, s1 + s2) == apply_entries(norm, apply_entries(norm, env, s1), s2),
    decreases s1.len(),
{
    if s1.len() == 0 {
        assert(s1 + s2 =~= s2);
    } else {
        assert((s1 + s2)[0] == s1[0]);
        assert((s1 + s2).drop_first() =~= s1.drop_first() + s2);
        lemma_apply_concat(norm, apply_entry(norm, env, s1[0]), s1.drop_first(), s2);
    }
}

proof fn lemma_apply_facts(norm: spec_fn(Seq<char>) -> Seq<char>, env: EnvView, es: Seq<EntryView>)
    ensures
        forall|k: Seq<char>|
            env.dom().contains(k) ==> #[trigger] apply_entries(norm, env, es).dom().contains(k)
                && apply_entries(norm, env, es)[k] == env[k],
        forall|i: int|
            0 <= i < es.len() ==> apply_entries(norm, env, es).dom().contains(norm(#[trigger] es[i].0)),
        (forall|i: int| 0 <= i < es.len() ==> env.dom().contains(norm(#[trigger] es[i].0)))
            ==> apply_entries(norm, env, es) == env,
    decreases es.len(),
{
    if es.len() > 0 {
        let env1 = apply_entry(norm, env, es[0]);
        let rest = es.drop_first();
        lemma_apply_facts(norm, env1, rest);
        let r = apply_entries(norm, env, es);
        assert(r == apply_entries(norm, env1, rest));
        assert forall|k: Seq<char>| env.dom().contains(k) implies #[trigger] r.dom().contains(k)
            && r[k] == env[k] by {
            assert(env1.dom().contains(k) && env1[k] == env[k]);
            assert(apply_entries(norm, env1, rest).dom().contains(k));
        }
        assert forall|i: int| 0 <= i < es.len() implies r.dom().contains(norm(#[trigger] es[i].0)) by {
            if i > 0 {
                assert(es[i] == rest[i - 1]);
            } else {
                assert(env1.dom().contains(norm(es[0].0)));
            }
        }
        if forall|i: int| 0 <= i < es.len() ==> env.dom().contains(norm(#[trigger] es[i].0)) {
            assert(env.dom().contains(norm(es[0].0)));
            assert(env1 == env);
            assert forall|i: int| 0 <= i < rest.len() implies env1.dom().contains(
                norm(#[trigger] rest[i].0),
            ) by {
                assert(rest[i] == es[i + 1]);
            }
        }
    }
}

/// Loading two texts joined by a `\n` sets what loading the first and then the second
/// sets, the second seeing what the first set.
pub proof fn law_load_concat(
    norm: spec_fn(Seq<char>) -> Seq<char>,
    env: EnvView,
    first: Seq<char>,
    second: Seq<char>,
)
    ensures
        load_spec(norm, env, first + seq!['\n'] + second) == load_spec(
            norm,
            load_spec(norm, env, first),
            second,
        ),
{
    law_parse_concat(first, second);
    lemma_apply_concat(norm, env, parse_dotenv_spec(first), parse_dotenv_spec(second));
}

/// Loading the same text a second time changes nothing.
pub proof fn law_load_idempotent(norm: spec_fn(Seq<char>) -> Seq<char>, env: EnvView, content: Seq<char>)
    ensures
        load_spec(norm, load_spec(norm, env, content), content) == load_spec(norm, env, content),
{
    let es = parse_dotenv_spec(content);
    lemma_apply_facts(norm, env, es);
    lemma_apply_facts(norm, apply_entries(norm, env, es), es);
}

/// Existing environment variables are never overwritten: every variable set before the
/// load keeps its value.
pub proof fn law_existing_never_overwritten(
    norm: spec_fn(Seq<char>) -> Seq<char>,
    env: EnvView,
    content: Seq<char>,
)
    ensures
        forall|k: Seq<char>|
            env.dom().contains(k) ==> #[trigger] load_spec(norm, env, content).dom().contains(k)
                && load_spec(norm, env, content)[k] == env[k],
{
    lemma_apply_facts(norm, env, parse_dotenv_spec(content));
}

/// After a load every variable that the text names is set.
pub proof fn law_every_named_variable_set(
    norm: spec_fn(Seq<char>) -> Seq<char>,
    env: EnvView,
    content: Seq<char>,
)
    ensures
        forall|i: int|
            0 <= i < parse_dotenv_spec(content).len() ==> load_spec(norm, env, content).dom().contains(
                norm(#[trigger] parse_dotenv_spec(content)[i].0),
            ),
{
    lemma_apply_facts(norm, env, parse_dotenv_spec(content));
}

proof fn lemma_first_entry_wins(
    norm: spec_fn(Seq<char>) -> Seq<char>,
    env: EnvView,
    es: Seq<EntryView>,
    i: int,
)
    requires
        0 <= i < es.len(),
        !env.dom().contains(norm(es[i].0)),
        forall|j: int| 0 <= j < i ==> norm(#[trigger] es[j].0) != norm(es[i].0),
    ensures
        apply_entries(norm, env, es).dom().contains(norm(es[i].0)),
        apply_entries(norm, env, es)[norm(es[i].0)] == es[i].1,
    decreases i,
{
    let env1 = apply_entry(norm, env, es[0]);
    let rest = es.drop_first();
    if i == 0 {
        lemma_apply_facts(norm, env1, rest);
        assert(env1.dom().contains(norm(es[0].0)) && env1[norm(es[0].0)] == es[0].1);
        assert(apply_entries(norm, env1, rest).dom().contains(norm(es[0].0)));
        assert(apply_entries(norm, env, es) == apply_entries(norm, env1, rest));
    } else {
        assert(norm(es[0].0) != norm(es[i].0));
        assert(rest[i - 1] == es[i]);
        assert forall|j: int| 0 <= j < i - 1 implies norm(#[trigger] rest[j].0) != norm(
            rest[i - 1].0,
        ) by {
            assert(rest[j] == es[j + 1]);
        }
        lemma_first_entry_wins(norm, env1, rest, i - 1);
    }
}

/// The first line that names an unset variable wins: after the load the variable holds
/// that line's value.
pub proof fn law_first_entry_wins(
    norm: spec_fn(Seq<char>) -> Seq<char>,
    env: EnvView,
    content: Seq<char>,
    i: int,
)
    requires
        0 <= i < parse_dotenv_spec(content).len(),
        !env.dom().contains(norm(parse_dotenv_spec(content)[i].0)),
        forall|j: int|
            0 <= j < i ==> norm(#[trigger] parse_dotenv_spec(content)[j].0) != norm(
                parse_dotenv_spec(content)[i].0,
            ),
    ensures
        load_spec(norm, env, content).dom().contains(norm(parse_dotenv_spec(content)[i].0)),
        load_spec(norm, env, content)[norm(parse_dotenv_spec(content)[i].0)] == parse_dotenv_spec(
            content,
        )[i].1,
{
    lemma_first_entry_wins(norm, env, parse_dotenv_spec(content), i);
}

} // verus!
