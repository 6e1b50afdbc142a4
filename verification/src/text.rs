//! Character classes and small string utilities used by identifiers,
//! configuration checks and wire formats.
use vstd::prelude::*;
use vstd::string::StrSliceExecFns;
use vstd::string::StringExecFns;

verus! {

/// ASCII letter or digit.
pub open spec fn is_ascii_alphanumeric_spec(c: char) -> bool {
    ('a' <= c && c <= 'z') || ('A' <= c && c <= 'Z') || ('0' <= c && c <= '9')
}

/// ASCII letter.
pub open spec fn is_ascii_alphabetic_spec(c: char) -> bool {
    ('a' <= c && c <= 'z') || ('A' <= c && c <= 'Z')
}

/// ASCII decimal digit.
pub open spec fn is_ascii_digit_spec(c: char) -> bool {
    '0' <= c && c <= '9'
}

/// Lower-case hexadecimal digit.
pub open spec fn is_lower_hex_spec(c: char) -> bool {
    ('0' <= c && c <= '9') || ('a' <= c && c <= 'f')
}

/// A character allowed in an opaque identifier: ASCII alphanumeric, `-` or `_`.
pub open spec fn is_id_char(c: char) -> bool {
    is_ascii_alphanumeric_spec(c) || c == '-' || c == '_'
}

/// An opaque identifier: 1 to 128 characters, each an identifier character.
/// Such an identifier is safe as one path component.
pub open spec fn valid_opaque_id(s: Seq<char>) -> bool {
    &&& 1 <= s.len() <= 128
    &&& forall|i: int| 0 <= i < s.len() ==> #[trigger] is_id_char(s[i])
}

/// Unicode control character (general category Cc).
pub open spec fn is_control_spec(c: char) -> bool {
    c <= '\u{1f}' || ('\u{7f}' <= c && c <= '\u{9f}')
}

/// Some character of `s` is a control character.
pub open spec fn has_control(s: Seq<char>) -> bool {
    exists|i: int| 0 <= i < s.len() && #[trigger] is_control_spec(s[i])
}

/// Unicode `White_Space` property.
pub open spec fn is_whitespace_spec(c: char) -> bool {
    ||| ('\t' <= c && c <= '\r')
    ||| c == ' '
    ||| c == '\u{85}'
    ||| c == '\u{a0}'
    ||| c == '\u{1680}'
    ||| ('\u{2000}' <= c && c <= '\u{200a}')
    ||| c == '\u{2028}'
    ||| c == '\u{2029}'
    ||| c == '\u{202f}'
    ||| c == '\u{205f}'
    ||| c == '\u{3000}'
}

/// Every character of `s` is white space, so trimming `s` leaves nothing.
pub open spec fn is_blank(s: Seq<char>) -> bool {
    forall|i: int| 0 <= i < s.len() ==> #[trigger] is_whitespace_spec(s[i])
}

/// Number of bytes in the UTF-8 encoding of one character.
pub open spec fn char_utf8_width(c: char) -> int {
    if c <= '\u{7f}' {
        1
    } else if c <= '\u{7ff}' {
        2
    } else if c <= '\u{ffff}' {
        3
    } else {
        4
    }
}

/// Length in bytes of the UTF-8 encoding of `s`.
pub open spec fn utf8_len(s: Seq<char>) -> int
    decreases s.len(),
{
    if s.len() == 0 {
        0
    } else {
        utf8_len(s.drop_last()) + char_utf8_width(s.last())
    }
}

/// Text that a human wrote for one line of configuration: not empty, at most
/// 1024 UTF-8 bytes, and free of control characters.
pub open spec fn valid_text(s: Seq<char>) -> bool {
    s.len() > 0 && utf8_len(s) <= 1024 && !has_control(s)
}

/// A key of the control plane's own tables: not blank, at most 256 UTF-8
/// bytes, and free of control characters.
pub open spec fn valid_key(s: Seq<char>) -> bool {
    !is_blank(s) && utf8_len(s) <= 256 && !has_control(s)
}

pub fn is_ascii_alphanumeric(c: char) -> (r: bool)
    ensures
        r == is_ascii_alphanumeric_spec(c),
{
    ('a' <= c && c <= 'z') || ('A' <= c && c <= 'Z') || ('0' <= c && c <= '9')
}

pub fn is_control(c: char) -> (r: bool)
    ensures
        r == is_control_spec(c),
{
    c <= '\u{1f}' || ('\u{7f}' <= c && c <= '\u{9f}')
}

pub fn is_whitespace(c: char) -> (r: bool)
    ensures
        r == is_whitespace_spec(c),
{
    ('\t' <= c && c <= '\r') || c == ' ' || c == '\u{85}' || c == '\u{a0}' || c == '\u{1680}' || (
    '\u{2000}' <= c && c <= '\u{200a}') || c == '\u{2028}' || c == '\u{2029}' || c == '\u{202f}'
        || c == '\u{205f}' || c == '\u{3000}'
}

/// Copies the characters of a string slice into a vector.
pub fn chars_of(s: &str) -> (v: Vec<char>)
    ensures
        v@ == s@,
{
    let n = s.unicode_len();
    let mut v: Vec<char> = Vec::new();
    let mut i: usize = 0;
    while i < n
        invariant
            n == s@.len(),
            i <= n,
            v@ == s@.subrange(0, i as int),
        decreases n - i,
    {
        let c = s.get_char(i);
        v.push(c);
        i = i + 1;
    }
    v
}

/// True when the UTF-8 encoding of `s` has at most `limit` bytes.
pub fn utf8_len_at_most(s: &str, limit: usize) -> (r: bool)
    ensures
        r == (utf8_len(s@) <= limit),
{
    let v = chars_of(s);
    let mut total: usize = 0;
    let mut i: usize = 0;
    while i < v.len()
        invariant
            v@ == s@,
            i <= v.len(),
            total == utf8_len(s@.subrange(0, i as int)),
            total <= limit,
        decreases v.len() - i,
    {
        let c = v[i];
        let w: usize = if c <= '\u{7f}' {
            1
        } else if c <= '\u{7ff}' {
            2
        } else if c <= '\u{ffff}' {
            3
        } else {
            4
        };
        assert(s@.subrange(0, i + 1).drop_last() =~= s@.subrange(0, i as int));
        if w > limit - total {
            proof {
                lemma_utf8_len_prefix_monotone(s@, i + 1);
            }
            return false;
        }
        total = total + w;
        i = i + 1;
    }
    assert(s@.subrange(0, i as int) =~= s@);
    true
}

/// The UTF-8 length of a prefix never exceeds that of the whole sequence.
pub proof fn lemma_utf8_len_prefix_monotone(s: Seq<char>, k: int)
    requires
        0 <= k <= s.len(),
    ensures
        utf8_len(s.subrange(0, k)) <= utf8_len(s),
    decreases s.len() - k,
{
    if k < s.len() {
        lemma_utf8_len_prefix_monotone(s, k + 1);
        assert(s.subrange(0, k + 1).drop_last() =~= s.subrange(0, k));
    } else {
        assert(s.subrange(0, k) =~= s);
    }
}

/// Character-wise equality of two string slices.
pub fn str_eq(a: &str, b: &str) -> (r: bool)
    ensures
        r == (a@ == b@),
{
    let x = chars_of(a);
    let y = chars_of(b);
    if x.len() != y.len() {
        return false;
    }
    let mut i: usize = 0;
    while i < x.len()
        invariant
            x@ == a@,
            y@ == b@,
            x.len() == y.len(),
            i <= x.len(),
            forall|j: int| 0 <= j < i ==> x@[j] == y@[j],
        decreases x.len() - i,
    {
        if x[i] != y[i] {
            return false;
        }
        i = i + 1;
    }
    assert(a@ =~= b@);
    true
}

/// Whether `s` begins with `prefix`.
pub fn starts_with_str(s: &str, prefix: &str) -> (r: bool)
    ensures
        r == (prefix@.len() <= s@.len() && s@.subrange(0, prefix@.len() as int) == prefix@),
{
    let x = chars_of(s);
    let y = chars_of(prefix);
    if y.len() > x.len() {
        return false;
    }
    let mut i: usize = 0;
    while i < y.len()
        invariant
            x@ == s@,
            y@ == prefix@,
            y.len() <= x.len(),
            i <= y.len(),
            forall|j: int| 0 <= j < i ==> x@[j] == y@[j],
        decreases y.len() - i,
    {
        if x[i] != y[i] {
            assert(s@.subrange(0, prefix@.len() as int)[i as int] != prefix@[i as int]);
            return false;
        }
        i = i + 1;
    }
    assert(s@.subrange(0, prefix@.len() as int) =~= prefix@);
    true
}

/// True when every character is an identifier character.
pub fn all_id_chars(s: &Vec<char>) -> (r: bool)
    ensures
        r == (forall|i: int| 0 <= i < s@.len() ==> #[trigger] is_id_char(s@[i])),
{
    let mut i: usize = 0;
    while i < s.len()
        invariant
            i <= s.len(),
            forall|j: int| 0 <= j < i ==> #[trigger] is_id_char(s@[j]),
        decreases s.len() - i,
    {
        let c = s[i];
        if !(is_ascii_alphanumeric(c) || c == '-' || c == '_') {
            assert(!is_id_char(s@[i as int]));
            return false;
        }
        i = i + 1;
    }
    true
}

/// True when some character is a control character.
pub fn any_control(s: &str) -> (r: bool)
    ensures
        r == has_control(s@),
{
    let v = chars_of(s);
    let mut i: usize = 0;
    while i < v.len()
        invariant
            v@ == s@,
            i <= v.len(),
            forall|j: int| 0 <= j < i ==> !#[trigger] is_control_spec(v@[j]),
        decreases v.len() - i,
    {
        if is_control(v[i]) {
            assert(is_control_spec(s@[i as int]));
            return true;
        }
        i = i + 1;
    }
    false
}

/// True when every character is white space (so `s.trim()` is empty).
pub fn blank(s: &str) -> (r: bool)
    ensures
        r == is_blank(s@),
{
    let v = chars_of(s);
    let mut i: usize = 0;
    while i < v.len()
        invariant
            v@ == s@,
            i <= v.len(),
            forall|j: int| 0 <= j < i ==> #[trigger] is_whitespace_spec(v@[j]),
        decreases v.len() - i,
    {
        if !is_whitespace(v[i]) {
            assert(!is_whitespace_spec(s@[i as int]));
            return false;
        }
        i = i + 1;
    }
    true
}

/// The UTF-8 encoding of identifier characters has one byte per character.
pub proof fn lemma_id_chars_are_ascii(s: Seq<char>)
    requires
        forall|i: int| 0 <= i < s.len() ==> #[trigger] is_id_char(s[i]),
    ensures
        utf8_len(s) == s.len(),
    decreases s.len(),
{
    if s.len() > 0 {
        assert(is_id_char(s[s.len() - 1]));
        lemma_id_chars_are_ascii(s.drop_last());
    }
}

/// Accepts an opaque identifier and returns an owned copy of it.
pub fn parse_opaque_id(raw: &str) -> (r: Option<String>)
    ensures
        match r {
            Some(v) => valid_opaque_id(raw@) && v@ == raw@,
            None => !valid_opaque_id(raw@),
        },
{
    let chars = chars_of(raw);
    if chars.len() == 0 || !all_id_chars(&chars) {
        return None;
    }
    proof {
        lemma_id_chars_are_ascii(raw@);
    }
    if chars.len() > 128 {
        return None;
    }
    Some(raw.to_owned())
}

/// Checks the rule for a line of human-written configuration text.
pub fn is_valid_text(value: &str) -> (r: bool)
    ensures
        r == valid_text(value@),
{
    value.unicode_len() > 0 && utf8_len_at_most(value, 1024) && !any_control(value)
}

/// Checks the rule for a key of the control plane's own tables.
pub fn is_valid_key(value: &str) -> (r: bool)
    ensures
        r == valid_key(value@),
{
    !blank(value) && utf8_len_at_most(value, 256) && !any_control(value)
}

/// An owned copy of a string slice.
pub fn owned(s: &str) -> (r: String)
    ensures
        r@ == s@,
{
    s.to_owned()
}

/// The concatenation of two string slices.
pub fn join2(a: &str, b: &str) -> (r: String)
    ensures
        r@ == a@ + b@,
{
    let mut s = a.to_owned();
    s.append(b);
    s
}

/// The concatenation of three string slices.
pub fn join3(a: &str, b: &str, c: &str) -> (r: String)
    ensures
        r@ == a@ + b@ + c@,
{
    let mut s = a.to_owned();
    s.append(b);
    s.append(c);
    s
}

/// The texts of a sequence of strings.
pub open spec fn texts(v: Seq<String>) -> Seq<Seq<char>> {
    v.map_values(|s: String| s@)
}

/// Appends an owned copy of `s`.
pub fn push_text(v: &mut Vec<String>, s: &str)
    ensures
        texts(final(v)@) == texts(old(v)@).push(s@),
{
    v.push(s.to_owned());
    assert(texts(v@) =~= texts(old(v)@).push(s@));
}

/// Appends `s` itself.
pub fn push_string(v: &mut Vec<String>, s: String)
    ensures
        texts(final(v)@) == texts(old(v)@).push(s@),
{
    let ghost t = s@;
    v.push(s);
    assert(texts(v@) =~= texts(old(v)@).push(t));
}

/// Appends copies of every string of `items`, in order.
pub fn push_all(v: &mut Vec<String>, items: &Vec<String>)
    ensures
        texts(final(v)@) == texts(old(v)@) + texts(items@),
{
    let mut i: usize = 0;
    while i < items.len()
        invariant
            i <= items.len(),
            texts(v@) == texts(old(v)@) + texts(items@.subrange(0, i as int)),
        decreases items.len() - i,
    {
        let ghost before = texts(v@);
        push_text(v, items[i].as_str());
        assert(texts(items@.subrange(0, i + 1)) =~= texts(items@.subrange(0, i as int)).push(
            items@[i as int]@,
        ));
        assert(texts(v@) =~= texts(old(v)@) + texts(items@.subrange(0, i + 1)));
        i = i + 1;
    }
    assert(items@.subrange(0, i as int) =~= items@);
}

/// A relative name joined under a base path, as `Path::join` does for a
/// name that does not start with `/`: a `/` goes between them unless the base
/// is empty or already ends with one.
pub open spec fn path_join(base: Seq<char>, name: Seq<char>) -> Seq<char> {
    if base.len() == 0 {
        name
    } else if base.last() == '/' {
        base + name
    } else {
        base + "/"@ + name
    }
}

/// Joins a relative name under a base path.
pub fn join_path(base: &str, name: &str) -> (r: String)
    requires
        name@.len() == 0 || name@[0] != '/',
    ensures
        r@ == path_join(base@, name@),
{
    let n = base.unicode_len();
    if n == 0 {
        return name.to_owned();
    }
    if base.get_char(n - 1) == '/' {
        join2(base, name)
    } else {
        join3(base, "/", name)
    }
}

/// The index of the first `\n` in `s` at or after `k`, or `s.len()`.
pub open spec fn newline_index(s: Seq<char>, k: int) -> int
    decreases s.len() - k,
{
    if k < 0 || k >= s.len() {
        s.len() as int
    } else if s[k] == '\n' {
        k
    } else {
        newline_index(s, k + 1)
    }
}

/// `s` without one final `\r`.
pub open spec fn strip_cr(piece: Seq<char>) -> Seq<char> {
    if piece.len() > 0 && piece.last() == '\r' {
        piece.drop_last()
    } else {
        piece
    }
}

/// The lines of a text as `str::lines` yields them: split at each `\n`,
/// one `\r` before it dropped, and no empty line after a final `\n`.
pub open spec fn lines_of(s: Seq<char>) -> Seq<Seq<char>>
    decreases s.len(),
{
    if s.len() == 0 {
        Seq::empty()
    } else {
        let i = newline_index(s, 0);
        if i >= s.len() || i < 0 {
            seq![s]
        } else {
            seq![strip_cr(s.subrange(0, i))] + lines_of(s.subrange(i + 1, s.len() as int))
        }
    }
}

proof fn lemma_newline_index_is(s: Seq<char>, k: int, m: int)
    requires
        0 <= k <= m <= s.len(),
        forall|j: int| k <= j < m ==> s[j] != '\n',
        m == s.len() || s[m] == '\n',
    ensures
        newline_index(s, k) == m,
    decreases m - k,
{
    if k < m {
        lemma_newline_index_is(s, k + 1, m);
    }
}

/// The lines of a text that are not blank, in order.
pub fn nonblank_lines(text: &str) -> (r: Vec<String>)
    ensures
        texts(r@) == lines_of(text@).filter(|l: Seq<char>| !is_blank(l)),
{
    let ghost pred = |l: Seq<char>| !is_blank(l);
    let v = chars_of(text);
    let n = v.len();
    let mut out: Vec<String> = Vec::new();
    let mut pos: usize = 0;
    proof {
        assert(text@.subrange(0, n as int) =~= text@);
    }
    while pos < n
        invariant
            v@ == text@,
            n == v@.len(),
            pos <= n,
            pred == (|l: Seq<char>| !is_blank(l)),
            lines_of(text@).filter(pred) == texts(out@) + lines_of(text@.subrange(pos as int, n as int)).filter(pred),
        decreases n - pos,
    {
        let mut j: usize = pos;
        while j < n && v[j] != '\n'
            invariant
                v@ == text@,
                n == v@.len(),
                pos <= j <= n,
                forall|k: int| pos <= k < j ==> text@[k] != '\n',
            decreases n - j,
        {
            j = j + 1;
        }
        let ghost rest = text@.subrange(pos as int, n as int);
        proof {
            lemma_newline_index_is(rest, 0, (j - pos) as int);
        }
        let end: usize = if j < n && j > pos && v[j - 1] == '\r' {
            j - 1
        } else {
            j
        };
        let piece = text.substring_char(pos, end);
        let ghost line = piece@;
        proof {
            if j < n {
                assert(line == strip_cr(rest.subrange(0, (j - pos) as int))) by {
                    if j > pos && v@[j - 1] == '\r' {
                        assert(line =~= rest.subrange(0, (j - pos) as int).drop_last());
                    } else {
                        assert(line =~= rest.subrange(0, (j - pos) as int));
                    }
                }
                assert(rest.subrange((j - pos) + 1, rest.len() as int) =~= text@.subrange(
                    j + 1,
                    n as int,
                ));
                assert(lines_of(rest) == seq![line] + lines_of(text@.subrange(j + 1, n as int)));
            } else {
                assert(line =~= rest);
                assert(lines_of(rest) == seq![line]);
                assert(text@.subrange(n as int, n as int) =~= Seq::<char>::empty());
                assert(seq![line] =~= seq![line] + lines_of(text@.subrange(n as int, n as int)));
            }
            let tail = if j < n {
                lines_of(text@.subrange(j + 1, n as int))
            } else {
                lines_of(text@.subrange(n as int, n as int))
            };
            assert(lines_of(rest) == seq![line] + tail);
            tail.lemma_filter_prepend(line, pred);
        }
        let ghost before = out@;
        if !blank(piece) {
            out.push(owned(piece));
            proof {
                assert(texts(out@) =~= texts(before) + seq![line]);
            }
        } else {
            proof {
                assert(texts(out@) =~= texts(before) + Seq::<Seq<char>>::empty());
            }
        }
        pos = if j < n {
            j + 1
        } else {
            n
        };
        proof {
            assert(texts(out@) + lines_of(text@.subrange(pos as int, n as int)).filter(pred) =~= texts(before)
                + lines_of(rest).filter(pred)) by {
                let tail = lines_of(text@.subrange(pos as int, n as int));
                if !is_blank(line) {
                    assert(lines_of(rest).filter(pred) == seq![line] + tail.filter(pred));
                } else {
                    assert(lines_of(rest).filter(pred) == Seq::<Seq<char>>::empty() + tail.filter(pred));
                }
            }
        }
    }
    proof {
        assert(text@.subrange(n as int, n as int) =~= Seq::<char>::empty());
        assert(lines_of(Seq::<char>::empty()).filter(pred) =~= Seq::<Seq<char>>::empty());
        assert(texts(out@) + Seq::<Seq<char>>::empty() =~= texts(out@));
    }
    out
}

/// The lines of a text, as `str::lines` yields them.
pub fn text_lines(text: &str) -> (r: Vec<String>)
    ensures
        texts(r@) == lines_of(text@),
{
    let v = chars_of(text);
    let n = v.len();
    let mut out: Vec<String> = Vec::new();
    let mut pos: usize = 0;
    proof {
        assert(text@.subrange(0, n as int) =~= text@);
    }
    while pos < n
        invariant
            v@ == text@,
            n == v@.len(),
            pos <= n,
            lines_of(text@) == texts(out@) + lines_of(text@.subrange(pos as int, n as int)),
        decreases n - pos,
    {
        let mut j: usize = pos;
        while j < n && v[j] != '\n'
            invariant
                v@ == text@,
                n == v@.len(),
                pos <= j <= n,
                forall|k: int| pos <= k < j ==> text@[k] != '\n',
            decreases n - j,
        {
            j = j + 1;
        }
        let ghost rest = text@.subrange(pos as int, n as int);
        proof {
            lemma_newline_index_is(rest, 0, (j - pos) as int);
        }
        let end: usize = if j < n && j > pos && v[j - 1] == '\r' {
            j - 1
        } else {
            j
        };
        let piece = text.substring_char(pos, end);
        let ghost before = out@;
        proof {
            if j < n {
                if j > pos && v@[j - 1] == '\r' {
                    assert(piece@ =~= rest.subrange(0, (j - pos) as int).drop_last());
                } else {
                    assert(piece@ =~= rest.subrange(0, (j - pos) as int));
                }
                assert(rest.subrange((j - pos) + 1, rest.len() as int) =~= text@.subrange(
                    j + 1,
                    n as int,
                ));
            } else {
                assert(piece@ =~= rest);
                assert(text@.subrange(n as int, n as int) =~= Seq::<char>::empty());
            }
        }
        out.push(owned(piece));
        pos = if j < n {
            j + 1
        } else {
            n
        };
        proof {
            assert(texts(out@) =~= texts(before).push(piece@));
            assert(lines_of(rest) =~= seq![piece@] + lines_of(text@.subrange(pos as int, n as int)));
            assert(texts(before) + lines_of(rest) =~= texts(out@) + lines_of(
                text@.subrange(pos as int, n as int),
            ));
        }
    }
    proof {
        assert(text@.subrange(n as int, n as int) =~= Seq::<char>::empty());
        assert(texts(out@) + Seq::<Seq<char>>::empty() =~= texts(out@));
    }
    out
}

/// Where the run of white space that starts at `k` ends.
pub open spec fn skip_whitespace(s: Seq<char>, k: int) -> int
    decreases s.len() - k,
{
    if k < 0 || k >= s.len() || !is_whitespace_spec(s[k]) {
        k
    } else {
        skip_whitespace(s, k + 1)
    }
}

/// Where the run of non-white characters that starts at `k` ends.
pub open spec fn skip_token(s: Seq<char>, k: int) -> int
    decreases s.len() - k,
{
    if k < 0 || k >= s.len() || is_whitespace_spec(s[k]) {
        k
    } else {
        skip_token(s, k + 1)
    }
}

/// The first white-space separated word of `s`, as
/// `split_whitespace().next()` gives it.
pub open spec fn first_word(s: Seq<char>) -> Option<Seq<char>> {
    let a = skip_whitespace(s, 0);
    if a >= s.len() {
        None
    } else {
        Some(s.subrange(a, skip_token(s, a)))
    }
}

proof fn lemma_skip_is(s: Seq<char>, k: int, m: int, white: bool)
    requires
        0 <= k <= m <= s.len(),
        forall|j: int| k <= j < m ==> is_whitespace_spec(#[trigger] s[j]) == white,
        m == s.len() || is_whitespace_spec(s[m]) != white,
    ensures
        white ==> skip_whitespace(s, k) == m,
        !white ==> skip_token(s, k) == m,
    decreases m - k,
{
    if k < m {
        lemma_skip_is(s, k + 1, m, white);
    }
}

/// The first word of a text, if it has one.
pub fn first_word_of(s: &str) -> (r: Option<String>)
    ensures
        match first_word(s@) {
            None => r is None,
            Some(w) => r matches Some(t) && t@ == w,
        },
{
    let v = chars_of(s);
    let n = v.len();
    let mut a: usize = 0;
    while a < n && is_whitespace(v[a])
        invariant
            v@ == s@,
            n == v@.len(),
            a <= n,
            forall|j: int| 0 <= j < a ==> is_whitespace_spec(#[trigger] s@[j]),
        decreases n - a,
    {
        a = a + 1;
    }
    proof {
        lemma_skip_is(s@, 0, a as int, true);
    }
    if a == n {
        return None;
    }
    let mut b: usize = a;
    while b < n && !is_whitespace(v[b])
        invariant
            v@ == s@,
            n == v@.len(),
            a <= b <= n,
            forall|j: int| a <= j < b ==> !is_whitespace_spec(#[trigger] s@[j]),
        decreases n - b,
    {
        b = b + 1;
    }
    proof {
        lemma_skip_is(s@, a as int, b as int, false);
    }
    Some(owned(s.substring_char(a, b)))
}

/// The index of the first character at or after `k` that is not white
/// space; the length when there is none.
pub open spec fn trim_start_index(s: Seq<char>, k: int) -> int
    decreases s.len() - k,
{
    if k >= s.len() {
        s.len() as int
    } else if is_whitespace_spec(s[k]) {
        trim_start_index(s, k + 1)
    } else {
        k
    }
}

/// The index just after the last character before `k` that is not white
/// space; 0 when there is none.
pub open spec fn trim_end_index(s: Seq<char>, k: int) -> int
    decreases k,
{
    if k <= 0 {
        0
    } else if is_whitespace_spec(s[k - 1]) {
        trim_end_index(s, k - 1)
    } else {
        k
    }
}

/// `str::trim`: the text without its leading and trailing white space.
pub open spec fn trim_spec(s: Seq<char>) -> Seq<char> {
    let a = trim_start_index(s, 0);
    let b = trim_end_index(s, s.len() as int);
    if a >= b {
        Seq::empty()
    } else {
        s.subrange(a, b)
    }
}

proof fn lemma_trim_start(s: Seq<char>, k: int, a: int)
    requires
        0 <= k <= a <= s.len(),
        forall|j: int| k <= j < a ==> #[trigger] is_whitespace_spec(s[j]),
        a == s.len() || !is_whitespace_spec(s[a]),
    ensures
        trim_start_index(s, k) == a,
    decreases a - k,
{
    if k < a {
        lemma_trim_start(s, k + 1, a);
    }
}

proof fn lemma_trim_end(s: Seq<char>, k: int, b: int)
    requires
        0 <= b <= k <= s.len(),
        forall|j: int| b <= j < k ==> #[trigger] is_whitespace_spec(s[j]),
        b == 0 || !is_whitespace_spec(s[b - 1]),
    ensures
        trim_end_index(s, k) == b,
    decreases k - b,
{
    if b < k {
        lemma_trim_end(s, k - 1, b);
    }
}

/// The text without its leading and trailing white space, as `str::trim`.
pub fn trimmed(s: &str) -> (r: &str)
    ensures
        r@ == trim_spec(s@),
{
    let n = s.unicode_len();
    let mut a: usize = 0;
    while a < n && is_whitespace(s.get_char(a))
        invariant
            n == s@.len(),
            a <= n,
            forall|j: int| 0 <= j < a ==> #[trigger] is_whitespace_spec(s@[j]),
        decreases n - a,
    {
        a = a + 1;
    }
    proof {
        lemma_trim_start(s@, 0, a as int);
    }
    if a == n {
        assert(trim_end_index(s@, n as int) <= n) by {
            lemma_trim_end_bounded(s@, n as int);
        }
        return s.substring_char(0, 0);
    }
    let mut b: usize = n;
    while b > a && is_whitespace(s.get_char(b - 1))
        invariant
            n == s@.len(),
            a < n,
            !is_whitespace_spec(s@[a as int]),
            a < b <= n,
            forall|j: int| b <= j < n ==> #[trigger] is_whitespace_spec(s@[j]),
        decreases b,
    {
        b = b - 1;
    }
    proof {
        lemma_trim_end(s@, n as int, b as int);
    }
    s.substring_char(a, b)
}

proof fn lemma_trim_end_bounded(s: Seq<char>, k: int)
    requires
        0 <= k <= s.len(),
    ensures
        0 <= trim_end_index(s, k) <= k,
    decreases k,
{
    if k > 0 {
        lemma_trim_end_bounded(s, k - 1);
    }
}

} // verus!
