//! Text predicates and builders shared by the providers.

use vstd::prelude::*;

verus! {

/// `c` has the Unicode `White_Space` property (Unicode's `PropList.txt`):
/// the controls U+0009 to U+000D, the space, U+0085, the no-break space,
/// U+1680, U+2000 to U+200A, the line and paragraph separators, U+202F,
/// U+205F and U+3000.
pub open spec fn white_space(c: char) -> bool {
    ||| ('\u{9}' <= c && c <= '\u{D}')
    ||| c == ' '
    ||| c == '\u{85}'
    ||| c == '\u{A0}'
    ||| c == '\u{1680}'
    ||| ('\u{2000}' <= c && c <= '\u{200A}')
    ||| c == '\u{2028}'
    ||| c == '\u{2029}'
    ||| c == '\u{202F}'
    ||| c == '\u{205F}'
    ||| c == '\u{3000}'
}

/// `char::is_whitespace` (std). Its documentation defines the result as the
/// Unicode `White_Space` property of `c`, as `PropList.txt` lists it; the
/// contract states that list.
#[verifier::external_body]
fn char_is_whitespace(c: char) -> (r: bool)
    ensures
        r == white_space(c),
{
    c.is_whitespace()
}

/// `s` holds nothing but white space, so that `str::trim` leaves it empty.
pub open spec fn is_blank(s: Seq<char>) -> bool {
    forall|i: int| 0 <= i < s.len() ==> white_space(#[trigger] s[i])
}

/// Whether `s.trim()` is empty.
pub fn is_blank_text(s: &str) -> (r: bool)
    ensures
        r == is_blank(s@),
{
    let len = s.unicode_len();
    let mut i: usize = 0;
    while i < len
        invariant
            i <= len,
            len == s@.len(),
            forall|k: int| 0 <= k < i ==> white_space(#[trigger] s@[k]),
        decreases len - i,
    {
        if !char_is_whitespace(s.get_char(i)) {
            return false;
        }
        i += 1;
    }
    true
}

/// `s` without its leading white space.
pub open spec fn trim_start(s: Seq<char>) -> Seq<char>
    decreases s.len(),
{
    if s.len() > 0 && white_space(s[0]) {
        trim_start(s.drop_first())
    } else {
        s
    }
}

/// `s` without its trailing white space.
pub open spec fn trim_end(s: Seq<char>) -> Seq<char>
    decreases s.len(),
{
    if s.len() > 0 && white_space(s.last()) {
        trim_end(s.drop_last())
    } else {
        s
    }
}

/// `s` without its leading and trailing white space, as `str::trim` gives it.
pub open spec fn trimmed(s: Seq<char>) -> Seq<char> {
    trim_end(trim_start(s))
}

/// The UTF-8 text of `s.trim()` is shorter than two bytes.
pub open spec fn trimmed_under_two_bytes(s: Seq<char>) -> bool {
    vstd::utf8::encode_utf8(trimmed(s)).len() < 2
}

proof fn lemma_trim_start_at(s: Seq<char>, a: int)
    requires
        0 <= a <= s.len(),
        forall|i: int| 0 <= i < a ==> white_space(#[trigger] s[i]),
        a < s.len() ==> !white_space(s[a]),
    ensures
        trim_start(s) == s.subrange(a, s.len() as int),
    decreases a,
{
    if a == 0 {
        assert(s.subrange(0, s.len() as int) =~= s);
    } else {
        let t = s.drop_first();
        assert forall|i: int| 0 <= i < a - 1 implies white_space(#[trigger] t[i]) by {
            assert(t[i] == s[i + 1]);
        }
        lemma_trim_start_at(t, a - 1);
        assert(t.subrange(a - 1, t.len() as int) =~= s.subrange(a, s.len() as int));
    }
}

proof fn lemma_trim_end_at(t: Seq<char>, b: int)
    requires
        0 <= b <= t.len(),
        forall|i: int| b <= i < t.len() ==> white_space(#[trigger] t[i]),
        b > 0 ==> !white_space(t[b - 1]),
    ensures
        trim_end(t) == t.subrange(0, b),
    decreases t.len(),
{
    if b == t.len() {
        assert(t.subrange(0, b) =~= t);
    } else {
        let u = t.drop_last();
        assert forall|i: int| b <= i < u.len() implies white_space(#[trigger] u[i]) by {
            assert(u[i] == t[i]);
        }
        lemma_trim_end_at(u, b);
        assert(u.subrange(0, b) =~= t.subrange(0, b));
    }
}

proof fn lemma_trim_end_keeps(t: Seq<char>, j: int) -> (m: int)
    requires
        0 <= j < t.len(),
        !white_space(t[j]),
    ensures
        j < m <= t.len(),
        trim_end(t) == t.subrange(0, m),
    decreases t.len(),
{
    if white_space(t.last()) {
        let u = t.drop_last();
        assert(u[j] == t[j]);
        let m = lemma_trim_end_keeps(u, j);
        assert(u.subrange(0, m) =~= t.subrange(0, m));
        m
    } else {
        assert(t.subrange(0, t.len() as int) =~= t);
        t.len() as int
    }
}

proof fn lemma_encode_len(x: Seq<char>)
    ensures
        vstd::utf8::encode_utf8(x).len() >= x.len(),
        x.len() == 1 ==> (vstd::utf8::encode_utf8(x).len() < 2 <==> (x[0] as u32) <= 0x7F),
    decreases x.len(),
{
    if x.len() > 0 {
        lemma_encode_len(x.drop_first());
        if x.len() == 1 {
            assert(x.drop_first() =~= Seq::<char>::empty());
        }
    }
}

/// Whether the UTF-8 text of `s.trim()` is shorter than two bytes.
pub fn is_trimmed_under_two_bytes(s: &str) -> (r: bool)
    ensures
        r == trimmed_under_two_bytes(s@),
{
    let len = s.unicode_len();
    let mut first: usize = len;
    let mut i: usize = 0;
    while i < len
        invariant
            i <= len,
            len == s@.len(),
            first <= len,
            first == len ==> forall|k: int| 0 <= k < i ==> white_space(#[trigger] s@[k]),
            first < len ==> first < i && !white_space(s@[first as int]) && forall|k: int|
                0 <= k < i && k != first ==> white_space(#[trigger] s@[k]),
        decreases len - i,
    {
        let ghost old_first = first;
        if !char_is_whitespace(s.get_char(i)) {
            if first < len {
                proof {
                    assert forall|k: int| 0 <= k < first implies white_space(#[trigger] s@[k]) by {}
                    lemma_trim_start_at(s@, first as int);
                    let t = s@.subrange(first as int, len as int);
                    assert(t[i - first] == s@[i as int]);
                    let m = lemma_trim_end_keeps(t, i - first);
                    lemma_encode_len(t.subrange(0, m));
                }
                return false;
            }
            first = i;
        }
        i += 1;
    }
    if first < len {
        let c = s.get_char(first);
        proof {
            assert forall|k: int| 0 <= k < first implies white_space(#[trigger] s@[k]) by {}
            lemma_trim_start_at(s@, first as int);
            let t = s@.subrange(first as int, len as int);
            assert forall|k: int| 1 <= k < t.len() implies white_space(#[trigger] t[k]) by {
                assert(t[k] == s@[first + k]);
            }
            lemma_trim_end_at(t, 1);
            lemma_encode_len(t.subrange(0, 1));
        }
        (c as u32) <= 0x7F
    } else {
        proof {
            lemma_trim_start_at(s@, len as int);
            assert(s@.subrange(len as int, len as int) =~= Seq::<char>::empty());
            lemma_encode_len(Seq::<char>::empty());
        }
        true
    }
}

/// The texts of `parts` in order with `sep` between each two of them.
pub open spec fn join(parts: Seq<Seq<char>>, sep: Seq<char>) -> Seq<char>
    decreases parts.len(),
{
    if parts.len() == 0 {
        Seq::empty()
    } else if parts.len() == 1 {
        parts[0]
    } else {
        join(parts.drop_last(), sep) + sep + parts.last()
    }
}

/// `prefix` followed by `text`.
pub fn prefixed(prefix: &str, text: &str) -> (r: String)
    ensures
        r@ == prefix@ + text@,
{
    let mut r = String::from_str(prefix);
    r.append(text);
    r
}

/// `prefix`, then `text`, then `suffix`.
pub fn enclosed(prefix: &str, text: &str, suffix: &str) -> (r: String)
    ensures
        r@ == prefix@ + text@ + suffix@,
{
    let mut r = String::from_str(prefix);
    r.append(text);
    r.append(suffix);
    r
}

} // verus!
