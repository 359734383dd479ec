use vstd::prelude::*;
use vstd::string::*;

verus! {

/// Character-wise equality of two string slices.
pub fn text_eq(a: &str, b: &str) -> (r: bool)
    ensures
        r == (a@ == b@),
{
    let n = a.unicode_len();
    let m = b.unicode_len();
    if n != m {
        return false;
    }
    let mut i: usize = 0;
    while i < n
        invariant
            n == a@.len(),
            m == b@.len(),
            n == m,
            i <= n,
            forall|j: int| 0 <= j < i ==> a@[j] == b@[j],
        decreases n - i,
    {
        if a.get_char(i) != b.get_char(i) {
            return false;
        }
        i = i + 1;
    }
    assert(a@ =~= b@);
    true
}

/// A tab or a visible ASCII character.
pub open spec fn visible_char(c: char) -> bool {
    c == '\t' || (' ' <= c && c <= '~')
}

/// Every character of `v` is a tab or visible ASCII.
pub open spec fn visible_text(v: Seq<char>) -> bool {
    forall|i: int| 0 <= i < v.len() ==> visible_char(#[trigger] v[i])
}

/// A text of tabs and visible ASCII characters is read back unchanged from
/// the header value that holds its UTF-8 bytes.
pub proof fn lemma_visible_text(v: Seq<char>)
    requires
        visible_text(v),
    ensures
        crate::matchers::value_text(vstd::utf8::encode_utf8(v)) == v,
{
    assert(vstd::utf8::is_ascii_chars(v)) by {
        assert forall|i: int| 0 <= i < v.len() implies '\0' <= #[trigger] v[i] <= '\u{7f}' by {
            assert(visible_char(v[i]));
        }
    }
    vstd::utf8::is_ascii_chars_encode_utf8(v);
    let b = vstd::utf8::encode_utf8(v);
    assert forall|i: int| 0 <= i < b.len() implies crate::bindings::visible_ascii_byte(
        #[trigger] b[i],
    ) by {
        assert(v[i] as u8 == b[i]);
        assert(visible_char(v[i]));
    }
    let m = b.map_values(|x: u8| x as char);
    assert forall|i: int| 0 <= i < b.len() implies #[trigger] m[i] == v[i] by {
        assert(v[i] as u8 == b[i]);
        assert(visible_char(v[i]));
    }
    assert(m =~= v);
}

/// Whether `s` is `prefix` followed by the characters `tail`.
pub fn text_is(s: &str, prefix: &str, tail: &Vec<char>) -> (r: bool)
    ensures
        r == (s@ == prefix@ + tail@),
{
    let n = s.unicode_len();
    let p = prefix.unicode_len();
    let m = tail.len();
    if m > n || n - m != p {
        return false;
    }
    let ghost want = prefix@ + tail@;
    let mut i: usize = 0;
    while i < n
        invariant
            n == s@.len(),
            p == prefix@.len(),
            m == tail@.len(),
            n == p + m,
            want == prefix@ + tail@,
            i <= n,
            forall|j: int| 0 <= j < i ==> s@[j] == want[j],
        decreases n - i,
    {
        let c = if i < p {
            prefix.get_char(i)
        } else {
            tail[i - p]
        };
        if s.get_char(i) != c {
            return false;
        }
        i = i + 1;
    }
    assert(s@ =~= want);
    true
}

/// A printable ASCII character: space to tilde.
pub open spec fn printable_ascii_char(c: char) -> bool {
    ' ' <= c && c <= '~'
}

/// `c` as `{:?}` writes it inside a quoted string: `"` and `\\` get a
/// backslash before them.
pub open spec fn escape_char(c: char) -> Seq<char> {
    if c == '"' {
        seq!['\\', '"']
    } else if c == '\\' {
        seq!['\\', '\\']
    } else {
        seq![c]
    }
}

/// The characters of `s`, each escaped as `{:?}` writes it.
pub open spec fn escaped(s: Seq<char>) -> Seq<char>
    decreases s.len(),
{
    if s.len() == 0 {
        Seq::empty()
    } else {
        escaped(s.drop_last()) + escape_char(s.last())
    }
}

/// The text that `format!("{:?}", s)` gives for a string slice: for printable
/// ASCII, `s` in double quotes with `"` and `\\` escaped; for other text, the
/// result of std's escaping (named `spec_debug_str`).
pub open spec fn debug_str(s: Seq<char>) -> Seq<char> {
    if forall|i: int| 0 <= i < s.len() ==> printable_ascii_char(#[trigger] s[i]) {
        seq!['"'] + escaped(s) + seq!['"']
    } else {
        crate::bindings::spec_debug_str(s)
    }
}

/// The text that `format!("{:?}", s)` gives for `s`.
pub fn debug_str_of(s: &str) -> (r: String)
    ensures
        r@ == debug_str(s@),
{
    let n = s.unicode_len();
    let mut i: usize = 0;
    while i < n
        invariant
            n == s@.len(),
            i <= n,
            forall|j: int| 0 <= j < i ==> printable_ascii_char(#[trigger] s@[j]),
        decreases n - i,
    {
        let c = s.get_char(i);
        if !(' ' <= c && c <= '~') {
            assert(!printable_ascii_char(s@[i as int]));
            return crate::bindings::debug_text(s);
        }
        i = i + 1;
    }
    proof {
        reveal_strlit("\"");
        reveal_strlit("\\\"");
        reveal_strlit("\\\\");
    }
    let mut r = String::from_str("\"");
    let mut i: usize = 0;
    assert(s@.subrange(0, 0) =~= Seq::<char>::empty());
    assert(r@ =~= seq!['"'] + escaped(s@.subrange(0, 0)));
    while i < n
        invariant
            n == s@.len(),
            i <= n,
            r@ == seq!['"'] + escaped(s@.subrange(0, i as int)),
        decreases n - i,
    {
        let c = s.get_char(i);
        let ghost before = r@;
        if c == '"' {
            r.append("\\\"");
        } else if c == '\\' {
            r.append("\\\\");
        } else {
            r.append(s.substring_char(i, i + 1));
        }
        proof {
            reveal_strlit("\\\"");
            reveal_strlit("\\\\");
            assert(s@.subrange(i as int, i + 1) =~= seq![c]);
            let t = s@.subrange(0, i + 1);
            assert(t.drop_last() =~= s@.subrange(0, i as int));
            assert(t.last() == c);
            assert(escape_char(c) =~= r@.subrange(before.len() as int, r@.len() as int));
            assert(r@ =~= before + escape_char(c));
        }
        i = i + 1;
    }
    assert(s@.subrange(0, n as int) =~= s@);
    r.append("\"");
    r
}

/// The concatenation of two texts.
pub fn concat(a: &str, b: &str) -> (r: String)
    ensures
        r@ == a@ + b@,
{
    let mut r = String::from_str(a);
    r.append(b);
    r
}

/// Byte-wise equality of two byte slices.
pub fn bytes_eq(a: &[u8], b: &[u8]) -> (r: bool)
    ensures
        r == (a@ == b@),
{
    let n = a.len();
    if n != b.len() {
        return false;
    }
    let mut i: usize = 0;
    while i < n
        invariant
            n == a@.len(),
            n == b@.len(),
            i <= n,
            forall|j: int| 0 <= j < i ==> a@[j] == b@[j],
        decreases n - i,
    {
        if a[i] != b[i] {
            return false;
        }
        i = i + 1;
    }
    assert(a@ =~= b@);
    true
}

} // verus!
