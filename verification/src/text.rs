//! String helpers over `&str` whose behaviour is stated on character
//! sequences (`s@`) and on UTF-8 byte encodings.

use vstd::prelude::*;
use vstd::string::*;
use vstd::utf8::*;

verus! {

/// Two string slices are equal exactly when they hold the same characters.
pub fn str_eq(a: &str, b: &str) -> (r: bool)
    ensures
        r == (a@ == b@),
{
    let n = a.unicode_len();
    if n != b.unicode_len() {
        return false;
    }
    let mut i: usize = 0;
    while i < n
        invariant
            n == a@.len(),
            n == b@.len(),
            i <= n,
            forall|j: int| 0 <= j < i ==> a@[j] == b@[j],
        decreases n - i,
    {
        if a.get_char(i) != b.get_char(i) {
            return false;
        }
        i = i + 1;
    }
    assert(a@ =~= b@);
    true
}


/// `c` is a Unicode `White_Space` character (the set that `char::is_whitespace`
/// and `str::trim` use).
pub open spec fn is_white_space(c: char) -> bool {
    let u = c as u32;
    ||| 0x9 <= u <= 0xd
    ||| u == 0x20
    ||| u == 0x85
    ||| u == 0xa0
    ||| u == 0x1680
    ||| 0x2000 <= u <= 0x200a
    ||| u == 0x2028
    ||| u == 0x2029
    ||| u == 0x202f
    ||| u == 0x205f
    ||| u == 0x3000
}

/// `s` without its leading white space.
pub open spec fn trim_start_chars(s: Seq<char>) -> Seq<char>
    decreases s.len(),
{
    if s.len() > 0 && is_white_space(s[0]) {
        trim_start_chars(s.drop_first())
    } else {
        s
    }
}

/// `s` without its trailing white space.
pub open spec fn trim_end_chars(s: Seq<char>) -> Seq<char>
    decreases s.len(),
{
    if s.len() > 0 && is_white_space(s.last()) {
        trim_end_chars(s.drop_last())
    } else {
        s
    }
}

/// `s` without leading and trailing white space.
pub open spec fn trim_chars(s: Seq<char>) -> Seq<char> {
    trim_end_chars(trim_start_chars(s))
}

/// Decides `is_white_space`.
pub fn is_white_space_char(c: char) -> (r: bool)
    ensures
        r == is_white_space(c),
{
    let u = c as u32;
    (0x9 <= u && u <= 0xd) || u == 0x20 || u == 0x85 || u == 0xa0 || u == 0x1680 || (0x2000 <= u
        && u <= 0x200a) || u == 0x2028 || u == 0x2029 || u == 0x202f || u == 0x205f || u == 0x3000
}

proof fn lemma_trim_start_at(s: Seq<char>, i: int)
    requires
        0 <= i <= s.len(),
        forall|k: int| 0 <= k < i ==> is_white_space(#[trigger] s[k]),
        i == s.len() || !is_white_space(s[i]),
    ensures
        trim_start_chars(s) == s.subrange(i, s.len() as int),
    decreases i,
{
    if i == 0 {
        assert(s.subrange(0, s.len() as int) =~= s);
    } else {
        let t = s.drop_first();
        assert forall|k: int| 0 <= k < i - 1 implies is_white_space(#[trigger] t[k]) by {
            assert(t[k] == s[k + 1]);
        }
        assert(is_white_space(s[0]));
        lemma_trim_start_at(t, i - 1);
        assert(t.subrange(i - 1, t.len() as int) =~= s.subrange(i, s.len() as int));
    }
}

proof fn lemma_trim_end_at(s: Seq<char>, j: int)
    requires
        0 <= j <= s.len(),
        forall|k: int| j <= k < s.len() ==> is_white_space(#[trigger] s[k]),
        j == 0 || !is_white_space(s[j - 1]),
    ensures
        trim_end_chars(s) == s.subrange(0, j),
    decreases s.len() - j,
{
    if j == s.len() {
        assert(s.subrange(0, j) =~= s);
    } else {
        let t = s.drop_last();
        assert(is_white_space(s[s.len() - 1]));
        assert forall|k: int| j <= k < t.len() implies is_white_space(#[trigger] t[k]) by {
            assert(t[k] == s[k]);
        }
        if j > 0 {
            assert(t[j - 1] == s[j - 1]);
        }
        lemma_trim_end_at(t, j);
        assert(t.subrange(0, j) =~= s.subrange(0, j));
    }
}

/// Removes leading and trailing white space, as `str::trim` does.
pub fn trim_str(s: &str) -> (r: &str)
    ensures
        r@ == trim_chars(s@),
{
    let n = s.unicode_len();
    let mut i: usize = 0;
    while i < n && is_white_space_char(s.get_char(i))
        invariant
            n == s@.len(),
            i <= n,
            forall|k: int| 0 <= k < i ==> is_white_space(#[trigger] s@[k]),
        decreases n - i,
    {
        i = i + 1;
    }
    proof {
        lemma_trim_start_at(s@, i as int);
    }
    let ghost t = s@.subrange(i as int, n as int);
    let mut j: usize = n;
    while j > i && is_white_space_char(s.get_char(j - 1))
        invariant
            n == s@.len(),
            i <= j <= n,
            t == s@.subrange(i as int, n as int),
            forall|k: int| j <= k < n ==> is_white_space(#[trigger] s@[k]),
        decreases j,
    {
        j = j - 1;
    }
    proof {
        assert forall|k: int| j - i <= k < t.len() implies is_white_space(#[trigger] t[k]) by {
            assert(t[k] == s@[k + i]);
        }
        if j > i {
            assert(t[j - i - 1] == s@[j - 1]);
        }
        lemma_trim_end_at(t, j - i);
        assert(t.subrange(0, j - i) =~= s@.subrange(i as int, j as int));
    }
    s.substring_char(i, j)
}


/// The greatest character boundary of `bytes` that is at most `k` (0 if none above it).
pub open spec fn boundary_at_or_below(bytes: Seq<u8>, k: int) -> int
    decreases k,
{
    if k <= 0 {
        0
    } else if is_char_boundary(bytes, k) {
        k
    } else {
        boundary_at_or_below(bytes, k - 1)
    }
}

/// How many leading bytes of `bytes` remain after cutting it to at most
/// `max_bytes` bytes without splitting a character.
pub open spec fn truncated_len(bytes: Seq<u8>, max_bytes: int) -> int {
    if bytes.len() <= max_bytes {
        bytes.len() as int
    } else {
        boundary_at_or_below(bytes, max_bytes)
    }
}

/// The characters of `s` that survive a cut to at most `max_bytes` bytes of
/// UTF-8 on a character boundary.
pub open spec fn truncated_chars(s: Seq<char>, max_bytes: int) -> Seq<char> {
    decode_utf8(encode_utf8(s).subrange(0, truncated_len(encode_utf8(s), max_bytes)))
}

proof fn lemma_boundary_at_or_below(bytes: Seq<u8>, k: int)
    requires
        valid_utf8(bytes),
        0 <= k <= bytes.len(),
    ensures
        0 <= boundary_at_or_below(bytes, k) <= k,
        is_char_boundary(bytes, boundary_at_or_below(bytes, k)),
    decreases k,
{
    if k > 0 && !is_char_boundary(bytes, k) {
        lemma_boundary_at_or_below(bytes, k - 1);
    }
}

/// Facts about a truncation of a character sequence: it is a prefix of the
/// sequence, its encoding is the kept bytes, and it fits the byte budget.
pub proof fn lemma_truncated_chars(s: Seq<char>, max_bytes: int)
    requires
        0 <= max_bytes,
    ensures
        ({
            let b = encode_utf8(s);
            let cut = truncated_len(b, max_bytes);
            &&& 0 <= cut <= b.len()
            &&& cut <= max_bytes
            &&& encode_utf8(truncated_chars(s, max_bytes)) == b.subrange(0, cut)
            &&& truncated_chars(s, max_bytes) == s.subrange(0, truncated_chars(s, max_bytes).len() as int)
            &&& (b.len() <= max_bytes ==> truncated_chars(s, max_bytes) == s)
        }),
{
    let b = encode_utf8(s);
    encode_utf8_valid_utf8(s);
    encode_utf8_decode_utf8(s);
    is_char_boundary_start_end_of_seq(b);
    let cut = truncated_len(b, max_bytes);
    if b.len() > max_bytes {
        lemma_boundary_at_or_below(b, max_bytes);
    } else {
        assert(b.subrange(0, cut) =~= b);
    }
    valid_utf8_split(b, cut);
    decode_utf8_split(b, cut);
    decode_utf8_encode_utf8(b.subrange(0, cut));
    let head = decode_utf8(b.subrange(0, cut));
    assert(s =~= head + decode_utf8(b.subrange(cut, b.len() as int)));
    assert(head =~= s.subrange(0, head.len() as int));
}

/// Cutting twice to the same budget gives what cutting once gives.
pub proof fn lemma_truncation_idempotent(s: Seq<char>, max_bytes: int)
    requires
        0 <= max_bytes,
    ensures
        truncated_chars(truncated_chars(s, max_bytes), max_bytes) == truncated_chars(s, max_bytes),
{
    lemma_truncated_chars(s, max_bytes);
    let t = truncated_chars(s, max_bytes);
    lemma_truncated_chars(t, max_bytes);
}

/// Copies at most `max_bytes` bytes of `s`, cutting back to the nearest
/// character boundary so that no character is split.
pub fn truncate_at_char_boundary(s: &str, max_bytes: usize) -> (r: String)
    ensures
        r@ == truncated_chars(s@, max_bytes as int),
        encode_utf8(r@) == s.spec_bytes().subrange(0, truncated_len(s.spec_bytes(), max_bytes as int)),
        encode_utf8(r@).len() <= max_bytes,
        r@ == s@.subrange(0, r@.len() as int),
{
    proof {
        lemma_truncated_chars(s@, max_bytes as int);
        encode_utf8_valid_utf8(s@);
        encode_utf8_decode_utf8(s@);
    }
    let len = s.as_bytes().len();
    if len <= max_bytes {
        proof {
            assert(s.spec_bytes().subrange(0, len as int) =~= s.spec_bytes());
        }
        return s.to_owned();
    }
    let mut end: usize = max_bytes;
    while end > 0 && !s.is_char_boundary(end)
        invariant
            end <= max_bytes < s.spec_bytes().len(),
            boundary_at_or_below(s.spec_bytes(), end as int) == boundary_at_or_below(
                s.spec_bytes(),
                max_bytes as int,
            ),
        decreases end,
    {
        end = end - 1;
    }
    proof {
        is_char_boundary_start_end_of_seq(s.spec_bytes());
    }
    let (head, _tail) = s.split_at(end);
    proof {
        encode_utf8_valid_utf8(head@);
        decode_utf8_encode_utf8(head.spec_bytes());
        encode_utf8_decode_utf8(head@);
    }
    head.to_owned()
}

} // verus!
