//! Text helpers for close reasons: substring search, case folding and
//! truncation to a UTF-8 byte budget.
use vstd::prelude::*;
use vstd::string::*;
use vstd::utf8::*;

verus! {

/// True when `needle` occurs as a contiguous run inside `hay`.
pub open spec fn contains_seq(hay: Seq<char>, needle: Seq<char>) -> bool {
    exists|i: int|
        0 <= i && i + needle.len() <= hay.len() && #[trigger] hay.subrange(i, i + needle.len())
            == needle
}

/// Number of bytes of the UTF-8 encoding of `s` (what `str::len` reports).
pub open spec fn utf8_len(s: Seq<char>) -> nat {
    encode_utf8(s).len()
}

/// `s` with characters dropped from the end until its UTF-8 encoding is at
/// most `max` bytes long.
pub open spec fn truncate_utf8(s: Seq<char>, max: nat) -> Seq<char>
    decreases s.len(),
{
    if s.len() == 0 || utf8_len(s) <= max {
        s
    } else {
        truncate_utf8(s.drop_last(), max)
    }
}

/// What `str::to_lowercase` returns for a string: it depends on the
/// characters alone.
pub uninterp spec fn lower_of(s: Seq<char>) -> Seq<char>;

/// Relies on `str::to_lowercase` (std): the lowercase form of `s`.
#[verifier::external_body]
pub(crate) fn lowercase(s: &str) -> (r: String)
    ensures
        r@ == lower_of(s@),
{
    s.to_lowercase()
}

proof fn lemma_encode_utf8_concat(a: Seq<char>, b: Seq<char>)
    ensures
        encode_utf8(a + b) == encode_utf8(a) + encode_utf8(b),
    decreases a.len(),
{
    if a.len() == 0 {
        assert(a + b =~= b);
        assert(encode_utf8(a) =~= Seq::<u8>::empty());
        assert(encode_utf8(a) + encode_utf8(b) =~= encode_utf8(b));
    } else {
        assert((a + b).drop_first() =~= a.drop_first() + b);
        lemma_encode_utf8_concat(a.drop_first(), b);
        assert(encode_utf8(a + b) =~= encode_utf8(a) + encode_utf8(b));
    }
}

proof fn lemma_utf8_len_push(s: Seq<char>, c: char)
    ensures
        utf8_len(s.push(c)) == utf8_len(s) + encode_scalar(c as u32).len(),
{
    let one = seq![c];
    assert(s.push(c) =~= s + one);
    lemma_encode_utf8_concat(s, one);
    assert(one.drop_first() =~= Seq::<char>::empty());
    assert(encode_utf8(one) =~= encode_scalar(c as u32) + encode_utf8(one.drop_first()));
    assert(encode_utf8(Seq::<char>::empty()) =~= Seq::<u8>::empty());
}

/// Number of bytes that `c` takes in UTF-8.
fn utf8_width(c: char) -> (r: usize)
    ensures
        r == encode_scalar(c as u32).len(),
        1 <= r <= 4,
{
    proof {
        char_is_scalar(c);
    }
    let v = c as u32;
    if v < 0x80 {
        1
    } else if v < 0x800 {
        2
    } else if v < 0x10000 {
        3
    } else {
        4
    }
}

/// The characters of `s`, one by one.
fn chars_of(s: &str) -> (r: Vec<char>)
    ensures
        r@ == s@,
{
    let n = s.unicode_len();
    let mut out: Vec<char> = Vec::new();
    let mut i: usize = 0;
    while i < n
        invariant
            n == s@.len(),
            i <= n,
            out@ == s@.subrange(0, i as int),
        decreases n - i,
    {
        out.push(s.get_char(i));
        i = i + 1;
    }
    assert(out@ =~= s@);
    out
}

/// `a`, `b` and `c` one after another.
pub fn concat3(a: &str, b: &str, c: &str) -> (r: String)
    ensures
        r@ == a@ + b@ + c@,
{
    let mut r = a.to_owned();
    r.append(b);
    r.append(c);
    r
}

/// Whether `needle` occurs inside `hay`.
pub fn contains_str(hay: &str, needle: &str) -> (r: bool)
    ensures
        r == contains_seq(hay@, needle@),
{
    let h = chars_of(hay);
    let p = chars_of(needle);
    if p.len() == 0 {
        assert(hay@.subrange(0int, 0int + needle@.len()) =~= needle@);
        return true;
    }
    if p.len() > h.len() {
        return false;
    }
    let last = h.len() - p.len();
    let mut i: usize = 0;
    while i <= last
        invariant
            h@ == hay@,
            p@ == needle@,
            last == h@.len() - p@.len(),
            0 < p@.len() <= h@.len(),
            h@.len() == h.len(),
            forall|k: int| 0 <= k < i ==> #[trigger] h@.subrange(k, k + p@.len()) != p@,
        decreases last + 1 - i,
    {
        let mut j: usize = 0;
        let mut same = true;
        while j < p.len()
            invariant
                h@ == hay@,
                p@ == needle@,
                i <= last,
                last == h@.len() - p@.len(),
                h@.len() == h.len(),
                j <= p@.len(),
                same == (forall|t: int| 0 <= t < j ==> h@[i + t] == p@[t]),
            decreases p@.len() - j,
        {
            if h[i + j] != p[j] {
                same = false;
            }
            j = j + 1;
        }
        if same {
            assert(h@.subrange(i as int, i + p@.len()) =~= p@);
            return true;
        }
        assert(h@.subrange(i as int, i + p@.len()) != p@) by {
            let t = choose|t: int| 0 <= t < p@.len() && h@[i + t] != p@[t];
            assert(h@.subrange(i as int, i + p@.len())[t] == h@[i + t]);
        }
        i = i + 1;
    }
    proof {
        if contains_seq(hay@, needle@) {
            let k = choose|k: int|
                0 <= k && k + needle@.len() <= hay@.len() && #[trigger] hay@.subrange(
                    k,
                    k + needle@.len(),
                ) == needle@;
            assert(h@.subrange(k, k + p@.len()) != p@);
        }
    }
    false
}

proof fn lemma_utf8_len_prefix_monotone(s: Seq<char>, a: int, b: int)
    requires
        0 <= a <= b <= s.len(),
    ensures
        utf8_len(s.subrange(0, a)) <= utf8_len(s.subrange(0, b)),
{
    assert(s.subrange(0, b) =~= s.subrange(0, a) + s.subrange(a, b));
    lemma_encode_utf8_concat(s.subrange(0, a), s.subrange(a, b));
}

/// The longest prefix that fits the byte budget is what cutting from the end
/// leaves.
proof fn lemma_truncate_is_longest_prefix(s: Seq<char>, max: nat, k: int)
    requires
        0 <= k <= s.len(),
        utf8_len(s.subrange(0, k)) <= max,
        k == s.len() || utf8_len(s.subrange(0, k + 1)) > max,
    ensures
        truncate_utf8(s, max) == s.subrange(0, k),
    decreases s.len(),
{
    if s.len() == 0 {
        assert(s.subrange(0, k) =~= s);
    } else if utf8_len(s) <= max {
        if k < s.len() {
            lemma_utf8_len_prefix_monotone(s, k + 1, s.len() as int);
            assert(s.subrange(0, s.len() as int) =~= s);
        }
        assert(s.subrange(0, k) =~= s);
    } else {
        if k == s.len() {
            assert(s.subrange(0, k) =~= s);
        }
        let t = s.drop_last();
        assert(t.subrange(0, k) =~= s.subrange(0, k));
        if k < t.len() {
            assert(t.subrange(0, k + 1) =~= s.subrange(0, k + 1));
        }
        lemma_truncate_is_longest_prefix(t, max, k);
    }
}

/// `s` cut from the end, one character at a time, until its UTF-8
/// encoding is at most `max` bytes long.
pub fn truncate_to_bytes(s: &str, max: usize) -> (r: String)
    ensures
        r@ == truncate_utf8(s@, max as nat),
        utf8_len(r@) <= max,
        r@ == s@.subrange(0, r@.len() as int),
{
    let cs = chars_of(s);
    let n = cs.len();
    let mut total: usize = 0;
    let mut k: usize = 0;
    let mut fits = true;
    while k < n && fits
        invariant
            cs@ == s@,
            n == cs@.len(),
            k <= n,
            total == utf8_len(cs@.subrange(0, k as int)),
            total <= max,
            !fits ==> k < n && utf8_len(cs@.subrange(0, k + 1)) > max,
        decreases 2 * (n - k) + if fits { 1int } else { 0int },
    {
        proof {
            lemma_utf8_len_push(cs@.subrange(0, k as int), cs@[k as int]);
            assert(cs@.subrange(0, k as int).push(cs@[k as int]) =~= cs@.subrange(0, k + 1));
        }
        let w = utf8_width(cs[k]);
        if w <= max - total {
            total = total + w;
            k = k + 1;
        } else {
            fits = false;
        }
    }
    proof {
        lemma_truncate_is_longest_prefix(s@, max as nat, k as int);
    }
    s.substring_char(0, k).to_owned()
}

} // verus!
