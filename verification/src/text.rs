//! UTF-16 text as the engine carries it, and the string operations that the replay API needs.
use vstd::prelude::*;
use vstd::string::*;

verus! {

pub open spec fn is_high_surrogate(u: u16) -> bool {
    0xD800 <= u <= 0xDBFF
}

pub open spec fn is_low_surrogate(u: u16) -> bool {
    0xDC00 <= u <= 0xDFFF
}

/// The character that a high and a low surrogate encode together.
pub open spec fn surrogate_pair_char(high: u16, low: u16) -> char {
    (0x10000 + (high - 0xD800) * 0x400 + (low - 0xDC00)) as char
}

/// The characters that a sequence of UTF-16 code units encodes, or `None` where a surrogate
/// stands unpaired.
pub open spec fn utf16_decode(units: Seq<u16>) -> Option<Seq<char>>
    decreases units.len(),
{
    if units.len() == 0 {
        Some(Seq::empty())
    } else {
        let u = units[0];
        if is_low_surrogate(u) {
            None
        } else if is_high_surrogate(u) {
            if units.len() >= 2 && is_low_surrogate(units[1]) {
                match utf16_decode(units.skip(2)) {
                    Some(rest) => Some(seq![surrogate_pair_char(u, units[1])] + rest),
                    None => None,
                }
            } else {
                None
            }
        } else {
            match utf16_decode(units.skip(1)) {
                Some(rest) => Some(seq![u as char] + rest),
                None => None,
            }
        }
    }
}

/// The UTF-16 code units of one character.
pub open spec fn char_utf16(c: char) -> Seq<u16> {
    let v = c as u32;
    if v < 0x10000 {
        seq![v as u16]
    } else {
        seq![(0xD800 + (v - 0x10000) / 0x400) as u16, (0xDC00 + (v - 0x10000) % 0x400) as u16]
    }
}

/// The UTF-16 code units of a string, character by character.
pub open spec fn utf16_encode(s: Seq<char>) -> Seq<u16>
    decreases s.len(),
{
    if s.len() == 0 {
        Seq::empty()
    } else {
        utf16_encode(s.drop_last()) + char_utf16(s.last())
    }
}

/// `suffix` ends `s`.
pub open spec fn has_suffix(s: Seq<char>, suffix: Seq<char>) -> bool {
    suffix.len() <= s.len() && s.skip(s.len() - suffix.len()) == suffix
}

/// What `str::to_lowercase` gives for a string: the lowercase mapping of Unicode, which
/// this library does not restate.
pub uninterp spec fn lowercased(s: Seq<char>) -> Seq<char>;

/// Calls `String::from_utf16`; its documentation promises the decoded string exactly when
/// the units are valid UTF-16, and an error otherwise.
#[verifier::external_body]
pub(crate) fn string_from_utf16(units: &[u16]) -> (res: Result<String, std::string::FromUtf16Error>)
    ensures
        res is Ok <==> utf16_decode(units@) is Some,
        res matches Ok(s) ==> s@ == utf16_decode(units@).unwrap(),
{
    String::from_utf16(units)
}

/// Calls `str::to_lowercase`; the result is named, not restated.
#[verifier::external_body]
pub(crate) fn to_lowercase(s: &str) -> (res: String)
    ensures
        res@ == lowercased(s@),
{
    s.to_lowercase()
}

/// The characters of a string, in order.
pub fn chars_of(s: &str) -> (v: Vec<char>)
    ensures
        v@ == s@,
{
    let n = s.unicode_len();
    let mut v: Vec<char> = Vec::new();
    let mut i: usize = 0;
    while i < n
        invariant
            n == s@.len(),
            i <= n,
            v@ == s@.take(i as int),
        decreases n - i,
    {
        let c = s.get_char(i);
        v.push(c);
        assert(s@.take(i + 1) == s@.take(i as int).push(c));
        i = i + 1;
    }
    assert(s@.take(n as int) == s@);
    v
}

/// Whether `suffix` ends `s`, character by character.
pub fn ends_with(s: &str, suffix: &str) -> (res: bool)
    ensures
        res == has_suffix(s@, suffix@),
{
    let sv = chars_of(s);
    let xv = chars_of(suffix);
    let n = sv.len();
    let m = xv.len();
    if m > n {
        return false;
    }
    let start = n - m;
    let mut j: usize = 0;
    while j < m
        invariant
            sv@ == s@,
            xv@ == suffix@,
            n == sv@.len(),
            m == xv@.len(),
            m <= n,
            start == n - m,
            j <= m,
            forall|k: int| 0 <= k < j ==> sv@[start + k] == xv@[k],
        decreases m - j,
    {
        if sv[start + j] != xv[j] {
            assert(s@.skip(start as int)[j as int] != suffix@[j as int]);
            return false;
        }
        j = j + 1;
    }
    assert(s@.skip(start as int) =~= suffix@);
    true
}

/// The UTF-16 code units of `s`.
pub fn encode_utf16(s: &str) -> (units: Vec<u16>)
    ensures
        units@ == utf16_encode(s@),
{
    let cs = chars_of(s);
    let n = cs.len();
    let mut units: Vec<u16> = Vec::new();
    let mut i: usize = 0;
    while i < n
        invariant
            cs@ == s@,
            n == cs@.len(),
            i <= n,
            units@ == utf16_encode(s@.take(i as int)),
        decreases n - i,
    {
        let c = cs[i];
        let v: u32 = c as u32;
        let ghost before = units@;
        proof { vstd::utf8::char_is_scalar(c); }
        assert(v <= 0x10FFFF);
        if v < 0x10000 {
            units.push(v as u16);
            assert(units@ == before + char_utf16(c));
        } else {
            let w: u32 = v - 0x10000;
            assert(w / 0x400 < 0x400);
            let high: u16 = (0xD800 + w / 0x400) as u16;
            let low: u16 = (0xDC00 + w % 0x400) as u16;
            units.push(high);
            units.push(low);
            assert(char_utf16(c) == seq![high, low]);
            assert(units@ == before + char_utf16(c));
        }
        assert(s@.take(i + 1).drop_last() == s@.take(i as int));
        i = i + 1;
    }
    assert(s@.take(n as int) == s@);
    units
}


/// Decoding the units of one character gives that character back.
pub proof fn lemma_decode_char_utf16(c: char)
    ensures
        utf16_decode(char_utf16(c)) == Some(seq![c]),
        !char_utf16(c).contains(0u16) <==> c != '\0',
{
    vstd::utf8::char_is_scalar(c);
    let v = c as u32;
    let units = char_utf16(c);
    if v < 0x10000 {
        assert(units[0] == v as u16);
        assert(!is_low_surrogate(units[0]) && !is_high_surrogate(units[0]));
        vstd::utf8::char_u32_cast(c, v);
        assert(units.skip(1) =~= Seq::<u16>::empty());
        assert(utf16_decode(units.skip(1)) == Some(Seq::<char>::empty()));
        assert(seq![c] + Seq::<char>::empty() =~= seq![c]);
        if c == '\0' {
            assert(units[0] == 0u16);
        } else {
            assert(units[0] != 0u16);
            assert(!units.contains(0u16)) by {
                if units.contains(0u16) {
                    let k = choose|k: int| 0 <= k < units.len() && units[k] == 0u16;
                    assert(k == 0);
                }
            }
        }
    } else {
        let w = v - 0x10000;
        let high = (0xD800 + w / 0x400) as u16;
        let low = (0xDC00 + w % 0x400) as u16;
        assert(w / 0x400 < 0x400);
        assert(units == seq![high, low]);
        assert(is_high_surrogate(high) && is_low_surrogate(low));
        assert((w / 0x400) * 0x400 + w % 0x400 == w);
        assert(0x10000 + (high - 0xD800) * 0x400 + (low - 0xDC00) == v);
        vstd::utf8::char_u32_cast(c, v);
        assert(surrogate_pair_char(high, low) == c);
        assert(units.skip(2) =~= Seq::<u16>::empty());
        assert(utf16_decode(units.skip(2)) == Some(Seq::<char>::empty()));
        assert(seq![c] + Seq::<char>::empty() =~= seq![c]);
        assert(c != '\0');
        assert(!units.contains(0u16)) by {
            if units.contains(0u16) {
                let k = choose|k: int| 0 <= k < units.len() && units[k] == 0u16;
                assert(k == 0 || k == 1);
            }
        }
    }
}

/// Units that decode, followed by units that decode, decode to the two texts in turn.
pub proof fn lemma_decode_append(a: Seq<u16>, b: Seq<u16>)
    requires
        utf16_decode(a) is Some,
        utf16_decode(b) is Some,
    ensures
        utf16_decode(a + b) == Some(utf16_decode(a).unwrap() + utf16_decode(b).unwrap()),
    decreases a.len(),
{
    if a.len() == 0 {
        assert(a + b =~= b);
        assert(utf16_decode(a).unwrap() + utf16_decode(b).unwrap() =~= utf16_decode(b).unwrap());
    } else {
        let u = a[0];
        assert((a + b)[0] == u);
        if is_high_surrogate(u) {
            assert((a + b)[1] == a[1]);
            assert((a + b).skip(2) =~= a.skip(2) + b);
            lemma_decode_append(a.skip(2), b);
            let pair = seq![surrogate_pair_char(u, a[1])];
            assert(pair + (utf16_decode(a.skip(2)).unwrap() + utf16_decode(b).unwrap()) =~= (pair
                + utf16_decode(a.skip(2)).unwrap()) + utf16_decode(b).unwrap());
        } else {
            assert((a + b).skip(1) =~= a.skip(1) + b);
            lemma_decode_append(a.skip(1), b);
            let one = seq![u as char];
            assert(one + (utf16_decode(a.skip(1)).unwrap() + utf16_decode(b).unwrap()) =~= (one
                + utf16_decode(a.skip(1)).unwrap()) + utf16_decode(b).unwrap());
        }
    }
}

/// Encoding a text in UTF-16 and decoding the units gives the text back; the units hold a
/// zero exactly where the text holds a NUL character.
pub proof fn lemma_utf16_round_trip(s: Seq<char>)
    ensures
        utf16_decode(utf16_encode(s)) == Some(s),
        utf16_encode(s).contains(0u16) <==> s.contains('\0'),
    decreases s.len(),
{
    if s.len() == 0 {
        assert(utf16_encode(s) =~= Seq::<u16>::empty());
        assert(s =~= Seq::<char>::empty());
    } else {
        let init = s.drop_last();
        let c = s.last();
        lemma_utf16_round_trip(init);
        lemma_decode_char_utf16(c);
        lemma_decode_append(utf16_encode(init), char_utf16(c));
        assert(init + seq![c] =~= s);
        let e = utf16_encode(s);
        assert(e == utf16_encode(init) + char_utf16(c));
        if s.contains('\0') {
            let k = choose|k: int| 0 <= k < s.len() && s[k] == '\0';
            if k == s.len() - 1 {
                let j = choose|j: int| 0 <= j < char_utf16(c).len() && char_utf16(c)[j] == 0u16;
                assert(e[utf16_encode(init).len() + j] == 0u16);
            } else {
                assert(init[k] == '\0');
                let j = choose|j: int| 0 <= j < utf16_encode(init).len() && utf16_encode(init)[j] == 0u16;
                assert(e[j] == 0u16);
            }
        }
        if e.contains(0u16) {
            let j = choose|j: int| 0 <= j < e.len() && e[j] == 0u16;
            if j < utf16_encode(init).len() {
                assert(utf16_encode(init)[j] == 0u16);
                let k = choose|k: int| 0 <= k < init.len() && init[k] == '\0';
                assert(s[k] == '\0');
            } else {
                assert(char_utf16(c)[j - utf16_encode(init).len()] == 0u16);
                assert(s[s.len() - 1] == '\0');
            }
        }
    }
}

} // verus!
