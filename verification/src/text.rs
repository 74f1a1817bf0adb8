//! Text helpers shared by the validated types and the messages of the
//! error types: whitespace trimming, UTF-8 byte counts, and the decimal and
//! hexadecimal spelling of numbers.

use vstd::prelude::*;
use vstd::string::*;

verus! {

/// The Unicode `White_Space` property, the set of characters that
/// `char::is_whitespace` accepts.
pub open spec fn is_white_space(c: char) -> bool {
    let u = c as u32;
    ||| 0x09 <= u <= 0x0D
    ||| u == 0x20
    ||| u == 0x85
    ||| u == 0xA0
    ||| u == 0x1680
    ||| 0x2000 <= u <= 0x200A
    ||| u == 0x2028
    ||| u == 0x2029
    ||| u == 0x202F
    ||| u == 0x205F
    ||| u == 0x3000
}

/// `s` without its leading whitespace.
pub open spec fn trim_start(s: Seq<char>) -> Seq<char>
    decreases s.len(),
{
    if s.len() > 0 && is_white_space(s[0]) {
        trim_start(s.drop_first())
    } else {
        s
    }
}

/// `s` without its trailing whitespace.
pub open spec fn trim_end(s: Seq<char>) -> Seq<char>
    decreases s.len(),
{
    if s.len() > 0 && is_white_space(s.last()) {
        trim_end(s.drop_last())
    } else {
        s
    }
}

/// `s` without leading and trailing whitespace, as `str::trim` gives it.
pub open spec fn trim(s: Seq<char>) -> Seq<char> {
    trim_end(trim_start(s))
}

/// Whether `s` has neither leading nor trailing whitespace.
pub open spec fn is_trimmed(s: Seq<char>) -> bool {
    trim(s) == s
}

/// What `trim_start` leaves is a suffix of its argument that is empty or
/// starts with a character that is not whitespace.
pub proof fn lemma_trim_start_shape(s: Seq<char>)
    ensures
        trim_start(s).len() <= s.len(),
        trim_start(s) == s.subrange(s.len() - trim_start(s).len(), s.len() as int),
        trim_start(s).len() > 0 ==> !is_white_space(trim_start(s)[0]),
    decreases s.len(),
{
    if s.len() > 0 && is_white_space(s[0]) {
        lemma_trim_start_shape(s.drop_first());
        assert(s.drop_first().subrange(
            s.drop_first().len() - trim_start(s).len(),
            s.drop_first().len() as int,
        ) =~= s.subrange(s.len() - trim_start(s).len(), s.len() as int));
    } else {
        assert(s.subrange(0, s.len() as int) =~= s);
    }
}

/// What `trim_end` leaves is a prefix of its argument that is empty or ends
/// with a character that is not whitespace.
pub proof fn lemma_trim_end_shape(s: Seq<char>)
    ensures
        trim_end(s).len() <= s.len(),
        trim_end(s) == s.subrange(0, trim_end(s).len() as int),
        trim_end(s).len() > 0 ==> !is_white_space(trim_end(s).last()),
    decreases s.len(),
{
    if s.len() > 0 && is_white_space(s.last()) {
        lemma_trim_end_shape(s.drop_last());
        assert(s.drop_last().subrange(0, trim_end(s).len() as int) =~= s.subrange(
            0,
            trim_end(s).len() as int,
        ));
    } else {
        assert(s.subrange(0, s.len() as int) =~= s);
    }
}

/// Trimming twice is trimming once: a trimmed text has nothing left to trim.
pub proof fn lemma_trim_idempotent(s: Seq<char>)
    ensures
        trim(trim(s)) == trim(s),
{
    let u = trim_start(s);
    let t = trim_end(u);
    lemma_trim_start_shape(s);
    lemma_trim_end_shape(u);
    if t.len() > 0 {
        assert(t[0] == u[0]);
        assert(trim_start(t) == t);
        assert(trim_end(t) == t);
    }
}

/// The Unicode `White_Space` property holds of exactly these characters:
/// tab, line feed, vertical tab, form feed, carriage return, space, next
/// line, no-break space, Ogham space mark, the eleven spaces from en quad to
/// hair space, line separator, paragraph separator, narrow no-break space,
/// medium mathematical space and ideographic space.
pub proof fn law_white_space_characters(c: char)
    ensures
        is_white_space(c) <==> {
            ||| c == '\t'
            ||| c == '\n'
            ||| c == '\u{0B}'
            ||| c == '\u{0C}'
            ||| c == '\r'
            ||| c == ' '
            ||| c == '\u{85}'
            ||| c == '\u{A0}'
            ||| c == '\u{1680}'
            ||| c == '\u{2000}'
            ||| c == '\u{2001}'
            ||| c == '\u{2002}'
            ||| c == '\u{2003}'
            ||| c == '\u{2004}'
            ||| c == '\u{2005}'
            ||| c == '\u{2006}'
            ||| c == '\u{2007}'
            ||| c == '\u{2008}'
            ||| c == '\u{2009}'
            ||| c == '\u{200A}'
            ||| c == '\u{2028}'
            ||| c == '\u{2029}'
            ||| c == '\u{202F}'
            ||| c == '\u{205F}'
            ||| c == '\u{3000}'
        },
{
}

/// Appending a character to a text appends it to what `trim_start` leaves,
/// unless nothing is left and the character is whitespace too.
pub proof fn lemma_trim_start_push(s: Seq<char>, c: char)
    ensures
        trim_start(s).len() > 0 ==> trim_start(s.push(c)) == trim_start(s).push(c),
        trim_start(s).len() == 0 && is_white_space(c) ==> trim_start(s.push(c)).len() == 0,
        trim_start(s).len() == 0 && !is_white_space(c) ==> trim_start(s.push(c)) == seq![c],
    decreases s.len(),
{
    if s.len() == 0 {
        assert(s.push(c) =~= seq![c]);
        let rest = seq![c].drop_first();
        assert(rest.len() == 0);
        assert(trim_start(rest) == rest);
    } else {
        assert(s.push(c)[0] == s[0]);
        if is_white_space(s[0]) {
            assert(s.push(c).drop_first() =~= s.drop_first().push(c));
            lemma_trim_start_push(s.drop_first(), c);
        }
    }
}

/// A text that does not start with whitespace keeps its first character
/// through `trim_end`.
pub proof fn lemma_trim_end_keeps_first(s: Seq<char>)
    requires
        s.len() > 0,
        !is_white_space(s[0]),
    ensures
        trim_end(s).len() > 0,
        trim_end(s)[0] == s[0],
    decreases s.len(),
{
    if is_white_space(s.last()) {
        assert(s.len() > 1);
        assert(s.drop_last()[0] == s[0]);
        lemma_trim_end_keeps_first(s.drop_last());
    }
}

/// Trimming drops whitespace at either end and nothing else: a whitespace
/// character added at the end or at the start of a text leaves its trimmed
/// form unchanged, and any other character added there is kept as the last,
/// or the first, character of the trimmed text.
pub proof fn law_trim_drops_exactly_white_space(s: Seq<char>, c: char)
    ensures
        is_white_space(c) ==> trim(s.push(c)) == trim(s),
        is_white_space(c) ==> trim(seq![c] + s) == trim(s),
        !is_white_space(c) ==> trim(s.push(c)).len() > 0 && trim(s.push(c)).last() == c,
        !is_white_space(c) ==> trim(seq![c] + s).len() > 0 && trim(seq![c] + s)[0] == c,
{
    lemma_trim_start_push(s, c);
    let t = trim_start(s);
    let u = trim_start(s.push(c));
    if is_white_space(c) {
        if t.len() > 0 {
            assert(u.drop_last() =~= t);
        } else {
            assert(trim_end(t) =~= t);
            assert(trim_end(u) =~= u);
            assert(t =~= u);
        }
        assert((seq![c] + s).drop_first() =~= s);
    } else {
        assert(u.last() == c);
        assert((seq![c] + s)[0] == c);
        assert(trim_start(seq![c] + s) == seq![c] + s);
        lemma_trim_end_keeps_first(seq![c] + s);
    }
}

/// The number of bytes that `c` takes in UTF-8.
pub open spec fn utf8_width(c: char) -> nat {
    let u = c as u32;
    if u <= 0x7F {
        1
    } else if u <= 0x7FF {
        2
    } else if u <= 0xFFFF {
        3
    } else {
        4
    }
}

/// The number of bytes of the UTF-8 encoding of `s`, as `str::len` reports
/// it: the sum of the widths of its characters.
pub open spec fn byte_count(s: Seq<char>) -> nat
    decreases s.len(),
{
    if s.len() == 0 {
        0
    } else {
        byte_count(s.drop_last()) + utf8_width(s.last())
    }
}

/// Whether every character of `s` is ASCII.
pub open spec fn is_ascii_text(s: Seq<char>) -> bool {
    forall|i: int| 0 <= i < s.len() ==> (#[trigger] s[i] as u32) <= 0x7F
}

/// An ASCII text takes one byte per character.
pub proof fn lemma_ascii_byte_count(s: Seq<char>)
    requires
        is_ascii_text(s),
    ensures
        byte_count(s) == s.len(),
    decreases s.len(),
{
    if s.len() > 0 {
        assert(is_ascii_text(s.drop_last())) by {
            assert forall|i: int| 0 <= i < s.drop_last().len() implies (#[trigger] s.drop_last()[i]
                as u32) <= 0x7F by {
                assert(s.drop_last()[i] == s[i]);
            }
        }
        lemma_ascii_byte_count(s.drop_last());
        assert((s[s.len() - 1] as u32) <= 0x7F);
    }
}

/// The character that spells the digit `d` (below 16) in lower-case hexadecimal.
pub open spec fn digit_char(d: nat) -> char {
    if d < 10 {
        (d + 48) as char
    } else {
        (d + 87) as char
    }
}

/// The decimal spelling of `n`, without leading zeros.
pub open spec fn decimal(n: nat) -> Seq<char>
    decreases n,
{
    if n < 10 {
        seq![digit_char(n)]
    } else {
        decimal(n / 10).push(digit_char(n % 10))
    }
}

/// The last `count` hexadecimal digits of `v`, in lower case, most
/// significant first, with leading zeros.
pub open spec fn hex_digits(v: nat, count: nat) -> Seq<char>
    decreases count,
{
    if count == 0 {
        Seq::empty()
    } else {
        hex_digits(v / 16, (count - 1) as nat).push(digit_char(v % 16))
    }
}

/// The hyphenated text of the UUID whose 128 bits (most significant first)
/// are `v`: its 32 lower-case hexadecimal digits in groups of 8, 4, 4, 4 and
/// 12, joined by `-`.
pub open spec fn hyphenated_uuid(v: u128) -> Seq<char> {
    let h = hex_digits(v as nat, 32);
    h.subrange(0, 8) + seq!['-'] + h.subrange(8, 12) + seq!['-'] + h.subrange(12, 16) + seq![
        '-',
    ] + h.subrange(16, 20) + seq!['-'] + h.subrange(20, 32)
}

/// Whether the 128 bits `v` are a version-4 UUID of the RFC 4122 variant:
/// version nibble 4, variant bits `10`.
pub open spec fn is_uuid_v4(v: u128) -> bool {
    &&& (v >> 76u128) & 0xFu128 == 4
    &&& (v >> 62u128) & 0x3u128 == 2
}

/// `count` hexadecimal digits are `count` ASCII characters.
pub proof fn lemma_hex_digits_ascii(v: nat, count: nat)
    ensures
        hex_digits(v, count).len() == count,
        is_ascii_text(hex_digits(v, count)),
    decreases count,
{
    if count > 0 {
        lemma_hex_digits_ascii(v / 16, (count - 1) as nat);
        let head = hex_digits(v / 16, (count - 1) as nat);
        assert forall|i: int| 0 <= i < hex_digits(v, count).len() implies (#[trigger] hex_digits(
            v,
            count,
        )[i] as u32) <= 0x7F by {
            if i < head.len() {
                assert(hex_digits(v, count)[i] == head[i]);
            }
        }
    }
}

/// The hyphenated text of a UUID takes 36 characters, all ASCII, so 36
/// bytes.
pub proof fn lemma_hyphenated_uuid_shape(v: u128)
    ensures
        hyphenated_uuid(v).len() == 36,
        is_ascii_text(hyphenated_uuid(v)),
        byte_count(hyphenated_uuid(v)) == 36,
{
    let h = hex_digits(v as nat, 32);
    lemma_hex_digits_ascii(v as nat, 32);
    let t = hyphenated_uuid(v);
    assert forall|i: int| 0 <= i < t.len() implies (#[trigger] t[i] as u32) <= 0x7F by {
        if i < 8 {
            assert(t[i] == h[i]);
        } else if i == 8 || i == 13 || i == 18 || i == 23 {
            assert(t[i] == '-');
        } else if i < 13 {
            assert(t[i] == h[i - 1]);
        } else if i < 18 {
            assert(t[i] == h[i - 2]);
        } else if i < 23 {
            assert(t[i] == h[i - 3]);
        } else {
            assert(t[i] == h[i - 4]);
        }
    }
    lemma_ascii_byte_count(t);
}

/// Whether `c` has the Unicode `White_Space` property, as
/// `char::is_whitespace` answers.
pub fn char_is_whitespace(c: char) -> (r: bool)
    ensures
        r == is_white_space(c),
{
    let u = c as u32;
    (0x09 <= u && u <= 0x0D) || u == 0x20 || u == 0x85 || u == 0xA0 || u == 0x1680 || (0x2000 <= u
        && u <= 0x200A) || u == 0x2028 || u == 0x2029 || u == 0x202F || u == 0x205F || u == 0x3000
}

/// Calls `String::push`, which appends one character.
#[verifier::external_body]
pub(crate) fn push_char(s: &mut String, c: char)
    ensures
        final(s)@ == old(s)@.push(c),
{
    s.push(c)
}

/// The characters of `s`, in order.
pub fn chars_of(s: &str) -> (v: Vec<char>)
    ensures
        v@ == s@,
{
    let mut v: Vec<char> = Vec::new();
    for c in it: s.chars()
        invariant
            v@ == it.seq().take(it.index() as int),
    {
        v.push(c);
    }
    v
}

/// `s` without leading and trailing whitespace (what `str::trim` returns),
/// as a new `String`.
pub fn trim_to_string(s: &str) -> (r: String)
    ensures
        r@ == trim(s@),
{
    let cs = chars_of(s);
    let n = cs.len();
    let mut start: usize = 0;
    assert(s@.subrange(0, n as int) =~= s@);
    while start < n && char_is_whitespace(cs[start])
        invariant
            cs@ == s@,
            n == cs@.len(),
            start <= n,
            trim_start(s@) == trim_start(s@.subrange(start as int, n as int)),
        decreases n - start,
    {
        assert(s@.subrange(start as int, n as int).drop_first() =~= s@.subrange(
            start + 1,
            n as int,
        ));
        start = start + 1;
    }
    proof {
        let rest = s@.subrange(start as int, n as int);
        if start < n {
            assert(rest[0] == s@[start as int]);
        } else {
            assert(rest.len() == 0);
        }
        assert(trim_start(s@) == rest);
    }
    let mut end: usize = n;
    while end > start && char_is_whitespace(cs[end - 1])
        invariant
            cs@ == s@,
            n == cs@.len(),
            start <= end <= n,
            trim_start(s@) == s@.subrange(start as int, n as int),
            trim(s@) == trim_end(s@.subrange(start as int, end as int)),
        decreases end - start,
    {
        assert(s@.subrange(start as int, end as int).drop_last() =~= s@.subrange(
            start as int,
            end - 1,
        ));
        end = end - 1;
    }
    proof {
        let kept = s@.subrange(start as int, end as int);
        if end > start {
            assert(kept.last() == s@[end - 1]);
        }
        assert(trim(s@) == kept);
    }
    let mut r = String::new();
    let mut i: usize = start;
    while i < end
        invariant
            cs@ == s@,
            n == cs@.len(),
            start <= i <= end <= n,
            r@ == s@.subrange(start as int, i as int),
        decreases end - i,
    {
        push_char(&mut r, cs[i]);
        assert(s@.subrange(start as int, i + 1) =~= s@.subrange(start as int, i as int).push(
            s@[i as int],
        ));
        i = i + 1;
    }
    r
}

/// Whether `s` starts with `prefix`, as `str::starts_with` answers.
pub fn has_prefix(s: &str, prefix: &str) -> (r: bool)
    ensures
        r == prefix@.is_prefix_of(s@),
{
    let text = chars_of(s);
    let start = chars_of(prefix);
    if start.len() > text.len() {
        return false;
    }
    let mut i: usize = 0;
    while i < start.len()
        invariant
            text@ == s@,
            start@ == prefix@,
            start@.len() <= text@.len(),
            i <= start@.len(),
            forall|j: int| 0 <= j < i ==> start@[j] == text@[j],
        decreases start@.len() - i,
    {
        if start[i] != text[i] {
            assert(prefix@[i as int] != s@.subrange(0, prefix@.len() as int)[i as int]);
            return false;
        }
        i = i + 1;
    }
    assert(prefix@ =~= s@.subrange(0, prefix@.len() as int));
    true
}

/// The number of bytes that `c` takes in UTF-8.
pub fn char_width(c: char) -> (w: usize)
    ensures
        w == utf8_width(c),
{
    let u = c as u32;
    if u <= 0x7F {
        1
    } else if u <= 0x7FF {
        2
    } else if u <= 0xFFFF {
        3
    } else {
        4
    }
}

/// Whether `s` takes at most `max` bytes in UTF-8.
pub fn fits_in_bytes(s: &str, max: usize) -> (r: bool)
    ensures
        r == (byte_count(s@) <= max),
{
    let cs = chars_of(s);
    let mut total: usize = 0;
    let mut i: usize = 0;
    while i < cs.len()
        invariant
            cs@ == s@,
            i <= cs@.len(),
            total == byte_count(s@.take(i as int)),
            total <= max,
        decreases cs@.len() - i,
    {
        proof {
            assert(s@.take(i + 1).drop_last() =~= s@.take(i as int));
        }
        let w = char_width(cs[i]);
        if w > max - total {
            proof {
                lemma_byte_count_prefix(s@, i + 1);
            }
            return false;
        }
        total = total + w;
        i = i + 1;
    }
    assert(s@.take(cs@.len() as int) =~= s@);
    true
}

/// A text takes at least as many bytes as any of its beginnings.
pub proof fn lemma_byte_count_prefix(s: Seq<char>, k: int)
    requires
        0 <= k <= s.len(),
    ensures
        byte_count(s.take(k)) <= byte_count(s),
    decreases s.len() - k,
{
    if k < s.len() {
        lemma_byte_count_prefix(s, k + 1);
        assert(s.take(k + 1).drop_last() =~= s.take(k));
    } else {
        assert(s.take(k) =~= s);
    }
}

/// `prefix` followed by `detail`, as a new `String`.
pub fn prefixed(prefix: &str, detail: &str) -> (r: String)
    ensures
        r@ == prefix@ + detail@,
{
    let mut r = String::from_str(prefix);
    r.append(detail);
    r
}

/// The digit `d` (below 16) as a lower-case hexadecimal character.
pub fn digit_to_char(d: u8) -> (c: char)
    requires
        d < 16,
    ensures
        c == digit_char(d as nat),
{
    if d < 10 {
        (d + 48) as char
    } else {
        (d + 87) as char
    }
}

/// The decimal spelling of `n`.
pub fn decimal_string(n: u64) -> (r: String)
    ensures
        r@ == decimal(n as nat),
    decreases n,
{
    if n < 10 {
        let mut r = String::new();
        push_char(&mut r, digit_to_char(n as u8));
        r
    } else {
        let mut r = decimal_string(n / 10);
        push_char(&mut r, digit_to_char((n % 10) as u8));
        r
    }
}

} // verus!
