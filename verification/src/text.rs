//! Text helpers: Unicode whitespace trimming and decimal rendering of numbers.

use vstd::prelude::*;

verus! {

/// The Unicode `White_Space` property, which `char::is_whitespace` and
/// `str::trim` follow.
pub open spec fn is_white_space(c: char) -> bool {
    let v = c as u32;
    ||| 0x09 <= v <= 0x0d
    ||| v == 0x20
    ||| v == 0x85
    ||| v == 0xa0
    ||| v == 0x1680
    ||| 0x2000 <= v <= 0x200a
    ||| v == 0x2028
    ||| v == 0x2029
    ||| v == 0x202f
    ||| v == 0x205f
    ||| v == 0x3000
}

/// `s` without its leading whitespace.
pub open spec fn trim_start(s: Seq<char>) -> Seq<char>
    decreases s.len(),
{
    if s.len() > 0 && is_white_space(s[0]) {
        trim_start(s.drop_first())
    } else {
        s
    }
}

/// `s` without its trailing whitespace.
pub open spec fn trim_end(s: Seq<char>) -> Seq<char>
    decreases s.len(),
{
    if s.len() > 0 && is_white_space(s.last()) {
        trim_end(s.drop_last())
    } else {
        s
    }
}

/// `s` without leading and trailing whitespace.
pub open spec fn trimmed(s: Seq<char>) -> Seq<char> {
    trim_end(trim_start(s))
}

/// A text is blank when it holds nothing but whitespace.
pub open spec fn is_blank(s: Seq<char>) -> bool {
    forall|i: int| 0 <= i < s.len() ==> is_white_space(#[trigger] s[i])
}

/// `str::trim`: the slice of `s` left once its leading and trailing
/// whitespace (Unicode `White_Space`) is removed.
#[verifier::external_body]
pub(crate) fn trim<'a>(s: &'a str) -> (t: &'a str)
    ensures
        t@ == trimmed(s@),
{
    s.trim()
}

/// A text is blank exactly when trimming leaves nothing of it.
pub proof fn lemma_trimmed_empty_iff_blank(s: Seq<char>)
    ensures
        trimmed(s).len() == 0 <==> is_blank(s),
{
    lemma_trim_start_blank(s);
    lemma_trim_start_head(s);
    lemma_trim_end_blank(trim_start(s));
    let t = trim_start(s);
    if t.len() > 0 {
        assert(!is_white_space(t[0]));
        assert(!is_blank(t));
    }
}

/// Trimming leaves a text alone when it neither starts nor ends with
/// whitespace.
pub proof fn lemma_trimmed_keeps_edges(s: Seq<char>)
    requires
        s.len() > 0,
        !is_white_space(s[0]),
        !is_white_space(s.last()),
    ensures
        trimmed(s) == s,
{
}

proof fn lemma_trim_start_blank(s: Seq<char>)
    ensures
        trim_start(s).len() == 0 <==> is_blank(s),
    decreases s.len(),
{
    if s.len() > 0 && is_white_space(s[0]) {
        let r = s.drop_first();
        lemma_trim_start_blank(r);
        if is_blank(r) {
            assert forall|i: int| 0 <= i < s.len() implies is_white_space(#[trigger] s[i]) by {
                if i > 0 {
                    assert(s[i] == r[i - 1]);
                }
            }
        }
        if is_blank(s) {
            assert forall|i: int| 0 <= i < r.len() implies is_white_space(#[trigger] r[i]) by {
                assert(r[i] == s[i + 1]);
            }
        }
    } else if s.len() > 0 {
        assert(!is_white_space(s[0]));
    }
}

proof fn lemma_trim_start_head(s: Seq<char>)
    ensures
        trim_start(s).len() > 0 ==> !is_white_space(trim_start(s)[0]),
    decreases s.len(),
{
    if s.len() > 0 && is_white_space(s[0]) {
        lemma_trim_start_head(s.drop_first());
    }
}

proof fn lemma_trim_end_blank(s: Seq<char>)
    ensures
        trim_end(s).len() == 0 <==> is_blank(s),
    decreases s.len(),
{
    if s.len() > 0 && is_white_space(s.last()) {
        let r = s.drop_last();
        lemma_trim_end_blank(r);
        if is_blank(r) {
            assert forall|i: int| 0 <= i < s.len() implies is_white_space(#[trigger] s[i]) by {
                if i < s.len() - 1 {
                    assert(s[i] == r[i]);
                }
            }
        }
        if is_blank(s) {
            assert forall|i: int| 0 <= i < r.len() implies is_white_space(#[trigger] r[i]) by {
                assert(r[i] == s[i]);
            }
        }
    } else if s.len() > 0 {
        assert(!is_white_space(s[s.len() - 1]));
    }
}

/// Surrounding a text with whitespace does not change what trimming leaves
/// of it.
pub proof fn lemma_trimmed_ignores_padding(lead: Seq<char>, s: Seq<char>, trail: Seq<char>)
    requires
        is_blank(lead),
        is_blank(trail),
    ensures
        trimmed(lead + s + trail) == trimmed(s),
        is_blank(lead + s + trail) <==> is_blank(s),
{
    let whole = lead + s + trail;
    assert(whole =~= lead + (s + trail));
    lemma_trim_start_skips_blank(lead, s + trail);
    if is_blank(s) {
        assert forall|i: int| 0 <= i < whole.len() implies is_white_space(#[trigger] whole[i]) by {
            if i < lead.len() {
                assert(whole[i] == lead[i]);
            } else if i < lead.len() + s.len() {
                assert(whole[i] == s[i - lead.len()]);
            } else {
                assert(whole[i] == trail[i - lead.len() - s.len()]);
            }
        }
        lemma_trimmed_empty_iff_blank(whole);
        lemma_trimmed_empty_iff_blank(s);
        assert(trimmed(whole) =~= trimmed(s));
    } else {
        let i = choose|i: int| 0 <= i < s.len() && !is_white_space(#[trigger] s[i]);
        assert(whole[lead.len() + i] == s[i]);
        assert(!is_blank(whole));
        lemma_trim_start_keeps_tail(s, trail);
        lemma_trim_end_skips_blank(trim_start(s), trail);
    }
}

proof fn lemma_trim_start_skips_blank(w: Seq<char>, s: Seq<char>)
    requires
        is_blank(w),
    ensures
        trim_start(w + s) == trim_start(s),
    decreases w.len(),
{
    if w.len() == 0 {
        assert(w + s =~= s);
    } else {
        assert(is_white_space(w[0]));
        assert((w + s)[0] == w[0]);
        assert((w + s).drop_first() =~= w.drop_first() + s);
        assert forall|i: int| 0 <= i < w.drop_first().len() implies is_white_space(#[trigger] w.drop_first()[i]) by {
            assert(w.drop_first()[i] == w[i + 1]);
        }
        lemma_trim_start_skips_blank(w.drop_first(), s);
    }
}

proof fn lemma_trim_end_skips_blank(s: Seq<char>, w: Seq<char>)
    requires
        is_blank(w),
    ensures
        trim_end(s + w) == trim_end(s),
    decreases w.len(),
{
    if w.len() == 0 {
        assert(s + w =~= s);
    } else {
        assert(is_white_space(w[w.len() - 1]));
        assert((s + w).last() == w.last());
        assert((s + w).drop_last() =~= s + w.drop_last());
        assert forall|i: int| 0 <= i < w.drop_last().len() implies is_white_space(#[trigger] w.drop_last()[i]) by {
            assert(w.drop_last()[i] == w[i]);
        }
        lemma_trim_end_skips_blank(s, w.drop_last());
    }
}

proof fn lemma_trim_start_keeps_tail(s: Seq<char>, w: Seq<char>)
    requires
        !is_blank(s),
    ensures
        trim_start(s + w) == trim_start(s) + w,
    decreases s.len(),
{
    assert(s.len() > 0);
    assert((s + w)[0] == s[0]);
    if is_white_space(s[0]) {
        let r = s.drop_first();
        assert((s + w).drop_first() =~= r + w);
        let i = choose|i: int| 0 <= i < s.len() && !is_white_space(#[trigger] s[i]);
        assert(i > 0);
        assert(r[i - 1] == s[i]);
        lemma_trim_start_keeps_tail(r, w);
    }
}

/// The digit `d` (0 to 9) as a character.
pub open spec fn digit(d: int) -> char {
    seq!['0', '1', '2', '3', '4', '5', '6', '7', '8', '9'][d]
}

/// The decimal representation of `n`, without leading zeros.
pub open spec fn decimal(n: nat) -> Seq<char>
    decreases n,
{
    if n < 10 {
        seq![digit(n as int)]
    } else {
        decimal(n / 10).push(digit((n % 10) as int))
    }
}

/// The number a string of decimal digits stands for, read from the left.
pub open spec fn digits_value(s: Seq<char>) -> int
    decreases s.len(),
{
    if s.len() == 0 {
        0
    } else {
        digits_value(s.drop_last()) * 10 + (s.last() as u32 - '0' as u32)
    }
}

/// The decimal representation of `n` reads back as `n`, uses only the
/// digits `0` to `9`, and starts with a `0` only for zero itself.
pub proof fn lemma_decimal_reads_back(n: nat)
    ensures
        digits_value(decimal(n)) == n,
        decimal(n).len() >= 1,
        forall|i: int| 0 <= i < decimal(n).len() ==> '0' <= #[trigger] decimal(n)[i] <= '9',
        n > 0 ==> decimal(n)[0] != '0',
    decreases n,
{
    let ds = seq!['0', '1', '2', '3', '4', '5', '6', '7', '8', '9'];
    assert(ds[0] == '0' && ds[1] == '1' && ds[2] == '2' && ds[3] == '3' && ds[4] == '4');
    assert(ds[5] == '5' && ds[6] == '6' && ds[7] == '7' && ds[8] == '8' && ds[9] == '9');
    if n < 10 {
        assert(decimal(n) == seq![digit(n as int)]);
        assert(decimal(n).drop_last() =~= Seq::<char>::empty());
        assert(digit(n as int) as u32 - '0' as u32 == n) by {
            assert('0' as u32 == 48 && '1' as u32 == 49 && '2' as u32 == 50 && '3' as u32 == 51 && '4' as u32 == 52);
            assert('5' as u32 == 53 && '6' as u32 == 54 && '7' as u32 == 55 && '8' as u32 == 56 && '9' as u32 == 57);
        }
        assert(digits_value(Seq::<char>::empty()) == 0);
        assert(decimal(n).last() == digit(n as int));
        assert(digits_value(decimal(n)) == digits_value(decimal(n).drop_last()) * 10
            + (decimal(n).last() as u32 - '0' as u32));
    } else {
        lemma_decimal_reads_back(n / 10);
        let r = decimal(n / 10);
        let m = (n % 10) as int;
        assert(digit(m) as u32 - '0' as u32 == m) by {
            assert('0' as u32 == 48 && '1' as u32 == 49 && '2' as u32 == 50 && '3' as u32 == 51 && '4' as u32 == 52);
            assert('5' as u32 == 53 && '6' as u32 == 54 && '7' as u32 == 55 && '8' as u32 == 56 && '9' as u32 == 57);
        }
        assert(decimal(n) == r.push(digit(m)));
        assert(r.push(digit(m)).drop_last() =~= r);
        assert(decimal(n).last() == digit(m));
        assert(digits_value(decimal(n)) == digits_value(decimal(n).drop_last()) * 10
            + (decimal(n).last() as u32 - '0' as u32));
        assert(n == (n / 10) * 10 + n % 10);
        assert forall|i: int| 0 <= i < decimal(n).len() implies '0' <= #[trigger] decimal(n)[i] <= '9' by {
            if i < r.len() {
                assert(decimal(n)[i] == r[i]);
            }
        }
        assert(decimal(n)[0] == r[0]);
    }
}

/// The decimal representation of `n`, with a leading `-` when it is negative.
pub open spec fn signed_decimal(n: int) -> Seq<char> {
    if n < 0 {
        seq!['-'] + decimal((-n) as nat)
    } else {
        decimal(n as nat)
    }
}

/// `u16::to_string` (through `Display`): the decimal representation of `n`.
#[verifier::external_body]
pub(crate) fn u16_text(n: u16) -> (s: String)
    ensures
        s@ == decimal(n as nat),
{
    n.to_string()
}

/// `i32::to_string` (through `Display`): the decimal representation of `n`,
/// with a leading `-` when it is negative.
#[verifier::external_body]
pub(crate) fn i32_text(n: i32) -> (s: String)
    ensures
        s@ == signed_decimal(n as int),
{
    n.to_string()
}

/// What `String::from_utf8_lossy` makes of `bytes`.
pub uninterp spec fn utf8_lossy(bytes: Seq<u8>) -> Seq<char>;

/// `String::from_utf8_lossy`, owned: the characters that `bytes` encode,
/// with each invalid sequence replaced by U+FFFD. For valid UTF-8 that is
/// the plain decoding; which replacements are made otherwise is left to the
/// name `utf8_lossy`.
#[verifier::external_body]
pub(crate) fn decode_lossy(bytes: &[u8]) -> (s: String)
    ensures
        s@ == utf8_lossy(bytes@),
        vstd::utf8::valid_utf8(bytes@) ==> s@ == vstd::utf8::decode_utf8(bytes@),
{
    String::from_utf8_lossy(bytes).into_owned()
}

} // verus!
