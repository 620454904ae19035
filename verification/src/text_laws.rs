//! What holds of the text helpers: trimming, and the writing of string
//! literals.

use crate::text::{
    content_end, content_start, escaped, escaped_text, hex, hex_digit, is_plain, is_printable,
    is_space, string_literal, trimmed,
};
use vstd::prelude::*;

verus! {

/// From `i` up to `content_start(s, i)` there is only whitespace, and no
/// whitespace stands at that index.
pub proof fn content_start_skips_space(s: Seq<char>, i: int)
    requires
        0 <= i <= s.len(),
    ensures
        i <= content_start(s, i) <= s.len(),
        forall|j: int| i <= j < content_start(s, i) ==> is_space(#[trigger] s[j]),
        content_start(s, i) < s.len() ==> !is_space(s[content_start(s, i)]),
    decreases s.len() - i,
{
    if i < s.len() && is_space(s[i]) {
        content_start_skips_space(s, i + 1);
    }
}

/// From `content_end(s, j)` up to `j` there is only whitespace, and no
/// whitespace stands just before that index.
pub proof fn content_end_skips_space(s: Seq<char>, j: int)
    requires
        0 <= j <= s.len(),
    ensures
        0 <= content_end(s, j) <= j,
        forall|i: int| content_end(s, j) <= i < j ==> is_space(#[trigger] s[i]),
        content_end(s, j) > 0 ==> !is_space(s[content_end(s, j) - 1]),
    decreases j,
{
    if 0 < j && is_space(s[j - 1]) {
        content_end_skips_space(s, j - 1);
    }
}

/// Trimming takes away whitespace at the two ends and nothing else: what is
/// left is a stretch of `s` with only whitespace before and after it, and it
/// neither begins nor ends with whitespace.
pub proof fn trimmed_is_tight(s: Seq<char>)
    ensures
        exists|a: int, b: int|
            {
                &&& 0 <= a <= b <= s.len()
                &&& trimmed(s) == #[trigger] s.subrange(a, b)
                &&& forall|i: int| 0 <= i < a ==> is_space(#[trigger] s[i])
                &&& forall|i: int| b <= i < s.len() ==> is_space(#[trigger] s[i])
            },
        trimmed(s).len() > 0 ==> !is_space(trimmed(s).first()) && !is_space(trimmed(s).last()),
{
    let a = content_start(s, 0);
    let b = content_end(s, s.len() as int);
    content_start_skips_space(s, 0);
    content_end_skips_space(s, s.len() as int);
    if a <= b {
        assert(trimmed(s) == s.subrange(a, b));
    } else {
        // Only whitespace: the empty stretch at the end has all of `s` before it.
        let n = s.len() as int;
        assert(a == n) by {
            if a < n {
                assert(!is_space(s[a]));
                assert(b <= a < n);
            }
        }
        assert(trimmed(s) =~= s.subrange(n, n));
    }
}

/// Every digit of a number in base sixteen is a printable character.
pub proof fn hex_is_printable(n: nat)
    ensures
        hex(n).len() > 0,
        forall|i: int| 0 <= i < hex(n).len() ==> is_printable(#[trigger] hex(n)[i]),
    decreases n,
{
    if n >= 16 {
        hex_is_printable(n / 16);
    }
}

/// A character is written inside a string literal in printable ASCII alone.
pub proof fn escaped_is_printable(c: char)
    ensures
        forall|i: int| 0 <= i < escaped(c).len() ==> is_printable(#[trigger] escaped(c)[i]),
{
    hex_is_printable(c as nat);
}

/// The escaped form of a text is written in printable ASCII alone.
pub proof fn escaped_text_is_printable(s: Seq<char>)
    ensures
        forall|i: int|
            0 <= i < escaped_text(s).len() ==> is_printable(#[trigger] escaped_text(s)[i]),
    decreases s.len(),
{
    if s.len() > 0 {
        escaped_text_is_printable(s.drop_last());
        escaped_is_printable(s.last());
        let head = escaped_text(s.drop_last());
        let tail = escaped(s.last());
        assert forall|i: int| 0 <= i < escaped_text(s).len() implies is_printable(
            #[trigger] escaped_text(s)[i],
        ) by {
            if i < head.len() {
                assert(escaped_text(s)[i] == head[i]);
            } else {
                assert(escaped_text(s)[i] == tail[i - head.len()]);
            }
        }
    }
}

/// A string literal is written in printable ASCII alone, whatever its value
/// holds, and stands between two double quotes.
pub proof fn string_literal_is_printable(s: Seq<char>)
    ensures
        string_literal(s).len() >= 2,
        string_literal(s).first() == '"',
        string_literal(s).last() == '"',
        forall|i: int|
            0 <= i < string_literal(s).len() ==> is_printable(#[trigger] string_literal(s)[i]),
{
    escaped_text_is_printable(s);
}

/// A number in base sixteen has a digit for each power of sixteen up to its
/// highest, and no digit is a closing brace.
pub proof fn hex_digits(n: nat)
    ensures
        hex(n).len() >= 1,
        n >= 16 ==> hex(n).len() >= 2,
        forall|i: int| 0 <= i < hex(n).len() ==> (#[trigger] hex(n)[i]) != '}',
    decreases n,
{
    if n >= 16 {
        hex_digits(n / 16);
    }
}

/// Different digits are written differently.
pub proof fn hex_digit_is_injective(d: int, e: int)
    requires
        0 <= d < 16,
        0 <= e < 16,
        hex_digit(d) == hex_digit(e),
    ensures
        d == e,
{
}

/// Different numbers are written differently in base sixteen.
pub proof fn hex_is_injective(a: nat, b: nat)
    requires
        hex(a) == hex(b),
    ensures
        a == b,
    decreases a,
{
    hex_digits(a);
    hex_digits(b);
    if a >= 16 {
        assert(b >= 16);
        let x = hex(a / 16);
        let y = hex(b / 16);
        let da = hex_digit((a % 16) as int);
        let db = hex_digit((b % 16) as int);
        assert(x.push(da) == y.push(db));
        assert(x =~= x.push(da).drop_last());
        assert(y =~= y.push(db).drop_last());
        assert(da == x.push(da).last());
        assert(db == y.push(db).last());
        hex_is_injective(a / 16, b / 16);
        hex_digit_is_injective((a % 16) as int, (b % 16) as int);
    } else {
        assert(b < 16);
        assert(hex(a)[0] == hex_digit(a as int));
        assert(hex(b)[0] == hex_digit(b as int));
        hex_digit_is_injective(a as int, b as int);
    }
}

/// What stands for a character inside a string literal tells the character,
/// whatever follows it: two texts that begin with the escaped forms of `a`
/// and of `b` and are equal begin with the same character and go on alike.
pub proof fn escaped_is_prefix_free(a: char, x: Seq<char>, b: char, y: Seq<char>)
    requires
        escaped(a) + x == escaped(b) + y,
    ensures
        a == b,
        x == y,
{
    let left = escaped(a) + x;
    let right = escaped(b) + y;
    hex_digits(a as nat);
    hex_digits(b as nat);
    assert(left[0] == right[0]);
    if is_plain(a) || is_plain(b) {
        assert(a == b);
    } else {
        assert(left[1] == right[1]);
        let short_a = a == '"' || a == '\\' || a == '\n' || a == '\r' || a == '\t';
        let short_b = b == '"' || b == '\\' || b == '\n' || b == '\r' || b == '\t';
        if short_a || short_b {
            assert(a == b);
        } else {
            let ha = hex(a as nat);
            let hb = hex(b as nat);
            let open = seq!['\\', 'u', '{'];
            assert(left =~= open + (ha + seq!['}'] + x));
            assert(right =~= open + (hb + seq!['}'] + y));
            let la = ha + seq!['}'] + x;
            let lb = hb + seq!['}'] + y;
            assert(la =~= left.skip(3));
            assert(lb =~= right.skip(3));
            assert(la == lb);
            // The first closing brace ends the digits on both sides.
            if ha.len() < hb.len() {
                assert(la[ha.len() as int] == '}');
                assert(lb[ha.len() as int] == hb[ha.len() as int]);
            } else if hb.len() < ha.len() {
                assert(lb[hb.len() as int] == '}');
                assert(la[hb.len() as int] == ha[hb.len() as int]);
            }
            assert(ha.len() == hb.len());
            assert forall|i: int| 0 <= i < ha.len() implies ha[i] == hb[i] by {
                assert(la[i] == ha[i]);
                assert(lb[i] == hb[i]);
            }
            assert(ha =~= hb);
            hex_is_injective(a as nat, b as nat);
            assert(a == b);
        }
    }
    assert(x =~= left.skip(escaped(a).len() as int));
    assert(y =~= right.skip(escaped(b).len() as int));
}

/// The escaped form of a text of one character is that of the character.
pub proof fn escaped_text_of_one(c: char)
    ensures
        escaped_text(seq![c]) == escaped(c),
{
    let one = seq![c];
    assert(one.drop_last() =~= Seq::<char>::empty());
    assert(escaped_text(one.drop_last()) =~= Seq::<char>::empty());
    assert(escaped_text(one) =~= escaped(c));
}

/// The escaped form of two texts, one after the other, is the escaped form
/// of the first followed by that of the second.
pub proof fn escaped_text_of_concat(s: Seq<char>, t: Seq<char>)
    ensures
        escaped_text(s + t) == escaped_text(s) + escaped_text(t),
    decreases t.len(),
{
    if t.len() == 0 {
        assert(s + t =~= s);
    } else {
        escaped_text_of_concat(s, t.drop_last());
        assert((s + t).drop_last() =~= s + t.drop_last());
        assert((s + t).last() == t.last());
    }
}

/// Only the empty text has an empty escaped form.
pub proof fn escaped_text_is_empty_iff(s: Seq<char>)
    ensures
        escaped_text(s).len() == 0 <==> s.len() == 0,
{
    if s.len() > 0 {
        hex_digits(s.last() as nat);
        assert(escaped(s.last()).len() >= 1);
        assert(escaped_text(s) == escaped_text(s.drop_last()) + escaped(s.last()));
        assert(escaped_text(s).len() >= escaped(s.last()).len());
    }
}

/// Different texts have different escaped forms.
pub proof fn escaped_text_is_injective(s: Seq<char>, t: Seq<char>)
    requires
        escaped_text(s) == escaped_text(t),
    ensures
        s == t,
    decreases s.len(),
{
    if s.len() == 0 || t.len() == 0 {
        escaped_text_is_empty_iff(s);
        escaped_text_is_empty_iff(t);
        assert(s =~= t);
    } else {
        assert(s =~= seq![s[0]] + s.skip(1));
        assert(t =~= seq![t[0]] + t.skip(1));
        escaped_text_of_concat(seq![s[0]], s.skip(1));
        escaped_text_of_concat(seq![t[0]], t.skip(1));
        escaped_text_of_one(s[0]);
        escaped_text_of_one(t[0]);
        escaped_is_prefix_free(s[0], escaped_text(s.skip(1)), t[0], escaped_text(t.skip(1)));
        escaped_text_is_injective(s.skip(1), t.skip(1));
    }
}

/// Different values have different string literals: writing a literal loses
/// nothing of its value.
pub proof fn string_literal_is_injective(s: Seq<char>, t: Seq<char>)
    requires
        string_literal(s) == string_literal(t),
    ensures
        s == t,
{
    let a = string_literal(s);
    let b = string_literal(t);
    assert(escaped_text(s) =~= a.subrange(1, a.len() - 1));
    assert(escaped_text(t) =~= b.subrange(1, b.len() - 1));
    escaped_text_is_injective(s, t);
}

} // verus!
