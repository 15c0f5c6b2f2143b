use vstd::prelude::*;
use crate::text::push_char;

verus! {

/// Characters that stand for themselves in a query value.
pub open spec fn unreserved(c: char) -> bool {
    ('a' <= c <= 'z') || ('A' <= c <= 'Z') || ('0' <= c <= '9') || c == '-' || c == '.' || c
        == '_' || c == '~'
}

/// Upper-case hexadecimal digits, by value.
pub open spec fn upper_hex() -> Seq<char> {
    seq!['0', '1', '2', '3', '4', '5', '6', '7', '8', '9', 'A', 'B', 'C', 'D', 'E', 'F']
}

/// How one character is written in a query value: an ASCII character
/// other than the unreserved ones as `%` and two hexadecimal digits, any
/// other character as itself.
pub open spec fn escape(c: char) -> Seq<char> {
    if (c as u32) < 128 && !unreserved(c) {
        seq!['%', upper_hex()[((c as u32) / 16) as int], upper_hex()[((c as u32) % 16) as int]]
    } else {
        seq![c]
    }
}

/// A text percent-encoded for a URL query.
pub open spec fn pct_encoded(s: Seq<char>) -> Seq<char>
    decreases s.len(),
{
    if s.len() == 0 {
        Seq::empty()
    } else {
        escape(s[0]) + pct_encoded(s.drop_first())
    }
}

/// The value of a hexadecimal digit of either case.
pub open spec fn hex_value(c: char) -> Option<int> {
    if '0' <= c <= '9' {
        Some((c as u32) - ('0' as u32))
    } else if 'A' <= c <= 'F' {
        Some((c as u32) - ('A' as u32) + 10)
    } else if 'a' <= c <= 'f' {
        Some((c as u32) - ('a' as u32) + 10)
    } else {
        None
    }
}

/// The ASCII character with code `v`.
pub open spec fn ascii_char(v: int) -> char {
    (v as u32) as char
}

/// How a form-urlencoded query value reads back: `+` is a space, `%` and
/// two hexadecimal digits of an ASCII code is that character, and any other
/// character stands for itself.
pub open spec fn form_decode(s: Seq<char>) -> Seq<char>
    decreases s.len(),
{
    if s.len() == 0 {
        Seq::empty()
    } else if s[0] == '%' && s.len() >= 3 && hex_value(s[1]) is Some && hex_value(s[2]) is Some
        && hex_value(s[1])->0 * 16 + hex_value(s[2])->0 < 128 {
        seq![ascii_char(hex_value(s[1])->0 * 16 + hex_value(s[2])->0)] + form_decode(s.skip(3))
    } else if s[0] == '+' {
        seq![' '] + form_decode(s.drop_first())
    } else {
        seq![s[0]] + form_decode(s.drop_first())
    }
}

proof fn lemma_upper_hex(k: int)
    requires
        0 <= k < 16,
    ensures
        hex_value(upper_hex()[k]) == Some(k),
{
    if k < 8 {
        if k < 4 {
            assert(k == 0 || k == 1 || k == 2 || k == 3);
        } else {
            assert(k == 4 || k == 5 || k == 6 || k == 7);
        }
    } else if k < 12 {
        assert(k == 8 || k == 9 || k == 10 || k == 11);
    } else {
        assert(k == 12 || k == 13 || k == 14 || k == 15);
    }
}

/// Decoding a percent-encoded value gives the value back.
pub proof fn lemma_decode_encoded(s: Seq<char>)
    ensures
        form_decode(pct_encoded(s)) == s,
    decreases s.len(),
{
    if s.len() > 0 {
        let c = s[0];
        let rest = pct_encoded(s.drop_first());
        let t = pct_encoded(s);
        lemma_decode_encoded(s.drop_first());
        if (c as u32) < 128 && !unreserved(c) {
            let v = c as u32;
            lemma_upper_hex((v / 16) as int);
            lemma_upper_hex((v % 16) as int);
            assert(t[0] == '%');
            assert(t[1] == upper_hex()[(v / 16) as int]);
            assert(t[2] == upper_hex()[(v % 16) as int]);
            assert(t.skip(3) =~= rest);
            assert((v / 16) * 16 + v % 16 == v);
            assert((c as u32) == v as int);
            vstd::utf8::char_u32_cast(c, v);
            assert(ascii_char(v as int) == c);
            assert(form_decode(t) =~= seq![c] + form_decode(rest));
        } else {
            assert(t[0] == c);
            assert(t.drop_first() =~= rest);
            assert(form_decode(t) =~= seq![c] + form_decode(rest));
        }
        assert(s =~= seq![c] + s.drop_first());
    }
}

proof fn lemma_pct_encoded_push(a: Seq<char>, c: char)
    ensures
        pct_encoded(a.push(c)) == pct_encoded(a) + escape(c),
    decreases a.len(),
{
    if a.len() == 0 {
        let e = Seq::<char>::empty();
        assert(a.push(c).drop_first() =~= e);
        assert(a.push(c)[0] == c);
        assert(pct_encoded(e) =~= e);
        assert(pct_encoded(a.push(c)) =~= escape(c));
    } else {
        assert(a.push(c).drop_first() =~= a.drop_first().push(c));
        lemma_pct_encoded_push(a.drop_first(), c);
        assert(pct_encoded(a.push(c)) =~= pct_encoded(a) + escape(c));
    }
}

/// Appends `s` percent-encoded for a URL query.
pub fn push_encoded(out: &mut String, s: &str)
    ensures
        final(out)@ == old(out)@ + pct_encoded(s@),
{
    let digits = ['0', '1', '2', '3', '4', '5', '6', '7', '8', '9', 'A', 'B', 'C', 'D', 'E', 'F'];
    let n = s.unicode_len();
    let mut i: usize = 0;
    assert(s@.take(0) =~= Seq::<char>::empty());
    assert(old(out)@ + pct_encoded(Seq::<char>::empty()) =~= old(out)@);
    while i < n
        invariant
            n == s@.len(),
            i <= n,
            out@ == old(out)@ + pct_encoded(s@.take(i as int)),
            digits@ == upper_hex(),
        decreases n - i,
    {
        let c = s.get_char(i);
        let ghost before = out@;
        proof {
            assert(s@.take(i + 1) == s@.take(i as int).push(c));
            lemma_pct_encoded_push(s@.take(i as int), c);
        }
        let v = c as u32;
        let plain = ('a' <= c && c <= 'z') || ('A' <= c && c <= 'Z') || ('0' <= c && c <= '9')
            || c == '-' || c == '.' || c == '_' || c == '~';
        if v < 128 && !plain {
            push_char(out, '%');
            push_char(out, digits[(v / 16) as usize]);
            push_char(out, digits[(v % 16) as usize]);
            assert(out@ =~= before + escape(c));
        } else {
            push_char(out, c);
            assert(out@ =~= before + escape(c));
        }
        i = i + 1;
    }
    assert(s@.take(n as int) == s@);
}

} // verus!
