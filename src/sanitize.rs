use vstd::prelude::*;
use crate::text::{has_prefix, push_char, starts_with};

verus! {

/// The longest display name kept, in characters.
pub const MAX_NAME_CHARS: usize = 255;

/// What `char::is_alphanumeric` returns for `c`.
pub uninterp spec fn is_alphanumeric_char(c: char) -> bool;

/// Relies on char::is_alphanumeric: Unicode's Alphabetic or Numeric
/// property, which among ASCII characters holds of letters and digits only.
#[verifier::external_body]
fn is_alphanumeric(c: char) -> (r: bool)
    ensures
        r == is_alphanumeric_char(c),
        (c as u32) < 128 ==> (r <==> ('a' <= c <= 'z' || 'A' <= c <= 'Z' || '0' <= c <= '9')),
{
    c.is_alphanumeric()
}

/// A character that survives sanitization.
pub open spec fn keeps(c: char) -> bool {
    is_alphanumeric_char(c) || c == '.' || c == '-' || c == '_'
}

/// The characters of `s` that survive sanitization, in order.
pub open spec fn kept_chars(s: Seq<char>) -> Seq<char>
    decreases s.len(),
{
    if s.len() == 0 {
        Seq::empty()
    } else {
        let p = kept_chars(s.drop_last());
        if keeps(s.last()) {
            p.push(s.last())
        } else {
            p
        }
    }
}

/// The sanitized display name: the kept characters, at most 255 of them.
pub open spec fn sanitized(s: Seq<char>) -> Seq<char> {
    let k = kept_chars(s);
    if k.len() <= MAX_NAME_CHARS {
        k
    } else {
        k.take(MAX_NAME_CHARS as int)
    }
}

proof fn lemma_kept_chars_grow(s: Seq<char>, i: int)
    requires
        0 <= i < s.len(),
    ensures
        kept_chars(s.take(i + 1)) == (if keeps(s[i]) {
            kept_chars(s.take(i)).push(s[i])
        } else {
            kept_chars(s.take(i))
        }),
{
    assert(s.take(i + 1).drop_last() == s.take(i));
}

/// Every character of `kept_chars(s)` is kept.
pub proof fn lemma_kept_chars_only_kept(s: Seq<char>)
    ensures
        forall|j: int| 0 <= j < kept_chars(s).len() ==> keeps(#[trigger] kept_chars(s)[j]),
    decreases s.len(),
{
    if s.len() > 0 {
        lemma_kept_chars_only_kept(s.drop_last());
        let p = kept_chars(s.drop_last());
        assert forall|j: int| 0 <= j < kept_chars(s).len() implies keeps(
            #[trigger] kept_chars(s)[j],
        ) by {
            if j < p.len() {
                assert(kept_chars(s)[j] == p[j]);
            }
        }
    }
}

/// An ASCII character allowed in a display name.
pub open spec fn ascii_name_char(c: char) -> bool {
    'a' <= c <= 'z' || 'A' <= c <= 'Z' || '0' <= c <= '9' || c == '.' || c == '-' || c == '_'
}

/// Every ASCII character of `s` is a letter, a digit, `.`, `-` or `_`.
pub open spec fn ascii_safe(s: Seq<char>) -> bool {
    forall|j: int| 0 <= j < s.len() && (s[j] as u32) < 128 ==> ascii_name_char(#[trigger] s[j])
}

/// Reduces a client-supplied file name to letters, digits, `.`, `-` and `_`,
/// at most 255 characters long.
pub fn sanitize_filename(filename: &str) -> (r: String)
    ensures
        r@ == sanitized(filename@),
        ascii_safe(r@),
        forall|j: int|
            0 <= j < filename@.len() && (filename@[j] as u32) < 128 ==> (keeps(
                #[trigger] filename@[j],
            ) <==> ascii_name_char(filename@[j])),
{
    let n = filename.unicode_len();
    let mut out = String::new();
    let mut count: usize = 0;
    let mut i: usize = 0;
    while i < n
        invariant
            n == filename@.len(),
            i <= n,
            count == out@.len(),
            out@ == sanitized(filename@.take(i as int)),
            ascii_safe(out@),
            forall|j: int|
                0 <= j < i && (filename@[j] as u32) < 128 ==> (keeps(#[trigger] filename@[j])
                    <==> ascii_name_char(filename@[j])),
        decreases n - i,
    {
        let c = filename.get_char(i);
        proof {
            lemma_kept_chars_grow(filename@, i as int);
        }
        let keep = is_alphanumeric(c) || c == '.' || c == '-' || c == '_';
        if keep && count < MAX_NAME_CHARS {
            let ghost before = out@;
            push_char(&mut out, c);
            count = count + 1;
            assert forall|j: int| 0 <= j < out@.len() && (out@[j] as u32) < 128 implies ascii_name_char(
                #[trigger] out@[j],
            ) by {
                if j < before.len() {
                    assert(out@[j] == before[j]);
                }
            }
        } else if keep {
            proof {
                lemma_sanitized_saturates(filename@, i as int, i + 1);
            }
        }
        i = i + 1;
    }
    assert(filename@.take(n as int) == filename@);
    out
}

proof fn lemma_sanitized_saturates(s: Seq<char>, i: int, j: int)
    requires
        0 <= i <= j <= s.len(),
        sanitized(s.take(i)).len() == MAX_NAME_CHARS,
    ensures
        sanitized(s.take(j)) == sanitized(s.take(i)),
    decreases j - i,
{
    if j > i {
        lemma_sanitized_saturates(s, i, j - 1);
        lemma_kept_chars_grow(s, j - 1);
        lemma_kept_prefix_len(s, j - 1);
    }
}

proof fn lemma_kept_prefix_len(s: Seq<char>, i: int)
    requires
        0 <= i < s.len(),
    ensures
        kept_chars(s.take(i)).len() <= kept_chars(s.take(i + 1)).len(),
        kept_chars(s.take(i + 1)).take(kept_chars(s.take(i)).len() as int) == kept_chars(s.take(i)),
{
    lemma_kept_chars_grow(s, i);
    let a = kept_chars(s.take(i));
    assert(a.push(s[i]).take(a.len() as int) == a);
    assert(a.take(a.len() as int) == a);
}

/// A sanitized name is at most 255 characters long and holds only
/// alphanumeric characters, `.`, `-` and `_`.
pub proof fn lemma_sanitized_safe(s: Seq<char>)
    ensures
        sanitized(s).len() <= MAX_NAME_CHARS,
        forall|j: int| 0 <= j < sanitized(s).len() ==> keeps(#[trigger] sanitized(s)[j]),
{
    lemma_kept_chars_only_kept(s);
    let k = kept_chars(s);
    assert forall|j: int| 0 <= j < sanitized(s).len() implies keeps(#[trigger] sanitized(s)[j]) by {
        assert(sanitized(s)[j] == k[j]);
    }
}

/// Mime types that may be presented inline: images, video and audio.
pub open spec fn viewable_mime(m: Seq<char>) -> bool {
    has_prefix(m, "image/"@) || has_prefix(m, "video/"@) || has_prefix(m, "audio/"@)
}

/// Whether a mime type belongs to a class that a browser may show inline.
pub fn is_viewable_mime(mime_type: &str) -> (r: bool)
    ensures
        r == viewable_mime(mime_type@),
{
    starts_with(mime_type, "image/") || starts_with(mime_type, "video/") || starts_with(
        mime_type,
        "audio/",
    )
}

} // verus!
