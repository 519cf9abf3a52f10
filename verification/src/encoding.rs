//! URL query-component encoding and redirect-URL formatting: the query is
//! percent-encoded and substituted for the `{searchTerms}` placeholder of an
//! engine's URL template.

use vstd::prelude::*;
use vstd::string::StrSliceExecFns;
use vstd::utf8::{encode_scalar, encode_utf8};
use crate::text::str_eq;

verus! {

/// Uppercase hexadecimal digit for a value below 16.
pub open spec fn hex_upper(n: u8) -> char
    recommends
        n < 16,
{
    if n < 10 {
        ((('0' as u8) + n) as u8) as char
    } else {
        ((('A' as u8) + n - 10) as u8) as char
    }
}

/// A byte that URL encoding keeps as itself: the ASCII alphanumerics and
/// `-`, `.`, `_`, `~`.
pub open spec fn is_url_unreserved(b: u8) -> bool {
    (('0' as u8) <= b && b <= ('9' as u8)) || (('A' as u8) <= b && b <= ('Z' as u8)) || (('a'
        as u8) <= b && b <= ('z' as u8)) || b == ('-' as u8) || b == ('.' as u8) || b == ('_'
        as u8) || b == ('~' as u8)
}

/// The percent-encoding of one byte: itself when unreserved, otherwise `%`
/// followed by two uppercase hexadecimal digits.
pub open spec fn encoded_byte(b: u8) -> Seq<char> {
    if is_url_unreserved(b) {
        seq![b as char]
    } else {
        seq!['%', hex_upper(b / 16), hex_upper(b % 16)]
    }
}

/// The percent-encoding of a byte sequence, byte by byte in order.
pub open spec fn percent_encoded(bytes: Seq<u8>) -> Seq<char>
    decreases bytes.len(),
{
    if bytes.len() == 0 {
        Seq::empty()
    } else {
        encoded_byte(bytes[0]) + percent_encoded(bytes.drop_first())
    }
}

/// URL query-component encoding of a character sequence: each byte of its
/// UTF-8 form, percent-encoded. The encoding is a single forward pass: a `%`
/// in the input is itself a reserved byte and comes out as `%25`, never
/// interpreted as the start of an existing escape.
pub open spec fn url_encoded(s: Seq<char>) -> Seq<char> {
    percent_encoded(encode_utf8(s))
}

/// Relies on `urlencoding::encode`: percent-encodes every byte of the
/// argument's UTF-8 form except ASCII alphanumerics and `-`, `.`, `_`, `~`,
/// each as `%` plus two uppercase hexadecimal digits, in order.
#[verifier::external_body]
pub(crate) fn encode_component(q: &str) -> (r: String)
    ensures
        r@ == url_encoded(q@),
{
    urlencoding::encode(q).into_owned()
}

/// Encoding is one way and single pass: a `%` in the input is itself
/// re-encoded as `%25`, never read as the start of an existing escape, so
/// no call ever decodes or absorbs the output of an earlier one.
pub proof fn lemma_percent_reencoded(s: Seq<char>)
    ensures
        url_encoded(seq!['%'] + s) == "%25"@ + url_encoded(s),
{
    reveal_strlit("%25");
    let q = seq!['%'] + s;
    assert(q.drop_first() =~= s);
    assert(q[0] == '%');
    assert('%' as u32 == 0x25);
    assert(0x25u32 & 0x7F == 0x25u32) by (bit_vector);
    assert(encode_scalar('%' as u32) =~= seq![0x25u8]);
    assert(encode_utf8(q) =~= seq![0x25u8] + encode_utf8(s));
    let bytes = seq![0x25u8] + encode_utf8(s);
    assert(bytes.drop_first() =~= encode_utf8(s));
    assert(bytes[0] == 0x25u8);
    assert(!is_url_unreserved(0x25u8));
    assert(hex_upper(0x25u8 / 16) == '2');
    assert(hex_upper(0x25u8 % 16) == '5');
    assert("%25"@ =~= seq!['%', '2', '5']);
    assert(percent_encoded(bytes) =~= "%25"@ + percent_encoded(encode_utf8(s)));
}

/// The placeholder token that URL templates carry.
pub open spec fn placeholder() -> Seq<char> {
    "{searchTerms}"@
}

/// `t` with every occurrence of `pat`, scanned left to right without
/// overlap, replaced by `v`; `t` itself when `pat` never occurs.
pub open spec fn replace_all(t: Seq<char>, pat: Seq<char>, v: Seq<char>) -> Seq<char>
    decreases t.len(),
{
    if pat.len() == 0 || t.len() < pat.len() {
        t
    } else if t.subrange(0, pat.len() as int) == pat {
        v + replace_all(t.skip(pat.len() as int), pat, v)
    } else {
        seq![t[0]] + replace_all(t.skip(1), pat, v)
    }
}

/// The redirect target for a query and a template: the template with the
/// placeholder replaced by the URL-encoded query.
pub open spec fn formatted(template: Seq<char>, query: Seq<char>) -> Seq<char> {
    replace_all(template, placeholder(), url_encoded(query))
}

/// Renders a redirect URL: percent-encodes `q` and substitutes it for each
/// `{searchTerms}` placeholder of `template`. A template without the
/// placeholder comes back unchanged.
pub fn format_url(q: &str, template: &str) -> (r: String)
    ensures
        r@ == formatted(template@, q@),
{
    let encoded = encode_component(q);
    let pat = "{searchTerms}";
    proof {
        reveal_strlit("{searchTerms}");
    }
    let plen = pat.unicode_len();
    assert(plen == 13);
    let tlen = template.unicode_len();
    let mut out = String::new();
    let mut i: usize = 0;
    proof {
        assert(template@.skip(0) =~= template@);
        assert(out@ + replace_all(template@, placeholder(), encoded@) =~= replace_all(
            template@,
            placeholder(),
            encoded@,
        ));
    }
    while i < tlen
        invariant
            placeholder().len() == 13,
            plen == 13,
            pat@ == placeholder(),
            tlen == template@.len(),
            encoded@ == url_encoded(q@),
            i <= tlen,
            out@ + replace_all(template@.skip(i as int), placeholder(), encoded@) == formatted(
                template@,
                q@,
            ),
        decreases tlen - i,
    {
        let ghost s = template@.skip(i as int);
        let ghost pre = out@;
        if plen <= tlen - i && str_eq(template.substring_char(i, i + plen), pat) {
            out.append(encoded.as_str());
            proof {
                assert(s.subrange(0, 13) =~= template@.subrange(i as int, i as int + 13));
                assert(s.subrange(0, 13) == placeholder());
                assert(replace_all(s, placeholder(), encoded@) == encoded@ + replace_all(
                    s.skip(13),
                    placeholder(),
                    encoded@,
                ));
                assert(s.skip(13) =~= template@.skip(i as int + 13));
                assert(pre + (encoded@ + replace_all(
                    template@.skip(i as int + 13),
                    placeholder(),
                    encoded@,
                )) =~= (pre + encoded@) + replace_all(
                    template@.skip(i as int + 13),
                    placeholder(),
                    encoded@,
                ));
            }
            i += plen;
        } else {
            let piece = template.substring_char(i, i + 1);
            out.append(piece);
            proof {
                assert(piece@ =~= seq![s[0]]);
                assert(s.skip(1) =~= template@.skip(i as int + 1));
                if s.len() < 13 {
                    assert(replace_all(s, placeholder(), encoded@) == s);
                    assert(replace_all(s.skip(1), placeholder(), encoded@) == s.skip(1));
                    assert(s =~= seq![s[0]] + s.skip(1));
                } else {
                    assert(s.subrange(0, 13) =~= template@.subrange(i as int, i as int + 13));
                    assert(s.subrange(0, 13) != placeholder());
                    assert(replace_all(s, placeholder(), encoded@) == seq![s[0]] + replace_all(
                        s.skip(1),
                        placeholder(),
                        encoded@,
                    ));
                }
                assert(pre + (seq![s[0]] + replace_all(
                    template@.skip(i as int + 1),
                    placeholder(),
                    encoded@,
                )) =~= (pre + seq![s[0]]) + replace_all(
                    template@.skip(i as int + 1),
                    placeholder(),
                    encoded@,
                ));
            }
            i += 1;
        }
    }
    proof {
        assert(template@.skip(tlen as int) =~= Seq::<char>::empty());
        assert(out@ + Seq::<char>::empty() =~= out@);
    }
    out
}

} // verus!
