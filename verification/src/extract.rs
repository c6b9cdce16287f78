//! Extraction of request and response metadata from plain header and
//! routing values handed in by the transport shell.

use vstd::prelude::*;
use crate::meta::RequestMeta;
use crate::meta::ResponseMeta;

verus! {

pub open spec fn is_dec_digit(c: char) -> bool {
    '0' <= c && c <= '9'
}

pub open spec fn dec_digit_val(c: char) -> nat {
    (c as int - '0' as int) as nat
}

pub open spec fn all_dec_digits(s: Seq<char>) -> bool {
    forall|i: int| 0 <= i < s.len() ==> is_dec_digit(#[trigger] s[i])
}

/// The number spelled by a sequence of decimal digits, most significant
/// first.
pub open spec fn dec_val(s: Seq<char>) -> nat
    decreases s.len(),
{
    if s.len() == 0 {
        0
    } else {
        dec_val(s.drop_last()) * 10 + dec_digit_val(s.last())
    }
}

/// The content length denoted by a header value: the number it spells
/// when it is a plain decimal that fits in `usize`, and 0 on anything
/// else (empty, stray characters, out of range).
pub open spec fn content_length_of(s: Seq<char>) -> nat {
    if s.len() > 0 && all_dec_digits(s) && dec_val(s) <= usize::MAX {
        dec_val(s)
    } else {
        0
    }
}

/// Extending a digit string on the right never decreases its value.
proof fn lemma_dec_val_take_le(s: Seq<char>, i: int)
    requires
        0 <= i <= s.len(),
    ensures
        dec_val(s.take(i)) <= dec_val(s),
    decreases s.len() - i,
{
    if i < s.len() {
        lemma_dec_val_take_le(s, i + 1);
        assert(s.take(i + 1).drop_last() =~= s.take(i));
        assert(dec_val(s.take(i + 1)) == dec_val(s.take(i)) * 10 + dec_digit_val(s[i]));
        assert(dec_val(s.take(i)) <= dec_val(s.take(i)) * 10) by (nonlinear_arith);
    } else {
        assert(s.take(i) =~= s);
    }
}

/// Parse a content-length header value. Any value that is not a plain
/// decimal number fitting in `usize` yields 0 rather than an error, so
/// a malformed header can never fail the request path.
pub fn parse_content_length(s: &str) -> (n: usize)
    ensures
        n == content_length_of(s@),
{
    let len = s.unicode_len();
    if len == 0 {
        return 0;
    }
    let mut acc: usize = 0;
    let mut i: usize = 0;
    while i < len
        invariant
            0 < len == s@.len(),
            0 <= i <= len,
            all_dec_digits(s@.take(i as int)),
            acc == dec_val(s@.take(i as int)),
        decreases len - i,
    {
        let c = s.get_char(i);
        if c < '0' || c > '9' {
            assert(!is_dec_digit(s@[i as int]));
            return 0;
        }
        let d: usize = (c as u32 as usize) - 48;
        if acc > usize::MAX / 10 || (acc == usize::MAX / 10 && d > usize::MAX % 10) {
            proof {
                let t = s@.take(i + 1);
                assert(t.drop_last() =~= s@.take(i as int));
                assert(dec_val(t) == acc * 10 + d);
                assert(acc * 10 + d > usize::MAX) by (nonlinear_arith)
                    requires
                        acc > usize::MAX / 10 || (acc == usize::MAX / 10 && d > usize::MAX % 10),
                        d < 10,
                ;
                if all_dec_digits(s@) {
                    lemma_dec_val_take_le(s@, i + 1);
                }
            }
            return 0;
        }
        proof {
            assert(acc * 10 + d <= usize::MAX) by (nonlinear_arith)
                requires
                    acc <= usize::MAX / 10,
                    acc == usize::MAX / 10 ==> d <= usize::MAX % 10,
                    d < 10,
            ;
            assert(s@.take(i + 1).drop_last() =~= s@.take(i as int));
        }
        acc = acc * 10 + d;
        i = i + 1;
    }
    proof {
        assert(s@.take(len as int) =~= s@);
    }
    acc
}

/// The path recorded for a request: the matched route pattern when the
/// routing layer exposed one, the literal request path otherwise.
pub fn select_path(matched_path: Option<String>, raw_path: String) -> (p: String)
    ensures
        matched_path is Some ==> p@ == matched_path.unwrap()@,
        matched_path is None ==> p@ == raw_path@,
{
    match matched_path {
        Some(m) => m,
        None => raw_path,
    }
}

/// Assemble the record stashed when a request is first observed.
///
/// The content length comes from the header value if one was present
/// and parseable, else 0; the path prefers the matched route pattern.
pub fn build_request_meta(
    content_length_header: Option<&str>,
    matched_path: Option<String>,
    method: String,
    url: String,
    raw_path: String,
) -> (m: RequestMeta)
    ensures
        content_length_header is Some ==> m.content_length
            == content_length_of(content_length_header.unwrap()@),
        content_length_header is None ==> m.content_length == 0,
        matched_path is Some ==> m.matched_path@ == matched_path.unwrap()@,
        matched_path is None ==> m.matched_path@ == raw_path@,
        m.method@ == method@,
        m.url@ == url@,
{
    let content_length = match content_length_header {
        Some(h) => parse_content_length(h),
        None => 0,
    };
    RequestMeta {
        content_length,
        matched_path: select_path(matched_path, raw_path),
        method,
        url,
    }
}

/// Assemble the record captured at response completion. A body whose
/// exact size is not known up front is recorded as 0 bytes.
pub fn build_response_meta(status: u16, exact_size: Option<u64>) -> (m: ResponseMeta)
    ensures
        m.status == status,
        exact_size is Some ==> m.size == exact_size.unwrap() as usize,
        exact_size is None ==> m.size == 0,
{
    ResponseMeta {
        status,
        size: match exact_size {
            Some(n) => n as usize,
            None => 0,
        },
    }
}

} // verus!
