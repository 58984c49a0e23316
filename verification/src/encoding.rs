//! Base64 with the URL-safe alphabet.

use base64::engine::general_purpose::URL_SAFE;
use base64::Engine;
use vstd::prelude::*;

verus! {

/// The symbol that stands for a value of six bits: letters, digits, `-` and `_`.
pub open spec fn symbol(v: int) -> char {
    if v < 26 {
        ('A' as int + v) as char
    } else if v < 52 {
        ('a' as int + v - 26) as char
    } else if v < 62 {
        ('0' as int + v - 52) as char
    } else if v == 62 {
        '-'
    } else {
        '_'
    }
}

/// The encoding of `b`: four symbols for every three bytes, the last group filled up with `=`.
pub open spec fn base64url(b: Seq<u8>) -> Seq<char>
    decreases b.len(),
{
    if b.len() == 0 {
        Seq::empty()
    } else if b.len() == 1 {
        seq![symbol(b[0] as int / 4), symbol(b[0] as int % 4 * 16), '=', '=']
    } else if b.len() == 2 {
        seq![
            symbol(b[0] as int / 4),
            symbol(b[0] as int % 4 * 16 + b[1] as int / 16),
            symbol(b[1] as int % 16 * 4),
            '=',
        ]
    } else {
        seq![
            symbol(b[0] as int / 4),
            symbol(b[0] as int % 4 * 16 + b[1] as int / 16),
            symbol(b[1] as int % 16 * 4 + b[2] as int / 64),
            symbol(b[2] as int % 64),
        ] + base64url(b.skip(3))
    }
}

/// Whether a string can hold the encoding of `len` bytes.
pub open spec fn encodable(len: nat) -> bool {
    (len / 3 + 1) * 4 <= isize::MAX
}

/// Calls `encode` of base64's `URL_SAFE` engine. Trusted: the result is the padded encoding of
/// `data` in the URL-safe alphabet, and the call does not panic while the encoding fits in a
/// string.
#[verifier::external_body]
pub(crate) fn url_safe_encode(data: &[u8]) -> (r: String)
    requires
        encodable(data@.len()),
    ensures
        r@ == base64url(data@),
{
    URL_SAFE.encode(data)
}

/// Values of six bits have different symbols, none of them the filler.
proof fn lemma_symbol(v: int, w: int)
    requires
        0 <= v < 64,
        0 <= w < 64,
    ensures
        symbol(v) == symbol(w) ==> v == w,
        symbol(v) != '=',
{
}

/// The encoding of something is at least one group long.
proof fn lemma_encoding_len(b: Seq<u8>)
    ensures
        b.len() > 0 ==> base64url(b).len() >= 4,
{
}

/// What the first group of a long encoding holds, and what follows it.
proof fn lemma_first_group(b: Seq<u8>)
    requires
        b.len() >= 3,
    ensures
        base64url(b)[0] == symbol(b[0] as int / 4),
        base64url(b)[1] == symbol(b[0] as int % 4 * 16 + b[1] as int / 16),
        base64url(b)[2] == symbol(b[1] as int % 16 * 4 + b[2] as int / 64),
        base64url(b)[3] == symbol(b[2] as int % 64),
        base64url(b).skip(4) == base64url(b.skip(3)),
{
    let group = seq![
        symbol(b[0] as int / 4),
        symbol(b[0] as int % 4 * 16 + b[1] as int / 16),
        symbol(b[1] as int % 16 * 4 + b[2] as int / 64),
        symbol(b[2] as int % 64),
    ];
    assert(base64url(b) == group + base64url(b.skip(3)));
    assert(base64url(b).skip(4) =~= base64url(b.skip(3)));
}

/// Different inputs have different encodings.
pub proof fn law_base64url_injective(a: Seq<u8>, b: Seq<u8>)
    requires
        base64url(a) == base64url(b),
    ensures
        a == b,
    decreases a.len(),
{
    let x = base64url(a);
    let y = base64url(b);
    lemma_encoding_len(a);
    lemma_encoding_len(b);
    if a.len() == 0 || b.len() == 0 {
        assert(a =~= b);
    } else {
        assert(x[0] == y[0] && x[1] == y[1] && x[2] == y[2] && x[3] == y[3]);
        lemma_symbol(a[0] as int / 4, b[0] as int / 4);
        if a.len() == 1 {
            assert(b.len() == 1) by {
                if b.len() == 2 {
                    lemma_symbol(b[1] as int % 16 * 4, 0);
                } else if b.len() > 2 {
                    lemma_symbol(b[1] as int % 16 * 4 + b[2] as int / 64, 0);
                }
            }
            lemma_symbol(a[0] as int % 4 * 16, b[0] as int % 4 * 16);
            assert(a =~= b);
        } else if a.len() == 2 {
            assert(b.len() == 2) by {
                if b.len() == 1 {
                    lemma_symbol(a[1] as int % 16 * 4, 0);
                } else if b.len() > 2 {
                    lemma_symbol(b[2] as int % 64, 0);
                }
            }
            lemma_symbol(
                a[0] as int % 4 * 16 + a[1] as int / 16,
                b[0] as int % 4 * 16 + b[1] as int / 16,
            );
            lemma_symbol(a[1] as int % 16 * 4, b[1] as int % 16 * 4);
            assert(a =~= b);
        } else {
            assert(b.len() > 2) by {
                lemma_symbol(a[2] as int % 64, 0);
            }
            lemma_symbol(
                a[0] as int % 4 * 16 + a[1] as int / 16,
                b[0] as int % 4 * 16 + b[1] as int / 16,
            );
            lemma_symbol(
                a[1] as int % 16 * 4 + a[2] as int / 64,
                b[1] as int % 16 * 4 + b[2] as int / 64,
            );
            lemma_symbol(a[2] as int % 64, b[2] as int % 64);
            lemma_first_group(a);
            lemma_first_group(b);
            law_base64url_injective(a.skip(3), b.skip(3));
            assert(a.len() == a.skip(3).len() + 3);
            assert(b.len() == b.skip(3).len() + 3);
            assert forall|i: int| 0 <= i < a.len() implies i < b.len() && a[i] == b[i] by {
                if i >= 3 {
                    assert(a[i] == a.skip(3)[i - 3]);
                    assert(b[i] == b.skip(3)[i - 3]);
                }
            }
            assert(a =~= b);
        }
    }
}

} // verus!
