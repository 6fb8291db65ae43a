//! Content digests for change detection. The digest algorithm must match the
//! remote checksum command exactly: both sides use SHA-1, and local digests
//! are rendered as lowercase hex so they compare equal to the remote tool's
//! output. Checksums serve change detection only, not tamper evidence.

use vstd::prelude::*;
use vstd::string::StringExecFns;
use sha1::Digest;

verus! {

/// The SHA-1 digest of a byte sequence. The algorithm is fixed but far too
/// long to state; all that matters here is that it is a function of the
/// bytes alone, shared with the remote checksum tool.
pub uninterp spec fn sha1_of(data: Seq<u8>) -> Seq<u8>;

/// The lowercase hex character for a value below 16.
pub open spec fn hex_digit_char(n: u8) -> char {
    if n == 0 { '0' } else if n == 1 { '1' } else if n == 2 { '2' } else if n == 3 { '3' }
    else if n == 4 { '4' } else if n == 5 { '5' } else if n == 6 { '6' } else if n == 7 { '7' }
    else if n == 8 { '8' } else if n == 9 { '9' } else if n == 10 { 'a' } else if n == 11 { 'b' }
    else if n == 12 { 'c' } else if n == 13 { 'd' } else if n == 14 { 'e' } else { 'f' }
}

/// Lowercase hex rendering of a byte sequence: two digits per byte, high
/// nibble first.
pub open spec fn hex_lower_of(bytes: Seq<u8>) -> Seq<char> {
    Seq::new(
        2 * bytes.len(),
        |i: int|
            if i % 2 == 0 {
                hex_digit_char((bytes[i / 2] / 16) as u8)
            } else {
                hex_digit_char((bytes[i / 2] % 16) as u8)
            },
    )
}

/// Relies on sha1::Sha1 through the digest crate's `Digest::digest`: the
/// SHA-1 hash of the input, always 20 bytes, a function of the bytes alone.
#[verifier::external_body]
fn sha1_digest(data: &[u8]) -> (r: Vec<u8>)
    ensures
        r@ == sha1_of(data@),
        r@.len() == 20,
{
    sha1::Sha1::digest(data).to_vec()
}

/// One lowercase hex digit as a string slice.
fn hex_digit_str(n: u8) -> (r: &'static str)
    requires
        n < 16,
    ensures
        r@ == seq![hex_digit_char(n)],
{
    let r: &'static str = match n {
        0 => "0",
        1 => "1",
        2 => "2",
        3 => "3",
        4 => "4",
        5 => "5",
        6 => "6",
        7 => "7",
        8 => "8",
        9 => "9",
        10 => "a",
        11 => "b",
        12 => "c",
        13 => "d",
        14 => "e",
        _ => "f",
    };
    proof {
        reveal_strlit("0");
        reveal_strlit("1");
        reveal_strlit("2");
        reveal_strlit("3");
        reveal_strlit("4");
        reveal_strlit("5");
        reveal_strlit("6");
        reveal_strlit("7");
        reveal_strlit("8");
        reveal_strlit("9");
        reveal_strlit("a");
        reveal_strlit("b");
        reveal_strlit("c");
        reveal_strlit("d");
        reveal_strlit("e");
        reveal_strlit("f");
        assert(r@ =~= seq![hex_digit_char(n)]);
    }
    r
}

/// Renders bytes as lowercase hex, two digits per byte, high nibble first.
pub fn to_hex_lower(bytes: &Vec<u8>) -> (r: String)
    ensures
        r@ == hex_lower_of(bytes@),
{
    let mut r = String::new();
    let mut i: usize = 0;
    while i < bytes.len()
        invariant
            i <= bytes.len(),
            r@ =~= hex_lower_of(bytes@.subrange(0, i as int)),
        decreases bytes.len() - i,
    {
        let b = bytes[i];
        let hi = b / 16;
        let lo = b % 16;
        r.append(hex_digit_str(hi));
        r.append(hex_digit_str(lo));
        i = i + 1;
        proof {
            assert(r@ =~= hex_lower_of(bytes@.subrange(0, i as int)));
        }
    }
    proof {
        assert(bytes@.subrange(0, bytes@.len() as int) =~= bytes@);
    }
    r
}

/// The digest string a local file's contents compare under: lowercase hex
/// SHA-1, matching what the remote checksum command prints for that file.
pub fn local_digest(data: &[u8]) -> (r: String)
    ensures
        r@ == hex_lower_of(sha1_of(data@)),
{
    let d = sha1_digest(data);
    to_hex_lower(&d)
}

} // verus!
