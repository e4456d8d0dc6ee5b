//! Base64 with the standard alphabet and `=` padding, the form in which raw
//! transaction bytes travel inside a JSON string.

use vstd::prelude::*;

verus! {

/// The character that writes the six-bit value `v`.
pub open spec fn alphabet(v: nat) -> char {
    if v < 26 {
        (65 + v) as char
    } else if v < 52 {
        (97 + (v - 26)) as char
    } else if v < 62 {
        (48 + (v - 52)) as char
    } else if v == 62 {
        '+'
    } else {
        '/'
    }
}

/// The text of `bytes`: each group of three bytes becomes four characters, and
/// a last group of one or two bytes is filled up with `=`.
pub open spec fn encoded(bytes: Seq<u8>) -> Seq<char>
    decreases bytes.len(),
{
    if bytes.len() == 0 {
        Seq::empty()
    } else if bytes.len() == 1 {
        let a = bytes[0] as nat;
        seq![alphabet(a / 4), alphabet((a % 4) * 16), '=', '=']
    } else if bytes.len() == 2 {
        let a = bytes[0] as nat;
        let b = bytes[1] as nat;
        seq![alphabet(a / 4), alphabet((a % 4) * 16 + b / 16), alphabet((b % 16) * 4), '=']
    } else {
        let a = bytes[0] as nat;
        let b = bytes[1] as nat;
        let c = bytes[2] as nat;
        seq![
            alphabet(a / 4),
            alphabet((a % 4) * 16 + b / 16),
            alphabet((b % 16) * 4 + c / 64),
            alphabet(c % 64),
        ] + encoded(bytes.skip(3))
    }
}

/// Whether `c` may occur in an encoded text.
pub open spec fn is_base64_char(c: char) -> bool {
    ||| 'A' <= c <= 'Z'
    ||| 'a' <= c <= 'z'
    ||| '0' <= c <= '9'
    ||| c == '+'
    ||| c == '/'
    ||| c == '='
}

/// An encoded text has four characters for every three bytes begun, all of
/// them from the alphabet or the padding sign.
pub proof fn lemma_encoded_shape(bytes: Seq<u8>)
    ensures
        encoded(bytes).len() == 4 * ((bytes.len() + 2) / 3),
        forall|i: int| 0 <= i < encoded(bytes).len() ==> is_base64_char(#[trigger] encoded(bytes)[i]),
    decreases bytes.len(),
{
    if bytes.len() >= 3 {
        lemma_encoded_shape(bytes.skip(3));
    }
}

fn sextet(v: u8) -> (c: char)
    requires
        v < 64,
    ensures
        c == alphabet(v as nat),
{
    if v < 26 {
        (65 + v) as char
    } else if v < 52 {
        (97 + (v - 26)) as char
    } else if v < 62 {
        (48 + (v - 52)) as char
    } else if v == 62 {
        '+'
    } else {
        '/'
    }
}

/// Encodes `bytes` as Base64 text.
pub fn encode(bytes: &[u8]) -> (text: String)
    ensures
        text@ == encoded(bytes@),
{
    let mut text = String::new();
    let n = bytes.len();
    let mut i: usize = 0;
    assert(bytes@.skip(0) =~= bytes@);
    assert(text@ + encoded(bytes@) =~= encoded(bytes@));
    while n - i >= 3
        invariant
            0 <= i <= n,
            n == bytes@.len(),
            text@ + encoded(bytes@.skip(i as int)) == encoded(bytes@),
        decreases n - i,
    {
        let a = bytes[i];
        let b = bytes[i + 1];
        let c = bytes[i + 2];
        let ghost before = text@;
        let ghost rest = bytes@.skip(i as int);
        text.push(sextet(a / 4));
        text.push(sextet((a % 4) * 16 + b / 16));
        text.push(sextet((b % 16) * 4 + c / 64));
        text.push(sextet(c % 64));
        proof {
            assert(rest.skip(3) =~= bytes@.skip(i + 3));
            assert(text@ + encoded(rest.skip(3)) =~= before + encoded(rest));
        }
        i += 3;
    }
    let ghost before = text@;
    let ghost rest = bytes@.skip(i as int);
    if n - i == 1 {
        let a = bytes[i];
        text.push(sextet(a / 4));
        text.push(sextet((a % 4) * 16));
        text.push('=');
        text.push('=');
        assert(text@ =~= before + encoded(rest));
    } else if n - i == 2 {
        let a = bytes[i];
        let b = bytes[i + 1];
        text.push(sextet(a / 4));
        text.push(sextet((a % 4) * 16 + b / 16));
        text.push(sextet((b % 16) * 4));
        text.push('=');
        assert(text@ =~= before + encoded(rest));
    } else {
        assert(text@ =~= before + encoded(rest));
    }
    text
}

} // verus!
