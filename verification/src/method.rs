//! HTTP method resolution: a method is valid when every byte of it is a
//! token character (RFC 9110 `tchar`); the canonical form maps ASCII
//! lowercase to uppercase, so `get` and `GET` name the same method.

use crate::model::RequestError;
use crate::trusted::ascii_string;
use vstd::prelude::*;
use vstd::string::StrSliceExecFns;
use vstd::utf8::encode_utf8;

verus! {

/// A byte that may appear in an HTTP method token (RFC 9110 `tchar`).
pub open spec fn is_tchar(b: u8) -> bool {
    ||| b == 33u8
    ||| b == 35u8
    ||| b == 36u8
    ||| b == 37u8
    ||| b == 38u8
    ||| b == 39u8
    ||| b == 42u8
    ||| b == 43u8
    ||| b == 45u8
    ||| b == 46u8
    ||| b == 94u8
    ||| b == 95u8
    ||| b == 96u8
    ||| b == 124u8
    ||| b == 126u8
    ||| (48u8 <= b && b <= 57u8)
    ||| (65u8 <= b && b <= 90u8)
    ||| (97u8 <= b && b <= 122u8)
}

/// ASCII lowercase mapped to uppercase; every other byte unchanged.
pub open spec fn upper_byte(b: u8) -> u8 {
    if 97u8 <= b && b <= 122u8 {
        (b - 32) as u8
    } else {
        b
    }
}

/// The UTF-8 bytes of the method text; validity and the canonical form are
/// both decided on these bytes.
pub open spec fn method_bytes(s: Seq<char>) -> Seq<u8> {
    encode_utf8(s)
}

/// A non-empty token of `tchar` bytes.
pub open spec fn valid_method(s: Seq<char>) -> bool {
    &&& method_bytes(s).len() > 0
    &&& forall|i: int| 0 <= i < method_bytes(s).len() ==> is_tchar(#[trigger] method_bytes(s)[i])
}

pub open spec fn canonical_bytes(s: Seq<char>) -> Seq<u8> {
    method_bytes(s).map_values(|b: u8| upper_byte(b))
}

/// The canonical (uppercased) method text.
pub open spec fn canonical_chars(s: Seq<char>) -> Seq<char> {
    canonical_bytes(s).map_values(|b: u8| b as char)
}

/// Whether the method is `GET`, written in any case.
pub open spec fn spec_is_get(s: Seq<char>) -> bool {
    canonical_bytes(s) == seq![71u8, 69u8, 84u8]
}

/// A resolved HTTP method: the canonical uppercased token, and whether it
/// is `GET` (which decides that no request body is attached).
pub struct Method {
    pub text: String,
    pub get: bool,
}

fn is_tchar_exec(b: u8) -> (r: bool)
    ensures
        r == is_tchar(b),
{
    b == 33u8 || b == 35u8 || b == 36u8 || b == 37u8 || b == 38u8 || b == 39u8 || b == 42u8
        || b == 43u8 || b == 45u8 || b == 46u8 || b == 94u8 || b == 95u8 || b == 96u8 || b == 124u8
        || b == 126u8 || (48u8 <= b && b <= 57u8) || (65u8 <= b && b <= 90u8) || (97u8 <= b && b
        <= 122u8)
}

/// Parses the method token, case-insensitively: fails with `InvalidMethod`
/// exactly when the text is empty or holds a non-token character; otherwise
/// returns the canonical uppercased method.
pub fn canonical_method(m: &str) -> (r: Result<Method, RequestError>)
    ensures
        r is Ok <==> valid_method(m@),
        r matches Ok(c) ==> c.text@ == canonical_chars(m@) && c.get == spec_is_get(m@),
        r matches Err(e) ==> e matches RequestError::InvalidMethod,
{
    let bytes: Vec<u8> = m.as_bytes_vec();
    if bytes.len() == 0 {
        return Err(RequestError::InvalidMethod);
    }
    let mut out: Vec<u8> = Vec::new();
    let mut i: usize = 0;
    while i < bytes.len()
        invariant
            0 <= i <= bytes@.len(),
            bytes@ == method_bytes(m@),
            bytes@.len() > 0,
            forall|j: int| 0 <= j < i ==> is_tchar(#[trigger] bytes@[j]),
            out@ == canonical_bytes(m@).take(i as int),
        decreases bytes@.len() - i,
    {
        let b = bytes[i];
        if !is_tchar_exec(b) {
            return Err(RequestError::InvalidMethod);
        }
        let u = if 97u8 <= b && b <= 122u8 {
            b - 32
        } else {
            b
        };
        out.push(u);
        proof {
            assert(out@ =~= canonical_bytes(m@).take(i as int + 1));
        }
        i = i + 1;
    }
    proof {
        assert(out@ =~= canonical_bytes(m@));
        assert(valid_method(m@));
    }
    let get = out.len() == 3 && {
        let a = out[0] == 71u8;
        let b0 = out[1] == 69u8;
        let c = out[2] == 84u8;
        a && b0 && c
    };
    proof {
        if get {
            assert(canonical_bytes(m@) =~= seq![71u8, 69u8, 84u8]);
        }
        if spec_is_get(m@) {
            assert(out@.len() == 3);
            assert(out@[0] == 71u8 && out@[1] == 69u8 && out@[2] == 84u8);
        }
        assert(forall|j: int| 0 <= j < out@.len() ==> #[trigger] out@[j] < 128) by {
            assert(forall|j: int| 0 <= j < out@.len() ==> is_tchar(#[trigger] method_bytes(
                m@,
            )[j]));
        }
    }
    let text = ascii_string(out);
    Ok(Method { text, get })
}

} // verus!
