use vstd::prelude::*;
use vstd::slice::slice_index_get;
use vstd::string::StrSliceExecFns;
use vstd::string::StringExecFns;
use vstd::string::StringSliceAdditionalSpecFns;
use vstd::utf8::encode_utf8_decode_utf8;

use crate::error::Error;

verus! {

/// Whether some byte of `bytes` is the C string terminator.
pub open spec fn has_nul(bytes: Seq<u8>) -> bool {
    exists|i: int| 0 <= i < bytes.len() && bytes[i] == 0u8
}

/// Prepare `text` for a native call: its UTF-8 encoding followed by exactly
/// one terminating NUL. Text that itself contains the terminator cannot be
/// carried over the C string convention and is rejected.
pub fn nul_terminate(text: &str) -> (result: Result<Vec<u8>, Error>)
    ensures
        match result {
            Ok(bytes) => !has_nul(text.spec_bytes()) && bytes@ == text.spec_bytes().push(0u8),
            Err(error) => {
                &&& has_nul(text.spec_bytes())
                &&& error.code is None
                &&& error.message matches Some(m) && m@ == "string contains an embedded nul"@
            },
        },
{
    let mut bytes = text.as_bytes_vec();
    let n = bytes.len();
    let mut i: usize = 0;
    while i < n
        invariant
            i <= n,
            n == bytes@.len(),
            bytes@ == text.spec_bytes(),
            forall|j: int| 0 <= j < i ==> bytes@[j] != 0u8,
        decreases n - i,
    {
        if bytes[i] == 0 {
            proof {
                assert(text.spec_bytes()[i as int] == 0u8);
            }
            return Err(
                Error {
                    code: None,
                    message: Some(String::from_str("string contains an embedded nul")),
                },
            );
        }
        i = i + 1;
    }
    bytes.push(0u8);
    Ok(bytes)
}

/// Whether two text slices hold the same characters.
pub fn str_eq(a: &str, b: &str) -> (equal: bool)
    ensures
        equal == (a@ == b@),
{
    let abytes = a.as_bytes();
    let bbytes = b.as_bytes();
    if abytes.len() != bbytes.len() {
        proof {
            if a@ == b@ {
                assert(a.spec_bytes() == b.spec_bytes());
            }
        }
        return false;
    }
    let n = abytes.len();
    let mut i: usize = 0;
    while i < n
        invariant
            i <= n,
            n == abytes@.len(),
            n == bbytes@.len(),
            abytes@ == a.spec_bytes(),
            bbytes@ == b.spec_bytes(),
            forall|j: int| 0 <= j < i ==> abytes@[j] == bbytes@[j],
        decreases n - i,
    {
        let ab = *slice_index_get(abytes, i);
        let bb = *slice_index_get(bbytes, i);
        if ab != bb {
            proof {
                if a@ == b@ {
                    assert(a.spec_bytes() == b.spec_bytes());
                }
            }
            return false;
        }
        i = i + 1;
    }
    proof {
        assert(a.spec_bytes() =~= b.spec_bytes());
        encode_utf8_decode_utf8(a@);
        encode_utf8_decode_utf8(b@);
    }
    true
}

/// The decimal digit for a value below ten.
pub open spec fn digit_char(digit: nat) -> char {
    if digit == 0 {
        '0'
    } else if digit == 1 {
        '1'
    } else if digit == 2 {
        '2'
    } else if digit == 3 {
        '3'
    } else if digit == 4 {
        '4'
    } else if digit == 5 {
        '5'
    } else if digit == 6 {
        '6'
    } else if digit == 7 {
        '7'
    } else if digit == 8 {
        '8'
    } else {
        '9'
    }
}

/// The decimal rendering of a number, most significant digit first.
pub open spec fn spec_decimal(n: nat) -> Seq<char>
    decreases n,
{
    if n < 10 {
        seq![digit_char(n)]
    } else {
        spec_decimal(n / 10).push(digit_char(n % 10))
    }
}

/// The one-character text for a decimal digit.
fn digit_str(digit: usize) -> (result: &'static str)
    requires
        digit < 10,
    ensures
        result@ == seq![digit_char(digit as nat)],
{
    let result: &'static str = if digit == 0 {
        proof {
            reveal_strlit("0");
        }
        "0"
    } else if digit == 1 {
        proof {
            reveal_strlit("1");
        }
        "1"
    } else if digit == 2 {
        proof {
            reveal_strlit("2");
        }
        "2"
    } else if digit == 3 {
        proof {
            reveal_strlit("3");
        }
        "3"
    } else if digit == 4 {
        proof {
            reveal_strlit("4");
        }
        "4"
    } else if digit == 5 {
        proof {
            reveal_strlit("5");
        }
        "5"
    } else if digit == 6 {
        proof {
            reveal_strlit("6");
        }
        "6"
    } else if digit == 7 {
        proof {
            reveal_strlit("7");
        }
        "7"
    } else if digit == 8 {
        proof {
            reveal_strlit("8");
        }
        "8"
    } else {
        proof {
            reveal_strlit("9");
        }
        "9"
    };
    proof {
        assert(result@ =~= seq![digit_char(digit as nat)]);
    }
    result
}

/// Render a number in decimal, most significant digit first.
pub fn decimal_string(n: usize) -> (result: String)
    ensures
        result@ == spec_decimal(n as nat),
    decreases n,
{
    if n < 10 {
        String::from_str(digit_str(n))
    } else {
        let prefix = decimal_string(n / 10);
        let result = prefix.concat(digit_str(n % 10));
        proof {
            assert(result@ =~= spec_decimal(n as nat));
        }
        result
    }
}

} // verus!
