//! Filename validation: a name is used as a storage key and must not be able
//! to escape the storage directory or collide with path syntax, so only
//! nonempty names of ASCII letters, digits, underscore and space are
//! accepted.

use vstd::prelude::*;
use vstd::string::StrSliceExecFns;

verus! {

/// A character that may appear in a document name: an ASCII letter, an ASCII
/// digit, an underscore, or a space.
pub open spec fn is_allowed_char(c: char) -> bool {
    ||| 48 <= c as u32 && c as u32 <= 57
    ||| 65 <= c as u32 && c as u32 <= 90
    ||| 97 <= c as u32 && c as u32 <= 122
    ||| c == '_'
    ||| c == ' '
}

/// A valid document name is nonempty and consists exclusively of allowed
/// characters. The empty name is rejected outright: it holds no disallowed
/// character, but it cannot key a stored document.
pub open spec fn valid_name(s: Seq<char>) -> bool {
    &&& s.len() > 0
    &&& forall|i: int| 0 <= i < s.len() ==> is_allowed_char(#[trigger] s[i])
}

/// Accepts exactly the nonempty names made of ASCII letters, digits,
/// underscore and space; the empty name and anything holding another
/// character (separators, dots, control characters) is rejected.
pub fn check_file_name(file_name: &str) -> (r: bool)
    ensures
        r == valid_name(file_name@),
{
    let len = file_name.unicode_len();
    if len == 0 {
        return false;
    }
    let mut i: usize = 0;
    while i < len
        invariant
            0 <= i <= len,
            len == file_name@.len(),
            forall|j: int| 0 <= j < i ==> is_allowed_char(#[trigger] file_name@[j]),
        decreases len - i,
    {
        let c = file_name.get_char(i);
        let u = c as u32;
        let allowed = (48 <= u && u <= 57) || (65 <= u && u <= 90) || (97 <= u && u <= 122)
            || c == '_' || c == ' ';
        if !allowed {
            return false;
        }
        i = i + 1;
    }
    true
}

} // verus!
