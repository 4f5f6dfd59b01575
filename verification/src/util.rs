//! Small shared checks.

use vstd::prelude::*;

use crate::error::{FatalError, FatalResult};

verus! {

/// Characters allowed in a project or workspace-member name.
pub open spec fn is_name_char(c: char) -> bool {
    ('a' <= c && c <= 'z') || c == '_'
}

/// A valid name holds only lowercase ASCII letters and
/// underscores. Names become filesystem path components, so this
/// also keeps separators and dots out of untrusted member names.
pub open spec fn valid_project_name(s: Seq<char>) -> bool {
    forall|j: int| 0 <= j < s.len() ==> is_name_char(s[j])
}

/// Accepts exactly the valid names and rejects every other string
/// with the invalid-name error.
pub fn check_project_name(name: &str) -> (r: FatalResult<()>)
    ensures
        r is Ok <==> valid_project_name(name@),
        r is Err ==> (r matches Err(e) && e == FatalError::InvalidProjectName),
{
    let n = name.unicode_len();
    let mut i: usize = 0;
    while i < n
        invariant
            i <= n,
            n == name@.len(),
            forall|j: int| 0 <= j < i ==> is_name_char(name@[j]),
        decreases n - i,
    {
        let c = name.get_char(i);
        if !(('a' <= c && c <= 'z') || c == '_') {
            return Err(FatalError::InvalidProjectName);
        }
        i += 1;
    }
    Ok(())
}

} // verus!
