//! Address well-formedness.
//!
//! The registry treats addresses as opaque identifiers but rejects malformed
//! ones wherever an address enters through a message payload (the admin at
//! instantiation, a delegated owner, a depositor named by a token
//! notification, a configured payment-token address). An address is
//! well-formed when it is 3 to 54 characters long and consists of lowercase
//! ASCII letters, digits, `-`, `_` and `.`.

use vstd::prelude::*;
use vstd::string::StrSliceExecFns;

verus! {

/// Characters allowed in a well-formed address.
pub open spec fn valid_addr_char(c: char) -> bool {
    ('a' <= c && c <= 'z') || ('0' <= c && c <= '9') || c == '-' || c == '_' || c == '.'
}

/// A well-formed address: bounded length, restricted character set.
pub open spec fn valid_addr(s: Seq<char>) -> bool {
    &&& 3 <= s.len() <= 54
    &&& forall|i: int| 0 <= i < s.len() ==> #[trigger] valid_addr_char(s[i])
}

/// Decides [`valid_addr`] for an address candidate.
pub fn validate_address(s: &str) -> (ok: bool)
    ensures
        ok == valid_addr(s@),
{
    let n = s.unicode_len();
    if n < 3 || n > 54 {
        return false;
    }
    let mut i: usize = 0;
    while i < n
        invariant
            0 <= i <= n,
            n == s@.len(),
            3 <= n <= 54,
            forall|j: int| 0 <= j < i ==> #[trigger] valid_addr_char(s@[j]),
        decreases n - i,
    {
        let c = s.get_char(i);
        let ok = ('a' <= c && c <= 'z') || ('0' <= c && c <= '9') || c == '-' || c == '_'
            || c == '.';
        if !ok {
            assert(!valid_addr_char(s@[i as int]));
            return false;
        }
        assert(valid_addr_char(s@[i as int]));
        i = i + 1;
    }
    true
}

} // verus!
