//! Small verified helpers on byte strings: equality, substring search and
//! ASCII character classes.  Location codes, metadata fields and failure
//! messages are all byte strings to the library.

use vstd::prelude::*;

verus! {

/// Whether `needle` occurs in `haystack` starting at position `i`.
pub open spec fn matches_at(haystack: Seq<u8>, needle: Seq<u8>, i: int) -> bool {
    &&& 0 <= i
    &&& i + needle.len() <= haystack.len()
    &&& forall|k: int| 0 <= k < needle.len() ==> haystack[i + k] == needle[k]
}

/// Whether `needle` occurs anywhere in `haystack`.
pub open spec fn contains_bytes(haystack: Seq<u8>, needle: Seq<u8>) -> bool {
    exists|i: int| matches_at(haystack, needle, i)
}

/// Whether two byte strings are equal.
pub fn bytes_eq(a: &[u8], b: &[u8]) -> (r: bool)
    ensures
        r == (a@ == b@),
{
    if a.len() != b.len() {
        proof {
            assert(a@ != b@);
        }
        return false;
    }
    let n = a.len();
    let mut i: usize = 0;
    while i < n
        invariant
            n == a@.len() && n == b@.len(),
            0 <= i <= n,
            forall|k: int| 0 <= k < i ==> a@[k] == b@[k],
        decreases n - i,
    {
        if a[i] != b[i] {
            proof {
                assert(a@ != b@);
            }
            return false;
        }
        i = i + 1;
    }
    proof {
        assert(a@ =~= b@);
    }
    true
}

/// Whether `needle` occurs in `haystack` starting at `at`; `at` must leave
/// room for the whole needle.
fn matches_at_exec(haystack: &[u8], needle: &[u8], at: usize) -> (r: bool)
    requires
        at + needle@.len() <= haystack@.len(),
    ensures
        r == matches_at(haystack@, needle@, at as int),
{
    let h = haystack.len();
    let n = needle.len();
    let mut k: usize = 0;
    while k < n
        invariant
            h == haystack@.len(),
            n == needle@.len(),
            at + n <= h,
            0 <= k <= n,
            forall|j: int| 0 <= j < k ==> haystack@[at + j] == needle@[j],
        decreases n - k,
    {
        if haystack[at + k] != needle[k] {
            return false;
        }
        k = k + 1;
    }
    true
}

/// Whether `needle` occurs anywhere in `haystack`.
pub fn contains_subslice(haystack: &[u8], needle: &[u8]) -> (r: bool)
    ensures
        r == contains_bytes(haystack@, needle@),
{
    let h = haystack.len();
    let n = needle.len();
    if n > h {
        proof {
            assert(forall|i: int| !matches_at(haystack@, needle@, i));
        }
        return false;
    }
    let last = h - n;
    let mut i: usize = 0;
    while i <= last
        invariant
            h == haystack@.len() && n == needle@.len(),
            n <= h,
            last == h - n,
            0 <= i <= last + 1,
            forall|j: int| 0 <= j < i ==> !matches_at(haystack@, needle@, j),
        decreases last + 1 - i,
    {
        if matches_at_exec(haystack, needle, i) {
            return true;
        }
        i = i + 1;
    }
    proof {
        assert(forall|j: int| matches_at(haystack@, needle@, j) ==> 0 <= j <= last);
    }
    false
}

/// Whether `haystack` begins with `prefix`.
pub fn starts_with_bytes(haystack: &[u8], prefix: &[u8]) -> (r: bool)
    ensures
        r == matches_at(haystack@, prefix@, 0),
{
    if prefix.len() > haystack.len() {
        return false;
    }
    matches_at_exec(haystack, prefix, 0)
}

/// Whether the byte `b` occurs in `s`.
pub open spec fn contains_byte_spec(s: Seq<u8>, b: u8) -> bool {
    exists|i: int| 0 <= i < s.len() && s[i] == b
}

/// Whether the byte `b` occurs in `s`.
pub fn contains_byte(s: &[u8], b: u8) -> (r: bool)
    ensures
        r == contains_byte_spec(s@, b),
{
    let n = s.len();
    let mut i: usize = 0;
    while i < n
        invariant
            n == s@.len(),
            0 <= i <= n,
            forall|k: int| 0 <= k < i ==> s@[k] != b,
        decreases n - i,
    {
        if s[i] == b {
            return true;
        }
        i = i + 1;
    }
    false
}

/// A copy of the byte string.
pub fn copy_bytes(s: &[u8]) -> (r: Vec<u8>)
    ensures
        r@ == s@,
{
    let n = s.len();
    let mut out: Vec<u8> = Vec::new();
    let mut i: usize = 0;
    while i < n
        invariant
            n == s@.len(),
            0 <= i <= n,
            out@.len() == i,
            forall|k: int| 0 <= k < i ==> out@[k] == s@[k],
        decreases n - i,
    {
        out.push(s[i]);
        i = i + 1;
    }
    proof {
        assert(out@ =~= s@);
    }
    out
}

/// An ASCII decimal digit.
pub open spec fn spec_is_ascii_digit(b: u8) -> bool {
    48 <= b <= 57
}

/// An ASCII uppercase letter.
pub open spec fn spec_is_ascii_uppercase(b: u8) -> bool {
    65 <= b <= 90
}

/// An ASCII lowercase letter.
pub open spec fn spec_is_ascii_lowercase(b: u8) -> bool {
    97 <= b <= 122
}

/// An ASCII letter.
pub open spec fn spec_is_ascii_alphabetic(b: u8) -> bool {
    spec_is_ascii_uppercase(b) || spec_is_ascii_lowercase(b)
}

/// An ASCII letter or decimal digit.
pub open spec fn spec_is_ascii_alphanumeric(b: u8) -> bool {
    spec_is_ascii_alphabetic(b) || spec_is_ascii_digit(b)
}

/// An ASCII byte that is not a control character: space through tilde.
pub open spec fn spec_is_ascii_printable(b: u8) -> bool {
    32 <= b <= 126
}

/// The byte with any ASCII lowercase letter raised to its uppercase form.
pub open spec fn spec_to_ascii_uppercase(b: u8) -> u8 {
    if spec_is_ascii_lowercase(b) {
        (b - 32) as u8
    } else {
        b
    }
}

/// The byte with any ASCII uppercase letter lowered to its lowercase form.
pub open spec fn spec_to_ascii_lowercase(b: u8) -> u8 {
    if spec_is_ascii_uppercase(b) {
        (b + 32) as u8
    } else {
        b
    }
}

/// Whether every byte is an ASCII letter.
pub fn all_ascii_alphabetic(s: &[u8]) -> (r: bool)
    ensures
        r == (forall|k: int| 0 <= k < s@.len() ==> spec_is_ascii_alphabetic(#[trigger] s@[k])),
{
    let n = s.len();
    let mut i: usize = 0;
    while i < n
        invariant
            n == s@.len(),
            0 <= i <= n,
            forall|k: int| 0 <= k < i ==> spec_is_ascii_alphabetic(#[trigger] s@[k]),
        decreases n - i,
    {
        let b = s[i];
        if !((65 <= b && b <= 90) || (97 <= b && b <= 122)) {
            return false;
        }
        i = i + 1;
    }
    true
}

/// Whether every byte is an ASCII letter or decimal digit.
pub fn all_ascii_alphanumeric(s: &[u8]) -> (r: bool)
    ensures
        r == (forall|k: int| 0 <= k < s@.len() ==> spec_is_ascii_alphanumeric(#[trigger] s@[k])),
{
    let n = s.len();
    let mut i: usize = 0;
    while i < n
        invariant
            n == s@.len(),
            0 <= i <= n,
            forall|k: int| 0 <= k < i ==> spec_is_ascii_alphanumeric(#[trigger] s@[k]),
        decreases n - i,
    {
        let b = s[i];
        if !((65 <= b && b <= 90) || (97 <= b && b <= 122) || (48 <= b && b <= 57)) {
            return false;
        }
        i = i + 1;
    }
    true
}

/// Whether every byte is printable ASCII.
pub fn all_ascii_printable(s: &[u8]) -> (r: bool)
    ensures
        r == (forall|k: int| 0 <= k < s@.len() ==> spec_is_ascii_printable(#[trigger] s@[k])),
{
    let n = s.len();
    let mut i: usize = 0;
    while i < n
        invariant
            n == s@.len(),
            0 <= i <= n,
            forall|k: int| 0 <= k < i ==> spec_is_ascii_printable(#[trigger] s@[k]),
        decreases n - i,
    {
        let b = s[i];
        if !(32 <= b && b <= 126) {
            return false;
        }
        i = i + 1;
    }
    true
}

/// A copy of `s` with every ASCII lowercase letter raised to uppercase.
pub fn to_ascii_uppercase_bytes(s: &[u8]) -> (r: Vec<u8>)
    ensures
        r@.len() == s@.len(),
        forall|k: int| 0 <= k < s@.len() ==> r@[k] == spec_to_ascii_uppercase(#[trigger] s@[k]),
{
    let n = s.len();
    let mut out: Vec<u8> = Vec::new();
    let mut i: usize = 0;
    while i < n
        invariant
            n == s@.len(),
            0 <= i <= n,
            out@.len() == i,
            forall|k: int| 0 <= k < i ==> out@[k] == spec_to_ascii_uppercase(#[trigger] s@[k]),
        decreases n - i,
    {
        let b = s[i];
        if 97 <= b && b <= 122 {
            out.push(b - 32);
        } else {
            out.push(b);
        }
        i = i + 1;
    }
    out
}

/// A copy of `s` with every ASCII uppercase letter lowered to lowercase.
pub fn to_ascii_lowercase_bytes(s: &[u8]) -> (r: Vec<u8>)
    ensures
        r@.len() == s@.len(),
        forall|k: int| 0 <= k < s@.len() ==> r@[k] == spec_to_ascii_lowercase(#[trigger] s@[k]),
{
    let n = s.len();
    let mut out: Vec<u8> = Vec::new();
    let mut i: usize = 0;
    while i < n
        invariant
            n == s@.len(),
            0 <= i <= n,
            out@.len() == i,
            forall|k: int| 0 <= k < i ==> out@[k] == spec_to_ascii_lowercase(#[trigger] s@[k]),
        decreases n - i,
    {
        let b = s[i];
        if 65 <= b && b <= 90 {
            out.push(b + 32);
        } else {
            out.push(b);
        }
        i = i + 1;
    }
    out
}

} // verus!
