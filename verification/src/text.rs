//! Text the server derives from what it is sent: user ids from e-mail
//! addresses, and the messages it answers with.
use vstd::prelude::*;
use vstd::string::*;

verus! {

/// Names what std's `str::to_lowercase` returns for a string: its Unicode
/// lower-case form. It depends on the characters of the string alone.
pub uninterp spec fn lowercase(s: Seq<char>) -> Seq<char>;

/// Calls `str::to_lowercase` (std). The contract only names the result: std's
/// documentation defines it by the Unicode `Lowercase` property, which is
/// not written out here.
#[verifier::external_body]
pub(crate) fn to_lowercase(s: &str) -> (r: String)
    ensures
        r@ == lowercase(s@),
{
    s.to_lowercase()
}

/// `k` ends the text before the first `@` of `s`: no `@` comes before it, and
/// it is the end of `s` or an `@`.
pub open spec fn at_boundary(s: Seq<char>, k: int) -> bool {
    &&& 0 <= k <= s.len()
    &&& forall|j: int| 0 <= j < k ==> s[j] != '@'
    &&& (k == s.len() || s[k] == '@')
}

/// What `s.split('@').next()` yields: the text before the first `@`, or all
/// of `s` when it holds none.
pub open spec fn local_part(s: Seq<char>) -> Seq<char> {
    s.take(choose|k: int| at_boundary(s, k))
}

/// The user id of an e-mail address: its local part in lower case.
pub open spec fn ucid_of(email: Seq<char>) -> Seq<char> {
    lowercase(local_part(email))
}

/// There is exactly one boundary.
pub proof fn lemma_boundary_unique(s: Seq<char>, k: int)
    requires
        at_boundary(s, k),
    ensures
        (choose|k: int| at_boundary(s, k)) == k,
        local_part(s) == s.take(k),
{
    let c = choose|k: int| at_boundary(s, k);
    assert(at_boundary(s, c));
    if c < k {
        assert(s[c] == '@');
    } else if k < c {
        assert(s[k] == '@');
    }
}

/// The user id that an e-mail address gives: the part before the first `@`,
/// lower-cased.
pub fn ucid_from_email(email: &str) -> (r: String)
    ensures
        r@ == ucid_of(email@),
{
    let n = email.unicode_len();
    let mut i: usize = 0;
    while i < n && email.get_char(i) != '@'
        invariant
            n == email@.len(),
            i <= n,
            forall|j: int| 0 <= j < i ==> email@[j] != '@',
        decreases n - i,
    {
        i = i + 1;
    }
    proof {
        lemma_boundary_unique(email@, i as int);
    }
    let local = email.substring_char(0, i);
    to_lowercase(local)
}

/// The local part of an address is the text before its first `@`: a prefix
/// with no `@`, followed by an `@` or by the end; the user id is its lower
/// case.
pub proof fn law_local_part(s: Seq<char>)
    ensures
        local_part(s).len() <= s.len(),
        local_part(s) == s.take(local_part(s).len() as int),
        forall|j: int| 0 <= j < local_part(s).len() ==> local_part(s)[j] != '@',
        local_part(s).len() == s.len() || s[local_part(s).len() as int] == '@',
        ucid_of(s) == lowercase(local_part(s)),
{
    let k = lemma_boundary_from(s, 0);
    lemma_boundary_unique(s, k);
}

proof fn lemma_boundary_from(s: Seq<char>, i: int) -> (k: int)
    requires
        0 <= i <= s.len(),
        forall|j: int| 0 <= j < i ==> s[j] != '@',
    ensures
        at_boundary(s, k),
    decreases s.len() - i,
{
    if i == s.len() || s[i] == '@' {
        i
    } else {
        lemma_boundary_from(s, i + 1)
    }
}

} // verus!
