//! Small operations on text that the session and the envelopes share.

use vstd::prelude::*;

verus! {

/// Relies on `String::push`: the character is appended at the end.
#[verifier::external_body]
pub(crate) fn push_char(s: &mut String, c: char)
    ensures
        final(s)@ == old(s)@.push(c),
{
    s.push(c)
}

/// Relies on `String::pop`: the last character is removed and returned,
/// and an empty string stays empty.
#[verifier::external_body]
pub(crate) fn pop_char(s: &mut String) -> (r: Option<char>)
    ensures
        old(s)@.len() == 0 ==> r is None && final(s)@ == old(s)@,
        old(s)@.len() > 0 ==> r == Some(old(s)@.last()) && final(s)@ == old(s)@.drop_last(),
{
    s.pop()
}

/// The last `n` characters of `s`, or all of `s` where it is shorter.
pub open spec fn last_chars(s: Seq<char>, n: nat) -> Seq<char> {
    if s.len() <= n {
        s
    } else {
        s.subrange(s.len() - n, s.len() as int)
    }
}

/// `a` followed by `b`, as a new string.
pub fn concat_str(a: &str, b: &str) -> (r: String)
    ensures
        r@ == a@ + b@,
{
    let mut r = String::from_str(a);
    r.append(b);
    r
}

/// The short form of a peer id shown in the chat: its last six characters.
pub fn short_peer_id(peer_id: &str) -> (r: String)
    ensures
        r@ == last_chars(peer_id@, 6),
{
    let n = peer_id.unicode_len();
    if n <= 6 {
        String::from_str(peer_id)
    } else {
        String::from_str(peer_id.substring_char(n - 6, n))
    }
}

/// A received file name that can be saved as it stands: not empty, not
/// `.` or `..`, and free of path separators and NUL, so that it names a
/// file inside the downloads directory.
pub open spec fn safe_file_name(s: Seq<char>) -> bool {
    &&& s.len() > 0
    &&& s != seq!['.']
    &&& s != seq!['.', '.']
    &&& forall|i: int| 0 <= i < s.len() ==> s[i] != '/' && s[i] != '\\' && s[i] != '\0'
}

pub fn is_safe_file_name(name: &str) -> (r: bool)
    ensures
        r == safe_file_name(name@),
{
    let n = name.unicode_len();
    if n == 0 {
        return false;
    }
    if n <= 2 {
        let mut dots = true;
        let mut j: usize = 0;
        while j < n
            invariant
                j <= n,
                n == name@.len(),
                dots == forall|i: int| 0 <= i < j ==> name@[i] == '.',
            decreases n - j,
        {
            if name.get_char(j) != '.' {
                dots = false;
            }
            j = j + 1;
        }
        if dots {
            assert(name@ =~= seq!['.'] || name@ =~= seq!['.', '.']);
            return false;
        }
    }
    let mut i: usize = 0;
    while i < n
        invariant
            i <= n,
            n == name@.len(),
            forall|k: int| 0 <= k < i ==> name@[k] != '/' && name@[k] != '\\' && name@[k] != '\0',
        decreases n - i,
    {
        let c = name.get_char(i);
        if c == '/' || c == '\\' || c == '\0' {
            return false;
        }
        i = i + 1;
    }
    proof {
        if n <= 2 {
            assert(name@ != seq!['.']) by {
                if name@ == seq!['.'] {
                    assert(name@[0] == '.');
                }
            }
            assert(name@ != seq!['.', '.']) by {
                if name@ == seq!['.', '.'] {
                    assert(name@[0] == '.' && name@[1] == '.');
                }
            }
        }
    }
    true
}

} // verus!
