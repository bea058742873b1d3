//! Sixteen-character URL-safe identifier tokens: `Cuid` names a replica
//! (client), `Duid` names a datatype instance.
use core::cmp::Ordering;

use vstd::prelude::*;

verus! {

/// Length of every identifier token.
pub const UID_LEN: usize = 16;

/// The characters the identifier alphabet admits.
pub open spec fn is_uid_char(c: char) -> bool {
    ||| c == '-'
    ||| c == '_'
    ||| ('0' <= c && c <= '9')
    ||| ('a' <= c && c <= 'z')
    ||| ('A' <= c && c <= 'Z')
}

/// A well-formed token: exactly `UID_LEN` characters, each from the alphabet.
pub open spec fn valid_uid(s: Seq<char>) -> bool {
    &&& s.len() == UID_LEN
    &&& forall|i: int| 0 <= i < s.len() ==> is_uid_char(#[trigger] s[i])
}

/// Lexicographic order on character sequences, by code point.
pub open spec fn lex_cmp_chars(a: Seq<char>, b: Seq<char>) -> Ordering
    decreases a.len() + b.len(),
{
    if a.len() == 0 && b.len() == 0 {
        Ordering::Equal
    } else if a.len() == 0 {
        Ordering::Less
    } else if b.len() == 0 {
        Ordering::Greater
    } else if a[0] != b[0] {
        if a[0] < b[0] {
            Ordering::Less
        } else {
            Ordering::Greater
        }
    } else {
        lex_cmp_chars(a.skip(1), b.skip(1))
    }
}

/// An opaque identifier token; equality is by content.
#[derive(Debug, Eq, Hash)]
pub struct Uid(pub String);

/// Identifier of a replica (client).
pub type Cuid = Uid;

/// Identifier of a datatype instance.
pub type Duid = Uid;

impl View for Uid {
    type V = Seq<char>;

    open spec fn view(&self) -> Seq<char> {
        self.0@
    }
}

/// Relies on nanoid::format with nanoid's default generator and URL-safe
/// alphabet: the result holds exactly `size` characters, each drawn from
/// that alphabet. The token is random, so nothing more is promised. A
/// zero size is excluded: on it the generator's fill loop never returns.
#[verifier::external_body]
fn random_token(size: usize) -> (r: String)
    requires
        size >= 1,
    ensures
        r@.len() == size,
        forall|i: int| 0 <= i < r@.len() ==> is_uid_char(#[trigger] r@[i]),
{
    nanoid::format(nanoid::rngs::default, &nanoid::alphabet::SAFE, size)
}

impl Uid {
    /// Draws a fresh random token.
    pub fn new() -> (r: Self)
        ensures
            valid_uid(r@),
    {
        Uid(random_token(UID_LEN))
    }

    /// The all-zeros token.
    pub fn new_nil() -> (r: Self)
        ensures
            r@ == "0000000000000000"@,
            valid_uid(r@),
    {
        proof {
            reveal_strlit("0000000000000000");
        }
        let s: &str = "0000000000000000";
        let r = Uid(s.to_owned());
        r
    }

    /// Whether `s` is a well-formed token.
    pub fn validate(s: &str) -> (r: bool)
        ensures
            r == valid_uid(s@),
    {
        let n = s.unicode_len();
        if n != UID_LEN {
            return false;
        }
        let mut i: usize = 0;
        while i < UID_LEN
            invariant
                s@.len() == UID_LEN,
                i <= UID_LEN,
                forall|j: int| 0 <= j < i ==> is_uid_char(#[trigger] s@[j]),
            decreases UID_LEN - i,
        {
            let c = s.get_char(i);
            let ok = c == '-' || c == '_' || ('0' <= c && c <= '9') || ('a' <= c && c <= 'z') || (
            'A' <= c && c <= 'Z');
            if !ok {
                return false;
            }
            i += 1;
        }
        true
    }

    /// The token's characters.
    pub fn as_str(&self) -> (r: &str)
        ensures
            r@ == self@,
    {
        self.0.as_str()
    }

    /// The token as an owned string.
    pub fn to_string(&self) -> (r: String)
        ensures
            r@ == self@,
    {
        self.0.clone()
    }

    /// Compares two tokens lexicographically by code point, the same order
    /// their string forms take.
    pub fn compare(&self, other: &Self) -> (r: Ordering)
        ensures
            r == lex_cmp_chars(self@, other@),
    {
        let a = self.0.as_str();
        let b = other.0.as_str();
        let a_len = a.unicode_len();
        let b_len = b.unicode_len();
        let mut i: usize = 0;
        proof {
            assert(self@.skip(0) =~= self@);
            assert(other@.skip(0) =~= other@);
        }
        loop
            invariant
                a@ == self@,
                b@ == other@,
                a_len == a@.len(),
                b_len == b@.len(),
                i <= a_len,
                i <= b_len,
                lex_cmp_chars(self@, other@) == lex_cmp_chars(
                    self@.skip(i as int),
                    other@.skip(i as int),
                ),
            decreases a_len + b_len - 2 * i,
        {
            if i >= a_len && i >= b_len {
                return Ordering::Equal;
            }
            if i >= a_len {
                return Ordering::Less;
            }
            if i >= b_len {
                return Ordering::Greater;
            }
            let ca = a.get_char(i);
            let cb = b.get_char(i);
            if ca != cb {
                proof {
                    assert(self@.skip(i as int)[0] == ca);
                    assert(other@.skip(i as int)[0] == cb);
                }
                if ca < cb {
                    return Ordering::Less;
                } else {
                    return Ordering::Greater;
                }
            }
            proof {
                assert(self@.skip(i as int).skip(1) =~= self@.skip(i + 1));
                assert(other@.skip(i as int).skip(1) =~= other@.skip(i + 1));
            }
            i += 1;
        }
    }
}

impl Clone for Uid {
    fn clone(&self) -> (r: Self)
        ensures
            r@ == self@,
    {
        Uid(self.0.clone())
    }
}

impl PartialEq for Uid {
    fn eq(&self, other: &Self) -> (r: bool)
        ensures
            r == (self@ == other@),
    {
        self.0 == other.0
    }
}

impl vstd::std_specs::cmp::PartialEqSpecImpl for Uid {
    open spec fn obeys_eq_spec() -> bool {
        true
    }

    open spec fn eq_spec(&self, other: &Self) -> bool {
        self@ == other@
    }
}

impl Default for Uid {
    /// The default token is the all-zeros token.
    fn default() -> (r: Self)
        ensures
            r@ == "0000000000000000"@,
    {
        Uid::new_nil()
    }
}

} // verus!
