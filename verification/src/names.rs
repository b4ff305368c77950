//! Validity of entry-point names, as the chain defines it.
//!
//! An initialization name reads `init_<contract>`; a receive name reads
//! `<contract>.<function>`.  Both are limited to 100 bytes and to ASCII
//! alphanumeric or punctuation characters — exactly the printable ASCII
//! range besides space, so every valid name is one byte per character.

use vstd::prelude::*;

verus! {

/// The characters the chain accepts in a name: ASCII alphanumerics and
/// punctuation, together the printable ASCII range besides space.
pub open spec fn allowed_name_char(c: char) -> bool {
    33 <= c as u32 && c as u32 <= 126
}

pub open spec fn all_allowed(s: Seq<char>) -> bool {
    forall|i: int| 0 <= i < s.len() ==> allowed_name_char(#[trigger] s[i])
}

pub open spec fn contains_dot(s: Seq<char>) -> bool {
    exists|i: int| 0 <= i < s.len() && s[i] == '.'
}

/// A valid receive name: at most 100 characters, a dot somewhere, and
/// only allowed characters.
pub open spec fn valid_receive_name(s: Seq<char>) -> bool {
    s.len() <= 100 && contains_dot(s) && all_allowed(s)
}

/// A valid initialization name: at most 100 characters, the `init_`
/// prefix, no dot anywhere, and only allowed characters.
pub open spec fn valid_init_name(s: Seq<char>) -> bool {
    s.len() <= 100 && s.len() >= 5 && s[0] == 'i' && s[1] == 'n' && s[2] == 'i' && s[3] == 't'
        && s[4] == '_' && !contains_dot(s) && all_allowed(s)
}

/// Decide whether a string is a valid receive name.
pub fn check_receive_name(s: &str) -> (b: bool)
    ensures
        b == valid_receive_name(s@),
{
    let n = s.unicode_len();
    if n > 100 {
        return false;
    }
    let mut has_dot = false;
    let mut i: usize = 0;
    while i < n
        invariant
            i <= n,
            n == s@.len(),
            all_allowed(s@.take(i as int)),
            has_dot == contains_dot(s@.take(i as int)),
        decreases n - i,
    {
        let c = s.get_char(i);
        let cv = c as u32;
        if cv < 33 || cv > 126 {
            proof {
                assert(!allowed_name_char(s@[i as int]));
            }
            return false;
        }
        if c == '.' {
            has_dot = true;
        }
        proof {
            let t = s@.take(i + 1);
            assert(forall|j: int| 0 <= j < t.len() ==> t[j] == s@[j]);
            assert(all_allowed(t));
            if has_dot {
                if s@[i as int] == '.' {
                    assert(t[i as int] == '.');
                    assert(contains_dot(t));
                } else {
                    let j = choose|j: int| 0 <= j < i && s@.take(i as int)[j] == '.';
                    assert(t[j] == '.');
                    assert(contains_dot(t));
                }
            } else {
                assert(forall|j: int| 0 <= j < t.len() ==> t[j] != '.');
            }
        }
        i += 1;
    }
    proof {
        assert(s@.take(n as int) =~= s@);
    }
    has_dot
}

/// Decide whether a string is a valid initialization name.
pub fn check_init_name(s: &str) -> (b: bool)
    ensures
        b == valid_init_name(s@),
{
    let n = s.unicode_len();
    if n > 100 || n < 5 {
        return false;
    }
    if !(s.get_char(0) == 'i' && s.get_char(1) == 'n' && s.get_char(2) == 'i' && s.get_char(3)
        == 't' && s.get_char(4) == '_') {
        return false;
    }
    let mut i: usize = 0;
    while i < n
        invariant
            i <= n,
            n == s@.len(),
            all_allowed(s@.take(i as int)),
            !contains_dot(s@.take(i as int)),
        decreases n - i,
    {
        let c = s.get_char(i);
        let cv = c as u32;
        if cv < 33 || cv > 126 {
            proof {
                assert(!allowed_name_char(s@[i as int]));
            }
            return false;
        }
        if c == '.' {
            proof {
                assert(s@[i as int] == '.');
                assert(contains_dot(s@));
            }
            return false;
        }
        proof {
            let t = s@.take(i + 1);
            assert(forall|j: int| 0 <= j < t.len() ==> t[j] == s@[j]);
            assert(forall|j: int| 0 <= j < t.len() ==> t[j] != '.');
        }
        i += 1;
    }
    proof {
        assert(s@.take(n as int) =~= s@);
    }
    true
}

} // verus!
