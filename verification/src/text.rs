//! Character-level helpers: ASCII uppercasing and string equality.

use vstd::prelude::*;

verus! {

/// The uppercase form of one character: the letters `a`..`z` map to
/// `A`..`Z`, every other character is unchanged.
pub open spec fn upper_char(c: char) -> char {
    if 'a' <= c && c <= 'z' {
        ((c as u32) - 32) as char
    } else {
        c
    }
}

/// A string uppercased character by character.
pub open spec fn upper_seq(s: Seq<char>) -> Seq<char> {
    s.map_values(|c: char| upper_char(c))
}

pub(crate) fn upper_char_exec(c: char) -> (r: char)
    ensures
        r == upper_char(c),
{
    let v: u32 = c as u32;
    if 97 <= v && v <= 122 {
        ((v - 32) as u8) as char
    } else {
        c
    }
}

/// The string uppercased, letter by letter. A lowercase letter is replaced
/// by the matching slice of a constant table; any other character is carried
/// over as the matching slice of the input.
pub fn uppercased(s: &str) -> (r: String)
    ensures
        r@ == upper_seq(s@),
{
    let table = "ABCDEFGHIJKLMNOPQRSTUVWXYZ";
    let n = s.unicode_len();
    let mut r = String::new();
    let mut i: usize = 0;
    while i < n
        invariant
            i <= n,
            n == s@.len(),
            table@ == "ABCDEFGHIJKLMNOPQRSTUVWXYZ"@,
            r@ =~= upper_seq(s@).subrange(0, i as int),
        decreases n - i,
    {
        proof {
            reveal_strlit("ABCDEFGHIJKLMNOPQRSTUVWXYZ");
        }
        let c = s.get_char(i);
        let v: u32 = c as u32;
        if 97 <= v && v <= 122 {
            let idx = (v - 97) as usize;
            let piece = table.substring_ascii(idx, idx + 1);
            proof {
                assert(piece@ =~= seq![upper_char(c)]);
            }
            r.append(piece);
        } else {
            let piece = s.substring_char(i, i + 1);
            proof {
                assert(piece@ =~= seq![upper_char(c)]);
            }
            r.append(piece);
        }
        proof {
            assert(r@ =~= upper_seq(s@).subrange(0, i as int + 1));
        }
        i += 1;
    }
    proof {
        assert(r@ =~= upper_seq(s@));
    }
    r
}

/// True exactly when the two strings hold the same characters.
pub fn str_eq(a: &str, b: &str) -> (r: bool)
    ensures
        r == (a@ == b@),
{
    let alen = a.unicode_len();
    let blen = b.unicode_len();
    if alen != blen {
        return false;
    }
    let mut i: usize = 0;
    while i < alen
        invariant
            i <= alen,
            alen == a@.len(),
            alen == b@.len(),
            forall|j: int| 0 <= j < i ==> a@[j] == b@[j],
        decreases alen - i,
    {
        if a.get_char(i) != b.get_char(i) {
            return false;
        }
        i += 1;
    }
    proof {
        assert(a@ =~= b@);
    }
    true
}

} // verus!
