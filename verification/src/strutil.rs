use vstd::prelude::*;
use vstd::string::*;

verus! {

/// Character-for-character equality of two string slices.
pub fn str_eq(a: &str, b: &str) -> (r: bool)
    ensures
        r == (a@ == b@),
{
    let alen = a.unicode_len();
    let blen = b.unicode_len();
    if alen != blen {
        return false;
    }
    let mut i: usize = 0;
    while i < alen
        invariant
            alen == a@.len(),
            blen == b@.len(),
            alen == blen,
            0 <= i <= alen,
            forall|j: int| 0 <= j < i ==> a@[j] == b@[j],
        decreases alen - i,
    {
        if a.get_char(i) != b.get_char(i) {
            return false;
        }
        i += 1;
    }
    proof {
        assert(a@ =~= b@);
    }
    true
}

/// `s` with every occurrence of `from` replaced by `to`.
pub open spec fn spec_replace(s: Seq<char>, from: char, to: char) -> Seq<char> {
    Seq::new(s.len(), |i: int| if s[i] == from { to } else { s[i] })
}

/// `s` with every occurrence of `from` replaced by the single character of
/// `to_str`. The replacement is handed in as a one-character string slice so
/// the result can be assembled by concatenation.
pub fn replace_chars(s: &str, from: char, to_str: &str) -> (r: String)
    requires
        to_str@.len() == 1,
    ensures
        r@ == spec_replace(s@, from, to_str@[0]),
{
    let mut out = String::new();
    let n = s.unicode_len();
    let mut i: usize = 0;
    while i < n
        invariant
            n == s@.len(),
            to_str@.len() == 1,
            0 <= i <= n,
            out@ =~= spec_replace(s@, from, to_str@[0]).subrange(0, i as int),
        decreases n - i,
    {
        if s.get_char(i) == from {
            out.append(to_str);
        } else {
            out.append(s.substring_char(i, i + 1));
        }
        proof {
            assert(out@ =~= spec_replace(s@, from, to_str@[0]).subrange(0, i + 1));
        }
        i += 1;
    }
    proof {
        assert(out@ =~= spec_replace(s@, from, to_str@[0]));
    }
    out
}

/// True when `s` ends in `suffix`.
pub open spec fn spec_ends_with(s: Seq<char>, suffix: Seq<char>) -> bool {
    s.len() >= suffix.len() && s.subrange(s.len() - suffix.len(), s.len() as int) == suffix
}

/// Whether `s` ends in `suffix`, character for character.
pub fn str_ends_with(s: &str, suffix: &str) -> (r: bool)
    ensures
        r == spec_ends_with(s@, suffix@),
{
    let slen = s.unicode_len();
    let suflen = suffix.unicode_len();
    if slen < suflen {
        return false;
    }
    let start = slen - suflen;
    let mut j: usize = 0;
    while j < suflen
        invariant
            slen == s@.len(),
            suflen == suffix@.len(),
            start == slen - suflen,
            0 <= j <= suflen,
            forall|k: int| 0 <= k < j ==> s@[start + k] == suffix@[k],
        decreases suflen - j,
    {
        if s.get_char(start + j) != suffix.get_char(j) {
            proof {
                if spec_ends_with(s@, suffix@) {
                    assert(s@.subrange(s@.len() - suffix@.len(), s@.len() as int)[j as int]
                        == suffix@[j as int]);
                }
            }
            return false;
        }
        j += 1;
    }
    proof {
        assert(s@.subrange(s@.len() - suffix@.len(), s@.len() as int) =~= suffix@);
    }
    true
}

/// The dotted class name for an archive entry name: a trailing `.class`
/// suffix is removed and every path separator becomes a package-separator
/// dot.
pub open spec fn spec_entry_class_name(s: Seq<char>) -> Seq<char> {
    if spec_ends_with(s, ".class"@) {
        spec_replace(s.subrange(0, s.len() - ".class"@.len()), '/', '.')
    } else {
        spec_replace(s, '/', '.')
    }
}

/// Converts an archive entry name into the dotted class name it defines.
pub fn entry_to_class_name(entry: &str) -> (r: String)
    ensures
        r@ == spec_entry_class_name(entry@),
{
    proof {
        reveal_strlit(".class");
        reveal_strlit(".");
    }
    if str_ends_with(entry, ".class") {
        let n = entry.unicode_len();
        let stem = entry.substring_char(0, n - 6);
        replace_chars(stem, '/', ".")
    } else {
        replace_chars(entry, '/', ".")
    }
}

/// Concatenation of two string slices into an owned string.
pub fn concat_strs(a: &str, b: &str) -> (r: String)
    ensures
        r@ == a@ + b@,
{
    let mut out = String::from_str(a);
    out.append(b);
    out
}

} // verus!
