use vstd::prelude::*;

use crate::algorithm::HashAlgorithm;

verus! {

/// Whether the code point `u` is white space, as `char::is_whitespace` has it
/// (the Unicode `White_Space` property).
pub open spec fn is_white_space(u: u32) -> bool {
    (0x9 <= u <= 0xd) || u == 0x20 || u == 0x85 || u == 0xa0 || u == 0x1680 || (0x2000 <= u
        <= 0x200a) || u == 0x2028 || u == 0x2029 || u == 0x202f || u == 0x205f || u == 0x3000
}

/// The characters that separate the alternatives of a digest string: all
/// white space.
pub open spec fn is_separator(c: char) -> bool {
    is_white_space(c as u32)
}

/// Whether `c` separates alternatives of a digest string.
pub fn separator(c: char) -> (r: bool)
    ensures
        r == is_separator(c),
{
    let u = c as u32;
    (0x9 <= u && u <= 0xd) || u == 0x20 || u == 0x85 || u == 0xa0 || u == 0x1680 || (0x2000 <= u
        && u <= 0x200a) || u == 0x2028 || u == 0x2029 || u == 0x202f || u == 0x205f || u == 0x3000
}

/// Position `i` of `s` starts an alternative.
pub open spec fn starts_token(s: Seq<char>, i: int) -> bool {
    0 <= i <= s.len() && (i == 0 || is_separator(s[i - 1]))
}

/// `s[i..j]` is the algorithm tag of an alternative: the alternative starts at
/// `i`, and `j` holds its first `-`.
pub open spec fn tag_at(s: Seq<char>, i: int, j: int) -> bool {
    &&& starts_token(s, i)
    &&& i <= j < s.len()
    &&& s[j] == '-'
    &&& forall|k: int| i <= k < j ==> s[k] != '-' && !is_separator(#[trigger] s[k])
}

/// Some alternative of `s` has a tag that names no known algorithm.
pub open spec fn has_unknown_tag(s: Seq<char>) -> bool {
    exists|i: int, j: int| tag_at(s, i, j) && HashAlgorithm::named(#[trigger] s.subrange(i, j)) is None
}

/// Relies on `str::chars`, collected: the characters of `s` in order.
#[verifier::external_body]
fn chars_of(s: &str) -> (r: Vec<char>)
    ensures
        r@ == s@,
{
    s.chars().collect()
}

/// Whether `v[from..to]` equals `name`.
fn slice_is(v: &Vec<char>, from: usize, to: usize, name: &Vec<char>) -> (r: bool)
    requires
        from <= to <= v@.len(),
    ensures
        r == (v@.subrange(from as int, to as int) == name@),
{
    if to - from != name.len() {
        return false;
    }
    let mut k: usize = 0;
    while k < name.len()
        invariant
            to - from == name@.len(),
            from <= to <= v@.len(),
            k <= name@.len(),
            forall|m: int| 0 <= m < k ==> v@[from + m] == name@[m],
        decreases name@.len() - k,
    {
        if v[from + k] != name[k] {
            assert(v@.subrange(from as int, to as int)[k as int] != name@[k as int]);
            return false;
        }
        k += 1;
    }
    assert(v@.subrange(from as int, to as int) =~= name@);
    true
}

/// Whether `v[from..to]` names a known algorithm.
fn known_tag(v: &Vec<char>, from: usize, to: usize) -> (r: bool)
    requires
        from <= to <= v@.len(),
    ensures
        r == HashAlgorithm::named(v@.subrange(from as int, to as int)) is Some,
{
    proof {
        reveal_strlit("sha512");
        reveal_strlit("sha384");
        reveal_strlit("sha256");
        reveal_strlit("sha1");
        reveal_strlit("xxh3");
    }
    let ghost t = v@.subrange(from as int, to as int);
    let sha512 = vec!['s', 'h', 'a', '5', '1', '2'];
    let sha384 = vec!['s', 'h', 'a', '3', '8', '4'];
    let sha256 = vec!['s', 'h', 'a', '2', '5', '6'];
    let sha1 = vec!['s', 'h', 'a', '1'];
    let xxh3 = vec!['x', 'x', 'h', '3'];
    assert(sha512@ =~= "sha512"@);
    assert(sha384@ =~= "sha384"@);
    assert(sha256@ =~= "sha256"@);
    assert(sha1@ =~= "sha1"@);
    assert(xxh3@ =~= "xxh3"@);
    slice_is(v, from, to, &sha512) || slice_is(v, from, to, &sha384) || slice_is(v, from, to, &sha256)
        || slice_is(v, from, to, &sha1) || slice_is(v, from, to, &xxh3)
}

/// Whether some alternative of the digest string `s` has a tag (the text
/// before its first `-`) that names no known algorithm.
pub fn unknown_tag(s: &str) -> (r: bool)
    ensures
        r == has_unknown_tag(s@),
{
    let v = chars_of(s);
    let ghost sv = v@;
    let mut start: usize = 0;
    let mut in_tag = true;
    let mut pos: usize = 0;
    while pos < v.len()
        invariant
            sv == s@,
            v@ == sv,
            start <= pos <= sv.len(),
            starts_token(sv, start as int),
            forall|k: int| start <= k < pos ==> !is_separator(#[trigger] sv[k]),
            in_tag <==> forall|k: int| start <= k < pos ==> #[trigger] sv[k] != '-',
            forall|i: int, j: int|
                j < pos && tag_at(sv, i, j) ==> HashAlgorithm::named(#[trigger] sv.subrange(i, j)) is Some,
        decreases sv.len() - pos,
    {
        let c = v[pos];
        if separator(c) {
            start = pos + 1;
            in_tag = true;
        } else if c == '-' && in_tag {
            let known = known_tag(&v, start, pos);
            proof {
                assert forall|i: int| #[trigger] tag_at(sv, i, pos as int) implies i == start by {
                    if i < start {
                        assert(!is_separator(sv[start - 1]) && sv[start - 1] != '-');
                    } else if i > start {
                        assert(!is_separator(sv[i - 1]));
                    }
                }
                assert(tag_at(sv, start as int, pos as int));
            }
            if !known {
                assert(tag_at(sv, start as int, pos as int) && HashAlgorithm::named(sv.subrange(start as int, pos as int)) is None);
                return true;
            }
            in_tag = false;
        } else if c == '-' {
            proof {
                assert forall|i: int| !(#[trigger] tag_at(sv, i, pos as int)) by {
                    if tag_at(sv, i, pos as int) {
                        if i < start {
                            assert(!is_separator(sv[start - 1]) && sv[start - 1] != '-');
                        } else if i > start {
                            assert(!is_separator(sv[i - 1]));
                        } else {
                            let k = choose|k: int| start <= k < pos && sv[k] == '-';
                            assert(sv[k] != '-');
                        }
                    }
                }
            }
        }
        pos += 1;
    }
    false
}

} // verus!
