use vstd::prelude::*;

use crate::algorithm::HashAlgorithm;
use crate::error::CacheError;
use crate::tags::{has_unknown_tag, is_separator, unknown_tag};

verus! {

/// One hash of some content: the algorithm and its encoded value.
#[derive(Debug)]
pub struct DigestHash {
    pub algorithm: HashAlgorithm,
    pub value: String,
}

/// An integrity digest: one or more equally valid hashes of the same content.
#[derive(Debug)]
pub struct Digest {
    pub hashes: Vec<DigestHash>,
}

/// A digest hash as text: `<algorithm>-<value>`.
pub open spec fn tagged_text(tag: Seq<char>, value: Seq<char>) -> Seq<char> {
    tag + "-"@ + value
}

/// A list of tagged values as a digest string: each as `<tag>-<value>`, with
/// one space between neighbours.
pub open spec fn digest_text(ps: Seq<(Seq<char>, Seq<char>)>) -> Seq<char>
    decreases ps.len(),
{
    if ps.len() == 0 {
        Seq::empty()
    } else if ps.len() == 1 {
        tagged_text(ps[0].0, ps[0].1)
    } else {
        digest_text(ps.drop_last()) + " "@ + tagged_text(ps.last().0, ps.last().1)
    }
}

/// The views of a list of (tag, value) string pairs.
pub open spec fn pair_views(v: Seq<(String, String)>) -> Seq<(Seq<char>, Seq<char>)> {
    v.map_values(|p: (String, String)| (p.0@, p.1@))
}

/// The white-space separated words of `s`, in order.
pub open spec fn words(s: Seq<char>) -> Seq<Seq<char>>
    decreases s.len(),
{
    if s.len() == 0 {
        Seq::empty()
    } else {
        let ws = words(s.drop_last());
        let c = s.last();
        if is_separator(c) {
            ws
        } else if s.len() >= 2 && !is_separator(s[s.len() - 2]) && ws.len() > 0 {
            ws.drop_last().push(ws.last().push(c))
        } else {
            ws.push(seq![c])
        }
    }
}

/// The text of `t` before its first `-` (all of `t` if it has none).
pub open spec fn before_dash(t: Seq<char>) -> Seq<char>
    decreases t.len(),
{
    if t.len() == 0 || t[0] == '-' {
        Seq::empty()
    } else {
        seq![t[0]] + before_dash(t.drop_first())
    }
}

/// One alternative read as (tag, value): it needs a `-`; the tag is the text
/// before the first `-` and must name a known algorithm; the value is the text
/// after it, up to the next `-`.
pub open spec fn word_hash(t: Seq<char>) -> Option<(Seq<char>, Seq<char>)> {
    let tag = before_dash(t);
    if t.contains('-') && HashAlgorithm::named(tag) is Some {
        Some((tag, before_dash(t.subrange(tag.len() as int + 1, t.len() as int))))
    } else {
        None
    }
}

/// The hashes among `ps` whose tag names `a`, in order.
pub open spec fn with_algorithm(ps: Seq<(Seq<char>, Seq<char>)>, a: HashAlgorithm) -> Seq<
    (Seq<char>, Seq<char>),
> {
    ps.filter(|p: (Seq<char>, Seq<char>)| HashAlgorithm::named(p.0) == Some(a))
}

/// What ssri reads from the digest string `s`: every white-space separated
/// alternative as (tag, value), sorted stably from the strongest algorithm to
/// the weakest; `None` where some alternative cannot be read.
pub open spec fn sri_parse(s: Seq<char>) -> Option<Seq<(Seq<char>, Seq<char>)>> {
    let ws = words(s);
    if forall|i: int| 0 <= i < ws.len() ==> (#[trigger] word_hash(ws[i])) is Some {
        let ps = ws.map_values(|t: Seq<char>| word_hash(t)->Some_0);
        Some(
            with_algorithm(ps, HashAlgorithm::Sha512) + with_algorithm(ps, HashAlgorithm::Sha384)
                + with_algorithm(ps, HashAlgorithm::Sha256) + with_algorithm(
                ps,
                HashAlgorithm::Sha1,
            ) + with_algorithm(ps, HashAlgorithm::Xxh3),
        )
    } else {
        None
    }
}

/// Relies on ssri's `Integrity::from_str` to read a digest string: it splits on
/// white space (`split_whitespace`), reads each word as `<tag>-<value>[-...]`
/// (`Hash::from_str`, the tag through `Algorithm::from_str`), and sorts the
/// hashes stably by algorithm, strongest first (`slice::sort` on the derived
/// order of `Algorithm`). Relies on the `Display` of `ssri::Algorithm` for each
/// tag, which writes the lower-case tag it was read from.
#[verifier::external_body]
fn sri_hashes(s: &str) -> (r: Option<Vec<(String, String)>>)
    ensures
        r is None ==> sri_parse(s@) is None,
        r matches Some(v) ==> sri_parse(s@) == Some(pair_views(v@)),
        r matches Some(v) ==> forall|i: int|
            0 <= i < v@.len() ==> (#[trigger] HashAlgorithm::named(v@[i].0@)) is Some,
{
    s.parse::<ssri::Integrity>().ok().map(
        |i| i.hashes.into_iter().map(|h| (h.algorithm.to_string(), h.digest)).collect(),
    )
}

/// Digest hashes as (tag, value) pairs.
pub open spec fn hash_pairs(hs: Seq<DigestHash>) -> Seq<(Seq<char>, Seq<char>)> {
    hs.map_values(|h: DigestHash| (h.algorithm.spec_name(), h.value@))
}

/// The error for a digest string that cannot be read.
fn refusal(s: &str) -> (e: CacheError)
    ensures
        e.spec_detail() == s@,
        e is UnsupportedAlgorithm <==> has_unknown_tag(s@),
        e is InvalidFormat <==> !has_unknown_tag(s@),
{
    if unknown_tag(s) {
        CacheError::UnsupportedAlgorithm(String::from_str(s))
    } else {
        CacheError::InvalidFormat(String::from_str(s))
    }
}

impl Digest {
    /// The digest's hashes as (tag, value) pairs.
    pub open spec fn spec_pairs(&self) -> Seq<(Seq<char>, Seq<char>)> {
        hash_pairs(self.hashes@)
    }

    /// Builds a digest from (tag, value) pairs, keeping their order. A tag
    /// that names no known algorithm is refused with `UnsupportedAlgorithm`.
    pub fn from_tagged(pairs: &Vec<(String, String)>) -> (r: Result<Digest, CacheError>)
        ensures
            r is Ok <==> forall|i: int|
                0 <= i < pairs@.len() ==> (#[trigger] HashAlgorithm::named(pairs@[i].0@)) is Some,
            r matches Ok(d) ==> d.spec_pairs() == pair_views(pairs@),
            r matches Err(e) ==> e is UnsupportedAlgorithm,
    {
        let mut hashes: Vec<DigestHash> = Vec::new();
        let mut i: usize = 0;
        while i < pairs.len()
            invariant
                i <= pairs@.len(),
                hashes@.len() == i,
                hash_pairs(hashes@) == pair_views(pairs@.take(i as int)),
                forall|j: int|
                    0 <= j < i ==> (#[trigger] HashAlgorithm::named(pairs@[j].0@)) is Some,
            decreases pairs@.len() - i,
        {
            let (tag, value) = &pairs[i];
            match HashAlgorithm::parse(tag.as_str()) {
                Ok(algorithm) => {
                    proof {
                        HashAlgorithm::lemma_name_of_named(tag@);
                    }
                    let ghost old_hashes = hashes@;
                    hashes.push(DigestHash { algorithm, value: value.clone() });
                    assert(hashes@ == old_hashes.push(hashes@.last()));
                    assert(hashes@.last().value@ == value@);
                    assert(hashes@.last().algorithm.spec_name() == tag@);
                    assert forall|j: int| 0 <= j < i implies
                        #[trigger] hash_pairs(hashes@)[j] == hash_pairs(old_hashes)[j] by {
                        assert(hashes@[j] == old_hashes[j]);
                    }
                    assert(pairs@.take(i + 1) == pairs@.take(i as int).push(pairs@[i as int]));
                    assert(hash_pairs(hashes@) =~= pair_views(pairs@.take(i + 1)));
                },
                Err(e) => {
                    return Err(e);
                },
            }
            i += 1;
        }
        assert(pairs@.take(pairs@.len() as int) == pairs@);
        Ok(Digest { hashes })
    }

    /// Reads a digest string (`<algorithm>-<value>`, alternatives separated by
    /// white space) with ssri; it must hold at least one hash. Where ssri
    /// refuses the string, an alternative whose tag names no known algorithm
    /// makes it `UnsupportedAlgorithm`; any other refusal, and a string without
    /// hashes, is `InvalidFormat`. Either error carries the string.
    pub fn parse(s: &str) -> (r: Result<Digest, CacheError>)
        ensures
            r is Ok <==> (sri_parse(s@) matches Some(ps) && ps.len() > 0),
            r matches Ok(d) ==> sri_parse(s@) == Some(d.spec_pairs()),
            r matches Ok(d) ==> d.hashes@.len() > 0,
            r matches Err(e) ==> e.spec_detail() == s@,
            r matches Err(e) ==> (e is UnsupportedAlgorithm <==> has_unknown_tag(s@)),
            r matches Err(e) ==> (e is InvalidFormat <==> !has_unknown_tag(s@)),
    {
        match sri_hashes(s) {
            Some(pairs) => {
                if pairs.len() == 0 {
                    return Err(refusal(s));
                }
                match Digest::from_tagged(&pairs) {
                    Ok(d) => Ok(d),
                    Err(_) => Err(refusal(s)),
                }
            },
            None => Err(refusal(s)),
        }
    }

    /// The digest as a string: each hash as `<algorithm>-<value>`, separated by
    /// single spaces.
    pub fn to_text(&self) -> (r: String)
        ensures
            r@ == digest_text(self.spec_pairs()),
    {
        let mut out = String::new();
        let mut i: usize = 0;
        while i < self.hashes.len()
            invariant
                i <= self.hashes@.len(),
                out@ == digest_text(self.spec_pairs().take(i as int)),
            decreases self.hashes@.len() - i,
        {
            let h = &self.hashes[i];
            let ghost before = self.spec_pairs().take(i as int);
            let ghost after = self.spec_pairs().take(i + 1);
            assert(after.drop_last() =~= before);
            if i > 0 {
                out.append(" ");
            }
            out.append(h.algorithm.name().as_str());
            out.append("-");
            out.append(h.value.as_str());
            proof {
                if i == 0 {
                    assert(out@ =~= tagged_text(after[0].0, after[0].1));
                } else {
                    assert(out@ =~= digest_text(before) + " "@ + tagged_text(after.last().0, after.last().1));
                }
            }
            i += 1;
        }
        assert(self.spec_pairs().take(self.hashes@.len() as int) =~= self.spec_pairs());
        out
    }

    /// The strongest algorithm among the digest's hashes; `None` for a digest
    /// without hashes.
    pub fn strongest_algorithm(&self) -> (r: Option<HashAlgorithm>)
        ensures
            r is None <==> self.hashes@.len() == 0,
            r matches Some(a) ==> exists|i: int|
                0 <= i < self.hashes@.len() && (#[trigger] self.hashes@[i]).algorithm == a,
            r matches Some(a) ==> forall|i: int|
                0 <= i < self.hashes@.len() ==> (#[trigger] self.hashes@[i]).algorithm.spec_strength()
                    <= a.spec_strength(),
    {
        if self.hashes.len() == 0 {
            return None;
        }
        let mut best = self.hashes[0].algorithm;
        let mut i: usize = 1;
        while i < self.hashes.len()
            invariant
                1 <= i <= self.hashes@.len(),
                exists|j: int| 0 <= j < i && (#[trigger] self.hashes@[j]).algorithm == best,
                forall|j: int|
                    0 <= j < i ==> (#[trigger] self.hashes@[j]).algorithm.spec_strength()
                        <= best.spec_strength(),
            decreases self.hashes@.len() - i,
        {
            let a = self.hashes[i].algorithm;
            if a.is_stronger_than(&best) {
                best = a;
            }
            i += 1;
        }
        Some(best)
    }
}

} // verus!
