//! Precedence between two version strings: semantic-versioning order when
//! both strings are semantic versions, byte-wise order of the text otherwise.

use core::cmp::Ordering;
use vstd::prelude::*;

verus! {

/// What `semver::Version::parse` finds in a text: `None` when the text is not
/// a semantic version, else its major, minor and patch numbers, its
/// pre-release tag and its build metadata (empty when absent).
pub uninterp spec fn semver_parse(s: Seq<char>) -> Option<(u64, u64, u64, Seq<char>, Seq<char>)>;

/// The order that `semver::Prerelease` gives two pre-release tags; `None`
/// when one of them is not a well-formed tag.
pub uninterp spec fn prerelease_order(a: Seq<char>, b: Seq<char>) -> Option<Ordering>;

/// The order that `semver::BuildMetadata` gives two build-metadata strings;
/// `None` when one of them is not well formed.
pub uninterp spec fn build_order(a: Seq<char>, b: Seq<char>) -> Option<Ordering>;

/// The five parts of a parsed semantic version.
pub struct SemVer {
    pub major: u64,
    pub minor: u64,
    pub patch: u64,
    pub pre: String,
    pub build: String,
}

impl SemVer {
    pub open spec fn parts(&self) -> (u64, u64, u64, Seq<char>, Seq<char>) {
        (self.major, self.minor, self.patch, self.pre@, self.build@)
    }
}

/// Relies on `semver::Version::parse`: whether `s` is a semantic version, and
/// its parts.
#[verifier::external_body]
fn parse_semver(s: &str) -> (r: Option<SemVer>)
    ensures
        match r {
            Some(v) => semver_parse(s@) == Some(v.parts()),
            None => semver_parse(s@) is None,
        },
{
    match semver::Version::parse(s) {
        Ok(v) => Some(SemVer {
            major: v.major,
            minor: v.minor,
            patch: v.patch,
            pre: v.pre.as_str().to_string(),
            build: v.build.as_str().to_string(),
        }),
        Err(_) => None,
    }
}

/// Relies on `semver::Prerelease::new` and the `Ord` of `semver::Prerelease`.
#[verifier::external_body]
fn cmp_prerelease(a: &str, b: &str) -> (r: Option<Ordering>)
    ensures
        r == prerelease_order(a@, b@),
{
    match (semver::Prerelease::new(a), semver::Prerelease::new(b)) {
        (Ok(x), Ok(y)) => Some(x.cmp(&y)),
        _ => None,
    }
}

/// Relies on `semver::BuildMetadata::new` and the `Ord` of
/// `semver::BuildMetadata`.
#[verifier::external_body]
fn cmp_build(a: &str, b: &str) -> (r: Option<Ordering>)
    ensures
        r == build_order(a@, b@),
{
    match (semver::BuildMetadata::new(a), semver::BuildMetadata::new(b)) {
        (Ok(x), Ok(y)) => Some(x.cmp(&y)),
        _ => None,
    }
}

pub open spec fn int_order(a: int, b: int) -> Ordering {
    if a < b {
        Ordering::Less
    } else if a > b {
        Ordering::Greater
    } else {
        Ordering::Equal
    }
}

pub open spec fn flip(o: Ordering) -> Ordering {
    match o {
        Ordering::Less => Ordering::Greater,
        Ordering::Equal => Ordering::Equal,
        Ordering::Greater => Ordering::Less,
    }
}

/// Lexicographic order of two byte strings, looking from position `i` on.
pub open spec fn bytes_order_from(a: Seq<u8>, b: Seq<u8>, i: int) -> Ordering
    decreases a.len() - i,
{
    if i < 0 || i >= a.len() {
        if i >= 0 && i < b.len() {
            Ordering::Less
        } else {
            Ordering::Equal
        }
    } else if i >= b.len() {
        Ordering::Greater
    } else if a[i] != b[i] {
        int_order(a[i] as int, b[i] as int)
    } else {
        bytes_order_from(a, b, i + 1)
    }
}

/// Byte-wise lexicographic order of two byte strings (a proper prefix comes first).
pub open spec fn bytes_order(a: Seq<u8>, b: Seq<u8>) -> Ordering {
    bytes_order_from(a, b, 0)
}

/// Byte-wise order of the UTF-8 encodings of two texts.
pub open spec fn text_order(a: Seq<char>, b: Seq<char>) -> Ordering {
    bytes_order(vstd::utf8::encode_utf8(a), vstd::utf8::encode_utf8(b))
}

/// Order of the numeric parts: major, then minor, then patch.
pub open spec fn numeric_order(
    x: (u64, u64, u64, Seq<char>, Seq<char>),
    y: (u64, u64, u64, Seq<char>, Seq<char>),
) -> Ordering {
    if x.0 != y.0 {
        int_order(x.0 as int, y.0 as int)
    } else if x.1 != y.1 {
        int_order(x.1 as int, y.1 as int)
    } else {
        int_order(x.2 as int, y.2 as int)
    }
}

/// Precedence of two parsed versions, field by field as `semver::Version`
/// orders them: numbers, then pre-release tag, then build metadata. Equal
/// tags are equal; `None` where the pre-release or build order is undefined.
pub open spec fn parsed_order(
    x: (u64, u64, u64, Seq<char>, Seq<char>),
    y: (u64, u64, u64, Seq<char>, Seq<char>),
) -> Option<Ordering> {
    let n = numeric_order(x, y);
    if n != Ordering::Equal {
        Some(n)
    } else {
        let p = if x.3 == y.3 {
            Some(Ordering::Equal)
        } else {
            prerelease_order(x.3, y.3)
        };
        match p {
            Some(Ordering::Equal) => if x.4 == y.4 {
                Some(Ordering::Equal)
            } else {
                build_order(x.4, y.4)
            },
            _ => p,
        }
    }
}

/// The registry's version order: semantic-versioning precedence when both
/// texts parse, byte-wise order of the texts otherwise.
pub open spec fn version_order(a: Seq<char>, b: Seq<char>) -> Ordering {
    match (semver_parse(a), semver_parse(b)) {
        (Some(x), Some(y)) => match parsed_order(x, y) {
            Some(o) => o,
            None => text_order(a, b),
        },
        _ => text_order(a, b),
    }
}

fn cmp_u64(a: u64, b: u64) -> (r: Ordering)
    ensures
        r == int_order(a as int, b as int),
{
    if a < b {
        Ordering::Less
    } else if a > b {
        Ordering::Greater
    } else {
        Ordering::Equal
    }
}

/// Byte-wise lexicographic comparison of two texts.
pub fn compare_text(a: &str, b: &str) -> (r: Ordering)
    ensures
        r == text_order(a@, b@),
{
    let x = a.as_bytes();
    let y = b.as_bytes();
    let mut i: usize = 0;
    while i < x.len() && i < y.len()
        invariant
            x@ == vstd::utf8::encode_utf8(a@),
            y@ == vstd::utf8::encode_utf8(b@),
            i <= x@.len(),
            i <= y@.len(),
            bytes_order_from(x@, y@, 0) == bytes_order_from(x@, y@, i as int),
        decreases x@.len() - i,
    {
        if x[i] != y[i] {
            return cmp_u64(x[i] as u64, y[i] as u64);
        }
        i = i + 1;
    }
    if i < y.len() {
        Ordering::Less
    } else if i < x.len() {
        Ordering::Greater
    } else {
        Ordering::Equal
    }
}

fn compare_parsed(x: &SemVer, y: &SemVer) -> (r: Option<Ordering>)
    ensures
        r == parsed_order(x.parts(), y.parts()),
{
    let n = if x.major != y.major {
        cmp_u64(x.major, y.major)
    } else if x.minor != y.minor {
        cmp_u64(x.minor, y.minor)
    } else {
        cmp_u64(x.patch, y.patch)
    };
    if !matches!(n, Ordering::Equal) {
        return Some(n);
    }
    let p = if x.pre == y.pre {
        Some(Ordering::Equal)
    } else {
        cmp_prerelease(x.pre.as_str(), y.pre.as_str())
    };
    match p {
        Some(Ordering::Equal) => if x.build == y.build {
            Some(Ordering::Equal)
        } else {
            cmp_build(x.build.as_str(), y.build.as_str())
        },
        _ => p,
    }
}

/// Total comparison of two version strings: semantic-versioning precedence
/// when both parse, byte-wise comparison of the texts otherwise.
pub fn compare_versions(a: &str, b: &str) -> (r: Ordering)
    ensures
        r == version_order(a@, b@),
{
    match (parse_semver(a), parse_semver(b)) {
        (Some(x), Some(y)) => match compare_parsed(&x, &y) {
            Some(o) => o,
            None => compare_text(a, b),
        },
        _ => compare_text(a, b),
    }
}

/// Whether version `a` takes precedence over version `b`.
pub fn semver_greater(a: &str, b: &str) -> (r: bool)
    ensures
        r == (version_order(a@, b@) == Ordering::Greater),
{
    matches!(compare_versions(a, b), Ordering::Greater)
}

proof fn lemma_bytes_order_flip(a: Seq<u8>, b: Seq<u8>, i: int)
    ensures
        bytes_order_from(b, a, i) == flip(bytes_order_from(a, b, i)),
    decreases a.len() - i,
{
    if 0 <= i && i < a.len() && i < b.len() && a[i] == b[i] {
        lemma_bytes_order_flip(a, b, i + 1);
    }
}

proof fn lemma_bytes_order_equal(a: Seq<u8>, b: Seq<u8>, i: int)
    requires
        0 <= i <= a.len(),
        i <= b.len(),
    ensures
        (bytes_order_from(a, b, i) == Ordering::Equal) == (a.subrange(i, a.len() as int)
            =~= b.subrange(i, b.len() as int)),
    decreases a.len() - i,
{
    if i < a.len() && i < b.len() {
        lemma_bytes_order_equal(a, b, i + 1);
        if a[i] == b[i] {
            if a.subrange(i + 1, a.len() as int) =~= b.subrange(i + 1, b.len() as int) {
                assert(a.subrange(i, a.len() as int) =~= b.subrange(i, b.len() as int)) by {
                    assert forall|k: int| 0 <= k < a.len() - i implies a.subrange(i, a.len() as int)[k]
                        == b.subrange(i, b.len() as int)[k] by {
                        if k > 0 {
                            assert(a.subrange(i + 1, a.len() as int)[k - 1] == b.subrange(i + 1, b.len() as int)[k - 1]);
                        }
                    }
                }
            } else {
                if a.subrange(i, a.len() as int) =~= b.subrange(i, b.len() as int) {
                    assert(a.subrange(i + 1, a.len() as int) =~= a.subrange(i, a.len() as int).drop_first());
                    assert(b.subrange(i + 1, b.len() as int) =~= b.subrange(i, b.len() as int).drop_first());
                }
            }
        } else {
            assert(a.subrange(i, a.len() as int)[0] != b.subrange(i, b.len() as int)[0]);
        }
    } else if i < a.len() || i < b.len() {
        assert(a.subrange(i, a.len() as int).len() != b.subrange(i, b.len() as int).len());
    }
}

proof fn lemma_text_order_laws(a: Seq<char>, b: Seq<char>)
    ensures
        text_order(b, a) == flip(text_order(a, b)),
        (text_order(a, b) == Ordering::Equal) == (a == b),
{
    let x = vstd::utf8::encode_utf8(a);
    let y = vstd::utf8::encode_utf8(b);
    lemma_bytes_order_flip(x, y, 0);
    lemma_bytes_order_equal(x, y, 0);
    assert(x.subrange(0, x.len() as int) =~= x);
    assert(y.subrange(0, y.len() as int) =~= y);
    vstd::utf8::encode_utf8_decode_utf8(a);
    vstd::utf8::encode_utf8_decode_utf8(b);
}

proof fn lemma_bytes_order_transitive(a: Seq<u8>, b: Seq<u8>, c: Seq<u8>, i: int)
    requires
        0 <= i,
        bytes_order_from(a, b, i) != Ordering::Less,
        bytes_order_from(b, c, i) != Ordering::Less,
    ensures
        bytes_order_from(a, c, i) != Ordering::Less,
    decreases a.len() - i,
{
    if i < a.len() && i < b.len() && i < c.len() && a[i] == b[i] && b[i] == c[i] {
        lemma_bytes_order_transitive(a, b, c, i + 1);
    }
}

/// Where either text is not a semantic version, the two are ordered by their
/// bytes: swapping them reverses the order, and they compare equal only when
/// they are the same text.
pub proof fn lemma_fallback_order(a: Seq<char>, b: Seq<char>)
    requires
        semver_parse(a) is None || semver_parse(b) is None,
    ensures
        version_order(a, b) == text_order(a, b),
        version_order(b, a) == flip(version_order(a, b)),
        (version_order(a, b) == Ordering::Equal) == (a == b),
{
    lemma_text_order_laws(a, b);
}

/// Three versions that are all releases, or none of which is a semantic
/// version.
pub open spec fn comparable(a: Seq<char>, b: Seq<char>, c: Seq<char>) -> bool {
    (is_release(a) && is_release(b) && is_release(c)) || (semver_parse(a) is None && semver_parse(
        b,
    ) is None && semver_parse(c) is None)
}

/// Among versions that are all releases, or that all fall back to byte
/// order, the version order is a total order: each version equals itself,
/// swapping two reverses their order, and the order is transitive.
pub proof fn lemma_comparable_order(a: Seq<char>, b: Seq<char>, c: Seq<char>)
    requires
        comparable(a, b, c),
    ensures
        version_order(a, a) == Ordering::Equal,
        version_order(b, a) == flip(version_order(a, b)),
        version_order(a, b) != Ordering::Less && version_order(b, c) != Ordering::Less
            ==> version_order(a, c) != Ordering::Less,
{
    if is_release(a) && is_release(b) && is_release(c) {
        lemma_release_order(a, a);
        lemma_release_order(a, b);
        if version_order(a, b) != Ordering::Less && version_order(b, c) != Ordering::Less {
            lemma_release_order_transitive(a, b, c);
        }
    } else {
        lemma_fallback_order(a, a);
        lemma_fallback_order(a, b);
        lemma_fallback_order(b, c);
        lemma_fallback_order(a, c);
        if version_order(a, b) != Ordering::Less && version_order(b, c) != Ordering::Less {
            lemma_bytes_order_transitive(
                vstd::utf8::encode_utf8(a),
                vstd::utf8::encode_utf8(b),
                vstd::utf8::encode_utf8(c),
                0,
            );
        }
    }
}

/// A version without pre-release tag or build metadata.
pub open spec fn is_release(v: Seq<char>) -> bool {
    semver_parse(v) matches Some(x) && x.3.len() == 0 && x.4.len() == 0
}

/// Two release versions are ordered by their numbers alone, major first, and
/// swapping them reverses the order.
pub proof fn lemma_release_order(a: Seq<char>, b: Seq<char>)
    requires
        is_release(a),
        is_release(b),
    ensures
        version_order(a, b) == numeric_order(semver_parse(a).unwrap(), semver_parse(b).unwrap()),
        version_order(b, a) == flip(version_order(a, b)),
{
    let x = semver_parse(a).unwrap();
    let y = semver_parse(b).unwrap();
    assert(x.3 =~= y.3);
    assert(x.4 =~= y.4);
}

/// Among release versions the order is transitive.
pub proof fn lemma_release_order_transitive(a: Seq<char>, b: Seq<char>, c: Seq<char>)
    requires
        is_release(a),
        is_release(b),
        is_release(c),
        version_order(a, b) != Ordering::Less,
        version_order(b, c) != Ordering::Less,
    ensures
        version_order(a, c) != Ordering::Less,
{
    lemma_release_order(a, b);
    lemma_release_order(b, c);
    lemma_release_order(a, c);
}

} // verus!
