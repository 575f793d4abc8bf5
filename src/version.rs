//! Version numbers of the form `X.Y[.Z][-label]`.
use vstd::prelude::*;

use crate::error::InstallerError;
use crate::listing::{
    le_text, lemma_text_le_antisymmetric, lemma_text_le_total, lemma_text_le_transitive, text_le,
};
use crate::text::{
    all_digits, chars_of, dec, find, find_from, lemma_dec_digits, lemma_find_after, lemma_find_none,
    lemma_u32_text_dec, parse_u32, push_all, push_dec, string_of, sub_chars, u32_text,
};

verus! {

/// A semantic version: three numbers and an optional prerelease label.
#[derive(Debug, Clone, PartialEq, Eq, PartialOrd, Ord)]
pub struct Version {
    pub major: u32,
    pub minor: u32,
    pub patch: u32,
    pub prerelease: Option<String>,
}

/// The characters of an optional label.
pub open spec fn label_view(p: Option<String>) -> Option<Seq<char>> {
    match p {
        Some(l) => Some(l@),
        None => None,
    }
}

impl View for Version {
    type V = (u32, u32, u32, Option<Seq<char>>);

    open spec fn view(&self) -> Self::V {
        (self.major, self.minor, self.patch, label_view(self.prerelease))
    }
}

/// `s` without one leading `v`.
pub open spec fn strip_v(s: Seq<char>) -> Seq<char> {
    if s.len() > 0 && s[0] == 'v' {
        s.drop_first()
    } else {
        s
    }
}

/// The numbers of `X.Y` or `X.Y.Z`; the patch number is 0 when absent.
pub open spec fn spec_numbers(t: Seq<char>) -> Option<(u32, u32, u32)> {
    let i = find(t, '.');
    let rest = t.skip(i + 1int);
    let j = find(rest, '.');
    let third = rest.skip(j + 1int);
    if i >= t.len() {
        None
    } else if j >= rest.len() {
        match (u32_text(t.take(i as int)), u32_text(rest)) {
            (Some(a), Some(b)) => Some((a, b, 0u32)),
            _ => None,
        }
    } else if find(third, '.') < third.len() {
        None
    } else {
        match (u32_text(t.take(i as int)), u32_text(rest.take(j as int)), u32_text(third)) {
            (Some(a), Some(b), Some(c)) => Some((a, b, c)),
            _ => None,
        }
    }
}

/// What a version string denotes: one leading `v` is dropped, the text
/// after the first `-` is the label, and the rest holds the numbers.
pub open spec fn spec_parse(s: Seq<char>) -> Option<(u32, u32, u32, Option<Seq<char>>)> {
    let t = strip_v(s);
    let k = find(t, '-');
    let label = if k < t.len() {
        Some(t.skip(k + 1int))
    } else {
        None
    };
    match spec_numbers(t.take(k as int)) {
        Some((a, b, c)) => Some((a, b, c, label)),
        None => None,
    }
}

/// Reads the numbers of `v[lo..hi]` as `spec_numbers` describes.
fn parse_numbers(all: &Vec<char>, lo: usize, hi: usize) -> (r: Option<(u32, u32, u32)>)
    requires
        lo <= hi <= all@.len(),
    ensures
        r == spec_numbers(all@.subrange(lo as int, hi as int)),
{
    let ghost num = all@.subrange(lo as int, hi as int);
    let i = find_from(all, lo, hi, '.');
    if i == hi {
        return None;
    }
    let ghost rest = num.skip(i - lo + 1);
    assert(rest =~= all@.subrange(i + 1, hi as int));
    assert(num.take(i - lo) =~= all@.subrange(lo as int, i as int));
    let j = find_from(all, i + 1, hi, '.');
    let major = parse_u32(all, lo, i);
    if j == hi {
        let minor = parse_u32(all, i + 1, hi);
        return match (major, minor) {
            (Some(a), Some(b)) => Some((a, b, 0u32)),
            _ => None,
        };
    }
    let ghost third = rest.skip(j - i);
    assert(third =~= all@.subrange(j + 1, hi as int));
    assert(rest.take(j - i - 1) =~= all@.subrange(i + 1, j as int));
    let m = find_from(all, j + 1, hi, '.');
    if m < hi {
        return None;
    }
    let minor = parse_u32(all, i + 1, j);
    let patch = parse_u32(all, j + 1, hi);
    match (major, minor, patch) {
        (Some(a), Some(b), Some(c)) => Some((a, b, c)),
        _ => None,
    }
}

impl Version {
    /// Parses `X.Y`, `X.Y.Z`, either with an optional leading `v` and an
    /// optional `-label`; any other text is an `InvalidVersion` carrying it.
    pub fn parse(s: &str) -> (r: Result<Version, InstallerError>)
        ensures
            match spec_parse(s@) {
                Some(m) => r matches Ok(v) && v@ == m,
                None => r matches Err(InstallerError::InvalidVersion(t)) && t@ == s@,
            },
    {
        let all = chars_of(s);
        let n = all.len();
        let start: usize = if n > 0 && all[0] == 'v' { 1 } else { 0 };
        let ghost t = strip_v(s@);
        assert(t =~= all@.subrange(start as int, n as int));
        let k = find_from(&all, start, n, '-');
        let prerelease = if k < n {
            let label = sub_chars(&all, k + 1, n);
            assert(label@ =~= t.skip(k - start + 1));
            Some(string_of(label.as_slice()))
        } else {
            None
        };
        assert(t.take(k - start) =~= all@.subrange(start as int, k as int));
        match parse_numbers(&all, start, k) {
            Some((a, b, c)) => Ok(Version { major: a, minor: b, patch: c, prerelease }),
            None => Err(InstallerError::InvalidVersion(string_of(all.as_slice()))),
        }
    }
}

/// The text of a version: `X.Y.Z`, then `-label` when there is a label.
/// It never starts with `v`.
pub open spec fn spec_render(v: (u32, u32, u32, Option<Seq<char>>)) -> Seq<char> {
    let base = dec(v.0 as nat) + seq!['.'] + dec(v.1 as nat) + seq!['.'] + dec(v.2 as nat);
    match v.3 {
        Some(l) => base + seq!['-'] + l,
        None => base,
    }
}

impl Version {
    /// The text of this version, as `spec_render` gives it.
    pub fn to_string(&self) -> (r: String)
        ensures
            r@ == spec_render(self@),
    {
        let mut out: Vec<char> = Vec::new();
        push_dec(&mut out, self.major);
        out.push('.');
        push_dec(&mut out, self.minor);
        out.push('.');
        push_dec(&mut out, self.patch);
        let ghost base = out@;
        match &self.prerelease {
            Some(p) => {
                out.push('-');
                let label = chars_of(p.as_str());
                push_all(&mut out, label.as_slice());
            },
            None => {},
        }
        let r = string_of(out.as_slice());
        assert(r@ =~= spec_render(self@));
        r
    }
}

/// A version written out: an optional `v`, the numbers `a.b`, an optional
/// `.c`, and an optional `-label`.
pub open spec fn written(
    with_v: bool,
    a: u32,
    b: u32,
    c: Option<u32>,
    label: Option<Seq<char>>,
) -> Seq<char> {
    (if with_v {
        seq!['v']
    } else {
        Seq::empty()
    }) + written_numbers(a, b, c) + match label {
        Some(l) => seq!['-'] + l,
        None => Seq::empty(),
    }
}

/// The numbers `a.b`, followed by `.c` when `c` is given.
pub open spec fn written_numbers(a: u32, b: u32, c: Option<u32>) -> Seq<char> {
    dec(a as nat) + seq!['.'] + dec(b as nat) + match c {
        Some(z) => seq!['.'] + dec(z as nat),
        None => Seq::empty(),
    }
}

proof fn lemma_digits_avoid(x: Seq<char>)
    requires
        all_digits(x),
    ensures
        forall|k: int| 0 <= k < x.len() ==> x[k] != '.' && x[k] != '-' && x[k] != 'v',
{
    assert forall|k: int| 0 <= k < x.len() implies x[k] != '.' && x[k] != '-' && x[k] != 'v' by {
        assert(crate::text::is_digit(x[k]));
    }
}

proof fn lemma_numbers(a: u32, b: u32, c: Option<u32>)
    ensures
        spec_numbers(written_numbers(a, b, c)) == Some(
            (
                a,
                b,
                match c {
                    Some(z) => z,
                    None => 0u32,
                },
            ),
        ),
        forall|k: int|
            0 <= k < written_numbers(a, b, c).len() ==> #[trigger] written_numbers(a, b, c)[k]
                != '-',
        written_numbers(a, b, c)[0] != 'v',
{
    let da = dec(a as nat);
    let db = dec(b as nat);
    lemma_dec_digits(a as nat);
    lemma_dec_digits(b as nat);
    lemma_digits_avoid(da);
    lemma_digits_avoid(db);
    lemma_u32_text_dec(a);
    lemma_u32_text_dec(b);
    let tail = match c {
        Some(z) => seq!['.'] + dec(z as nat),
        None => Seq::empty(),
    };
    let n = written_numbers(a, b, c);
    assert(n =~= da + seq!['.'] + (db + tail));
    lemma_find_after(da, '.', db + tail);
    assert(n.take(da.len() as int) =~= da);
    let rest = n.skip(da.len() + 1int);
    assert(rest =~= db + tail);
    match c {
        Some(z) => {
            let dz = dec(z as nat);
            lemma_dec_digits(z as nat);
            lemma_digits_avoid(dz);
            lemma_u32_text_dec(z);
            assert(rest =~= db + seq!['.'] + dz);
            lemma_find_after(db, '.', dz);
            assert(rest.take(db.len() as int) =~= db);
            assert(rest.skip(db.len() + 1int) =~= dz);
            lemma_find_none(dz, '.');
            assert forall|k: int| 0 <= k < n.len() implies #[trigger] n[k] != '-' by {
                if k < da.len() {
                    assert(n[k] == da[k]);
                } else if da.len() < k < da.len() + 1 + db.len() {
                    assert(n[k] == db[k - da.len() - 1]);
                } else if k > da.len() + 1 + db.len() + 1 {
                    assert(n[k] == dz[k - da.len() - db.len() - 2]);
                }
            }
        },
        None => {
            assert(rest =~= db);
            lemma_find_none(db, '.');
            assert forall|k: int| 0 <= k < n.len() implies #[trigger] n[k] != '-' by {
                if k < da.len() {
                    assert(n[k] == da[k]);
                } else if k > da.len() {
                    assert(n[k] == db[k - da.len() - 1]);
                }
            }
        },
    }
    assert(n[0] == da[0]);
}

/// Parsing then rendering gives the canonical form: any version written as
/// `X.Y` or `X.Y.Z`, with or without a leading `v` and with or without a
/// `-label`, parses, and renders as `X.Y.Z` (patch 0 when absent) followed
/// by the same `-label`.
pub proof fn lemma_parse_render_canonical(
    with_v: bool,
    a: u32,
    b: u32,
    c: Option<u32>,
    label: Option<Seq<char>>,
)
    ensures
        match spec_parse(written(with_v, a, b, c, label)) {
            Some(m) => spec_render(m) == spec_render(
                (
                    a,
                    b,
                    match c {
                        Some(z) => z,
                        None => 0u32,
                    },
                    label,
                ),
            ),
            None => false,
        },
{
    let n = written_numbers(a, b, c);
    lemma_numbers(a, b, c);
    let w = written(with_v, a, b, c, label);
    let tail = match label {
        Some(l) => seq!['-'] + l,
        None => Seq::empty(),
    };
    let t = n + tail;
    lemma_dec_digits(a as nat);
    assert(n.len() > 0);
    if with_v {
        assert(w =~= seq!['v'] + t);
        assert(strip_v(w) =~= t);
    } else {
        assert(w =~= t);
        assert(t[0] == n[0]);
        assert(strip_v(w) == t);
    }
    match label {
        Some(l) => {
            assert(t =~= n + seq!['-'] + l);
            lemma_find_after(n, '-', l);
            assert(t.skip(n.len() + 1int) =~= l);
        },
        None => {
            assert(t =~= n);
            lemma_find_none(n, '-');
        },
    }
    assert(t.take(n.len() as int) =~= n);
}

/// The order of versions: by major, then minor, then patch number, then
/// label, where no label comes before any label and labels go in text order.
/// The derived `Ord` of `Version` orders the same way.
pub open spec fn spec_precedes(
    a: (u32, u32, u32, Option<Seq<char>>),
    b: (u32, u32, u32, Option<Seq<char>>),
) -> bool {
    if a.0 != b.0 {
        a.0 < b.0
    } else if a.1 != b.1 {
        a.1 < b.1
    } else if a.2 != b.2 {
        a.2 < b.2
    } else {
        match (a.3, b.3) {
            (None, Some(_)) => true,
            (Some(x), Some(y)) => x != y && text_le(x, y),
            _ => false,
        }
    }
}

impl Version {
    /// Whether this version comes strictly before `other`.
    pub fn precedes(&self, other: &Version) -> (r: bool)
        ensures
            r == spec_precedes(self@, other@),
    {
        if self.major != other.major {
            return self.major < other.major;
        }
        if self.minor != other.minor {
            return self.minor < other.minor;
        }
        if self.patch != other.patch {
            return self.patch < other.patch;
        }
        match (&self.prerelease, &other.prerelease) {
            (None, Some(_)) => true,
            (Some(x), Some(y)) => {
                let same = crate::text::same_text(x.as_str(), y.as_str());
                !same && le_text(x.as_str(), y.as_str())
            },
            _ => false,
        }
    }
}

/// Versions are strictly and totally ordered: no version precedes itself,
/// two versions never precede each other, of two different versions one
/// precedes the other, and the order is transitive.
pub proof fn lemma_precedes_strict_total_order(
    a: (u32, u32, u32, Option<Seq<char>>),
    b: (u32, u32, u32, Option<Seq<char>>),
    c: (u32, u32, u32, Option<Seq<char>>),
)
    ensures
        !spec_precedes(a, a),
        spec_precedes(a, b) ==> !spec_precedes(b, a),
        a != b ==> spec_precedes(a, b) || spec_precedes(b, a),
        spec_precedes(a, b) && spec_precedes(b, c) ==> spec_precedes(a, c),
{
    if let (Some(x), Some(y)) = (a.3, b.3) {
        lemma_text_le_total(x, y);
        if text_le(x, y) && text_le(y, x) {
            lemma_text_le_antisymmetric(x, y);
        }
    }
    if let (Some(x), Some(y), Some(z)) = (a.3, b.3, c.3) {
        if text_le(x, y) && text_le(y, z) {
            lemma_text_le_transitive(x, y, z);
            if text_le(z, x) {
                lemma_text_le_transitive(y, z, x);
                lemma_text_le_antisymmetric(x, y);
                lemma_text_le_antisymmetric(x, z);
            }
        }
    }
}

} // verus!
