use vstd::prelude::*;

verus! {

/// A semantic version `major.minor.patch`.
#[derive(Clone, Copy, Debug, PartialEq, Eq, Structural)]
pub struct Version {
    pub major: u64,
    pub minor: u64,
    pub patch: u64,
}

/// Why a version text could not be read.
#[derive(Clone, Copy, Debug, PartialEq, Eq, Structural)]
pub enum VersionError {
    /// The release tag does not name a version.
    InvalidTag,
    /// The running build's version text is not a version.
    InvalidCurrent,
}

pub open spec fn is_digit(c: char) -> bool {
    '0' <= c && c <= '9'
}

pub open spec fn digit_value(c: char) -> nat {
    (c as int - '0' as int) as nat
}

/// A non-empty run of decimal digits.
pub open spec fn is_number(s: Seq<char>) -> bool {
    s.len() > 0 && forall|i: int| 0 <= i < s.len() ==> is_digit(#[trigger] s[i])
}

/// The value of a run of decimal digits.
pub open spec fn number_value(s: Seq<char>) -> nat
    decreases s.len(),
{
    if s.len() == 0 {
        0
    } else {
        number_value(s.drop_last()) * 10 + digit_value(s.last())
    }
}

/// `s[from..to]` is a decimal number whose value is `v`.
pub open spec fn number_at(s: Seq<char>, from: int, to: int, v: u64) -> bool {
    is_number(s.subrange(from, to)) && number_value(s.subrange(from, to)) == v as nat
}

/// `s` reads `major.minor.patch` of `v`, each part a run of decimal digits.
pub open spec fn spells(s: Seq<char>, v: Version) -> bool {
    exists|i: int, j: int|
        0 <= i < j < s.len() && #[trigger] s[i] == '.' && #[trigger] s[j] == '.'
            && number_at(s, 0, i, v.major) && number_at(s, i + 1, j, v.minor)
            && number_at(s, j + 1, s.len() as int, v.patch)
}

/// The version text of a release tag: the tag without a leading non-digit
/// character such as `v`.
pub open spec fn tag_text(t: Seq<char>) -> Seq<char> {
    if t.len() > 0 && !is_digit(t[0]) {
        t.subrange(1, t.len() as int)
    } else {
        t
    }
}

/// `a` comes strictly before `b` in the order of major, then minor, then patch.
pub open spec fn precedes(a: Version, b: Version) -> bool {
    a.major < b.major || (a.major == b.major && (a.minor < b.minor || (a.minor == b.minor
        && a.patch < b.patch)))
}

/// The version that `s` spells, if any.
pub open spec fn version_of(s: Seq<char>) -> Option<Version> {
    if exists|v: Version| spells(s, v) {
        Some(choose|v: Version| spells(s, v))
    } else {
        None
    }
}

/// What parsing `s` gives: a version exactly when `s` spells one.
pub open spec fn parsed(s: Seq<char>, r: Option<Version>) -> bool {
    match r {
        Some(v) => spells(s, v),
        None => forall|v: Version| !spells(s, v),
    }
}

impl Version {
    pub fn new(major: u64, minor: u64, patch: u64) -> (r: Version)
        ensures
            r == (Version { major, minor, patch }),
    {
        Version { major, minor, patch }
    }

    /// The version `0.0.0`, taken where an installed version cannot be read.
    pub fn zero() -> (r: Version)
        ensures
            r == (Version { major: 0, minor: 0, patch: 0 }),
    {
        Version { major: 0, minor: 0, patch: 0 }
    }

    /// Whether `self` is a strictly later version than `other`.
    pub fn is_newer_than(&self, other: &Version) -> (r: bool)
        ensures
            r == precedes(*other, *self),
    {
        if self.major != other.major {
            self.major > other.major
        } else if self.minor != other.minor {
            self.minor > other.minor
        } else {
            self.patch > other.patch
        }
    }
}

/// Index of the first `.` in `s[from..]`, or the length of `s` when there is none.
fn find_dot(s: &str, from: usize) -> (r: usize)
    requires
        from <= s@.len(),
    ensures
        from <= r <= s@.len(),
        r < s@.len() ==> s@[r as int] == '.',
        forall|k: int| from <= k < r ==> s@[k] != '.',
{
    let n = s.unicode_len();
    let mut k: usize = from;
    while k < n
        invariant
            n == s@.len(),
            from <= k <= n,
            forall|m: int| from <= m < k ==> s@[m] != '.',
        decreases n - k,
    {
        if s.get_char(k) == '.' {
            return k;
        }
        k = k + 1;
    }
    k
}

/// Reads `s[from..to]` as a decimal number that fits in a `u64`.
fn parse_number(s: &str, from: usize, to: usize) -> (r: Option<u64>)
    requires
        from <= to <= s@.len(),
    ensures
        match r {
            Some(v) => number_at(s@, from as int, to as int, v),
            None => forall|v: u64| !number_at(s@, from as int, to as int, v),
        },
{
    if from == to {
        return None;
    }
    let mut acc: u64 = 0;
    let mut too_big = false;
    let mut k: usize = from;
    while k < to
        invariant
            from < to <= s@.len(),
            from <= k <= to,
            forall|m: int| from <= m < k ==> is_digit(#[trigger] s@[m]),
            !too_big ==> acc as nat == number_value(s@.subrange(from as int, k as int)),
            too_big ==> number_value(s@.subrange(from as int, k as int)) > u64::MAX,
        decreases to - k,
    {
        let c = s.get_char(k);
        let ghost sub = s@.subrange(from as int, k as int + 1);
        assert(sub.drop_last() =~= s@.subrange(from as int, k as int));
        if c < '0' || c > '9' {
            assert(!is_digit(s@.subrange(from as int, to as int)[k - from]));
            return None;
        }
        let d: u64 = (c as u32 - '0' as u32) as u64;
        if !too_big {
            if acc > (u64::MAX - d) / 10 {
                too_big = true;
            } else {
                acc = acc * 10 + d;
            }
        }
        k = k + 1;
    }
    let ghost whole = s@.subrange(from as int, to as int);
    assert forall|m: int| 0 <= m < whole.len() implies is_digit(#[trigger] whole[m]) by {
        assert(whole[m] == s@[from + m]);
    }
    if too_big {
        None
    } else {
        Some(acc)
    }
}

/// Reads `s[start..]` as a version.
fn parse_version_from(s: &str, start: usize) -> (r: Option<Version>)
    requires
        start <= s@.len(),
    ensures
        parsed(s@.subrange(start as int, s@.len() as int), r),
{
    let ghost t = s@.subrange(start as int, s@.len() as int);
    let n = s.unicode_len();
    let i = find_dot(s, start);
    if i >= n {
        assert forall|v: Version| !spells(t, v) by {
            if spells(t, v) {
                let (a, b) = choose|a: int, b: int|
                    0 <= a < b < t.len() && #[trigger] t[a] == '.' && #[trigger] t[b] == '.'
                        && number_at(t, 0, a, v.major) && number_at(t, a + 1, b, v.minor)
                        && number_at(t, b + 1, t.len() as int, v.patch);
                assert(s@[start + a] == '.');
            }
        }
        return None;
    }
    let j = find_dot(s, i + 1);
    proof {
        assert forall|v: Version| spells(t, v) implies j < n && number_at(t, 0, i - start, v.major)
            && number_at(t, i - start + 1, j - start, v.minor)
            && number_at(t, j - start + 1, t.len() as int, v.patch) by {
            let (a, b) = choose|a: int, b: int|
                0 <= a < b < t.len() && #[trigger] t[a] == '.' && #[trigger] t[b] == '.'
                    && number_at(t, 0, a, v.major) && number_at(t, a + 1, b, v.minor)
                    && number_at(t, b + 1, t.len() as int, v.patch);
            let pa = t.subrange(0, a);
            let pb = t.subrange(a + 1, b);
            if a < i - start {
                assert(s@[start + a] == '.');
            }
            if i - start < a {
                assert(pa[i - start] == t[i - start]);
                assert(is_digit(pa[i - start]));
            }
            assert(a == i - start);
            if b < j {
                assert(s@[start + b] == '.');
            }
            if j - start < b {
                assert(pb[j - start - a - 1] == t[j - start]);
                assert(is_digit(pb[j - start - a - 1]));
            }
        }
    }
    if j >= n {
        return None;
    }
    let major = parse_number(s, start, i);
    let minor = parse_number(s, i + 1, j);
    let patch = parse_number(s, j + 1, n);
    assert(s@.subrange(start as int, i as int) =~= t.subrange(0, i - start));
    assert(s@.subrange(i + 1, j as int) =~= t.subrange(i - start + 1, j - start));
    assert(s@.subrange(j + 1, n as int) =~= t.subrange(j - start + 1, t.len() as int));
    match (major, minor, patch) {
        (Some(a), Some(b), Some(c)) => {
            let v = Version { major: a, minor: b, patch: c };
            assert(t[i - start] == '.' && t[j - start] == '.');
            assert(spells(t, v));
            Some(v)
        },
        _ => {
            assert forall|v: Version| !spells(t, v) by {
                if spells(t, v) {
                    assert(number_at(s@, start as int, i as int, v.major));
                    assert(number_at(s@, i + 1, j as int, v.minor));
                    assert(number_at(s@, j + 1, n as int, v.patch));
                }
            }
            None
        },
    }
}

/// A text spells at most one version.
pub proof fn lemma_spells_unique(s: Seq<char>, v: Version, w: Version)
    requires
        spells(s, v),
        spells(s, w),
    ensures
        v == w,
{
    let (a, b) = choose|a: int, b: int|
        0 <= a < b < s.len() && #[trigger] s[a] == '.' && #[trigger] s[b] == '.'
            && number_at(s, 0, a, v.major) && number_at(s, a + 1, b, v.minor)
            && number_at(s, b + 1, s.len() as int, v.patch);
    let (c, d) = choose|c: int, d: int|
        0 <= c < d < s.len() && #[trigger] s[c] == '.' && #[trigger] s[d] == '.'
            && number_at(s, 0, c, w.major) && number_at(s, c + 1, d, w.minor)
            && number_at(s, d + 1, s.len() as int, w.patch);
    if a < c {
        assert(is_digit(s.subrange(0, c)[a]));
    }
    if c < a {
        assert(is_digit(s.subrange(0, a)[c]));
    }
    if b < d {
        assert(is_digit(s.subrange(c + 1, d)[b - c - 1]));
    }
    if d < b {
        assert(is_digit(s.subrange(a + 1, b)[d - a - 1]));
    }
}

/// Parsing gives the version that the text spells.
proof fn lemma_parsed_is_version_of(s: Seq<char>, r: Option<Version>)
    requires
        parsed(s, r),
    ensures
        r == version_of(s),
{
    if let Some(v) = r {
        let w = choose|w: Version| spells(s, w);
        lemma_spells_unique(s, v, w);
    }
}

/// Reads a version text `major.minor.patch`.
pub fn parse_version(s: &str) -> (r: Option<Version>)
    ensures
        parsed(s@, r),
        r == version_of(s@),
{
    let r = parse_version_from(s, 0);
    assert(s@.subrange(0, s@.len() as int) =~= s@);
    proof {
        lemma_parsed_is_version_of(s@, r);
    }
    r
}

/// Reads the version that a release tag names, such as `v1.2.0`.
pub fn parse_tag(tag: &str) -> (r: Option<Version>)
    ensures
        parsed(tag_text(tag@), r),
        r == version_of(tag_text(tag@)),
{
    let n = tag.unicode_len();
    if n > 0 {
        let c = tag.get_char(0);
        if c < '0' || c > '9' {
            let r = parse_version_from(tag, 1);
            proof {
                lemma_parsed_is_version_of(tag_text(tag@), r);
            }
            return r;
        }
    }
    parse_version(tag)
}

/// Whether a release whose tag is `tag` is later than the running build,
/// whose version text is `current`.
pub open spec fn release_is_newer(tag: Seq<char>, current: Seq<char>) -> Result<bool, VersionError> {
    match version_of(tag_text(tag)) {
        None => Err(VersionError::InvalidTag),
        Some(remote) => match version_of(current) {
            None => Err(VersionError::InvalidCurrent),
            Some(running) => Ok(precedes(running, remote)),
        },
    }
}

/// Decides whether the release tagged `tag` announces a version later than the
/// running one. A tag that names no version, or a running version that cannot
/// be read, is an error.
pub fn server_update_available(tag: &str, current: &str) -> (r: Result<bool, VersionError>)
    ensures
        r == release_is_newer(tag@, current@),
{
    let remote = match parse_tag(tag) {
        Some(v) => v,
        None => return Err(VersionError::InvalidTag),
    };
    let running = match parse_version(current) {
        Some(v) => v,
        None => return Err(VersionError::InvalidCurrent),
    };
    Ok(remote.is_newer_than(&running))
}

} // verus!
