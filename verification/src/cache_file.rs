//! The rules a cache file's fields obey: `oneil_version` comes first and
//! names a supported version, and every other field comes exactly once.
use vstd::prelude::*;

verus! {

/// The fields of a cache file.
#[derive(Debug, Clone, Copy, PartialEq, Eq, Structural)]
pub enum FileCacheField {
    /// `oneil_version`
    OneilVersion,
    /// `module_path`
    ModulePath,
    /// `hash`
    Hash,
    /// `dependencies`
    Dependencies,
    /// `function_calls`
    FunctionCalls,
}

/// Why the fields of a cache file are not acceptable.
#[derive(Debug, Clone, PartialEq, Eq)]
pub enum CacheFieldsError {
    /// The first field is not `oneil_version`.
    VersionNotFirst,
    /// A field is missing.
    Missing(FileCacheField),
    /// A field comes twice.
    Duplicate(FileCacheField),
    /// The version is not a semantic version; the message says why.
    InvalidVersion(String),
    /// The version, shown here, is older than the oldest supported one.
    UnsupportedVersion(String),
}

/// The model of a fields error.
pub enum FieldsErrorModel {
    /// The first field is not `oneil_version`.
    VersionNotFirst,
    /// A field is missing.
    Missing(FileCacheField),
    /// A field comes twice.
    Duplicate(FileCacheField),
    /// The version is invalid, with the message.
    InvalidVersion(Seq<char>),
    /// The version is unsupported, as written.
    UnsupportedVersion(Seq<char>),
}

/// The model of a fields error.
pub open spec fn fields_error_view(e: CacheFieldsError) -> FieldsErrorModel {
    match e {
        CacheFieldsError::VersionNotFirst => FieldsErrorModel::VersionNotFirst,
        CacheFieldsError::Missing(f) => FieldsErrorModel::Missing(f),
        CacheFieldsError::Duplicate(f) => FieldsErrorModel::Duplicate(f),
        CacheFieldsError::InvalidVersion(m) => FieldsErrorModel::InvalidVersion(m@),
        CacheFieldsError::UnsupportedVersion(v) => FieldsErrorModel::UnsupportedVersion(v@),
    }
}

/// What a semantic version string holds: its numbers, whether it is a
/// release (no pre-release part), and its canonical text.
pub struct SemverInfo {
    /// Major version.
    pub major: u64,
    /// Minor version.
    pub minor: u64,
    /// Patch version.
    pub patch: u64,
    /// The version has no pre-release part.
    pub is_release: bool,
    /// The version as the semver crate writes it.
    pub text: String,
}

/// What `semver::Version::parse` makes of `s`: the numbers, the release
/// flag and the canonical text of the version, or the message of its error.
pub uninterp spec fn semver_parse(s: Seq<char>) -> Result<(u64, u64, u64, bool, Seq<char>), Seq<char>>;

/// `semver::Version::parse`, with the version's numbers, whether its
/// pre-release part is empty, and its `to_string`; or its error's
/// `to_string`.
#[verifier::external_body]
fn parse_semver(s: &str) -> (r: Result<SemverInfo, String>)
    ensures
        match r {
            Ok(v) => semver_parse(s@) == Ok::<(u64, u64, u64, bool, Seq<char>), Seq<char>>(
                (v.major, v.minor, v.patch, v.is_release, v.text@),
            ),
            Err(m) => semver_parse(s@) == Err::<(u64, u64, u64, bool, Seq<char>), Seq<char>>(m@),
        },
{
    match semver::Version::parse(s) {
        Ok(v) => Ok(
            SemverInfo {
                major: v.major,
                minor: v.minor,
                patch: v.patch,
                is_release: v.pre.is_empty(),
                text: v.to_string(),
            },
        ),
        Err(e) => Err(e.to_string()),
    }
}

/// A version is at least `0.16.0`: by its numbers, and a pre-release of
/// `0.16.0` comes before `0.16.0` itself.
pub open spec fn is_supported(major: u64, minor: u64, patch: u64, is_release: bool) -> bool {
    ||| major > 0
    ||| minor > 16
    ||| (minor == 16 && (patch > 0 || is_release))
}

/// Semantic-version order on what decides support: the numbers, major then
/// minor then patch, and at equal numbers a pre-release before the release.
pub open spec fn version_lt(a: (u64, u64, u64, bool), b: (u64, u64, u64, bool)) -> bool {
    ||| a.0 < b.0
    ||| (a.0 == b.0 && a.1 < b.1)
    ||| (a.0 == b.0 && a.1 == b.1 && a.2 < b.2)
    ||| (a.0 == b.0 && a.1 == b.1 && a.2 == b.2 && !a.3 && b.3)
}

/// `a` comes no later than `b` in semantic-version order (two pre-releases
/// of the same numbers count as equal here).
pub open spec fn version_le(a: (u64, u64, u64, bool), b: (u64, u64, u64, bool)) -> bool {
    !version_lt(b, a)
}

/// The oldest supported version, `0.16.0`.
pub open spec fn minimum_version() -> (u64, u64, u64, bool) {
    (0, 16, 0, true)
}

/// A version is supported exactly when it does not come before `0.16.0` in
/// semantic-version order; so support is monotone: every version after a
/// supported one is supported too.
pub proof fn lemma_supported_versions(a: (u64, u64, u64, bool), b: (u64, u64, u64, bool))
    ensures
        is_supported(a.0, a.1, a.2, a.3) <==> !version_lt(a, minimum_version()),
        is_supported(a.0, a.1, a.2, a.3) && version_le(a, b) ==> is_supported(b.0, b.1, b.2, b.3),
{
}

/// The version check accepts exactly the semantic versions that do not come
/// before `0.16.0`; anything else that parses is unsupported, and what does
/// not parse is invalid.
pub proof fn lemma_version_check_order(s: Seq<char>)
    ensures
        version_check(s) is Ok <==> (semver_parse(s) matches Ok((major, minor, patch, is_release, _))
            && !version_lt((major, minor, patch, is_release), minimum_version())),
        semver_parse(s) matches Ok((major, minor, patch, is_release, text)) ==> (version_lt(
            (major, minor, patch, is_release),
            minimum_version(),
        ) ==> version_check(s) == Err::<(), FieldsErrorModel>(FieldsErrorModel::UnsupportedVersion(text))),
        semver_parse(s) matches Err(m) ==> version_check(s) == Err::<(), FieldsErrorModel>(
            FieldsErrorModel::InvalidVersion(m),
        ),
{
}

/// The version check: the text must be a semantic version of at least
/// `0.16.0`.
pub open spec fn version_check(s: Seq<char>) -> Result<(), FieldsErrorModel> {
    match semver_parse(s) {
        Err(m) => Err(FieldsErrorModel::InvalidVersion(m)),
        Ok((major, minor, patch, is_release, text)) => if is_supported(
            major,
            minor,
            patch,
            is_release,
        ) {
            Ok(())
        } else {
            Err(FieldsErrorModel::UnsupportedVersion(text))
        },
    }
}

/// The first field must be `oneil_version`.
pub open spec fn first_field_check(first: Option<FileCacheField>) -> Result<(), FieldsErrorModel> {
    match first {
        None => Err(FieldsErrorModel::Missing(FileCacheField::OneilVersion)),
        Some(FileCacheField::OneilVersion) => Ok(()),
        Some(_) => Err(FieldsErrorModel::VersionNotFirst),
    }
}

/// The check of a field after the first, given the fields `seen` since.
pub open spec fn next_field_check(seen: Set<FileCacheField>, k: FileCacheField) -> Result<(), FieldsErrorModel> {
    if k == FileCacheField::OneilVersion || seen.contains(k) {
        Err(FieldsErrorModel::Duplicate(k))
    } else {
        Ok(())
    }
}

/// The check at the end: the first missing field, in declaration order.
pub open spec fn missing_check(seen: Set<FileCacheField>) -> Result<(), FieldsErrorModel> {
    if !seen.contains(FileCacheField::ModulePath) {
        Err(FieldsErrorModel::Missing(FileCacheField::ModulePath))
    } else if !seen.contains(FileCacheField::Hash) {
        Err(FieldsErrorModel::Missing(FileCacheField::Hash))
    } else if !seen.contains(FileCacheField::Dependencies) {
        Err(FieldsErrorModel::Missing(FileCacheField::Dependencies))
    } else if !seen.contains(FileCacheField::FunctionCalls) {
        Err(FieldsErrorModel::Missing(FileCacheField::FunctionCalls))
    } else {
        Ok(())
    }
}

/// The checks of the fields after the first, in order, with `seen` the
/// fields already read.
pub open spec fn rest_check(keys: Seq<FileCacheField>, seen: Set<FileCacheField>) -> Result<(), FieldsErrorModel>
    decreases keys.len(),
{
    if keys.len() == 0 {
        missing_check(seen)
    } else {
        match next_field_check(seen, keys[0]) {
            Err(e) => Err(e),
            Ok(()) => rest_check(keys.drop_first(), seen.insert(keys[0])),
        }
    }
}

/// The outcome of reading the fields `keys` of a cache file, in order, with
/// `version` the value of its first field.
pub open spec fn fields_check(keys: Seq<FileCacheField>, version: Seq<char>) -> Result<(), FieldsErrorModel> {
    let first = if keys.len() == 0 {
        None
    } else {
        Some(keys[0])
    };
    match first_field_check(first) {
        Err(e) => Err(e),
        Ok(()) => match version_check(version) {
            Err(e) => Err(e),
            Ok(()) => rest_check(keys.drop_first(), Set::empty()),
        },
    }
}

/// No field of `keys` is `oneil_version` or in `seen`, none comes twice,
/// and together with `seen` they hold every field but `oneil_version`.
spec fn rest_fields_ok(keys: Seq<FileCacheField>, seen: Set<FileCacheField>) -> bool {
    &&& keys.no_duplicates()
    &&& forall|i: int|
        0 <= i < keys.len() ==> #[trigger] keys[i] != FileCacheField::OneilVersion && !seen.contains(
            keys[i],
        )
    &&& forall|f: FileCacheField|
        f != FileCacheField::OneilVersion ==> #[trigger] seen.contains(f) || keys.contains(f)
}

/// `rest_fields_ok` on a nonempty list is a condition on its first field and
/// `rest_fields_ok` on the others.
proof fn lemma_rest_fields_step(keys: Seq<FileCacheField>, seen: Set<FileCacheField>)
    requires
        keys.len() > 0,
    ensures
        rest_fields_ok(keys, seen) <==> {
            &&& keys[0] != FileCacheField::OneilVersion
            &&& !seen.contains(keys[0])
            &&& rest_fields_ok(keys.drop_first(), seen.insert(keys[0]))
        },
{
    let k = keys[0];
    let ks = keys.drop_first();
    let seen2 = seen.insert(k);
    assert(forall|i: int| 0 <= i < ks.len() ==> #[trigger] ks[i] == keys[i + 1]);
    if rest_fields_ok(keys, seen) {
        assert(keys[0] != FileCacheField::OneilVersion && !seen.contains(keys[0]));
        assert forall|i: int, j: int| 0 <= i < ks.len() && 0 <= j < ks.len() && i != j implies ks[i] != ks[j] by {
            assert(ks[i] == keys[i + 1] && ks[j] == keys[j + 1]);
        }
        assert forall|i: int| 0 <= i < ks.len() implies #[trigger] ks[i] != FileCacheField::OneilVersion
            && !seen2.contains(ks[i]) by {
            assert(ks[i] == keys[i + 1]);
            assert(keys[i + 1] != keys[0]);
            assert(keys[i + 1] != FileCacheField::OneilVersion && !seen.contains(keys[i + 1]));
        }
        assert forall|f: FileCacheField| f != FileCacheField::OneilVersion implies #[trigger] seen2.contains(f)
            || ks.contains(f) by {
            if !seen.contains(f) {
                assert(keys.contains(f));
                let i = choose|i: int| 0 <= i < keys.len() && keys[i] == f;
                if i > 0 {
                    assert(ks[i - 1] == f);
                }
            }
        }
    }
    if k != FileCacheField::OneilVersion && !seen.contains(k) && rest_fields_ok(ks, seen2) {
        assert forall|i: int, j: int| 0 <= i < keys.len() && 0 <= j < keys.len() && i != j implies keys[i]
            != keys[j] by {
            if i > 0 && j > 0 {
                assert(ks[i - 1] == keys[i] && ks[j - 1] == keys[j]);
            } else if i == 0 {
                assert(ks[j - 1] == keys[j]);
                assert(!seen2.contains(ks[j - 1]));
            } else {
                assert(ks[i - 1] == keys[i]);
                assert(!seen2.contains(ks[i - 1]));
            }
        }
        assert forall|i: int| 0 <= i < keys.len() implies #[trigger] keys[i] != FileCacheField::OneilVersion
            && !seen.contains(keys[i]) by {
            if i > 0 {
                assert(ks[i - 1] == keys[i]);
                assert(ks[i - 1] != FileCacheField::OneilVersion && !seen2.contains(ks[i - 1]));
            }
        }
        assert forall|f: FileCacheField| f != FileCacheField::OneilVersion implies #[trigger] seen.contains(f)
            || keys.contains(f) by {
            if !seen.contains(f) {
                assert(seen2.contains(f) || ks.contains(f));
                if f == k {
                    assert(keys[0] == f);
                } else {
                    assert(ks.contains(f));
                    let i = choose|i: int| 0 <= i < ks.len() && ks[i] == f;
                    assert(keys[i + 1] == f);
                }
            }
        }
    }
}

/// The fields after the first pass their checks exactly when
/// `rest_fields_ok` holds of them.
proof fn lemma_rest_check(keys: Seq<FileCacheField>, seen: Set<FileCacheField>)
    ensures
        rest_check(keys, seen) is Ok <==> rest_fields_ok(keys, seen),
    decreases keys.len(),
{
    if keys.len() == 0 {
        assert(forall|f: FileCacheField| !keys.contains(f));
        assert(keys.no_duplicates());
    } else {
        lemma_rest_check(keys.drop_first(), seen.insert(keys[0]));
        lemma_rest_fields_step(keys, seen);
    }
}

/// The fields of a cache file are accepted exactly when `oneil_version`
/// comes first and names a supported version, no field comes twice, and no
/// field is missing.
pub proof fn lemma_fields_accepted(keys: Seq<FileCacheField>, version: Seq<char>)
    ensures
        fields_check(keys, version) is Ok <==> {
            &&& keys.len() > 0
            &&& keys[0] == FileCacheField::OneilVersion
            &&& version_check(version) is Ok
            &&& keys.no_duplicates()
            &&& forall|f: FileCacheField| #[trigger] keys.contains(f)
        },
{
    if keys.len() > 0 && keys[0] == FileCacheField::OneilVersion {
        let ks = keys.drop_first();
        let e = Set::<FileCacheField>::empty();
        lemma_rest_check(ks, e);
        assert(forall|i: int| 0 <= i < ks.len() ==> #[trigger] ks[i] == keys[i + 1]);
        assert(keys[0] == FileCacheField::OneilVersion);
        if rest_fields_ok(ks, e) {
            assert forall|i: int, j: int| 0 <= i < keys.len() && 0 <= j < keys.len() && i != j implies keys[i]
                != keys[j] by {
                if i > 0 && j > 0 {
                    assert(ks[i - 1] == keys[i] && ks[j - 1] == keys[j]);
                } else if i == 0 {
                    assert(ks[j - 1] == keys[j]);
                } else {
                    assert(ks[i - 1] == keys[i]);
                }
            }
            assert forall|f: FileCacheField| #[trigger] keys.contains(f) by {
                if f == FileCacheField::OneilVersion {
                    assert(keys[0] == f);
                } else {
                    assert(e.contains(f) || ks.contains(f));
                    let i = choose|i: int| 0 <= i < ks.len() && ks[i] == f;
                    assert(keys[i + 1] == f);
                }
            }
        }
        if keys.no_duplicates() && forall|f: FileCacheField| #[trigger] keys.contains(f) {
            assert forall|i: int, j: int| 0 <= i < ks.len() && 0 <= j < ks.len() && i != j implies ks[i] != ks[j] by {
                assert(ks[i] == keys[i + 1] && ks[j] == keys[j + 1]);
            }
            assert forall|i: int| 0 <= i < ks.len() implies #[trigger] ks[i] != FileCacheField::OneilVersion
                && !e.contains(ks[i]) by {
                assert(ks[i] == keys[i + 1]);
                assert(keys[i + 1] != keys[0]);
            }
            assert forall|f: FileCacheField| f != FileCacheField::OneilVersion implies #[trigger] e.contains(f)
                || ks.contains(f) by {
                assert(keys.contains(f));
                let i = choose|i: int| 0 <= i < keys.len() && keys[i] == f;
                assert(i != 0);
                assert(ks[i - 1] == f);
            }
        }
    }
}

/// The model of the result of a check.
pub open spec fn check_view(r: Result<(), CacheFieldsError>) -> Result<(), FieldsErrorModel> {
    match r {
        Ok(()) => Ok(()),
        Err(e) => Err(fields_error_view(e)),
    }
}

/// Checks that the first field of a cache file is `oneil_version`.
pub fn check_first_field(first: Option<FileCacheField>) -> (r: Result<(), CacheFieldsError>)
    ensures
        check_view(r) == first_field_check(first),
{
    match first {
        None => Err(CacheFieldsError::Missing(FileCacheField::OneilVersion)),
        Some(FileCacheField::OneilVersion) => Ok(()),
        Some(_) => Err(CacheFieldsError::VersionNotFirst),
    }
}

/// Checks that `version` is a semantic version of at least `0.16.0`.
pub fn check_version(version: &str) -> (r: Result<(), CacheFieldsError>)
    ensures
        check_view(r) == version_check(version@),
{
    match parse_semver(version) {
        Err(m) => Err(CacheFieldsError::InvalidVersion(m)),
        Ok(v) => {
            let supported = v.major > 0 || v.minor > 16 || (v.minor == 16 && (v.patch > 0
                || v.is_release));
            if supported {
                Ok(())
            } else {
                Err(CacheFieldsError::UnsupportedVersion(v.text))
            }
        },
    }
}

/// The fields of a cache file read so far after `oneil_version`.
pub struct FieldTracker {
    seen_module_path: bool,
    seen_hash: bool,
    seen_dependencies: bool,
    seen_function_calls: bool,
}

impl FieldTracker {
    /// The set of fields read so far.
    pub closed spec fn seen(&self) -> Set<FileCacheField> {
        Set::new(
            |f: FileCacheField|
                (f == FileCacheField::ModulePath && self.seen_module_path) || (f == FileCacheField::Hash
                    && self.seen_hash) || (f == FileCacheField::Dependencies && self.seen_dependencies) || (f
                    == FileCacheField::FunctionCalls && self.seen_function_calls),
        )
    }

    /// A tracker that has seen no field.
    pub fn new() -> (r: FieldTracker)
        ensures
            r.seen() == Set::<FileCacheField>::empty(),
    {
        let r = FieldTracker {
            seen_module_path: false,
            seen_hash: false,
            seen_dependencies: false,
            seen_function_calls: false,
        };
        assert(r.seen() =~= Set::<FileCacheField>::empty());
        r
    }

    /// Records the field `k`, or rejects it as a duplicate.
    pub fn record(&mut self, k: FileCacheField) -> (r: Result<(), CacheFieldsError>)
        ensures
            check_view(r) == next_field_check(old(self).seen(), k),
            r is Ok ==> final(self).seen() == old(self).seen().insert(k),
            r is Err ==> final(self).seen() == old(self).seen(),
    {
        let ghost before = self.seen();
        let dup = match k {
            FileCacheField::OneilVersion => true,
            FileCacheField::ModulePath => self.seen_module_path,
            FileCacheField::Hash => self.seen_hash,
            FileCacheField::Dependencies => self.seen_dependencies,
            FileCacheField::FunctionCalls => self.seen_function_calls,
        };
        if dup {
            return Err(CacheFieldsError::Duplicate(k));
        }
        match k {
            FileCacheField::OneilVersion => {},
            FileCacheField::ModulePath => {
                self.seen_module_path = true;
            },
            FileCacheField::Hash => {
                self.seen_hash = true;
            },
            FileCacheField::Dependencies => {
                self.seen_dependencies = true;
            },
            FileCacheField::FunctionCalls => {
                self.seen_function_calls = true;
            },
        }
        assert(self.seen() =~= before.insert(k));
        Ok(())
    }

    /// Checks that every field after `oneil_version` was read.
    pub fn finish(&self) -> (r: Result<(), CacheFieldsError>)
        ensures
            check_view(r) == missing_check(self.seen()),
    {
        if !self.seen_module_path {
            Err(CacheFieldsError::Missing(FileCacheField::ModulePath))
        } else if !self.seen_hash {
            Err(CacheFieldsError::Missing(FileCacheField::Hash))
        } else if !self.seen_dependencies {
            Err(CacheFieldsError::Missing(FileCacheField::Dependencies))
        } else if !self.seen_function_calls {
            Err(CacheFieldsError::Missing(FileCacheField::FunctionCalls))
        } else {
            Ok(())
        }
    }
}

/// Checks the fields `keys` of a cache file, in the order read, with
/// `version` the value of its first field.
pub fn check_fields(keys: &Vec<FileCacheField>, version: &str) -> (r: Result<(), CacheFieldsError>)
    ensures
        check_view(r) == fields_check(keys@, version@),
{
    let first = if keys.len() == 0 {
        None
    } else {
        Some(keys[0])
    };
    match check_first_field(first) {
        Err(e) => {
            return Err(e);
        },
        Ok(()) => {},
    }
    match check_version(version) {
        Err(e) => {
            return Err(e);
        },
        Ok(()) => {},
    }
    let mut tracker = FieldTracker::new();
    let mut i: usize = 1;
    proof {
        assert(keys@.drop_first() =~= keys@.subrange(1, keys@.len() as int));
    }
    while i < keys.len()
        invariant
            1 <= i <= keys@.len(),
            rest_check(keys@.subrange(i as int, keys@.len() as int), tracker.seen()) == rest_check(
                keys@.drop_first(),
                Set::empty(),
            ),
            fields_check(keys@, version@) == rest_check(keys@.drop_first(), Set::empty()),
        decreases keys@.len() - i,
    {
        let k = keys[i];
        proof {
            assert(keys@.subrange(i as int, keys@.len() as int)[0] == k);
            assert(keys@.subrange(i as int, keys@.len() as int).drop_first() =~= keys@.subrange(
                i + 1,
                keys@.len() as int,
            ));
        }
        match tracker.record(k) {
            Err(e) => {
                return Err(e);
            },
            Ok(()) => {},
        }
        i = i + 1;
    }
    proof {
        assert(keys@.subrange(i as int, keys@.len() as int) =~= Seq::<FileCacheField>::empty());
    }
    tracker.finish()
}

} // verus!
