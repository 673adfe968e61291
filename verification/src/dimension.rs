//! The base dimensions of units, and the keys under which a cached unit
//! stores them.
use vstd::prelude::*;

verus! {

/// A base dimension of a unit.
#[derive(Debug, Clone, Copy, PartialEq, Eq, Structural)]
pub enum Dimension {
    /// Mass, in kilograms.
    Mass,
    /// Distance, in metres.
    Distance,
    /// Time, in seconds.
    Time,
    /// Temperature, in kelvin.
    Temperature,
    /// Electric current, in amperes.
    Current,
    /// Information, in bits.
    Information,
    /// Currency, in dollars.
    Currency,
    /// Amount of substance, in moles.
    Substance,
    /// Luminous intensity, in candelas.
    LuminousIntensity,
}

/// The key of a dimension in a cached unit: the symbol of its base unit.
pub open spec fn dimension_key(d: Dimension) -> Seq<char> {
    match d {
        Dimension::Mass => seq!['k', 'g'],
        Dimension::Distance => seq!['m'],
        Dimension::Time => seq!['s'],
        Dimension::Temperature => seq!['K'],
        Dimension::Current => seq!['A'],
        Dimension::Information => seq!['b', 'i', 't'],
        Dimension::Currency => seq!['$'],
        Dimension::Substance => seq!['m', 'o', 'l'],
        Dimension::LuminousIntensity => seq!['c', 'd'],
    }
}

/// The dimension whose key is `key`, if there is one.
pub open spec fn key_dimension(key: Seq<char>) -> Option<Dimension> {
    if key == dimension_key(Dimension::Mass) {
        Some(Dimension::Mass)
    } else if key == dimension_key(Dimension::Distance) {
        Some(Dimension::Distance)
    } else if key == dimension_key(Dimension::Time) {
        Some(Dimension::Time)
    } else if key == dimension_key(Dimension::Temperature) {
        Some(Dimension::Temperature)
    } else if key == dimension_key(Dimension::Current) {
        Some(Dimension::Current)
    } else if key == dimension_key(Dimension::Information) {
        Some(Dimension::Information)
    } else if key == dimension_key(Dimension::Currency) {
        Some(Dimension::Currency)
    } else if key == dimension_key(Dimension::Substance) {
        Some(Dimension::Substance)
    } else if key == dimension_key(Dimension::LuminousIntensity) {
        Some(Dimension::LuminousIntensity)
    } else {
        None
    }
}

/// Why a cached value could not be read back.
#[derive(Debug, Clone, PartialEq, Eq)]
pub enum CacheValueConversionError {
    /// A dimension key of a cached unit is not the symbol of a base unit.
    UnknownDimension {
        /// The key from the cache.
        key: String,
    },
}

impl CacheValueConversionError {
    /// The message of the error.
    pub fn message(&self) -> (r: String)
        ensures
            match self {
                CacheValueConversionError::UnknownDimension { key } => r@
                    == "unknown dimension key in cache unit: "@ + key@,
            },
    {
        match self {
            CacheValueConversionError::UnknownDimension { key } => {
                let mut r = String::from_str("unknown dimension key in cache unit: ");
                r.append(key.as_str());
                r
            },
        }
    }
}

/// The key of a dimension in a cached unit.
pub fn dimension_to_cache_key(dim: Dimension) -> (r: &'static str)
    ensures
        r@ == dimension_key(dim),
{
    match dim {
        Dimension::Mass => {
            proof {
                reveal_strlit("kg");
            }
            "kg"
        },
        Dimension::Distance => {
            proof {
                reveal_strlit("m");
            }
            "m"
        },
        Dimension::Time => {
            proof {
                reveal_strlit("s");
            }
            "s"
        },
        Dimension::Temperature => {
            proof {
                reveal_strlit("K");
            }
            "K"
        },
        Dimension::Current => {
            proof {
                reveal_strlit("A");
            }
            "A"
        },
        Dimension::Information => {
            proof {
                reveal_strlit("bit");
            }
            "bit"
        },
        Dimension::Currency => {
            proof {
                reveal_strlit("$");
            }
            "$"
        },
        Dimension::Substance => {
            proof {
                reveal_strlit("mol");
            }
            "mol"
        },
        Dimension::LuminousIntensity => {
            proof {
                reveal_strlit("cd");
            }
            "cd"
        },
    }
}

/// Whether the text `key` is the text `want`.
fn same_text(key: &str, want: &str) -> (r: bool)
    ensures
        r == (key@ == want@),
{
    let n = key.unicode_len();
    if n != want.unicode_len() {
        return false;
    }
    let mut i: usize = 0;
    while i < n
        invariant
            n == key@.len(),
            n == want@.len(),
            i <= n,
            key@.subrange(0, i as int) == want@.subrange(0, i as int),
        decreases n - i,
    {
        if key.get_char(i) != want.get_char(i) {
            assert(key@[i as int] != want@[i as int]);
            return false;
        }
        proof {
            assert(key@.subrange(0, i + 1) =~= key@.subrange(0, i as int).push(key@[i as int]));
            assert(want@.subrange(0, i + 1) =~= want@.subrange(0, i as int).push(want@[i as int]));
        }
        i = i + 1;
    }
    proof {
        assert(key@ =~= key@.subrange(0, n as int));
        assert(want@ =~= want@.subrange(0, n as int));
    }
    true
}

/// The dimension whose key is `key`, or the error that names the unknown
/// key.
pub fn cache_key_to_dimension(key: &str) -> (r: Result<Dimension, CacheValueConversionError>)
    ensures
        match key_dimension(key@) {
            Some(d) => r == Ok::<Dimension, CacheValueConversionError>(d),
            None => r matches Err(CacheValueConversionError::UnknownDimension { key: k }) && k@ == key@,
        },
{
    let dims = vec![
        Dimension::Mass,
        Dimension::Distance,
        Dimension::Time,
        Dimension::Temperature,
        Dimension::Current,
        Dimension::Information,
        Dimension::Currency,
        Dimension::Substance,
        Dimension::LuminousIntensity,
    ];
    let mut i: usize = 0;
    while i < dims.len()
        invariant
            dims@ == seq![
                Dimension::Mass,
                Dimension::Distance,
                Dimension::Time,
                Dimension::Temperature,
                Dimension::Current,
                Dimension::Information,
                Dimension::Currency,
                Dimension::Substance,
                Dimension::LuminousIntensity,
            ],
            i <= dims.len(),
            forall|j: int| 0 <= j < i ==> key@ != dimension_key(#[trigger] dims@[j]),
        decreases dims.len() - i,
    {
        let d = dims[i];
        if same_text(key, dimension_to_cache_key(d)) {
            return Ok(d);
        }
        i = i + 1;
    }
    proof {
        assert(key@ != dimension_key(dims@[0]));
        assert(key@ != dimension_key(dims@[1]));
        assert(key@ != dimension_key(dims@[2]));
        assert(key@ != dimension_key(dims@[3]));
        assert(key@ != dimension_key(dims@[4]));
        assert(key@ != dimension_key(dims@[5]));
        assert(key@ != dimension_key(dims@[6]));
        assert(key@ != dimension_key(dims@[7]));
        assert(key@ != dimension_key(dims@[8]));
    }
    Err(CacheValueConversionError::UnknownDimension { key: String::from_str(key) })
}

/// Keys of different lengths, or with different first characters, differ.
proof fn lemma_keys_differ(a: Seq<char>, b: Seq<char>)
    requires
        a.len() != b.len() || (a.len() > 0 && b.len() > 0 && a[0] != b[0]),
    ensures
        a != b,
{
}

/// Every dimension is read back from its key, and no two dimensions share
/// a key.
pub proof fn lemma_dimension_key_roundtrip(d: Dimension)
    ensures
        key_dimension(dimension_key(d)) == Some(d),
{
    match d {
        Dimension::Mass => {
        },
        Dimension::Distance => {
            lemma_keys_differ(dimension_key(Dimension::Distance), dimension_key(Dimension::Mass));
        },
        Dimension::Time => {
            lemma_keys_differ(dimension_key(Dimension::Time), dimension_key(Dimension::Mass));
            lemma_keys_differ(dimension_key(Dimension::Time), dimension_key(Dimension::Distance));
        },
        Dimension::Temperature => {
            lemma_keys_differ(dimension_key(Dimension::Temperature), dimension_key(Dimension::Mass));
            lemma_keys_differ(dimension_key(Dimension::Temperature), dimension_key(Dimension::Distance));
            lemma_keys_differ(dimension_key(Dimension::Temperature), dimension_key(Dimension::Time));
        },
        Dimension::Current => {
            lemma_keys_differ(dimension_key(Dimension::Current), dimension_key(Dimension::Mass));
            lemma_keys_differ(dimension_key(Dimension::Current), dimension_key(Dimension::Distance));
            lemma_keys_differ(dimension_key(Dimension::Current), dimension_key(Dimension::Time));
            lemma_keys_differ(dimension_key(Dimension::Current), dimension_key(Dimension::Temperature));
        },
        Dimension::Information => {
            lemma_keys_differ(dimension_key(Dimension::Information), dimension_key(Dimension::Mass));
            lemma_keys_differ(dimension_key(Dimension::Information), dimension_key(Dimension::Distance));
            lemma_keys_differ(dimension_key(Dimension::Information), dimension_key(Dimension::Time));
            lemma_keys_differ(dimension_key(Dimension::Information), dimension_key(Dimension::Temperature));
            lemma_keys_differ(dimension_key(Dimension::Information), dimension_key(Dimension::Current));
        },
        Dimension::Currency => {
            lemma_keys_differ(dimension_key(Dimension::Currency), dimension_key(Dimension::Mass));
            lemma_keys_differ(dimension_key(Dimension::Currency), dimension_key(Dimension::Distance));
            lemma_keys_differ(dimension_key(Dimension::Currency), dimension_key(Dimension::Time));
            lemma_keys_differ(dimension_key(Dimension::Currency), dimension_key(Dimension::Temperature));
            lemma_keys_differ(dimension_key(Dimension::Currency), dimension_key(Dimension::Current));
            lemma_keys_differ(dimension_key(Dimension::Currency), dimension_key(Dimension::Information));
        },
        Dimension::Substance => {
            lemma_keys_differ(dimension_key(Dimension::Substance), dimension_key(Dimension::Mass));
            lemma_keys_differ(dimension_key(Dimension::Substance), dimension_key(Dimension::Distance));
            lemma_keys_differ(dimension_key(Dimension::Substance), dimension_key(Dimension::Time));
            lemma_keys_differ(dimension_key(Dimension::Substance), dimension_key(Dimension::Temperature));
            lemma_keys_differ(dimension_key(Dimension::Substance), dimension_key(Dimension::Current));
            lemma_keys_differ(dimension_key(Dimension::Substance), dimension_key(Dimension::Information));
            lemma_keys_differ(dimension_key(Dimension::Substance), dimension_key(Dimension::Currency));
        },
        Dimension::LuminousIntensity => {
            lemma_keys_differ(dimension_key(Dimension::LuminousIntensity), dimension_key(Dimension::Mass));
            lemma_keys_differ(dimension_key(Dimension::LuminousIntensity), dimension_key(Dimension::Distance));
            lemma_keys_differ(dimension_key(Dimension::LuminousIntensity), dimension_key(Dimension::Time));
            lemma_keys_differ(dimension_key(Dimension::LuminousIntensity), dimension_key(Dimension::Temperature));
            lemma_keys_differ(dimension_key(Dimension::LuminousIntensity), dimension_key(Dimension::Current));
            lemma_keys_differ(dimension_key(Dimension::LuminousIntensity), dimension_key(Dimension::Information));
            lemma_keys_differ(dimension_key(Dimension::LuminousIntensity), dimension_key(Dimension::Currency));
            lemma_keys_differ(dimension_key(Dimension::LuminousIntensity), dimension_key(Dimension::Substance));
        },
    }
}

} // verus!
