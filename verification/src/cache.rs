//! Records of the Python call cache: the hash of an imported module, stored
//! as sixteen lowercase hexadecimal digits, and the entry of an import.
use vstd::prelude::*;

use std::collections::BTreeSet;

verus! {

/// The hexadecimal digits, by value.
pub open spec fn hex_alphabet() -> Seq<char> {
    seq!['0', '1', '2', '3', '4', '5', '6', '7', '8', '9', 'a', 'b', 'c', 'd', 'e', 'f']
}

/// The lowercase hexadecimal digit of `d`, for `0 <= d < 16`.
pub open spec fn hex_char(d: int) -> char {
    hex_alphabet()[d]
}

/// The value of a hexadecimal digit in either case, if `c` is one.
pub open spec fn digit_value(c: char) -> Option<nat> {
    if '0' <= c && c <= '9' {
        Some((c as nat - '0' as nat) as nat)
    } else if 'a' <= c && c <= 'f' {
        Some((c as nat - 'a' as nat + 10) as nat)
    } else if 'A' <= c && c <= 'F' {
        Some((c as nat - 'A' as nat + 10) as nat)
    } else {
        None
    }
}

/// The last `n` hexadecimal digits of `v`, most significant first.
pub open spec fn hex_digits(v: nat, n: nat) -> Seq<char>
    decreases n,
{
    if n == 0 {
        Seq::empty()
    } else {
        hex_digits(v / 16, (n - 1) as nat).push(hex_char((v % 16) as int))
    }
}

/// The sixteen lowercase hexadecimal digits of `v`, zero-padded.
pub open spec fn hex16(v: u64) -> Seq<char> {
    hex_digits(v as nat, 16)
}

/// Why a text is not the hexadecimal form of a 64-bit number.
#[derive(Debug, Clone, Copy, PartialEq, Eq, Structural)]
pub enum HexError {
    /// The text is empty.
    Empty,
    /// The text holds a character that is not a hexadecimal digit, or only
    /// a sign.
    InvalidDigit,
    /// The number does not fit in 64 bits.
    PosOverflow,
}

/// Reads the hexadecimal digits `s` from the left onto `acc`: the first
/// character that is not a digit, or the first digit that takes the number
/// past `u64::MAX`, stops the reading with its error.
pub open spec fn scan_hex(s: Seq<char>, acc: nat) -> Result<nat, HexError>
    decreases s.len(),
{
    if s.len() == 0 {
        Ok(acc)
    } else {
        match digit_value(s[0]) {
            None => Err(HexError::InvalidDigit),
            Some(d) => if acc * 16 + d > u64::MAX {
                Err(HexError::PosOverflow)
            } else {
                scan_hex(s.drop_first(), acc * 16 + d)
            },
        }
    }
}

/// The number that the text `s` writes in base 16: an optional `+`, then
/// digits of either case.
pub open spec fn parse_hex(s: Seq<char>) -> Result<u64, HexError> {
    if s.len() == 0 {
        Err(HexError::Empty)
    } else {
        let digits = if s[0] == '+' {
            s.drop_first()
        } else {
            s
        };
        if digits.len() == 0 {
            Err(HexError::InvalidDigit)
        } else {
            match scan_hex(digits, 0) {
                Ok(v) => Ok(v as u64),
                Err(e) => Err(e),
            }
        }
    }
}

/// The value of the hexadecimal digits `s`, read from the right.
pub open spec fn hex_value(s: Seq<char>) -> nat
    decreases s.len(),
{
    if s.len() == 0 {
        0
    } else {
        hex_value(s.drop_last()) * 16 + match digit_value(s.last()) {
            Some(d) => d,
            None => 0,
        }
    }
}

/// Every character of `s` is a hexadecimal digit.
pub open spec fn all_hex(s: Seq<char>) -> bool {
    forall|i: int| 0 <= i < s.len() ==> (#[trigger] digit_value(s[i])) is Some
}

/// `16^n`.
pub open spec fn pow16(n: nat) -> nat
    decreases n,
{
    if n == 0 {
        1
    } else {
        16 * pow16((n - 1) as nat)
    }
}

proof fn lemma_hex_char_value(d: int)
    requires
        0 <= d < 16,
    ensures
        digit_value(hex_char(d)) == Some(d as nat),
{
    assert(hex_alphabet()[0] == '0');
    assert(hex_alphabet()[1] == '1');
    assert(hex_alphabet()[2] == '2');
    assert(hex_alphabet()[3] == '3');
    assert(hex_alphabet()[4] == '4');
    assert(hex_alphabet()[5] == '5');
    assert(hex_alphabet()[6] == '6');
    assert(hex_alphabet()[7] == '7');
    assert(hex_alphabet()[8] == '8');
    assert(hex_alphabet()[9] == '9');
    assert(hex_alphabet()[10] == 'a');
    assert(hex_alphabet()[11] == 'b');
    assert(hex_alphabet()[12] == 'c');
    assert(hex_alphabet()[13] == 'd');
    assert(hex_alphabet()[14] == 'e');
    assert(hex_alphabet()[15] == 'f');
}

proof fn lemma_hex_digits(v: nat, n: nat)
    requires
        v < pow16(n),
    ensures
        hex_digits(v, n).len() == n,
        all_hex(hex_digits(v, n)),
        hex_value(hex_digits(v, n)) == v,
    decreases n,
{
    if n > 0 {
        assert(v / 16 < pow16((n - 1) as nat)) by (nonlinear_arith)
            requires
                v < 16 * pow16((n - 1) as nat),
        ;
        lemma_hex_digits(v / 16, (n - 1) as nat);
        lemma_hex_char_value((v % 16) as int);
        let s = hex_digits(v, n);
        assert(s.drop_last() =~= hex_digits(v / 16, (n - 1) as nat));
        assert forall|i: int| 0 <= i < s.len() implies (#[trigger] digit_value(s[i])) is Some by {
            if i < s.len() - 1 {
                assert(s[i] == hex_digits(v / 16, (n - 1) as nat)[i]);
            }
        }
        assert(v == (v / 16) * 16 + v % 16) by (nonlinear_arith);
    }
}

proof fn lemma_prefix_value_grows(s: Seq<char>, k: int)
    requires
        0 <= k <= s.len(),
    ensures
        hex_value(s.take(k)) <= hex_value(s),
    decreases s.len() - k,
{
    if k < s.len() {
        lemma_prefix_value_grows(s, k + 1);
        assert(s.take(k + 1).drop_last() =~= s.take(k));
    } else {
        assert(s.take(k) =~= s);
    }
}

proof fn lemma_scan_suffix(s: Seq<char>, k: int)
    requires
        0 <= k <= s.len(),
        all_hex(s),
        hex_value(s) <= u64::MAX,
    ensures
        scan_hex(s.subrange(k, s.len() as int), hex_value(s.take(k))) == Ok::<nat, HexError>(hex_value(s)),
    decreases s.len() - k,
{
    if k < s.len() {
        lemma_scan_suffix(s, k + 1);
        lemma_prefix_value_grows(s, k + 1);
        assert(s.take(k + 1).drop_last() =~= s.take(k));
        assert(s.subrange(k, s.len() as int).drop_first() =~= s.subrange(k + 1, s.len() as int));
        assert(digit_value(s[k]) is Some);
    } else {
        assert(s.take(k) =~= s);
    }
}

/// Reading the sixteen hexadecimal digits of a number gives the number back.
pub proof fn lemma_hex_roundtrip(v: u64)
    ensures
        hex16(v).len() == 16,
        parse_hex(hex16(v)) == Ok::<u64, HexError>(v),
{
    assert(pow16(16) == 0x1_0000_0000_0000_0000) by {
        reveal_with_fuel(pow16, 17);
    }
    lemma_hex_digits(v as nat, 16);
    let s = hex16(v);
    lemma_scan_suffix(s, 0);
    assert(s.subrange(0, 16) =~= s);
    assert(s.take(0) =~= Seq::<char>::empty());
    assert(s[0] != '+') by {
        lemma_hex_char_value_not_sign(s);
    }
}

proof fn lemma_hex_char_value_not_sign(s: Seq<char>)
    requires
        all_hex(s),
        s.len() > 0,
    ensures
        s[0] != '+',
{
    assert(digit_value(s[0]) is Some);
}

/// The fingerprint of an imported module's sources; written as sixteen
/// lowercase hexadecimal digits.
#[derive(Debug, Clone, Copy, PartialEq, Eq, Structural)]
pub struct ImportHash(pub u64);

fn digit_str(d: u64) -> (r: &'static str)
    requires
        d < 16,
    ensures
        r@ == seq![hex_char(d as int)],
{
    let alphabet = "0123456789abcdef";
    proof {
        reveal_strlit("0123456789abcdef");
    }
    let r = alphabet.substring_char(d as usize, d as usize + 1);
    proof {
        assert(r@ =~= seq![hex_char(d as int)]);
    }
    r
}

fn hex_string(v: u64, n: usize) -> (r: String)
    requires
        n <= 16,
    ensures
        r@ == hex_digits(v as nat, n as nat),
    decreases n,
{
    if n == 0 {
        String::new()
    } else {
        let mut out = hex_string(v / 16, n - 1);
        out.append(digit_str(v % 16));
        out
    }
}

/// The value of the hexadecimal digit `c`, if it is one.
fn digit_of(c: char) -> (r: Option<u64>)
    ensures
        match digit_value(c) {
            Some(d) => r == Some(d as u64),
            None => r is None,
        },
{
    if '0' <= c && c <= '9' {
        Some((c as u32 - '0' as u32) as u64)
    } else if 'a' <= c && c <= 'f' {
        Some((c as u32 - 'a' as u32 + 10) as u64)
    } else if 'A' <= c && c <= 'F' {
        Some((c as u32 - 'A' as u32 + 10) as u64)
    } else {
        None
    }
}

impl ImportHash {
    /// The number of the hash.
    pub fn value(&self) -> (r: u64)
        ensures
            r == self.0,
    {
        self.0
    }

    /// The hash written as sixteen lowercase hexadecimal digits.
    pub fn to_hex(&self) -> (r: String)
        ensures
            r@ == hex16(self.0),
    {
        hex_string(self.0, 16)
    }

    /// Reads a hash written in base 16 (any number of digits of either
    /// case, after an optional `+`; no `0x`).
    pub fn from_hex(s: &str) -> (r: Result<ImportHash, HexError>)
        ensures
            match parse_hex(s@) {
                Ok(v) => r == Ok::<ImportHash, HexError>(ImportHash(v)),
                Err(e) => r == Err::<ImportHash, HexError>(e),
            },
    {
        let n = s.unicode_len();
        if n == 0 {
            return Err(HexError::Empty);
        }
        let start: usize = if s.get_char(0) == '+' {
            1
        } else {
            0
        };
        let ghost digits = if s@[0] == '+' {
            s@.drop_first()
        } else {
            s@
        };
        proof {
            assert(digits =~= s@.subrange(start as int, n as int));
        }
        if start == n {
            return Err(HexError::InvalidDigit);
        }
        let mut acc: u64 = 0;
        let mut i = start;
        proof {
            assert(s@.subrange(i as int, n as int) =~= digits);
        }
        while i < n
            invariant
                start <= i <= n,
                n == s@.len(),
                scan_hex(s@.subrange(i as int, n as int), acc as nat) == scan_hex(digits, 0),
                parse_hex(s@) == match scan_hex(digits, 0) {
                    Ok(v) => Ok::<u64, HexError>(v as u64),
                    Err(e) => Err(e),
                },
            decreases n - i,
        {
            let c = s.get_char(i);
            proof {
                assert(s@.subrange(i as int, n as int)[0] == c);
                assert(s@.subrange(i as int, n as int).drop_first() =~= s@.subrange(i + 1, n as int));
            }
            let d = match digit_of(c) {
                Some(d) => d,
                None => {
                    return Err(HexError::InvalidDigit);
                },
            };
            if acc > (u64::MAX - d) / 16 {
                proof {
                    assert(acc * 16 + d > u64::MAX) by (nonlinear_arith)
                        requires
                            acc > (u64::MAX - d) / 16,
                            d < 16,
                    ;
                }
                return Err(HexError::PosOverflow);
            }
            proof {
                assert(acc * 16 + d <= u64::MAX) by (nonlinear_arith)
                    requires
                        acc <= (u64::MAX - d) / 16,
                        d < 16,
                ;
            }
            acc = acc * 16 + d;
            i = i + 1;
        }
        proof {
            assert(s@.subrange(i as int, n as int) =~= Seq::<char>::empty());
        }
        Ok(ImportHash(acc))
    }
}

impl From<u64> for ImportHash {
    fn from(hash: u64) -> (r: ImportHash) {
        ImportHash(hash)
    }
}

impl vstd::std_specs::convert::FromSpecImpl<u64> for ImportHash {
    open spec fn obeys_from_spec() -> bool {
        true
    }

    open spec fn from_spec(hash: u64) -> ImportHash {
        ImportHash(hash)
    }
}

impl From<ImportHash> for u64 {
    fn from(hash: ImportHash) -> (r: u64) {
        hash.0
    }
}

impl vstd::std_specs::convert::FromSpecImpl<ImportHash> for u64 {
    open spec fn obeys_from_spec() -> bool {
        true
    }

    open spec fn from_spec(hash: ImportHash) -> u64 {
        hash.0
    }
}

impl PartialEq<u64> for ImportHash {
    fn eq(&self, other: &u64) -> (r: bool) {
        self.0 == *other
    }
}

impl vstd::std_specs::cmp::PartialEqSpecImpl<u64> for ImportHash {
    open spec fn obeys_eq_spec() -> bool {
        true
    }

    open spec fn eq_spec(&self, other: &u64) -> bool {
        self.0 == *other
    }
}

impl PartialEq<ImportHash> for u64 {
    fn eq(&self, other: &ImportHash) -> (r: bool) {
        *self == other.0
    }
}

impl vstd::std_specs::cmp::PartialEqSpecImpl<ImportHash> for u64 {
    open spec fn obeys_eq_spec() -> bool {
        true
    }

    open spec fn eq_spec(&self, other: &ImportHash) -> bool {
        *self == other.0
    }
}

/// Writing a hash in hexadecimal and reading it back gives the same hash.
pub proof fn lemma_import_hash_roundtrip(h: ImportHash)
    ensures
        parse_hex(hex16(h.0)) == Ok::<u64, HexError>(h.0),
{
    lemma_hex_roundtrip(h.0);
}

/// The record of one imported module.
#[derive(Debug, Clone, PartialEq, Eq)]
pub struct ImportEntry {
    /// Logical module name.
    pub name: String,
    /// Local dependency paths included in the combined hash.
    pub dependencies: BTreeSet<String>,
    /// Hash of this module's source plus its dependencies' sources.
    pub hash: ImportHash,
    /// Functions of this module that were invoked.
    pub functions_used: BTreeSet<String>,
}

impl ImportEntry {
    /// Creates an import entry with no function used yet.
    pub fn new(name: String, dependencies: BTreeSet<String>, hash: ImportHash) -> (r: ImportEntry)
        ensures
            r.name@ == name@,
            r.dependencies@ == dependencies@,
            r.hash == hash,
            r.functions_used@ == Set::<String>::empty(),
    {
        ImportEntry { name, dependencies, hash, functions_used: BTreeSet::new() }
    }
}

} // verus!
