//! Chemical identity and properties.
//!
//! A `Chemical` pairs a compound handle of the external chemical database
//! with a `ChemicalProperties` record. The database round trips themselves
//! (compound-id lookup with bounded retry, and the property fetch) are made
//! by the caller; everything decided here — which identifier to query, when
//! to retry, which compound id to keep, and how the textual property values
//! are parsed and converted — is verified. Property values arrive as
//! decimal strings and are parsed to exact fixed-point quantities; an
//! absent or malformed value is recorded as not available, never as zero.

use vstd::prelude::*;
use vstd::slice::slice_subrange;

use crate::units::Density;
use crate::units::MolarMass;
use crate::units::Temperature;
use crate::units::MICROKELVINS_PER_ZERO_CELSIUS;

verus! {

/// The compound handle of the external chemical database; opaque here, it
/// is built from an identifier and carried alongside the resolved
/// properties.
#[verifier::external_type_specification]
#[verifier::external_body]
pub struct ExCompound(pubchem::Compound);

/// How many database lookups a chemical resolution may attempt: the first
/// try and up to 10 retries.
pub const MAX_LOOKUP_RETRIES: u32 = 10;

/// Identifies the compound to resolve, by database id or by name.
#[derive(Debug)]
pub enum ChemicalIdentifier {
    /// The PubChem ID of the component.
    PubchemID(u32),
    /// The actual name of the component.
    CompoundName(String),
}

/// Errors of chemical resolution.
#[derive(Clone, Copy, Debug, PartialEq, Eq, Structural)]
pub enum ChemicalError {
    /// The database returned no compound ids within the retry budget.
    LookupExhausted,
    /// The database response carried no property record for the compound.
    PropertiesNotFound {
        /// The compound id whose properties were requested.
        cid: i32,
    },
}

/// Relies on `pubchem::Compound::new`: builds the compound handle that
/// queries by compound id.
#[verifier::external_body]
fn compound_from_cid(id: u32) -> pubchem::Compound {
    pubchem::Compound::new(id)
}

/// Relies on `pubchem::Compound::with_name`: builds the compound handle
/// that queries by compound name.
#[verifier::external_body]
fn compound_from_name(name: &str) -> pubchem::Compound {
    pubchem::Compound::with_name(name)
}

/// The compound handle for an identifier: by id for a numeric identifier,
/// by name otherwise.
pub fn compound_for(identifier: &ChemicalIdentifier) -> pubchem::Compound {
    match identifier {
        ChemicalIdentifier::PubchemID(id) => compound_from_cid(*id),
        ChemicalIdentifier::CompoundName(name) => compound_from_name(name.as_str()),
    }
}

/// Whether a failed compound-id lookup is retried: yes while the count of
/// attempts already made is within the retry budget.
pub fn should_retry(request_counter: u32) -> (r: bool)
    ensures
        r == (request_counter <= MAX_LOOKUP_RETRIES),
{
    request_counter <= MAX_LOOKUP_RETRIES
}

/// The compound id a resolution keeps: the first of the list the lookup
/// returned. When the retry budget ran out with no list, or the list is
/// empty, resolution fails with `LookupExhausted` instead.
pub fn select_first_cid(cid_vec: &Option<Vec<i32>>) -> (r: Result<i32, ChemicalError>)
    ensures
        r == match *cid_vec {
            Some(cids) => if cids@.len() > 0 {
                Ok::<i32, ChemicalError>(cids@[0])
            } else {
                Err::<i32, ChemicalError>(ChemicalError::LookupExhausted)
            },
            None => Err::<i32, ChemicalError>(ChemicalError::LookupExhausted),
        },
{
    match cid_vec {
        Some(cids) => {
            if cids.len() > 0 {
                Ok(cids[0])
            } else {
                Err(ChemicalError::LookupExhausted)
            }
        },
        None => Err(ChemicalError::LookupExhausted),
    }
}

/// True for the byte of a decimal digit.
pub open spec fn is_digit(c: u8) -> bool {
    48 <= c <= 57
}

/// True when every byte of the run is a decimal digit.
pub open spec fn all_digits(s: Seq<u8>) -> bool {
    forall|i: int| 0 <= i < s.len() ==> is_digit(#[trigger] s[i])
}

/// The number a run of decimal digits denotes.
pub open spec fn digits_value(s: Seq<u8>) -> int
    decreases s.len(),
{
    if s.len() == 0 {
        0
    } else {
        digits_value(s.drop_last()) * 10 + (s.last() - 48)
    }
}

/// Ten to the `n`th power.
pub open spec fn pow10(n: int) -> int
    decreases n,
{
    if n <= 0 {
        1
    } else {
        10 * pow10(n - 1)
    }
}

/// The index of the first `.` in the run, from position `i` on.
pub open spec fn find_dot(s: Seq<u8>, i: int) -> Option<int>
    decreases s.len() - i,
{
    if i < 0 || i >= s.len() {
        None
    } else if s[i] == 46 {
        Some(i)
    } else {
        find_dot(s, i + 1)
    }
}

/// The value, in millionths, of an unsigned decimal string: up to 12
/// integer digits, and optionally a point followed by 1 to 6 fractional
/// digits. Anything else is rejected.
pub open spec fn spec_parse_unsigned_micro(s: Seq<u8>) -> Option<i64> {
    match find_dot(s, 0) {
        None => if 1 <= s.len() <= 12 && all_digits(s) {
            Some((digits_value(s) * 1_000_000) as i64)
        } else {
            None
        },
        Some(d) => {
            let int_part = s.take(d);
            let frac_part = s.skip(d + 1);
            if 1 <= int_part.len() <= 12 && 1 <= frac_part.len() <= 6 && all_digits(int_part)
                && all_digits(frac_part) {
                Some(
                    (digits_value(int_part) * 1_000_000 + digits_value(frac_part) * pow10(
                        6 - frac_part.len(),
                    )) as i64,
                )
            } else {
                None
            }
        },
    }
}

/// The value, in millionths, of a decimal string with an optional leading
/// minus sign.
pub open spec fn spec_parse_decimal_micro(s: Seq<u8>) -> Option<i64> {
    if s.len() > 0 && s[0] == 45 {
        match spec_parse_unsigned_micro(s.drop_first()) {
            Some(v) => Some((-(v as int)) as i64),
            None => None,
        }
    } else {
        spec_parse_unsigned_micro(s)
    }
}

/// A digit run's value is non-negative and below ten to its length.
proof fn lemma_digits_value_bound(s: Seq<u8>)
    requires
        all_digits(s),
    ensures
        0 <= digits_value(s) < pow10(s.len() as int),
    decreases s.len(),
{
    if s.len() > 0 {
        assert(all_digits(s.drop_last())) by {
            assert(forall|i: int|
                0 <= i < s.len() - 1 ==> is_digit(#[trigger] s.drop_last()[i]) == is_digit(s[i]));
        }
        lemma_digits_value_bound(s.drop_last());
    }
}

/// Ten to a power up to 12 is at most ten to the 12th, which is far inside
/// the 64-bit range.
proof fn lemma_pow10_le_12(n: int)
    requires
        0 <= n <= 12,
    ensures
        pow10(n) <= 1_000_000_000_000,
    decreases 12 - n,
{
    if n < 12 {
        lemma_pow10_le_12(n + 1);
        assert(pow10(n + 1) == 10 * pow10(n));
        assert(pow10(n) >= 1) by {
            lemma_pow10_pos(n);
        }
    } else {
        lemma_pow10_value_12();
    }
}

/// Ten to any non-negative power is at least one.
proof fn lemma_pow10_pos(n: int)
    ensures
        pow10(n) >= 1,
    decreases n,
{
    if n > 0 {
        lemma_pow10_pos(n - 1);
    }
}

/// A scaled fractional part stays below one million.
proof fn lemma_frac_scaled_bound(frac: Seq<u8>)
    requires
        all_digits(frac),
        1 <= frac.len() <= 6,
    ensures
        0 <= digits_value(frac) * pow10(6 - frac.len()) <= 999_999,
{
    lemma_digits_value_bound(frac);
    reveal_with_fuel(pow10, 7);
    let v = digits_value(frac);
    let flen = frac.len() as int;
    assert(flen == 1 ==> v <= 9 && pow10(6 - flen) == 100_000);
    assert(flen == 2 ==> v <= 99 && pow10(6 - flen) == 10_000);
    assert(flen == 3 ==> v <= 999 && pow10(6 - flen) == 1_000);
    assert(flen == 4 ==> v <= 9_999 && pow10(6 - flen) == 100);
    assert(flen == 5 ==> v <= 99_999 && pow10(6 - flen) == 10);
    assert(flen == 6 ==> v <= 999_999 && pow10(6 - flen) == 1);
}

/// An unsigned parse yields a non-negative value.
proof fn lemma_parse_unsigned_nonneg(s: Seq<u8>)
    ensures
        spec_parse_unsigned_micro(s) matches Some(v) ==> v >= 0,
{
    match find_dot(s, 0) {
        None => {
            if 1 <= s.len() <= 12 && all_digits(s) {
                lemma_digits_value_bound(s);
                lemma_pow10_le_12(s.len() as int);
                lemma_pow10_value_12();
            }
        },
        Some(d) => {
            let int_part = s.take(d);
            let frac_part = s.skip(d + 1);
            if 1 <= int_part.len() <= 12 && 1 <= frac_part.len() <= 6 && all_digits(int_part)
                && all_digits(frac_part) {
                lemma_digits_value_bound(int_part);
                lemma_pow10_le_12(int_part.len() as int);
                lemma_pow10_value_12();
                lemma_frac_scaled_bound(frac_part);
            }
        },
    }
}

/// The concrete value of ten to the 12th.
proof fn lemma_pow10_value_12()
    ensures
        pow10(12) == 1_000_000_000_000,
{
    reveal_with_fuel(pow10, 14);
}

/// Parse a run of decimal digits; rejects empty runs, runs over 12 digits,
/// and runs with a non-digit byte.
fn parse_digit_run(s: &[u8], start: usize, end: usize) -> (r: Option<i64>)
    requires
        start <= end <= s@.len(),
    ensures
        r == if 1 <= end - start <= 12 && all_digits(s@.subrange(start as int, end as int)) {
            Some(digits_value(s@.subrange(start as int, end as int)) as i64)
        } else {
            None::<i64>
        },
{
    if end - start < 1 || end - start > 12 {
        return None;
    }
    let mut acc: i64 = 0;
    let mut i: usize = start;
    while i < end
        invariant
            start <= i <= end <= s@.len(),
            end - start <= 12,
            all_digits(s@.subrange(start as int, i as int)),
            acc == digits_value(s@.subrange(start as int, i as int)),
            0 <= acc < pow10(i - start),
        decreases end - i,
    {
        let c = s[i];
        if c < 48 || c > 57 {
            proof {
                assert(s@.subrange(start as int, end as int)[i - start] == s@[i as int]);
                assert(!all_digits(s@.subrange(start as int, end as int)));
            }
            return None;
        }
        proof {
            lemma_pow10_le_12((i - start) as int);
            assert(s@.subrange(start as int, i + 1 as int).drop_last() == s@.subrange(
                start as int,
                i as int,
            ));
            assert(s@.subrange(start as int, i + 1 as int).last() == s@[i as int]);
            assert(forall|k: int|
                0 <= k < i + 1 - start ==> #[trigger] s@.subrange(start as int, i + 1 as int)[k]
                    == s@[start + k]);
        }
        acc = acc * 10 + ((c - 48) as i64);
        i += 1;
    }
    proof {
        assert(s@.subrange(start as int, end as int) == s@.subrange(start as int, i as int));
    }
    Some(acc)
}

/// Find the first `.` in the slice.
fn find_dot_index(s: &[u8]) -> (r: Option<usize>)
    ensures
        match r {
            Some(i) => i < s@.len() && find_dot(s@, 0) == Some(i as int),
            None => find_dot(s@, 0) is None,
        },
{
    let mut i: usize = 0;
    while i < s.len()
        invariant
            i <= s@.len(),
            find_dot(s@, 0) == find_dot(s@, i as int),
        decreases s@.len() - i,
    {
        if s[i] == 46 {
            return Some(i);
        }
        i += 1;
    }
    None
}

/// Parse an unsigned decimal string to millionths.
fn parse_unsigned_micro(s: &[u8]) -> (r: Option<i64>)
    ensures
        r == spec_parse_unsigned_micro(s@),
{
    match find_dot_index(s) {
        None => {
            match parse_digit_run(s, 0, s.len()) {
                Some(v) => {
                    proof {
                        assert(s@.subrange(0, s@.len() as int) == s@);
                        lemma_digits_value_bound(s@);
                        lemma_pow10_le_12(s@.len() as int);
                    }
                    Some(v * 1_000_000)
                },
                None => {
                    proof {
                        assert(s@.subrange(0, s@.len() as int) == s@);
                    }
                    None
                },
            }
        },
        Some(d) => {
            let int_run = parse_digit_run(s, 0, d);
            let frac_len = s.len() - (d + 1);
            if frac_len < 1 || frac_len > 6 {
                return None;
            }
            let frac_run = parse_digit_run(s, d + 1, s.len());
            match (int_run, frac_run) {
                (Some(int_value), Some(frac_value)) => {
                    proof {
                        lemma_digits_value_bound(s@.subrange(0, d as int));
                        lemma_pow10_le_12(d as int);
                        lemma_digits_value_bound(s@.subrange(d + 1 as int, s@.len() as int));
                        lemma_pow10_le_12((s@.len() - d - 1) as int);
                        lemma_pow10_le_12((6 - (s@.len() - d - 1)) as int);
                        lemma_pow10_pos((6 - (s@.len() - d - 1)) as int);
                        assert(s@.take(d as int) == s@.subrange(0, d as int));
                        assert(s@.skip(d + 1 as int) == s@.subrange(d + 1 as int, s@.len() as int));
                    }
                    let scale: i64 = match frac_len {
                        1 => 100_000,
                        2 => 10_000,
                        3 => 1_000,
                        4 => 100,
                        5 => 10,
                        _ => 1,
                    };
                    proof {
                        reveal_with_fuel(pow10, 7);
                        assert(scale == pow10(6 - (s@.len() - d - 1)));
                        let flen = s@.len() - d - 1;
                        lemma_frac_scaled_bound(s@.skip(d + 1 as int));
                        assert(frac_value == digits_value(s@.skip(d + 1 as int)));
                        assert(frac_value * scale == digits_value(s@.skip(d + 1 as int)) * pow10(
                            6 - flen,
                        ));
                        lemma_pow10_value_12();
                        assert(int_value <= 999_999_999_999);
                    }
                    Some(int_value * 1_000_000 + frac_value * scale)
                },
                _ => {
                    proof {
                        assert(s@.take(d as int) == s@.subrange(0, d as int));
                        assert(s@.skip(d + 1 as int) == s@.subrange(d + 1 as int, s@.len() as int));
                    }
                    None
                },
            }
        },
    }
}

/// Parse a decimal string, with an optional leading minus sign, to
/// millionths: "18.015" becomes 18,015,000.
pub fn parse_decimal_micro(s: &[u8]) -> (r: Option<i64>)
    ensures
        r == spec_parse_decimal_micro(s@),
{
    if s.len() > 0 && s[0] == 45 {
        let rest = parse_unsigned_micro(slice_drop_first(s));
        proof {
            lemma_parse_unsigned_nonneg(s@.drop_first());
        }
        match rest {
            Some(v) => Some(-v),
            None => None,
        }
    } else {
        parse_unsigned_micro(s)
    }
}

/// The slice without its first byte.
fn slice_drop_first(s: &[u8]) -> (r: &[u8])
    requires
        s@.len() > 0,
    ensures
        r@ == s@.drop_first(),
{
    let r = slice_subrange(s, 1, s.len());
    proof {
        assert(r@ == s@.drop_first());
    }
    r
}

/// The textual property values one database response carries for a
/// compound, as byte strings, each field absent when the response lacked
/// it.
#[derive(Debug, Default)]
pub struct PropertyRecord {
    /// Molecular weight, in grams per mole.
    pub molecular_weight: Option<Vec<u8>>,
    /// Melting point, in degrees Celsius.
    pub melting_point: Option<Vec<u8>>,
    /// Boiling point, in degrees Celsius.
    pub boiling_point: Option<Vec<u8>>,
    /// Density, in kilograms per cubic metre.
    pub density: Option<Vec<u8>>,
}

/// The molar mass a textual molecular-weight value yields: grams per mole
/// are parsed to millionths and converted to kilogram-based units; a
/// malformed value yields nothing.
pub open spec fn spec_molar_mass_of(text: Option<Seq<u8>>) -> Option<MolarMass> {
    match text {
        Some(t) => match spec_parse_decimal_micro(t) {
            Some(v) => Some(MolarMass { nano_kilograms_per_mole: v }),
            None => None,
        },
        None => None,
    }
}

/// The temperature a textual Celsius value yields: parsed to millionths
/// and shifted to the Kelvin scale; a malformed or out-of-range value
/// yields nothing.
pub open spec fn spec_temperature_of(text: Option<Seq<u8>>) -> Option<Temperature> {
    match text {
        Some(t) => match spec_parse_decimal_micro(t) {
            Some(v) => if v + MICROKELVINS_PER_ZERO_CELSIUS <= i64::MAX {
                Some(Temperature { microkelvins: (v + MICROKELVINS_PER_ZERO_CELSIUS) as i64 })
            } else {
                None
            },
            None => None,
        },
        None => None,
    }
}

/// The density a textual value yields: kilograms per cubic metre parsed to
/// millionths, taken as is.
pub open spec fn spec_density_of(text: Option<Seq<u8>>) -> Option<Density> {
    match text {
        Some(t) => match spec_parse_decimal_micro(t) {
            Some(v) => Some(Density { micro_kilograms_per_cubic_meter: v }),
            None => None,
        },
        None => None,
    }
}

/// Physical constants of a compound, as resolved from the chemical
/// database; a field the database did not deliver, or delivered
/// unparsably, is not available.
#[derive(Clone, Copy, Debug, PartialEq, Eq, Structural)]
pub struct ChemicalProperties {
    /// Molar mass.
    pub molar_mass: Option<MolarMass>,
    /// Melting point.
    pub melting_point: Option<Temperature>,
    /// Boiling point.
    pub boiling_point: Option<Temperature>,
    /// Density.
    pub density: Option<Density>,
}

/// Parse one optional textual value to millionths.
fn parse_optional_micro(text: &Option<Vec<u8>>) -> (r: Option<i64>)
    ensures
        r == match *text {
            Some(t) => spec_parse_decimal_micro(t@),
            None => None::<i64>,
        },
{
    match text {
        Some(t) => parse_decimal_micro(t.as_slice()),
        None => None,
    }
}

impl ChemicalProperties {
    /// Assemble the properties of compound `cid` from the textual record
    /// the database returned: molecular weight is converted from grams to
    /// kilograms per mole, melting and boiling points from Celsius to
    /// Kelvin, density taken as delivered. With no record at all,
    /// construction fails with `PropertiesNotFound`.
    pub fn new(cid: i32, record: Option<&PropertyRecord>) -> (r: Result<
        ChemicalProperties,
        ChemicalError,
    >)
        ensures
            match record {
                Some(rec) => r == Ok::<ChemicalProperties, ChemicalError>(
                    ChemicalProperties {
                        molar_mass: spec_molar_mass_of(
                            match rec.molecular_weight {
                                Some(t) => Some(t@),
                                None => None,
                            },
                        ),
                        melting_point: spec_temperature_of(
                            match rec.melting_point {
                                Some(t) => Some(t@),
                                None => None,
                            },
                        ),
                        boiling_point: spec_temperature_of(
                            match rec.boiling_point {
                                Some(t) => Some(t@),
                                None => None,
                            },
                        ),
                        density: spec_density_of(
                            match rec.density {
                                Some(t) => Some(t@),
                                None => None,
                            },
                        ),
                    },
                ),
                None => r == Err::<ChemicalProperties, ChemicalError>(
                    ChemicalError::PropertiesNotFound { cid },
                ),
            },
    {
        match record {
            Some(rec) => {
                let molar_mass = match parse_optional_micro(&rec.molecular_weight) {
                    Some(v) => Some(MolarMass::from_micro_grams_per_mole(v)),
                    None => None,
                };
                let melting_point = match parse_optional_micro(&rec.melting_point) {
                    Some(v) => Temperature::from_micro_degrees_celsius(v),
                    None => None,
                };
                let boiling_point = match parse_optional_micro(&rec.boiling_point) {
                    Some(v) => Temperature::from_micro_degrees_celsius(v),
                    None => None,
                };
                let density = match parse_optional_micro(&rec.density) {
                    Some(v) => Some(Density::from_micro_kilograms_per_cubic_meter(v)),
                    None => None,
                };
                Ok(ChemicalProperties { molar_mass, melting_point, boiling_point, density })
            },
            None => Err(ChemicalError::PropertiesNotFound { cid }),
        }
    }
}

/// A resolved chemical compound: the database compound handle together
/// with its physical properties.
#[derive(Debug)]
pub struct Chemical {
    /// The compound handle of the external database.
    pub pubchem_obj: pubchem::Compound,
    /// Physical properties of the compound.
    pub properties: ChemicalProperties,
}

impl Chemical {
    /// Assemble a chemical from its resolved parts.
    pub fn from_parts(pubchem_obj: pubchem::Compound, properties: ChemicalProperties) -> (r:
        Chemical)
        ensures
            r.properties == properties,
    {
        Chemical { pubchem_obj, properties }
    }

    /// The database compound handle.
    pub fn get_pubchem_obj(&self) -> &pubchem::Compound {
        &self.pubchem_obj
    }

    /// The properties record.
    pub fn get_properties(&self) -> (r: &ChemicalProperties)
        ensures
            *r == self.properties,
    {
        &self.properties
    }
}

/// The chemicals used within one simulation.
#[allow(dead_code)]
pub struct ChemicalList {
    chemical_list: Vec<pubchem::Compound>,
}

} // verus!
