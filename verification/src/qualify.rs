//! Device qualification: deciding whether a discovered peripheral speaks
//! the vendor protocol.
//!
//! The caller filters candidates by name and address first (no radio cost
//! beyond the advertisement), then connects, enumerates capability
//! identifiers, reads the four descriptive characteristics, and hands the
//! plain values to [`qualify`]. A candidate qualifies exactly when it
//! advertises every required service and characteristic and its
//! manufacturer bytes spell the one accepted vendor identifier; presence
//! of the identifiers alone is not enough, other devices expose supersets
//! of them.

use crate::ids::{
    required_characteristics, required_services, spec_required_characteristics,
    spec_required_services,
};
use vstd::prelude::*;

verus! {

/// What the device answered when `String::from_utf8_lossy` decoded these
/// bytes: a pure function of the bytes alone.
pub uninterp spec fn utf8_lossy_of(bytes: Seq<u8>) -> Seq<char>;

/// Relies on `String::from_utf8_lossy`: best-effort UTF-8 decoding that
/// never fails (ill-formed sequences become replacement characters) and
/// depends on the input bytes alone.
#[verifier::external_body]
fn decode_utf8_lossy(bytes: &Vec<u8>) -> (r: String)
    ensures
        r@ == utf8_lossy_of(bytes@),
{
    String::from_utf8_lossy(bytes.as_slice()).into_owned()
}

/// The single accepted manufacturer identifier, `MOYOUNG-V2` in ASCII.
/// The qualifier compares the raw characteristic bytes against it: a
/// best-effort UTF-8 decoding equals a pure-ASCII string exactly when the
/// bytes spell that string, so the byte comparison is the string
/// comparison.
pub open spec fn spec_accepted_manufacturer() -> Seq<u8> {
    seq![0x4du8, 0x4f, 0x59, 0x4f, 0x55, 0x4e, 0x47, 0x2d, 0x56, 0x32]
}

/// The accepted manufacturer identifier as a vector.
pub fn accepted_manufacturer() -> (r: Vec<u8>)
    ensures
        r@ == spec_accepted_manufacturer(),
{
    let mut r: Vec<u8> = Vec::new();
    r.push(0x4d);  // M
    r.push(0x4f);  // O
    r.push(0x59);  // Y
    r.push(0x4f);  // O
    r.push(0x55);  // U
    r.push(0x4e);  // N
    r.push(0x47);  // G
    r.push(0x2d);  // -
    r.push(0x56);  // V
    r.push(0x32);  // 2
    proof {
        assert(r@ =~= spec_accepted_manufacturer());
    }
    r
}

/// The battery percentage read from the characteristic: its first byte,
/// or zero when the device answered no bytes.
pub open spec fn spec_battery_level(data: Seq<u8>) -> u8 {
    if data.len() > 0 {
        data[0]
    } else {
        0
    }
}

/// Decode the battery-level characteristic.
pub fn battery_level_of(data: &Vec<u8>) -> (r: u8)
    ensures
        r == spec_battery_level(data@),
{
    if data.len() > 0 {
        data[0]
    } else {
        0
    }
}

/// The descriptive attributes read once during qualification.
#[derive(Clone, Debug)]
pub struct DeviceDescriptor {
    pub software_revision: String,
    pub serial_number: String,
    pub manufacturer: String,
    pub battery_level: u8,
}

/// Why a candidate was rejected as incompatible.
#[derive(Clone, Copy, Debug, PartialEq, Eq, Structural)]
pub enum IncompatibleReason {
    /// A required service is not advertised.
    MissingServices,
    /// A required characteristic is not advertised.
    MissingCharacteristics,
    /// The manufacturer bytes do not spell the accepted identifier.
    WrongManufacturer,
}

/// The outcome of qualifying one candidate.
#[derive(Clone, Debug)]
pub enum QualificationVerdict {
    /// The caller's name or address filter did not match, or the
    /// connection could not be established; the candidate is skipped.
    NameMismatch,
    /// The candidate is connected but does not speak the protocol.
    Incompatible(IncompatibleReason),
    /// The candidate speaks the protocol; its descriptor is attached.
    Qualified(DeviceDescriptor),
}

/// Whether every required identifier occurs among the advertised ones.
pub open spec fn has_all(advertised: Seq<u128>, required: Seq<u128>) -> bool {
    forall|i: int| 0 <= i < required.len() ==> advertised.contains(required[i])
}

/// Why a connected candidate is rejected, or nothing when it qualifies:
/// the verdict as a pure function of the advertised services, the
/// advertised characteristics and the manufacturer bytes.
pub open spec fn spec_incompatibility(
    services: Seq<u128>,
    characteristics: Seq<u128>,
    manufacturer: Seq<u8>,
) -> Option<IncompatibleReason> {
    if !has_all(services, spec_required_services()) {
        Some(IncompatibleReason::MissingServices)
    } else if !has_all(characteristics, spec_required_characteristics()) {
        Some(IncompatibleReason::MissingCharacteristics)
    } else if manufacturer != spec_accepted_manufacturer() {
        Some(IncompatibleReason::WrongManufacturer)
    } else {
        None
    }
}

/// Whether the advertised identifiers contain `needle`.
fn contains_id(advertised: &Vec<u128>, needle: u128) -> (r: bool)
    ensures
        r == advertised@.contains(needle),
{
    let mut i: usize = 0;
    while i < advertised.len()
        invariant
            i <= advertised@.len(),
            forall|j: int| 0 <= j < i ==> advertised@[j] != needle,
        decreases advertised@.len() - i,
    {
        if advertised[i] == needle {
            return true;
        }
        i += 1;
    }
    false
}

/// Whether every required identifier occurs among the advertised ones.
fn has_all_ids(advertised: &Vec<u128>, required: &Vec<u128>) -> (r: bool)
    ensures
        r == has_all(advertised@, required@),
{
    let mut i: usize = 0;
    while i < required.len()
        invariant
            i <= required@.len(),
            forall|j: int| 0 <= j < i ==> advertised@.contains(required@[j]),
        decreases required@.len() - i,
    {
        if !contains_id(advertised, required[i]) {
            return false;
        }
        i += 1;
    }
    true
}

/// Whether two byte vectors hold the same bytes.
fn bytes_equal(a: &Vec<u8>, b: &Vec<u8>) -> (r: bool)
    ensures
        r == (a@ == b@),
{
    if a.len() != b.len() {
        return false;
    }
    let mut i: usize = 0;
    while i < a.len()
        invariant
            a@.len() == b@.len(),
            i <= a@.len(),
            forall|j: int| 0 <= j < i ==> a@[j] == b@[j],
        decreases a@.len() - i,
    {
        if a[i] != b[i] {
            return false;
        }
        i += 1;
    }
    proof {
        assert(a@ =~= b@);
    }
    true
}

/// Decide whether a connected candidate speaks the protocol.
///
/// `services` and `characteristics` are the advertised capability
/// identifiers; the four byte vectors are the raw reads of the
/// descriptive characteristics. The verdict is `Qualified` with the
/// decoded descriptor exactly when nothing disqualifies the candidate,
/// and otherwise `Incompatible` with the first reason found, checked in
/// the order services, characteristics, manufacturer.
pub fn qualify(
    services: &Vec<u128>,
    characteristics: &Vec<u128>,
    software_revision: &Vec<u8>,
    serial_number: &Vec<u8>,
    manufacturer: &Vec<u8>,
    battery: &Vec<u8>,
) -> (r: QualificationVerdict)
    ensures
        (match spec_incompatibility(services@, characteristics@, manufacturer@) {
            Some(reason) => r matches QualificationVerdict::Incompatible(why) && why == reason,
            None => r matches QualificationVerdict::Qualified(d) && d.software_revision@
                == utf8_lossy_of(software_revision@) && d.serial_number@ == utf8_lossy_of(
                serial_number@,
            ) && d.manufacturer@ == utf8_lossy_of(manufacturer@) && d.battery_level
                == spec_battery_level(battery@),
        }),
{
    let req_services = required_services();
    if !has_all_ids(services, &req_services) {
        return QualificationVerdict::Incompatible(IncompatibleReason::MissingServices);
    }
    let req_characteristics = required_characteristics();
    if !has_all_ids(characteristics, &req_characteristics) {
        return QualificationVerdict::Incompatible(IncompatibleReason::MissingCharacteristics);
    }
    let accepted = accepted_manufacturer();
    if !bytes_equal(manufacturer, &accepted) {
        return QualificationVerdict::Incompatible(IncompatibleReason::WrongManufacturer);
    }
    QualificationVerdict::Qualified(
        DeviceDescriptor {
            software_revision: decode_utf8_lossy(software_revision),
            serial_number: decode_utf8_lossy(serial_number),
            manufacturer: decode_utf8_lossy(manufacturer),
            battery_level: battery_level_of(battery),
        },
    )
}

/// The caller's optional name and address filter; an empty field filters
/// nothing.
#[derive(Clone, Debug)]
pub struct CandidateFilter {
    pub name: String,
    pub address: String,
}

/// Whether a candidate passes the filter: each non-empty filter field
/// must equal the candidate's advertised value exactly. A candidate that
/// fails is skipped as a name mismatch before any connection is made.
pub fn filter_matches(local_name: &String, address: &String, filter: &CandidateFilter) -> (r:
    bool)
    ensures
        r == ((filter.name@.len() == 0 || local_name@ == filter.name@) && (filter.address@.len()
            == 0 || address@ == filter.address@)),
{
    let name_ok = filter.name.as_str().is_empty() || *local_name == filter.name;
    let address_ok = filter.address.as_str().is_empty() || *address == filter.address;
    name_ok && address_ok
}

/// Helper for the order-independence law: containment checks see only
/// which identifiers occur, so two advertisements with the same
/// identifier set pass the same required-set checks.
proof fn lemma_has_all_same_set(a1: Seq<u128>, a2: Seq<u128>, required: Seq<u128>)
    requires
        a1.to_set() == a2.to_set(),
    ensures
        has_all(a1, required) == has_all(a2, required),
{
    assert forall|x: u128| a1.contains(x) <==> a2.contains(x) by {
        assert(a1.to_set().contains(x) <==> a1.contains(x));
        assert(a2.to_set().contains(x) <==> a2.contains(x));
        assert(a1.to_set().contains(x) <==> a2.to_set().contains(x));
    }
}

/// Qualification is a pure function of the advertised identifier sets and
/// the manufacturer bytes: permuting or repeating advertised identifiers
/// never changes the verdict.
pub proof fn lemma_verdict_order_independent(
    s1: Seq<u128>,
    s2: Seq<u128>,
    c1: Seq<u128>,
    c2: Seq<u128>,
    manufacturer: Seq<u8>,
)
    requires
        s1.to_set() == s2.to_set(),
        c1.to_set() == c2.to_set(),
    ensures
        spec_incompatibility(s1, c1, manufacturer) == spec_incompatibility(s2, c2, manufacturer),
{
    lemma_has_all_same_set(s1, s2, spec_required_services());
    lemma_has_all_same_set(c1, c2, spec_required_characteristics());
}

} // verus!
