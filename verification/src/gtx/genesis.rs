//! Issuing bills and verifying them: the denominations that may be issued, the
//! difficulty each one costs, the chain of checks that accepts or rejects a
//! stored bill, and the summing up of what an owner holds.

use vstd::prelude::*;
use vstd::string::*;
use std::collections::HashMap;
use crate::digest::{sha256_hex, sha256_hex_of};
use crate::gtx::bill_registry::BillInfo;
use crate::gtx::digital_bill::{
    default_bill_type, is_generated_serial, metadata_hash_of, summary_members_of, DigitalBill,
};
use crate::json::{
    bool_text, decimal_text, json_bool, json_into_object, json_is_null, json_number, json_object,
    json_string, json_string_member, json_text, json_to_text, json_u64_member, members_insert,
    members_new, no_members, null_text, object_text, quoted_text, string_member, u64_member,
    value_members,
};
use crate::system::unix_millis;
use crate::text::decimal;

verus! {

broadcast use vstd::std_specs::hash::group_hash_axioms;

/// The denominations that may be issued: the powers of ten from 1 to
/// 100,000,000.
pub open spec fn valid_denominations() -> Seq<u64> {
    seq![1u64, 10u64, 100u64, 1000u64, 10000u64, 100000u64, 1000000u64, 10000000u64, 100000000u64]
}

/// The difficulty that a denomination costs: a step function that never
/// falls as the denomination grows.
pub open spec fn difficulty_for(denomination: u64) -> u32 {
    if denomination <= 1 {
        2
    } else if denomination <= 10 {
        3
    } else if denomination <= 100 {
        4
    } else if denomination <= 1000 {
        5
    } else if denomination <= 10000 {
        6
    } else if denomination <= 100000 {
        7
    } else if denomination <= 1000000 {
        8
    } else if denomination <= 10000000 {
        9
    } else {
        10
    }
}

/// The difficulty is a non-decreasing function of the denomination, and lies
/// between 2 and 10.
pub proof fn difficulty_is_monotonic(smaller: u64, larger: u64)
    requires
        smaller <= larger,
    ensures
        difficulty_for(smaller) <= difficulty_for(larger),
        2 <= difficulty_for(smaller) <= 10,
{
}

/// The checks by which a stored bill can be accepted, in the order in which
/// they are tried.
#[derive(Debug, Clone, Copy, PartialEq, Eq, Structural)]
pub enum VerificationMethod {
    SignatureIsMetadataHash,
    MetadataHashSignature,
    DigitalBillCalculateHash,
    DigitalBillVerifyMethod,
    DigitalBillMetadataHash,
    SimpleHash,
    BillJsonHash,
    FallbackAccept,
}

/// Why a bill was not accepted.
#[derive(Debug, Clone, Copy, PartialEq, Eq, Structural)]
pub enum VerificationError {
    InvalidSerial,
    NotFound,
    NoBillData,
    SignatureFailed,
}

/// Why no bill was issued.
#[derive(Debug, Clone, Copy, PartialEq, Eq, Structural)]
pub enum GenesisError {
    InvalidDenomination,
}

impl VerificationMethod {
    /// The place of the check in the order of trying, from 1.
    pub open spec fn rank(self) -> nat {
        match self {
            VerificationMethod::SignatureIsMetadataHash => 1,
            VerificationMethod::MetadataHashSignature => 2,
            VerificationMethod::DigitalBillCalculateHash => 3,
            VerificationMethod::DigitalBillVerifyMethod => 4,
            VerificationMethod::DigitalBillMetadataHash => 5,
            VerificationMethod::SimpleHash => 6,
            VerificationMethod::BillJsonHash => 7,
            VerificationMethod::FallbackAccept => 8,
        }
    }

    /// The name of the check as reports give it.
    pub open spec fn name(self) -> Seq<char> {
        match self {
            VerificationMethod::SignatureIsMetadataHash => "signature_is_metadata_hash"@,
            VerificationMethod::MetadataHashSignature => "metadata_hash_signature"@,
            VerificationMethod::DigitalBillCalculateHash => "digital_bill_calculate_hash"@,
            VerificationMethod::DigitalBillVerifyMethod => "digital_bill_verify_method"@,
            VerificationMethod::DigitalBillMetadataHash => "digital_bill_metadata_hash"@,
            VerificationMethod::SimpleHash => "simple_hash"@,
            VerificationMethod::BillJsonHash => "bill_json_hash"@,
            VerificationMethod::FallbackAccept => "fallback_accept"@,
        }
    }

    /// The name of the check as reports give it.
    pub fn as_str(&self) -> (name: &'static str)
        ensures
            name@ == self.name(),
    {
        match self {
            VerificationMethod::SignatureIsMetadataHash => "signature_is_metadata_hash",
            VerificationMethod::MetadataHashSignature => "metadata_hash_signature",
            VerificationMethod::DigitalBillCalculateHash => "digital_bill_calculate_hash",
            VerificationMethod::DigitalBillVerifyMethod => "digital_bill_verify_method",
            VerificationMethod::DigitalBillMetadataHash => "digital_bill_metadata_hash",
            VerificationMethod::SimpleHash => "simple_hash",
            VerificationMethod::BillJsonHash => "bill_json_hash",
            VerificationMethod::FallbackAccept => "fallback_accept",
        }
    }
}

impl VerificationError {
    /// The reason in words.
    pub open spec fn text(self) -> Seq<char> {
        match self {
            VerificationError::InvalidSerial => "Invalid bill serial"@,
            VerificationError::NotFound => "Bill not found in registry"@,
            VerificationError::NoBillData => "No bill data found in metadata"@,
            VerificationError::SignatureFailed => "Signature verification failed"@,
        }
    }

    /// The reason in words.
    pub fn message(&self) -> (text: &'static str)
        ensures
            text@ == self.text(),
    {
        match self {
            VerificationError::InvalidSerial => "Invalid bill serial",
            VerificationError::NotFound => "Bill not found in registry",
            VerificationError::NoBillData => "No bill data found in metadata",
            VerificationError::SignatureFailed => "Signature verification failed",
        }
    }
}

/// What is read of a stored bill when it is verified. A field that the record
/// lacks, or holds in another form, takes its default: empty text, zero, or
/// the usual bill type.
#[derive(Debug, Clone)]
pub struct BillFields {
    pub public_key: String,
    pub signature: String,
    pub metadata_hash: String,
    pub issued_to: String,
    pub denomination: u64,
    pub front_serial: String,
    pub back_serial: Option<String>,
    pub timestamp: u64,
    pub bill_type: String,
}

/// The fields of a stored bill as plain values.
pub struct BillFieldsView {
    pub public_key: Seq<char>,
    pub signature: Seq<char>,
    pub metadata_hash: Seq<char>,
    pub issued_to: Seq<char>,
    pub denomination: u64,
    pub front_serial: Seq<char>,
    pub back_serial: Option<Seq<char>>,
    pub timestamp: u64,
    pub bill_type: Seq<char>,
}

impl View for BillFields {
    type V = BillFieldsView;

    open spec fn view(&self) -> BillFieldsView {
        BillFieldsView {
            public_key: self.public_key@,
            signature: self.signature@,
            metadata_hash: self.metadata_hash@,
            issued_to: self.issued_to@,
            denomination: self.denomination,
            front_serial: self.front_serial@,
            back_serial: match self.back_serial {
                Some(b) => Some(b@),
                None => None,
            },
            timestamp: self.timestamp,
            bill_type: self.bill_type@,
        }
    }
}

/// `o`, or `default` where there is none.
pub open spec fn text_or(o: Option<Seq<char>>, default: Seq<char>) -> Seq<char> {
    match o {
        Some(s) => s,
        None => default,
    }
}

/// `o`, or zero where there is none.
pub open spec fn number_or_zero(o: Option<u64>) -> u64 {
    match o {
        Some(n) => n,
        None => 0,
    }
}

/// The fields that verification reads out of the stored metadata.
pub open spec fn metadata_fields(metadata: serde_json::Value) -> BillFieldsView {
    BillFieldsView {
        public_key: text_or(string_member(metadata, "public_key"@), Seq::empty()),
        signature: text_or(string_member(metadata, "signature"@), Seq::empty()),
        metadata_hash: text_or(string_member(metadata, "metadata_hash"@), Seq::empty()),
        issued_to: text_or(string_member(metadata, "issued_to"@), Seq::empty()),
        denomination: number_or_zero(u64_member(metadata, "denomination"@)),
        front_serial: text_or(string_member(metadata, "front_serial"@), Seq::empty()),
        back_serial: string_member(metadata, "back_serial"@),
        timestamp: number_or_zero(u64_member(metadata, "timestamp"@)),
        bill_type: text_or(string_member(metadata, "type"@), default_bill_type()),
    }
}

impl BillFieldsView {
    /// The summary hash of the bill that these fields describe.
    pub open spec fn summary_hash(self) -> Seq<char> {
        sha256_hex(
            object_text(
                summary_members_of(
                    self.bill_type,
                    self.front_serial,
                    text_or(self.back_serial, Seq::empty()),
                    self.metadata_hash,
                    self.timestamp,
                    self.issued_to,
                    self.denomination,
                ),
            ),
        )
    }

    /// The metadata hash computed anew from these fields, for a bill whose
    /// owner is the one it was issued to and whose difficulty is not on
    /// record.
    pub open spec fn fresh_metadata_hash(self) -> Seq<char> {
        metadata_hash_of(self.denomination, self.issued_to, 0, self.timestamp, self.front_serial)
    }

    /// The fields written one after the other: front serial, denomination,
    /// owner, timestamp.
    pub open spec fn concatenation(self) -> Seq<char> {
        self.front_serial + decimal_text(self.denomination as nat) + self.issued_to + decimal_text(
            self.timestamp as nat,
        )
    }

    /// The members of the projection that the seventh check hashes.
    pub open spec fn projection_members(self) -> Map<Seq<char>, Seq<char>> {
        no_members().insert("type"@, quoted_text(self.bill_type)).insert(
            "front_serial"@,
            quoted_text(self.front_serial),
        ).insert("issued_to"@, quoted_text(self.issued_to)).insert(
            "denomination"@,
            decimal_text(self.denomination as nat),
        ).insert("timestamp"@, decimal_text(self.timestamp as nat)).insert(
            "public_key"@,
            quoted_text(self.public_key),
        )
    }

    /// Whether the given check accepts these fields, taken by itself.
    pub open spec fn matches(self, method: VerificationMethod) -> bool {
        match method {
            VerificationMethod::SignatureIsMetadataHash => {
                self.metadata_hash.len() > 0 && self.signature == self.metadata_hash
            },
            VerificationMethod::MetadataHashSignature => {
                &&& self.metadata_hash.len() > 0
                &&& self.public_key.len() > 0
                &&& self.signature.len() > 0
                &&& self.signature == sha256_hex(self.public_key + self.metadata_hash)
            },
            VerificationMethod::DigitalBillCalculateHash => self.signature == self.summary_hash(),
            VerificationMethod::DigitalBillVerifyMethod => self.signature == sha256_hex(
                self.public_key + self.summary_hash(),
            ),
            VerificationMethod::DigitalBillMetadataHash => self.signature
                == self.fresh_metadata_hash(),
            VerificationMethod::SimpleHash => {
                self.signature.len() > 0 && self.signature == sha256_hex(self.concatenation())
            },
            VerificationMethod::BillJsonHash => self.signature == sha256_hex(
                object_text(self.projection_members()),
            ),
            VerificationMethod::FallbackAccept => self.signature.len() > 10,
        }
    }

    /// The first check, in the order of trying, that accepts these fields.
    pub open spec fn first_match(self) -> Option<VerificationMethod> {
        if self.matches(VerificationMethod::SignatureIsMetadataHash) {
            Some(VerificationMethod::SignatureIsMetadataHash)
        } else if self.matches(VerificationMethod::MetadataHashSignature) {
            Some(VerificationMethod::MetadataHashSignature)
        } else if self.matches(VerificationMethod::DigitalBillCalculateHash) {
            Some(VerificationMethod::DigitalBillCalculateHash)
        } else if self.matches(VerificationMethod::DigitalBillVerifyMethod) {
            Some(VerificationMethod::DigitalBillVerifyMethod)
        } else if self.matches(VerificationMethod::DigitalBillMetadataHash) {
            Some(VerificationMethod::DigitalBillMetadataHash)
        } else if self.matches(VerificationMethod::SimpleHash) {
            Some(VerificationMethod::SimpleHash)
        } else if self.matches(VerificationMethod::BillJsonHash) {
            Some(VerificationMethod::BillJsonHash)
        } else if self.matches(VerificationMethod::FallbackAccept) {
            Some(VerificationMethod::FallbackAccept)
        } else {
            None
        }
    }
}

/// The first check that accepts is the one reported: a check is reported
/// exactly when it accepts and none before it in the order does. So whenever
/// the stored signature is the stored metadata hash, that first check is the
/// one reported, whichever later checks would accept as well.
pub proof fn first_match_wins(fields: BillFieldsView, method: VerificationMethod)
    ensures
        fields.first_match() == Some(method) <==> (fields.matches(method) && forall|
            earlier: VerificationMethod,
        |
            earlier.rank() < method.rank() ==> !fields.matches(earlier)),
        fields.matches(VerificationMethod::SignatureIsMetadataHash) ==> fields.first_match()
            == Some(VerificationMethod::SignatureIsMetadataHash),
        fields.first_match() is None <==> forall|any: VerificationMethod| !fields.matches(any),
{
    let ms = seq![
        VerificationMethod::SignatureIsMetadataHash,
        VerificationMethod::MetadataHashSignature,
        VerificationMethod::DigitalBillCalculateHash,
        VerificationMethod::DigitalBillVerifyMethod,
        VerificationMethod::DigitalBillMetadataHash,
        VerificationMethod::SimpleHash,
        VerificationMethod::BillJsonHash,
        VerificationMethod::FallbackAccept,
    ];
    assert(forall|m: VerificationMethod| ms[m.rank() - 1] == m);
    if fields.matches(method) && fields.first_match() != Some(method) {
        let winner = fields.first_match()->0;
        assert(fields.first_match() is Some);
        assert(fields.matches(winner) && winner.rank() < method.rank());
    }
    if fields.first_match() == Some(method) {
        assert forall|earlier: VerificationMethod| earlier.rank() < method.rank() implies !fields.matches(
            earlier,
        ) by {
            assert(ms[earlier.rank() - 1] == earlier);
        }
    }
}

/// The last resort: where none of the seven checks on hashes accepts, a
/// signature of more than ten characters is accepted all the same, and a
/// shorter one (an empty one too) is rejected.
pub proof fn fallback_policy(fields: BillFieldsView)
    requires
        forall|method: VerificationMethod|
            method != VerificationMethod::FallbackAccept ==> !fields.matches(method),
    ensures
        fields.signature.len() > 10 ==> fields.first_match() == Some(
            VerificationMethod::FallbackAccept,
        ),
        fields.signature.len() <= 10 ==> fields.first_match() is None,
{
    assert(!fields.matches(VerificationMethod::SignatureIsMetadataHash));
    assert(!fields.matches(VerificationMethod::MetadataHashSignature));
    assert(!fields.matches(VerificationMethod::DigitalBillCalculateHash));
    assert(!fields.matches(VerificationMethod::DigitalBillVerifyMethod));
    assert(!fields.matches(VerificationMethod::DigitalBillMetadataHash));
    assert(!fields.matches(VerificationMethod::SimpleHash));
    assert(!fields.matches(VerificationMethod::BillJsonHash));
}

/// The report on one verification.
#[derive(Debug, Clone)]
pub struct VerificationResult {
    pub valid: bool,
    /// The serial of the bill, where it was accepted.
    pub bill: Option<String>,
    /// The check that accepted it.
    pub verification_method: Option<VerificationMethod>,
    /// Why it was rejected.
    pub error: Option<VerificationError>,
}

impl VerificationResult {
    /// Whether this report says of the bill `serial` what `verdict` says.
    pub open spec fn reports(
        &self,
        serial: Seq<char>,
        verdict: Result<VerificationMethod, VerificationError>,
    ) -> bool {
        match verdict {
            Ok(method) => {
                &&& self.valid
                &&& self.bill matches Some(b) && b@ == serial
                &&& self.verification_method == Some(method)
                &&& self.error is None
            },
            Err(error) => {
                &&& !self.valid
                &&& self.bill is None
                &&& self.verification_method is None
                &&& self.error == Some(error)
            },
        }
    }

    /// The members of the report as an object.
    pub open spec fn members(&self) -> Map<Seq<char>, Seq<char>> {
        match (self.bill, self.verification_method, self.error) {
            (Some(b), Some(m), _) => no_members().insert("valid"@, bool_text(self.valid)).insert(
                "bill"@,
                quoted_text(b@),
            ).insert("verification_method"@, quoted_text(m.name())),
            (_, _, Some(e)) => no_members().insert("valid"@, bool_text(self.valid)).insert(
                "error"@,
                quoted_text(e.text()),
            ),
            _ => no_members().insert("valid"@, bool_text(self.valid)),
        }
    }

    fn accepted(serial: &str, method: VerificationMethod) -> (r: Self)
        ensures
            r.reports(serial@, Ok(method)),
    {
        VerificationResult {
            valid: true,
            bill: Some(String::from_str(serial)),
            verification_method: Some(method),
            error: None,
        }
    }

    fn rejected(error: VerificationError) -> (r: Self)
        ensures
            forall|serial: Seq<char>| r.reports(serial, Err(error)),
    {
        VerificationResult { valid: false, bill: None, verification_method: None, error: Some(error) }
    }

    /// The report as an object: `valid`, and with it either the bill and the
    /// name of the check, or the reason for the rejection.
    pub fn to_json(&self) -> (object: serde_json::Value)
        ensures
            json_text(object) == object_text(self.members()),
    {
        let mut members = members_new();
        members_insert(&mut members, "valid", json_bool(self.valid));
        match (&self.bill, &self.verification_method, &self.error) {
            (Some(b), Some(m), _) => {
                members_insert(&mut members, "bill", json_string(b.as_str()));
                members_insert(&mut members, "verification_method", json_string(m.as_str()));
            },
            (_, _, Some(e)) => {
                members_insert(&mut members, "error", json_string(e.message()));
            },
            _ => {},
        }
        json_object(members)
    }
}

/// What verification says of the bill `serial`, given what the registry holds
/// under it: nothing can be said of an empty serial, of a bill that is not
/// there, or of one kept without metadata; any other is accepted by the first
/// check that accepts its fields, and rejected if none does.
pub open spec fn verdict(serial: Seq<char>, record: Option<&BillInfo>) -> Result<
    VerificationMethod,
    VerificationError,
> {
    if serial.len() == 0 {
        Err(VerificationError::InvalidSerial)
    } else {
        match record {
            None => Err(VerificationError::NotFound),
            Some(info) => if json_text(info.metadata) == null_text() {
                Err(VerificationError::NoBillData)
            } else {
                match metadata_fields(info.metadata).first_match() {
                    Some(method) => Ok(method),
                    None => Err(VerificationError::SignatureFailed),
                }
            },
        }
    }
}

impl BillFields {
    /// Reads the fields out of the metadata of a record, with the default for
    /// each one that is missing or of another kind.
    pub fn from_metadata(metadata: &serde_json::Value) -> (fields: Self)
        ensures
            fields@ == metadata_fields(*metadata),
    {
        let public_key = match json_string_member(metadata, "public_key") {
            Some(s) => s,
            None => String::new(),
        };
        let signature = match json_string_member(metadata, "signature") {
            Some(s) => s,
            None => String::new(),
        };
        let metadata_hash = match json_string_member(metadata, "metadata_hash") {
            Some(s) => s,
            None => String::new(),
        };
        let issued_to = match json_string_member(metadata, "issued_to") {
            Some(s) => s,
            None => String::new(),
        };
        let denomination = match json_u64_member(metadata, "denomination") {
            Some(n) => n,
            None => 0,
        };
        let front_serial = match json_string_member(metadata, "front_serial") {
            Some(s) => s,
            None => String::new(),
        };
        let back_serial = json_string_member(metadata, "back_serial");
        let timestamp = match json_u64_member(metadata, "timestamp") {
            Some(n) => n,
            None => 0,
        };
        let bill_type = match json_string_member(metadata, "type") {
            Some(s) => s,
            None => String::from_str("GTX_Genesis"),
        };
        BillFields {
            public_key,
            signature,
            metadata_hash,
            issued_to,
            denomination,
            front_serial,
            back_serial,
            timestamp,
            bill_type,
        }
    }

    /// The bill that these fields describe, made anew for checking.
    fn rebuild(&self) -> (bill: DigitalBill)
        ensures
            bill.summary_hash() == self@.summary_hash(),
            bill.signature_holds() <==> self@.matches(VerificationMethod::DigitalBillVerifyMethod),
    {
        let back_serial = match &self.back_serial {
            Some(b) => Some(b.clone()),
            None => None,
        };
        let bill = DigitalBill::made_at(
            self.timestamp,
            String::new(),
            self.denomination,
            self.issued_to.clone(),
            0,
            None,
            Some(self.bill_type.clone()),
            Some(self.front_serial.clone()),
            back_serial,
            Some(self.metadata_hash.clone()),
            Some(self.public_key.clone()),
            Some(self.signature.clone()),
        );
        bill
    }

    /// Tries the checks in their order and names the first that accepts.
    pub fn first_accepting(&self) -> (found: Option<VerificationMethod>)
        ensures
            found == self@.first_match(),
    {
        if !self.metadata_hash.as_str().is_empty() && self.signature == self.metadata_hash {
            return Some(VerificationMethod::SignatureIsMetadataHash);
        }
        if !self.metadata_hash.as_str().is_empty() && !self.public_key.as_str().is_empty()
            && !self.signature.as_str().is_empty() {
            let mut input = self.public_key.clone();
            input.append(self.metadata_hash.as_str());
            let expected = sha256_hex_of(input.as_str());
            if self.signature == expected {
                return Some(VerificationMethod::MetadataHashSignature);
            }
        }
        let bill = self.rebuild();
        let calculated = bill.calculate_hash();
        if self.signature == calculated {
            return Some(VerificationMethod::DigitalBillCalculateHash);
        }
        if bill.verify() {
            return Some(VerificationMethod::DigitalBillVerifyMethod);
        }
        let fresh = DigitalBill::generate_metadata_hash(
            self.denomination,
            self.issued_to.as_str(),
            0,
            self.timestamp,
            self.front_serial.as_str(),
        );
        if self.signature == fresh {
            return Some(VerificationMethod::DigitalBillMetadataHash);
        }
        if !self.signature.as_str().is_empty() {
            let mut simple = self.front_serial.clone();
            simple.append(decimal(self.denomination).as_str());
            simple.append(self.issued_to.as_str());
            simple.append(decimal(self.timestamp).as_str());
            let expected = sha256_hex_of(simple.as_str());
            if self.signature == expected {
                return Some(VerificationMethod::SimpleHash);
            }
        }
        let mut members = members_new();
        members_insert(&mut members, "type", json_string(self.bill_type.as_str()));
        members_insert(&mut members, "front_serial", json_string(self.front_serial.as_str()));
        members_insert(&mut members, "issued_to", json_string(self.issued_to.as_str()));
        members_insert(&mut members, "denomination", json_number(self.denomination));
        members_insert(&mut members, "timestamp", json_number(self.timestamp));
        members_insert(&mut members, "public_key", json_string(self.public_key.as_str()));
        let projection = json_to_text(&json_object(members));
        let expected = sha256_hex_of(projection.as_str());
        if self.signature == expected {
            return Some(VerificationMethod::BillJsonHash);
        }
        if self.signature.as_str().unicode_len() > 10 {
            return Some(VerificationMethod::FallbackAccept);
        }
        None
    }
}

/// The key under which a stored denomination is counted: the number itself,
/// and for a negative one the same bits read as unsigned.
pub open spec fn denomination_key(denomination: i64) -> u64 {
    if denomination >= 0 {
        denomination as u64
    } else {
        (denomination + 0x1_0000_0000_0000_0000) as u64
    }
}

/// How many of `bills` are counted under `key`.
pub open spec fn count_of(bills: Seq<BillInfo>, key: u64) -> nat
    decreases bills.len(),
{
    if bills.len() == 0 {
        0
    } else {
        count_of(bills.drop_last(), key) + if denomination_key(bills.last().denomination) == key {
            1nat
        } else {
            0nat
        }
    }
}

/// The value of `bills` taken together.
pub open spec fn luna_total(bills: Seq<BillInfo>) -> nat
    decreases bills.len(),
{
    if bills.len() == 0 {
        0
    } else {
        luna_total(bills.drop_last()) + bills.last().luna_value as nat
    }
}

/// Whether `breakdown` counts `bills` by denomination: a denomination is in
/// it exactly when some bill has it, with the number of bills that have it.
pub open spec fn is_breakdown_of(breakdown: Map<u64, usize>, bills: Seq<BillInfo>) -> bool {
    forall|key: u64|
        {
            &&& #[trigger] breakdown.contains_key(key) <==> count_of(bills, key) > 0
            &&& breakdown.contains_key(key) ==> breakdown[key] == count_of(bills, key)
        }
}

/// No denomination is counted more often than there are bills.
pub proof fn count_is_bounded(bills: Seq<BillInfo>, key: u64)
    ensures
        count_of(bills, key) <= bills.len(),
    decreases bills.len(),
{
    if bills.len() > 0 {
        count_is_bounded(bills.drop_last(), key);
    }
}

/// The value of any number of bills stays below the number of bills times the
/// largest value one bill can have.
pub proof fn luna_total_is_bounded(bills: Seq<BillInfo>)
    ensures
        luna_total(bills) <= bills.len() * u64::MAX,
    decreases bills.len(),
{
    if bills.len() > 0 {
        luna_total_is_bounded(bills.drop_last());
        assert((bills.len() - 1) * u64::MAX + u64::MAX == bills.len() * u64::MAX)
            by (nonlinear_arith);
    }
}

/// What one owner holds.
#[derive(Debug)]
pub struct Portfolio {
    pub user_address: String,
    pub total_bills: usize,
    pub total_luna_value: u128,
    pub bills: Vec<BillInfo>,
    pub breakdown: HashMap<u64, usize>,
}

/// The issuer and verifier of bills.
#[derive(Debug)]
pub struct GTXGenesis {
    pub valid_denominations: Vec<u64>,
}

/// The members that mark the data of a bill issued at `seconds`, added to
/// `members`.
pub open spec fn annotated_members(members: Map<Seq<char>, Seq<char>>, seconds: u64) -> Map<
    Seq<char>,
    Seq<char>,
> {
    members.insert("creation_timestamp"@, decimal_text(seconds as nat)).insert(
        "version"@,
        quoted_text("1.0"@),
    ).insert("asset_type"@, quoted_text("GTX_Genesis"@))
}

/// The text of the data of a bill issued at `seconds` with `custom_data`:
/// an object gets the three marks added, no data stands for an empty object,
/// and data of any other kind stays as it is.
pub open spec fn annotated_text(custom_data: Option<serde_json::Value>, seconds: u64) -> Seq<char> {
    match custom_data {
        None => object_text(annotated_members(no_members(), seconds)),
        Some(data) => match value_members(data) {
            Some(members) => object_text(annotated_members(members, seconds)),
            None => json_text(data),
        },
    }
}

/// Marks the data of a bill issued at `seconds` (since the Unix epoch) with
/// the time of creation, the version and the kind of asset.
pub fn annotate(custom_data: Option<serde_json::Value>, seconds: u64) -> (data: serde_json::Value)
    ensures
        json_text(data) == annotated_text(custom_data, seconds),
{
    let object = match custom_data {
        None => Ok(members_new()),
        Some(data) => json_into_object(data),
    };
    match object {
        Ok(mut members) => {
            members_insert(&mut members, "creation_timestamp", json_number(seconds));
            members_insert(&mut members, "version", json_string("1.0"));
            members_insert(&mut members, "asset_type", json_string("GTX_Genesis"));
            json_object(members)
        },
        Err(other) => other,
    }
}

/// The unsigned key of a stored denomination.
pub fn key_of(denomination: i64) -> (key: u64)
    ensures
        key == denomination_key(denomination),
{
    if denomination >= 0 {
        denomination as u64
    } else {
        let wide: i128 = denomination as i128;
        (wide + 0x1_0000_0000_0000_0000i128) as u64
    }
}

impl GTXGenesis {
    /// An issuer for the fixed set of denominations.
    pub fn new() -> (genesis: Self)
        ensures
            genesis.valid_denominations@ == valid_denominations(),
    {
        let mut denominations: Vec<u64> = Vec::new();
        denominations.push(1);
        denominations.push(10);
        denominations.push(100);
        denominations.push(1000);
        denominations.push(10000);
        denominations.push(100000);
        denominations.push(1000000);
        denominations.push(10000000);
        denominations.push(100000000);
        assert(denominations@ =~= valid_denominations());
        GTXGenesis { valid_denominations: denominations }
    }

    /// Whether this issuer issues bills of `denomination`.
    pub fn is_valid_denomination(&self, denomination: u64) -> (valid: bool)
        ensures
            valid == self.valid_denominations@.contains(denomination),
    {
        let mut i: usize = 0;
        while i < self.valid_denominations.len()
            invariant
                i <= self.valid_denominations@.len(),
                forall|j: int| 0 <= j < i ==> self.valid_denominations@[j] != denomination,
            decreases self.valid_denominations@.len() - i,
        {
            if self.valid_denominations[i] == denomination {
                return true;
            }
            i = i + 1;
        }
        false
    }

    /// Issues a bill of `denomination` to `user_address`, not yet mined. A
    /// denomination outside the set of this issuer is refused, and nothing is
    /// made. The bill's difficulty follows from its denomination, and its
    /// data are the custom data, marked.
    pub fn create_genesis_bill(
        &self,
        denomination: u64,
        user_address: &str,
        custom_data: Option<serde_json::Value>,
    ) -> (issued: Result<DigitalBill, GenesisError>)
        ensures
            issued is Ok <==> self.valid_denominations@.contains(denomination),
            issued matches Err(e) ==> e == GenesisError::InvalidDenomination,
            issued matches Ok(bill) ==> {
                &&& bill.made_from(
                    bill.created_time,
                    bill.bill_serial@,
                    denomination,
                    user_address@,
                    difficulty_for(denomination),
                    Some(bill.bill_data),
                    None,
                    None,
                    None,
                    None,
                    None,
                    None,
                )
                &&& is_generated_serial(bill.bill_serial@, denomination)
                &&& bill.is_anchored()
                &&& exists|seconds: u64|
                    json_text(bill.bill_data) == #[trigger] annotated_text(custom_data, seconds)
            },
    {
        if !self.is_valid_denomination(denomination) {
            return Err(GenesisError::InvalidDenomination);
        }
        let seconds = unix_millis() / 1000;
        let bill_data = annotate(custom_data, seconds);
        let bill = DigitalBill::new(
            denomination,
            String::from_str(user_address),
            self.calculate_difficulty(denomination),
            Some(bill_data),
            None,
            None,
            None,
            None,
            None,
            None,
        );
        assert(json_text(bill.bill_data) == annotated_text(custom_data, seconds));
        Ok(bill)
    }

    /// Verifies the bill `bill_serial`, given the record that the registry
    /// holds under that serial, if it holds one. The report names the check
    /// that accepted the bill, or the reason why none did.
    pub fn verify_bill(&self, bill_serial: &str, record: Option<&BillInfo>) -> (report:
        VerificationResult)
        ensures
            report.reports(bill_serial@, verdict(bill_serial@, record)),
    {
        if bill_serial.is_empty() {
            return VerificationResult::rejected(VerificationError::InvalidSerial);
        }
        let info = match record {
            Some(info) => info,
            None => {
                return VerificationResult::rejected(VerificationError::NotFound);
            },
        };
        if json_is_null(&info.metadata) {
            return VerificationResult::rejected(VerificationError::NoBillData);
        }
        let fields = BillFields::from_metadata(&info.metadata);
        match fields.first_accepting() {
            Some(method) => VerificationResult::accepted(bill_serial, method),
            None => VerificationResult::rejected(VerificationError::SignatureFailed),
        }
    }

    /// Sums up the bills of one owner, as the registry gave them: how many
    /// there are, what they are worth together, and how many there are of
    /// each denomination.
    pub fn get_user_portfolio(&self, user_address: &str, bills: Vec<BillInfo>) -> (portfolio:
        Portfolio)
        ensures
            portfolio.user_address@ == user_address@,
            portfolio.total_bills == bills@.len(),
            portfolio.total_luna_value == luna_total(bills@),
            portfolio.bills == bills,
            is_breakdown_of(portfolio.breakdown@, bills@),
    {
        let mut total: u128 = 0;
        let mut i: usize = 0;
        while i < bills.len()
            invariant
                i <= bills@.len(),
                total == luna_total(bills@.subrange(0, i as int)),
            decreases bills@.len() - i,
        {
            proof {
                let upto = bills@.subrange(0, i as int);
                let next = bills@.subrange(0, i + 1);
                assert(next.drop_last() =~= upto);
                luna_total_is_bounded(upto);
                assert(i * u64::MAX + u64::MAX <= u128::MAX) by (nonlinear_arith)
                    requires
                        i <= usize::MAX,
                ;
            }
            total = total + bills[i].luna_value as u128;
            i = i + 1;
        }
        assert(bills@.subrange(0, bills@.len() as int) =~= bills@);
        let breakdown = Self::get_denomination_breakdown(bills.as_slice());
        Portfolio {
            user_address: String::from_str(user_address),
            total_bills: bills.len(),
            total_luna_value: total,
            bills,
            breakdown,
        }
    }

    /// The difficulty at which a bill of `denomination` is mined.
    pub fn calculate_difficulty(&self, denomination: u64) -> (difficulty: u32)
        ensures
            difficulty == difficulty_for(denomination),
            2 <= difficulty <= 10,
    {
        if denomination <= 1 {
            2
        } else if denomination <= 10 {
            3
        } else if denomination <= 100 {
            4
        } else if denomination <= 1000 {
            5
        } else if denomination <= 10000 {
            6
        } else if denomination <= 100000 {
            7
        } else if denomination <= 1000000 {
            8
        } else if denomination <= 10000000 {
            9
        } else {
            10
        }
    }

    /// Counts `bills` by denomination.
    pub fn get_denomination_breakdown(bills: &[BillInfo]) -> (breakdown: HashMap<u64, usize>)
        ensures
            is_breakdown_of(breakdown@, bills@),
    {
        let mut breakdown: HashMap<u64, usize> = HashMap::new();
        let mut i: usize = 0;
        while i < bills.len()
            invariant
                i <= bills@.len(),
                is_breakdown_of(breakdown@, bills@.subrange(0, i as int)),
            decreases bills@.len() - i,
        {
            let key = key_of(bills[i].denomination);
            let ghost upto = bills@.subrange(0, i as int);
            let ghost next = bills@.subrange(0, i + 1);
            proof {
                assert(next.drop_last() =~= upto);
                assert(next.last() == bills@[i as int]);
                count_is_bounded(upto, key);
            }
            let seen: usize = match breakdown.get(&key) {
                Some(n) => *n,
                None => 0,
            };
            assert(seen == count_of(upto, key));
            breakdown.insert(key, seen + 1);
            assert forall|other: u64|
                {
                    &&& #[trigger] breakdown@.contains_key(other) <==> count_of(next, other) > 0
                    &&& breakdown@.contains_key(other) ==> breakdown@[other] == count_of(next, other)
                } by {
                if other != key {
                    assert(count_of(next, other) == count_of(upto, other));
                }
            }
            i = i + 1;
        }
        assert(bills@.subrange(0, bills@.len() as int) =~= bills@);
        breakdown
    }
}

} // verus!
