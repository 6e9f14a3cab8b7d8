//! The bill itself: canonical metadata, serial, hashes, the payload that is
//! mined, finalization and the hash-based signature.
//!
//! Times are whole milliseconds since the Unix epoch.

use vstd::prelude::*;
use vstd::string::*;
use crate::digest::{is_hash_text, sha256_hex, sha256_hex_of};
use crate::json::{
    decimal_text, json_bool, json_null, json_number, json_object, json_string,
    json_text, json_to_text, members_insert, members_new, no_members, null_text, object_text,
    quoted_text, bool_text, value_members,
};
use crate::system::{all_alphanumeric, random_alphanumeric, unix_millis};
use crate::text::{decimal, join2};

verus! {

/// A serially numbered value token, bound to a denomination and an owner by
/// its metadata hash.
#[derive(Debug, Clone)]
pub struct DigitalBill {
    pub denomination: u64,
    pub user_address: String,
    pub difficulty: u32,
    pub bill_data: serde_json::Value,
    pub bill_serial: String,
    pub created_time: u64,
    pub bill_type: String,
    pub front_serial: String,
    pub back_serial: String,
    pub metadata_hash: String,
    pub timestamp: u64,
    pub issued_to: String,
    pub public_key: Option<String>,
    pub signature: Option<String>,
}

/// The view of an optional string.
pub open spec fn opt_text(o: Option<String>) -> Option<Seq<char>> {
    match o {
        Some(s) => Some(s@),
        None => None,
    }
}

/// The bill type of a bill that was given none.
pub open spec fn default_bill_type() -> Seq<char> {
    "GTX_Genesis"@
}

/// A generated serial: `GTX`, the denomination, the time in milliseconds and a
/// suffix, the last three parted by underscores.
pub open spec fn serial_text(denomination: u64, millis: u64, suffix: Seq<char>) -> Seq<char> {
    "GTX"@ + decimal_text(denomination as nat) + "_"@ + decimal_text(millis as nat) + "_"@ + suffix
}

/// `serial` is a generated serial for `denomination`, with a suffix of eight
/// ASCII letters and digits.
pub open spec fn is_generated_serial(serial: Seq<char>, denomination: u64) -> bool {
    exists|millis: u64, suffix: Seq<char>|
        suffix.len() == 8 && all_alphanumeric(suffix) && serial == #[trigger] serial_text(
            denomination,
            millis,
            suffix,
        )
}

/// The members of the canonical metadata object.
pub open spec fn metadata_members(
    denomination: u64,
    user_address: Seq<char>,
    difficulty: u32,
    timestamp: u64,
    bill_serial: Seq<char>,
) -> Map<Seq<char>, Seq<char>> {
    no_members().insert("denomination"@, decimal_text(denomination as nat)).insert(
        "user_address"@,
        quoted_text(user_address),
    ).insert("difficulty"@, decimal_text(difficulty as nat)).insert(
        "timestamp"@,
        decimal_text(timestamp as nat),
    ).insert("bill_serial"@, quoted_text(bill_serial))
}

/// The metadata hash: SHA-256 over the canonical metadata object.
pub open spec fn metadata_hash_of(
    denomination: u64,
    user_address: Seq<char>,
    difficulty: u32,
    timestamp: u64,
    bill_serial: Seq<char>,
) -> Seq<char> {
    sha256_hex(
        object_text(metadata_members(denomination, user_address, difficulty, timestamp, bill_serial)),
    )
}

/// What stands where a chain would name the previous block:
/// the hash of a time, written in decimal.
pub open spec fn previous_hash_of(time: u64) -> Seq<char> {
    sha256_hex(decimal_text(time as nat))
}

/// The members of the summary of a bill with the given fields.
pub open spec fn summary_members_of(
    bill_type: Seq<char>,
    front_serial: Seq<char>,
    back_serial: Seq<char>,
    metadata_hash: Seq<char>,
    timestamp: u64,
    issued_to: Seq<char>,
    denomination: u64,
) -> Map<Seq<char>, Seq<char>> {
    no_members().insert("type"@, quoted_text(bill_type)).insert(
        "front_serial"@,
        quoted_text(front_serial),
    ).insert("back_serial"@, quoted_text(back_serial)).insert(
        "metadata_hash"@,
        quoted_text(metadata_hash),
    ).insert("timestamp"@, decimal_text(timestamp as nat)).insert(
        "issued_to"@,
        quoted_text(issued_to),
    ).insert("denomination"@, decimal_text(denomination as nat))
}

impl DigitalBill {
    /// The members of the object that is hashed while mining with `nonce`.
    pub open spec fn mining_members(&self, nonce: u64) -> Map<Seq<char>, Seq<char>> {
        no_members().insert("type"@, quoted_text(default_bill_type())).insert(
            "denomination"@,
            decimal_text(self.denomination as nat),
        ).insert("user_address"@, quoted_text(self.user_address@)).insert(
            "bill_serial"@,
            quoted_text(self.bill_serial@),
        ).insert("timestamp"@, decimal_text(self.created_time as nat)).insert(
            "difficulty"@,
            decimal_text(self.difficulty as nat),
        ).insert("previous_hash"@, quoted_text(previous_hash_of(self.created_time))).insert(
            "nonce"@,
            decimal_text(nonce as nat),
        ).insert("bill_data"@, json_text(self.bill_data))
    }

    /// The text that is hashed while mining with `nonce`.
    pub open spec fn mining_payload(&self, nonce: u64) -> Seq<char> {
        object_text(self.mining_members(nonce))
    }

    /// The proof-of-work hash of this bill under `nonce`.
    pub open spec fn mining_hash(&self, nonce: u64) -> Seq<char> {
        sha256_hex(self.mining_payload(nonce))
    }

    /// The members of the summary that `calculate_hash` hashes.
    pub open spec fn summary_members(&self) -> Map<Seq<char>, Seq<char>> {
        summary_members_of(
            self.bill_type@,
            self.front_serial@,
            self.back_serial@,
            self.metadata_hash@,
            self.timestamp,
            self.issued_to@,
            self.denomination,
        )
    }

    /// The hash of the summary: the bill's own hash, apart from any proof of
    /// work.
    pub open spec fn summary_hash(&self) -> Seq<char> {
        sha256_hex(object_text(self.summary_members()))
    }

    /// The signature that `key` gives this bill: the hash of the key followed
    /// by the summary hash. It commits the key to the bill; it is no
    /// asymmetric signature, and whoever knows the key can make it.
    pub open spec fn signature_with(&self, key: Seq<char>) -> Seq<char> {
        sha256_hex(key + self.summary_hash())
    }

    /// Whether the stored signature is the one that the stored public key
    /// gives.
    pub open spec fn signature_holds(&self) -> bool {
        match (self.public_key, self.signature) {
            (Some(pk), Some(sig)) => sig@ == self.signature_with(pk@),
            _ => false,
        }
    }

    /// Whether the bill is anchored: its metadata hash is the hash of its
    /// identity fields. A bill that was made without a metadata hash of the
    /// maker's choosing is anchored, and stays so.
    pub open spec fn is_anchored(&self) -> bool {
        self.metadata_hash@ == self.fresh_metadata_hash()
    }

    /// The metadata hash computed anew from the identity fields.
    pub open spec fn fresh_metadata_hash(&self) -> Seq<char> {
        metadata_hash_of(
            self.denomination,
            self.user_address@,
            self.difficulty,
            self.timestamp,
            self.bill_serial@,
        )
    }

    /// The members of the transaction that records the issuing of this bill
    /// with the proof `hash`, found in `mining_time` milliseconds and recorded
    /// at `now`.
    pub open spec fn transaction_members(
        &self,
        hash: Seq<char>,
        mining_time: u64,
        now: u64,
    ) -> Map<Seq<char>, Seq<char>> {
        no_members().insert("type"@, quoted_text(default_bill_type())).insert(
            "from"@,
            quoted_text("genesis_network"@),
        ).insert("to"@, quoted_text(self.user_address@)).insert(
            "amount"@,
            decimal_text(self.denomination as nat),
        ).insert("bill_serial"@, quoted_text(self.bill_serial@)).insert(
            "mining_difficulty"@,
            decimal_text(self.difficulty as nat),
        ).insert("mining_time"@, decimal_text(mining_time as nat)).insert(
            "hash"@,
            quoted_text(hash),
        ).insert("timestamp"@, decimal_text(now as nat)).insert(
            "status"@,
            quoted_text("mined"@),
        ).insert("front_serial"@, quoted_text(self.front_serial@)).insert(
            "issued_to"@,
            quoted_text(self.user_address@),
        ).insert("denomination"@, decimal_text(self.denomination as nat)).insert(
            "metadata_hash"@,
            quoted_text(self.metadata_hash@),
        )
    }

    /// The members of the record that finalization hands out for keeping.
    pub open spec fn finalization_members(
        &self,
        hash: Seq<char>,
        nonce: Seq<char>,
        mining_time: u64,
        now: u64,
    ) -> Map<Seq<char>, Seq<char>> {
        no_members().insert("success"@, bool_text(true)).insert(
            "bill_serial"@,
            quoted_text(self.bill_serial@),
        ).insert("denomination"@, decimal_text(self.denomination as nat)).insert(
            "user_address"@,
            quoted_text(self.user_address@),
        ).insert("mining_time"@, decimal_text(mining_time as nat)).insert(
            "difficulty"@,
            decimal_text(self.difficulty as nat),
        ).insert("hash"@, quoted_text(hash)).insert("nonce"@, quoted_text(nonce)).insert(
            "timestamp"@,
            decimal_text(now as nat),
        ).insert("luna_value"@, decimal_text(self.denomination as nat)).insert(
            "transaction_data"@,
            object_text(self.transaction_members(hash, mining_time, now)),
        )
    }

    /// `self` and `other` agree on everything but the public key and the
    /// signature.
    pub open spec fn same_but_for_signing(&self, other: &DigitalBill) -> bool {
        &&& self.denomination == other.denomination
        &&& self.user_address == other.user_address
        &&& self.difficulty == other.difficulty
        &&& self.bill_data == other.bill_data
        &&& self.bill_serial == other.bill_serial
        &&& self.created_time == other.created_time
        &&& self.bill_type == other.bill_type
        &&& self.front_serial == other.front_serial
        &&& self.back_serial == other.back_serial
        &&& self.metadata_hash == other.metadata_hash
        &&& self.timestamp == other.timestamp
        &&& self.issued_to == other.issued_to
    }

    /// What a bill made at time `now` from the given parts looks like, where
    /// `fresh_serial` is the serial to use if no front serial is given.
    pub open spec fn made_from(
        &self,
        now: u64,
        fresh_serial: Seq<char>,
        denomination: u64,
        user_address: Seq<char>,
        difficulty: u32,
        bill_data: Option<serde_json::Value>,
        bill_type: Option<Seq<char>>,
        front_serial: Option<Seq<char>>,
        back_serial: Option<Seq<char>>,
        metadata_hash: Option<Seq<char>>,
        public_key: Option<Seq<char>>,
        signature: Option<Seq<char>>,
    ) -> bool {
        let serial = match front_serial {
            Some(f) => f,
            None => fresh_serial,
        };
        &&& self.denomination == denomination
        &&& self.user_address@ == user_address
        &&& self.difficulty == difficulty
        &&& json_text(self.bill_data) == match bill_data {
            Some(d) => json_text(d),
            None => null_text(),
        }
        &&& self.bill_serial@ == serial
        &&& self.created_time == now
        &&& self.timestamp == now
        &&& self.bill_type@ == match bill_type {
            Some(t) => t,
            None => default_bill_type(),
        }
        &&& self.front_serial@ == serial
        &&& self.back_serial@ == match back_serial {
            Some(b) => b,
            None => Seq::<char>::empty(),
        }
        &&& self.metadata_hash@ == match metadata_hash {
            Some(h) => h,
            None => metadata_hash_of(denomination, user_address, difficulty, now, serial),
        }
        &&& self.issued_to@ == user_address
        &&& opt_text(self.public_key) == public_key
        &&& opt_text(self.signature) == signature
    }

    /// Makes a bill now. The serial is the front serial where one is given,
    /// else a generated one; the metadata hash is the one given, else the hash
    /// of the canonical metadata. No denomination is refused here: that is the
    /// issuer's business.
    pub fn new(
        denomination: u64,
        user_address: String,
        difficulty: u32,
        bill_data: Option<serde_json::Value>,
        bill_type: Option<String>,
        front_serial: Option<String>,
        back_serial: Option<String>,
        metadata_hash: Option<String>,
        public_key: Option<String>,
        signature: Option<String>,
    ) -> (bill: Self)
        ensures
            bill.made_from(
                bill.created_time,
                bill.bill_serial@,
                denomination,
                user_address@,
                difficulty,
                bill_data,
                opt_text(bill_type),
                opt_text(front_serial),
                opt_text(back_serial),
                opt_text(metadata_hash),
                opt_text(public_key),
                opt_text(signature),
            ),
            front_serial is None ==> is_generated_serial(bill.bill_serial@, denomination),
            metadata_hash is None ==> bill.is_anchored() && is_hash_text(bill.metadata_hash@),
    {
        let now = unix_millis();
        let fresh = match &front_serial {
            Some(_) => String::new(),
            None => Self::generate_serial(denomination, now),
        };
        Self::made_at(
            now,
            fresh,
            denomination,
            user_address,
            difficulty,
            bill_data,
            bill_type,
            front_serial,
            back_serial,
            metadata_hash,
            public_key,
            signature,
        )
    }

    /// Makes a bill as `new` does, at the time `now` and with `fresh_serial`
    /// standing by for a missing front serial.
    pub fn made_at(
        now: u64,
        fresh_serial: String,
        denomination: u64,
        user_address: String,
        difficulty: u32,
        bill_data: Option<serde_json::Value>,
        bill_type: Option<String>,
        front_serial: Option<String>,
        back_serial: Option<String>,
        metadata_hash: Option<String>,
        public_key: Option<String>,
        signature: Option<String>,
    ) -> (bill: Self)
        ensures
            bill.made_from(
                now,
                fresh_serial@,
                denomination,
                user_address@,
                difficulty,
                bill_data,
                opt_text(bill_type),
                opt_text(front_serial),
                opt_text(back_serial),
                opt_text(metadata_hash),
                opt_text(public_key),
                opt_text(signature),
            ),
            metadata_hash is None ==> bill.is_anchored() && is_hash_text(bill.metadata_hash@),
    {
        let bill_serial = match front_serial {
            Some(f) => f,
            None => fresh_serial,
        };
        let metadata_hash = match metadata_hash {
            Some(h) => h,
            None => Self::generate_metadata_hash(
                denomination,
                user_address.as_str(),
                difficulty,
                now,
                bill_serial.as_str(),
            ),
        };
        let bill_data = match bill_data {
            Some(d) => d,
            None => json_null(),
        };
        let bill_type = match bill_type {
            Some(t) => t,
            None => String::from_str("GTX_Genesis"),
        };
        let back_serial = match back_serial {
            Some(b) => b,
            None => String::new(),
        };
        DigitalBill {
            denomination,
            user_address: user_address.clone(),
            difficulty,
            bill_data,
            bill_serial: bill_serial.clone(),
            created_time: now,
            bill_type,
            front_serial: bill_serial,
            back_serial,
            metadata_hash,
            timestamp: now,
            issued_to: user_address,
            public_key,
            signature,
        }
    }

    /// The serial for a bill of `denomination` made at `millis`, with the
    /// given suffix.
    pub fn format_serial(denomination: u64, millis: u64, suffix: &str) -> (serial: String)
        ensures
            serial@ == serial_text(denomination, millis, suffix@),
    {
        let mut serial = String::from_str("GTX");
        serial.append(decimal(denomination).as_str());
        serial.append("_");
        serial.append(decimal(millis).as_str());
        serial.append("_");
        serial.append(suffix);
        serial
    }

    /// A serial with a random suffix of eight letters and digits.
    fn generate_serial(denomination: u64, millis: u64) -> (serial: String)
        ensures
            is_generated_serial(serial@, denomination),
    {
        let suffix = random_alphanumeric(8);
        let serial = Self::format_serial(denomination, millis, suffix.as_str());
        assert(serial@ == serial_text(denomination, millis, suffix@));
        serial
    }

    /// The metadata hash of the given identity fields.
    pub fn generate_metadata_hash(
        denomination: u64,
        user_address: &str,
        difficulty: u32,
        timestamp: u64,
        bill_serial: &str,
    ) -> (hash: String)
        ensures
            hash@ == metadata_hash_of(
                denomination,
                user_address@,
                difficulty,
                timestamp,
                bill_serial@,
            ),
            is_hash_text(hash@),
    {
        let mut members = members_new();
        members_insert(&mut members, "denomination", json_number(denomination));
        members_insert(&mut members, "user_address", json_string(user_address));
        members_insert(&mut members, "difficulty", json_number(difficulty as u64));
        members_insert(&mut members, "timestamp", json_number(timestamp));
        members_insert(&mut members, "bill_serial", json_string(bill_serial));
        let text = json_to_text(&json_object(members));
        sha256_hex_of(text.as_str())
    }

    /// What stands for a previous block's hash: the hash of the time at
    /// which this bill was made.
    fn get_previous_hash(&self) -> (hash: String)
        ensures
            hash@ == previous_hash_of(self.created_time),
            is_hash_text(hash@),
    {
        let time = decimal(self.created_time);
        sha256_hex_of(time.as_str())
    }

    /// The object that is hashed while mining with `nonce`. It depends on the
    /// nonce and on this bill's fields, and on nothing else.
    pub fn get_mining_data(&self, nonce: u64) -> (data: serde_json::Value)
        ensures
            json_text(data) == self.mining_payload(nonce),
            value_members(data) == Some(self.mining_members(nonce)),
    {
        let mut members = members_new();
        members_insert(&mut members, "type", json_string("GTX_Genesis"));
        members_insert(&mut members, "denomination", json_number(self.denomination));
        members_insert(&mut members, "user_address", json_string(self.user_address.as_str()));
        members_insert(&mut members, "bill_serial", json_string(self.bill_serial.as_str()));
        members_insert(&mut members, "timestamp", json_number(self.created_time));
        members_insert(&mut members, "difficulty", json_number(self.difficulty as u64));
        let previous = self.get_previous_hash();
        members_insert(&mut members, "previous_hash", json_string(previous.as_str()));
        members_insert(&mut members, "nonce", json_number(nonce));
        members_insert(&mut members, "bill_data", self.bill_data.clone());
        json_object(members)
    }

    /// The summary of this bill as an object.
    pub fn to_dict(&self) -> (summary: serde_json::Value)
        ensures
            json_text(summary) == object_text(self.summary_members()),
            value_members(summary) == Some(self.summary_members()),
    {
        let mut members = members_new();
        members_insert(&mut members, "type", json_string(self.bill_type.as_str()));
        members_insert(&mut members, "front_serial", json_string(self.front_serial.as_str()));
        members_insert(&mut members, "back_serial", json_string(self.back_serial.as_str()));
        members_insert(&mut members, "metadata_hash", json_string(self.metadata_hash.as_str()));
        members_insert(&mut members, "timestamp", json_number(self.timestamp));
        members_insert(&mut members, "issued_to", json_string(self.issued_to.as_str()));
        members_insert(&mut members, "denomination", json_number(self.denomination));
        json_object(members)
    }

    /// The hash of the summary.
    pub fn calculate_hash(&self) -> (hash: String)
        ensures
            hash@ == self.summary_hash(),
            is_hash_text(hash@),
    {
        let text = json_to_text(&self.to_dict());
        sha256_hex_of(text.as_str())
    }

    /// The signature that `private_key` gives this bill.
    pub fn sign(&self, private_key: &str) -> (signature: String)
        ensures
            signature@ == self.signature_with(private_key@),
            is_hash_text(signature@),
    {
        let bill_hash = self.calculate_hash();
        let input = join2(private_key, bill_hash.as_str());
        sha256_hex_of(input.as_str())
    }

    /// Checks the stored signature against the stored public key, which takes
    /// the place of the key that signed.
    pub fn verify(&self) -> (ok: bool)
        ensures
            ok == self.signature_holds(),
    {
        match (&self.public_key, &self.signature) {
            (Some(pk), Some(sig)) => {
                let expected = self.sign(pk.as_str());
                expected == *sig
            },
            _ => false,
        }
    }

    /// Attaches the proof to the bill and hands out the record to keep. With a
    /// private key the bill is signed, and the key's public key stored beside
    /// the signature. Nothing else of the bill changes; its metadata hash
    /// least of all. Keeping the record is the caller's step.
    pub fn finalize(
        &mut self,
        hash: &str,
        nonce: &str,
        mining_time: u64,
        private_key: Option<&str>,
    ) -> (record: serde_json::Value)
        ensures
            final(self).same_but_for_signing(old(self)),
            final(self).metadata_hash == old(self).metadata_hash,
            old(self).is_anchored() ==> final(self).is_anchored(),
            match private_key {
                Some(key) => {
                    &&& opt_text(final(self).public_key) == Some(sha256_hex(key@))
                    &&& opt_text(final(self).signature) == Some(old(self).signature_with(key@))
                    &&& is_hash_text(sha256_hex(key@))
                    &&& is_hash_text(old(self).signature_with(key@))
                },
                None => {
                    &&& final(self).public_key == old(self).public_key
                    &&& final(self).signature == old(self).signature
                },
            },
            exists|now: u64|
                json_text(record) == object_text(
                    #[trigger] old(self).finalization_members(hash@, nonce@, mining_time, now),
                ),
    {
        let now = unix_millis();
        self.finalize_at(now, hash, nonce, mining_time, private_key)
    }

    /// Finalizes as `finalize` does, with `now` as the time of record.
    pub fn finalize_at(
        &mut self,
        now: u64,
        hash: &str,
        nonce: &str,
        mining_time: u64,
        private_key: Option<&str>,
    ) -> (record: serde_json::Value)
        ensures
            final(self).same_but_for_signing(old(self)),
            final(self).metadata_hash == old(self).metadata_hash,
            old(self).is_anchored() ==> final(self).is_anchored(),
            match private_key {
                Some(key) => {
                    &&& opt_text(final(self).public_key) == Some(sha256_hex(key@))
                    &&& opt_text(final(self).signature) == Some(old(self).signature_with(key@))
                    &&& is_hash_text(sha256_hex(key@))
                    &&& is_hash_text(old(self).signature_with(key@))
                },
                None => {
                    &&& final(self).public_key == old(self).public_key
                    &&& final(self).signature == old(self).signature
                },
            },
            json_text(record) == object_text(
                old(self).finalization_members(hash@, nonce@, mining_time, now),
            ),
            value_members(record) == Some(
                old(self).finalization_members(hash@, nonce@, mining_time, now),
            ),
    {
        let mut tx = members_new();
        members_insert(&mut tx, "type", json_string("GTX_Genesis"));
        members_insert(&mut tx, "from", json_string("genesis_network"));
        members_insert(&mut tx, "to", json_string(self.user_address.as_str()));
        members_insert(&mut tx, "amount", json_number(self.denomination));
        members_insert(&mut tx, "bill_serial", json_string(self.bill_serial.as_str()));
        members_insert(&mut tx, "mining_difficulty", json_number(self.difficulty as u64));
        members_insert(&mut tx, "mining_time", json_number(mining_time));
        members_insert(&mut tx, "hash", json_string(hash));
        members_insert(&mut tx, "timestamp", json_number(now));
        members_insert(&mut tx, "status", json_string("mined"));
        members_insert(&mut tx, "front_serial", json_string(self.front_serial.as_str()));
        members_insert(&mut tx, "issued_to", json_string(self.user_address.as_str()));
        members_insert(&mut tx, "denomination", json_number(self.denomination));
        members_insert(&mut tx, "metadata_hash", json_string(self.metadata_hash.as_str()));
        let transaction_data = json_object(tx);
        match private_key {
            Some(key) => {
                let signature = self.sign(key);
                self.public_key = Some(Self::derive_public_key(key));
                self.signature = Some(signature);
            },
            None => {},
        }
        let mut info = members_new();
        members_insert(&mut info, "success", json_bool(true));
        members_insert(&mut info, "bill_serial", json_string(self.bill_serial.as_str()));
        members_insert(&mut info, "denomination", json_number(self.denomination));
        members_insert(&mut info, "user_address", json_string(self.user_address.as_str()));
        members_insert(&mut info, "mining_time", json_number(mining_time));
        members_insert(&mut info, "difficulty", json_number(self.difficulty as u64));
        members_insert(&mut info, "hash", json_string(hash));
        members_insert(&mut info, "nonce", json_string(nonce));
        members_insert(&mut info, "timestamp", json_number(now));
        members_insert(&mut info, "luna_value", json_number(self.denomination));
        members_insert(&mut info, "transaction_data", transaction_data);
        json_object(info)
    }

    /// The public key that goes with `private_key`: its hash.
    pub fn derive_public_key(private_key: &str) -> (public_key: String)
        ensures
            public_key@ == sha256_hex(private_key@),
            is_hash_text(public_key@),
    {
        sha256_hex_of(private_key)
    }

    /// A random private key of 64 letters and digits, and its public key.
    pub fn generate_key_pair() -> (pair: (String, String))
        ensures
            pair.0@.len() == 64,
            all_alphanumeric(pair.0@),
            pair.1@ == sha256_hex(pair.0@),
            is_hash_text(pair.1@),
    {
        let private_key = random_alphanumeric(64);
        let public_key = Self::derive_public_key(private_key.as_str());
        (private_key, public_key)
    }
}

/// The metadata hash is anchored in the five identity fields alone: two bills
/// that agree on denomination, owner, difficulty, timestamp and serial have
/// the same metadata hash when it is computed anew, whatever their keys,
/// signatures and other fields hold.
pub proof fn metadata_hash_depends_on_identity_only(a: DigitalBill, b: DigitalBill)
    requires
        a.denomination == b.denomination,
        a.user_address@ == b.user_address@,
        a.difficulty == b.difficulty,
        a.timestamp == b.timestamp,
        a.bill_serial@ == b.bill_serial@,
    ensures
        a.fresh_metadata_hash() == b.fresh_metadata_hash(),
{
}

/// The hash under a nonce does not change when a bill is signed: it depends on
/// no field that finalization touches.
pub proof fn mining_hash_survives_signing(a: DigitalBill, b: DigitalBill, nonce: u64)
    requires
        a.same_but_for_signing(&b),
    ensures
        a.mining_hash(nonce) == b.mining_hash(nonce),
        a.summary_hash() == b.summary_hash(),
        a.fresh_metadata_hash() == b.fresh_metadata_hash(),
{
}

} // verus!
