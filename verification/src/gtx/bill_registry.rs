//! The record under which a bill is kept, as the registry stores it.

use vstd::prelude::*;
use vstd::string::*;

verus! {

/// Where the proofs of bills can be looked up.
pub open spec fn verification_url_of(hash: Seq<char>) -> Seq<char> {
    "https://bank.linglin.art/verify/"@ + hash
}

/// Where the picture of a bill is kept.
pub open spec fn image_url_of(bill_serial: Seq<char>) -> Seq<char> {
    "https://bank.linglin.art/bills/"@ + bill_serial + ".png"@
}

/// One bill as the registry keeps it. Times are in milliseconds, the value in
/// whole units; `metadata` is the bill as it was written down when it was
/// issued.
#[derive(Debug, Clone)]
pub struct BillInfo {
    pub bill_serial: String,
    pub denomination: i64,
    pub user_address: String,
    pub hash: String,
    pub mining_time: u64,
    pub difficulty: i64,
    pub luna_value: u64,
    pub timestamp: u64,
    pub verification_url: String,
    pub image_url: String,
    pub metadata: serde_json::Value,
    pub status: String,
}

impl BillInfo {
    /// Sets the two addresses under which the bill can be looked at, as is
    /// done before the record is stored: they follow from its hash and its
    /// serial.
    pub fn assign_urls(&mut self)
        ensures
            final(self).verification_url@ == verification_url_of(old(self).hash@),
            final(self).image_url@ == image_url_of(old(self).bill_serial@),
            final(self).bill_serial == old(self).bill_serial,
            final(self).denomination == old(self).denomination,
            final(self).user_address == old(self).user_address,
            final(self).hash == old(self).hash,
            final(self).mining_time == old(self).mining_time,
            final(self).difficulty == old(self).difficulty,
            final(self).luna_value == old(self).luna_value,
            final(self).timestamp == old(self).timestamp,
            final(self).metadata == old(self).metadata,
            final(self).status == old(self).status,
    {
        let mut verification_url = String::from_str("https://bank.linglin.art/verify/");
        verification_url.append(self.hash.as_str());
        let mut image_url = String::from_str("https://bank.linglin.art/bills/");
        image_url.append(self.bill_serial.as_str());
        image_url.append(".png");
        self.verification_url = verification_url;
        self.image_url = image_url;
    }
}

} // verus!
