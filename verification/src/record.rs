//! Pairing records, as the device library makes and writes them.
use vstd::prelude::*;
use idevice::remote_pairing::RpPairingFile;
use crate::pair_run::record_accepted;

verus! {

/// A pairing record of the device library, which is opaque here.
#[verifier::external_type_specification]
#[verifier::external_body]
pub struct ExRpPairingFile(idevice::remote_pairing::RpPairingFile);

/// What a pairing record holds.
#[derive(PartialEq, Eq)]
pub struct PairingRecord {
    pub public_key: Vec<u8>,
    pub private_key: Vec<u8>,
    pub identifier: String,
    pub alt_irk: Option<Vec<u8>>,
}

/// The model of what a record holds.
#[verifier::ext_equal]
pub struct PairingRecordView {
    pub public_key: Seq<u8>,
    pub private_key: Seq<u8>,
    pub identifier: Seq<char>,
    pub alt_irk: Option<Seq<u8>>,
}

impl View for PairingRecord {
    type V = PairingRecordView;

    open spec fn view(&self) -> PairingRecordView {
        PairingRecordView {
            public_key: self.public_key@,
            private_key: self.private_key@,
            identifier: self.identifier@,
            alt_irk: match self.alt_irk {
                Some(irk) => Some(irk@),
                None => None,
            },
        }
    }
}

/// What a pairing record of the device library holds: its two keys, its identifier and
/// its identity resolving key. They are plain fields of the record.
pub uninterp spec fn record_of(file: RpPairingFile) -> PairingRecordView;

/// The identifier that `RpPairingFile::generate` gives a host of this name: the
/// name-based UUID of the name among host names.
pub uninterp spec fn host_identifier(host: Seq<char>) -> Seq<char>;

/// The bytes that `RpPairingFile::to_bytes` writes for a record that holds this.
pub uninterp spec fn record_plist(
    public_key: Seq<u8>,
    private_key: Seq<u8>,
    identifier: Seq<char>,
    alt_irk: Option<Seq<u8>>,
) -> Seq<u8>;

/// The bytes that a record is written as.
pub open spec fn plist_of(record: PairingRecordView) -> Seq<u8> {
    record_plist(record.public_key, record.private_key, record.identifier, record.alt_irk)
}

/// The fields of an `RpPairingFile`: the keys as `public_key_bytes` and
/// `private_key_bytes` give them, the identifier, and the identity resolving key.
#[verifier::external_body]
fn contents(file: &RpPairingFile) -> (record: PairingRecord)
    ensures
        record@ == record_of(*file),
{
    PairingRecord {
        public_key: file.public_key_bytes(),
        private_key: file.private_key_bytes(),
        identifier: file.identifier.clone(),
        alt_irk: file.alt_irk.clone(),
    }
}

/// `RpPairingFile::generate`. The keys come from the system's random numbers, so only
/// their length is claimed; the identifier depends on the host's name alone; there is
/// no identity resolving key yet. The call panics on a machine that gives no random
/// numbers, whatever the name.
#[verifier::external_body]
fn generate(host: &str) -> (file: RpPairingFile)
    ensures
        record_of(file).public_key.len() == 32,
        record_of(file).private_key.len() == 32,
        record_of(file).identifier == host_identifier(host@),
        record_of(file).alt_irk is None,
{
    RpPairingFile::generate(host)
}

/// `RpPairingFile::to_bytes`. The bytes are determined by what the record holds, and
/// begin with the prologue of an XML property list, which alone is longer than the
/// least size of a record.
#[verifier::external_body]
fn to_bytes(file: &RpPairingFile) -> (bytes: Vec<u8>)
    ensures
        bytes@ == record_plist(
            record_of(*file).public_key,
            record_of(*file).private_key,
            record_of(*file).identifier,
            record_of(*file).alt_irk,
        ),
        bytes@.len() >= 64,
{
    file.to_bytes()
}

/// A record that was just made, and what it holds.
pub struct NewRecord {
    pub file: RpPairingFile,
    pub record: PairingRecord,
}

/// Makes a record for a host of this name.
pub fn new_record(hostname: &str) -> (r: NewRecord)
    ensures
        r.record@ == record_of(r.file),
        r.record@.public_key.len() == 32,
        r.record@.private_key.len() == 32,
        r.record@.identifier == host_identifier(hostname@),
        r.record@.alt_irk is None,
{
    let file = generate(hostname);
    let record = contents(&file);
    NewRecord { file, record }
}

/// What a record holds, and the bytes that it is written as.
#[derive(PartialEq, Eq)]
pub struct WrittenRecord {
    pub record: PairingRecord,
    pub bytes: Vec<u8>,
}

/// The bytes to write this record as. The setup accepts them.
pub fn write_record(file: &RpPairingFile) -> (r: WrittenRecord)
    ensures
        r.record@ == record_of(*file),
        r.bytes@ == plist_of(record_of(*file)),
        r.bytes@ == record_plist(
            record_of(*file).public_key,
            record_of(*file).private_key,
            record_of(*file).identifier,
            record_of(*file).alt_irk,
        ),
        record_accepted(r.bytes@),
        r.bytes@.len() >= 64,
{
    let record = contents(file);
    let bytes = to_bytes(file);
    WrittenRecord { record, bytes }
}

/// All that a record holds is written: the bytes are the outside library's for its two
/// keys, its identifier and its identity resolving key.
pub proof fn law_record_is_written_whole(record: PairingRecordView)
    ensures
        plist_of(record) == record_plist(
            record.public_key,
            record.private_key,
            record.identifier,
            record.alt_irk,
        ),
{
}

} // verus!
