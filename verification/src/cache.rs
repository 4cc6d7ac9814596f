//! The quick-unlock cache: the master passphrase, sealed under the short code
//! derived from it, with one attempt to recover it.
//!
//! The sealed record is what the cache file holds. Reading and writing the
//! file is left to the caller; [`Cache`] is the image of the file in memory.

use cocoon::Cocoon;
use vstd::prelude::*;
use vstd::string::*;
use vstd::utf8::*;
use crate::code::{code_of, derive_code};
use crate::text::utf8_text;

verus! {

/// Path of the cache file. The path is fixed and lies in the shared
/// temporary directory: every local process that can reach that directory
/// can read the sealed record or put another in its place. The design
/// accepts this.
pub const CACHE_PATH: &'static str = "/tmp/.kpw";

/// Length of what precedes the payload in a sealed record: a header of 44
/// bytes and an authentication tag of 16.
pub const PREFIX_LEN: usize = 60;

/// Where the header keeps the length of the payload, as 8 bytes, the most
/// significant first.
pub const LENGTH_AT: usize = 36;

/// The payload length that the header of `record` declares.
pub open spec fn declared_len(record: Seq<u8>) -> int
    recommends
        record.len() >= LENGTH_AT + 8,
{
    record[36] * 0x0100_0000_0000_0000 + record[37] * 0x0001_0000_0000_0000 + record[38]
        * 0x0000_0100_0000_0000 + record[39] * 0x0000_0001_0000_0000 + record[40] * 0x0100_0000
        + record[41] * 0x0001_0000 + record[42] * 0x0100 + record[43]
}

/// A record is framed when it holds a whole prefix and at least as many
/// payload bytes as its header declares.
pub open spec fn framed(record: Seq<u8>) -> bool {
    record.len() >= PREFIX_LEN && declared_len(record) <= record.len() - PREFIX_LEN
}

/// Tells whether `record` is framed.
pub fn is_framed(record: &[u8]) -> (ok: bool)
    ensures
        ok == framed(record@),
{
    if record.len() < PREFIX_LEN {
        return false;
    }
    let declared: u64 = (record[36] as u64) * 0x0100_0000_0000_0000 + (record[37] as u64)
        * 0x0001_0000_0000_0000 + (record[38] as u64) * 0x0000_0100_0000_0000 + (record[39] as u64)
        * 0x0000_0001_0000_0000 + (record[40] as u64) * 0x0100_0000 + (record[41] as u64)
        * 0x0001_0000 + (record[42] as u64) * 0x0100 + (record[43] as u64);
    declared <= (record.len() - PREFIX_LEN) as u64
}

/// What `Cocoon::parse` yields for a password and the bytes of a container:
/// the payload, or nothing where the call fails.
pub uninterp spec fn cocoon_parsed(password: Seq<u8>, container: Seq<u8>) -> Option<Seq<u8>>;

/// Decrypts a container under `password`.
///
/// Trusted: calls `Cocoon::new` and `Cocoon::parse` on a reader over
/// `container`. The contract only names the result. The call is kept to
/// framed containers: for others it fails, after allocating as many bytes as
/// the header declares.
#[verifier::external_body]
fn cocoon_parse(password: &[u8], container: &[u8]) -> (payload: Option<Vec<u8>>)
    requires
        framed(container@),
    ensures
        match payload {
            Some(bytes) => cocoon_parsed(password@, container@) == Some(bytes@),
            None => cocoon_parsed(password@, container@) is None,
        },
{
    let mut reader = container;
    Cocoon::new(password).parse(&mut reader).ok()
}

/// Encrypts `payload` under `password` into a fresh container.
///
/// Trusted: calls `Cocoon::new` and `Cocoon::dump` with a vector as the
/// writer. Salt and nonce are random, so the container is not determined by
/// the arguments. The contract claims of every container that comes back:
/// it is the prefix followed by as many bytes as the payload has, its header
/// declares the payload's length, and parsing it under the same password
/// gives the payload back.
#[verifier::external_body]
fn cocoon_dump(password: &[u8], payload: Vec<u8>) -> (container: Option<Vec<u8>>)
    ensures
        container matches Some(bytes) ==> {
            &&& bytes@.len() == payload@.len() + PREFIX_LEN
            &&& declared_len(bytes@) == payload@.len()
            &&& cocoon_parsed(password@, bytes@) == Some(payload@)
        },
{
    let mut out = Vec::new();
    match Cocoon::new(password).dump(payload, &mut out) {
        Ok(()) => Some(out),
        Err(_) => None,
    }
}

/// What unsealing `record` under `code` yields: the payload, or nothing when
/// the record is not framed or does not open under the code.
pub open spec fn unsealed(code: Seq<u8>, record: Seq<u8>) -> Option<Seq<u8>> {
    if framed(record) {
        cocoon_parsed(code, record)
    } else {
        None
    }
}

/// Opens a sealed record under `code`.
pub fn unseal(code: &[u8], record: &[u8]) -> (payload: Option<Vec<u8>>)
    ensures
        match payload {
            Some(bytes) => unsealed(code@, record@) == Some(bytes@),
            None => unsealed(code@, record@) is None,
        },
{
    if is_framed(record) {
        cocoon_parse(code, record)
    } else {
        None
    }
}

/// What one attempt to unlock comes to.
pub enum Unlock {
    /// There is no cache: nothing to try.
    NoCache,
    /// The code opened the record: the master passphrase.
    Recovered(String),
    /// The record did not open under the code. The cache is gone.
    WrongCode,
    /// The record opened, but what it held is not UTF-8 text.
    NotText,
}

/// What an [`Unlock`] stands for.
pub enum Verdict {
    NoCache,
    Recovered(Seq<char>),
    WrongCode,
    NotText,
}

impl View for Unlock {
    type V = Verdict;

    open spec fn view(&self) -> Verdict {
        match self {
            Unlock::NoCache => Verdict::NoCache,
            Unlock::Recovered(passphrase) => Verdict::Recovered(passphrase@),
            Unlock::WrongCode => Verdict::WrongCode,
            Unlock::NotText => Verdict::NotText,
        }
    }
}

/// Why a passphrase was not cached.
#[derive(Clone, Copy, Debug, PartialEq, Eq, Structural)]
pub enum StoreError {
    /// The passphrase is too short to derive a code from.
    TooShort,
    /// The cipher refused the passphrase.
    SealFailed,
}

/// The verdict on what unsealing gave: the decoded text, `NotText` where the
/// bytes are not UTF-8, `WrongCode` where nothing was unsealed.
pub open spec fn judged(opened: Option<Seq<u8>>) -> Verdict {
    match opened {
        None => Verdict::WrongCode,
        Some(bytes) => if valid_utf8(bytes) {
            Verdict::Recovered(decode_utf8(bytes))
        } else {
            Verdict::NotText
        },
    }
}

/// The verdict on one attempt with `code` on a cache that holds `slot`.
pub open spec fn verdict(slot: Option<Seq<u8>>, code: Seq<char>) -> Verdict {
    match slot {
        None => Verdict::NoCache,
        Some(record) => judged(unsealed(encode_utf8(code), record)),
    }
}

/// What the cache holds after one attempt with `code`: a wrong code
/// destroys the record, every other verdict leaves the cache as it was.
pub open spec fn left_after(slot: Option<Seq<u8>>, code: Seq<char>) -> Option<Seq<u8>> {
    if verdict(slot, code) is WrongCode {
        None
    } else {
        slot
    }
}

/// A record holds a passphrase when it unseals, under the code derived from
/// that passphrase, to the passphrase's UTF-8 bytes.
pub open spec fn holds_passphrase(record: Seq<u8>, passphrase: Seq<char>) -> bool {
    code_of(passphrase) matches Some(code) && unsealed(encode_utf8(code), record) == Some(
        encode_utf8(passphrase),
    )
}

/// What the bytes handed back by unsealing stand for.
pub open spec fn opened_view(opened: Option<Vec<u8>>) -> Option<Seq<u8>> {
    match opened {
        Some(bytes) => Some(bytes@),
        None => None,
    }
}

/// Judges what unsealing gave.
pub fn judge(opened: Option<Vec<u8>>) -> (unlock: Unlock)
    ensures
        unlock@ == judged(opened_view(opened)),
{
    match opened {
        None => Unlock::WrongCode,
        Some(bytes) => match utf8_text(bytes.as_slice()) {
            Some(text) => Unlock::Recovered(text.to_owned()),
            None => Unlock::NotText,
        },
    }
}

/// The image of the cache file: the sealed record, or nothing where the file
/// does not exist.
pub struct Cache {
    pub record: Option<Vec<u8>>,
}

impl View for Cache {
    type V = Option<Seq<u8>>;

    open spec fn view(&self) -> Option<Seq<u8>> {
        opened_view(self.record)
    }
}

impl Cache {
    /// The cache where no file exists.
    pub fn absent() -> (cache: Cache)
        ensures
            cache@ is None,
    {
        Cache { record: None }
    }

    /// The cache whose file holds `record`.
    pub fn holding(record: Vec<u8>) -> (cache: Cache)
        ensures
            cache@ == Some(record@),
    {
        Cache { record: Some(record) }
    }

    /// Tells whether there is a record to try a code on.
    pub fn is_present(&self) -> (present: bool)
        ensures
            present == (self@ is Some),
    {
        self.record.is_some()
    }

    /// Takes what sealing gave: a record becomes the cache's record, in
    /// place of any earlier one; where sealing gave nothing the cache is left
    /// as it was.
    pub fn put(&mut self, sealed: Option<Vec<u8>>) -> (stored: Result<(), StoreError>)
        ensures
            match sealed {
                Some(record) => stored is Ok && final(self)@ == Some(record@),
                None => stored == Err::<(), StoreError>(StoreError::SealFailed) && final(self)@
                    == old(self)@,
            },
    {
        match sealed {
            Some(record) => {
                self.record = Some(record);
                Ok(())
            },
            None => Err(StoreError::SealFailed),
        }
    }

    /// Seals `passphrase` under the code derived from it and makes the result
    /// the cache's record, in place of any earlier one. A passphrase too
    /// short to derive a code from is refused. Where this fails the cache is
    /// left as it was.
    pub fn store(&mut self, passphrase: &str) -> (stored: Result<(), StoreError>)
        ensures
            match stored {
                Ok(()) => final(self)@ matches Some(record) && holds_passphrase(
                    record,
                    passphrase@,
                ),
                Err(StoreError::TooShort) => code_of(passphrase@) is None && final(self)@ == old(
                    self,
                )@,
                Err(StoreError::SealFailed) => code_of(passphrase@) is Some && final(self)@
                    == old(self)@,
            },
    {
        let code = match derive_code(passphrase) {
            Some(code) => code,
            None => {
                return Err(StoreError::TooShort);
            },
        };
        let sealed = cocoon_dump(code.as_bytes(), passphrase.as_bytes_vec());
        self.put(sealed)
    }

    /// Makes the one attempt to recover the passphrase with `code`. A code
    /// under which the record does not open destroys the record.
    pub fn try_unlock(&mut self, code: &str) -> (unlock: Unlock)
        ensures
            unlock@ == verdict(old(self)@, code@),
            final(self)@ == left_after(old(self)@, code@),
    {
        let unlock = match &self.record {
            None => {
                return Unlock::NoCache;
            },
            Some(record) => judge(unseal(code.as_bytes(), record.as_slice())),
        };
        if let Unlock::WrongCode = unlock {
            self.record = None;
        }
        unlock
    }
}

/// Storing a passphrase and then making the attempt with the code derived
/// from it recovers exactly that passphrase, and the cache stays.
pub proof fn lemma_stored_passphrase_is_recovered(record: Seq<u8>, passphrase: Seq<char>)
    requires
        holds_passphrase(record, passphrase),
    ensures
        verdict(Some(record), code_of(passphrase)->0) == Verdict::Recovered(passphrase),
        left_after(Some(record), code_of(passphrase)->0) == Some(record),
{
    encode_utf8_valid_utf8(passphrase);
    encode_utf8_decode_utf8(passphrase);
}

/// An attempt with a code under which the record does not open returns
/// nothing and leaves no cache behind, so that a second attempt, whatever its
/// code, finds no cache and returns nothing either.
pub proof fn lemma_wrong_code_destroys_cache(record: Seq<u8>, wrong: Seq<char>, second: Seq<char>)
    requires
        unsealed(encode_utf8(wrong), record) is None,
    ensures
        verdict(Some(record), wrong) is WrongCode,
        left_after(Some(record), wrong) is None,
        verdict(left_after(Some(record), wrong), second) is NoCache,
        left_after(left_after(Some(record), wrong), second) is None,
{
}

} // verus!
