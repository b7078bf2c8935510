//! Where the API keys are kept: the entries of the system keyring or
//! keychain, and how the keychain tool's answers are read.
use vstd::prelude::*;
use crate::error::{is_invalid_state, Result, WisprError};
use crate::text::{concat2, concat3, lossy_text, owned, trim, trim_str, utf8_lossy};

verus! {

/// Which API key.
#[derive(Clone, Copy, Debug, PartialEq, Eq, Structural)]
pub enum SecretKind {
    Deepgram,
    Intelligence,
}

/// A keyring entry: the label shown to the user, and the service and
/// account it is stored under.
#[derive(Debug)]
pub struct SecretEntry {
    pub label: String,
    pub service: String,
    pub account: String,
}

/// The label, service and account of a key.
pub open spec fn entry_spec(kind: SecretKind) -> (Seq<char>, Seq<char>, Seq<char>) {
    match kind {
        SecretKind::Deepgram => ("Wispr Deepgram API Key"@, "io.wispr.deepgram"@, "default"@),
        SecretKind::Intelligence => ("Wispr Intelligence API Key"@, "io.wispr.intelligence"@, "default"@),
    }
}

/// The store of the API keys.
pub struct SecretStore;

impl SecretStore {
    /// Opens the store.
    pub fn connect() -> (r: Result<SecretStore>)
        ensures
            r is Ok,
    {
        Ok(SecretStore)
    }

    /// The entry under which a key is kept.
    pub fn entry(&self, kind: SecretKind) -> (r: SecretEntry)
        ensures
            (r.label@, r.service@, r.account@) == entry_spec(kind),
    {
        match kind {
            SecretKind::Deepgram => SecretEntry {
                label: owned("Wispr Deepgram API Key"),
                service: owned("io.wispr.deepgram"),
                account: owned("default"),
            },
            SecretKind::Intelligence => SecretEntry {
                label: owned("Wispr Intelligence API Key"),
                service: owned("io.wispr.intelligence"),
                account: owned("default"),
            },
        }
    }
}

/// The attributes that find an entry in the keyring.
pub fn secret_attributes(entry: &SecretEntry) -> (r: Vec<(String, String)>)
    ensures
        r@.len() == 2,
        r@[0].0@ == "service"@ && r@[0].1@ == entry.service@,
        r@[1].0@ == "account"@ && r@[1].1@ == entry.account@,
{
    let mut r: Vec<(String, String)> = Vec::new();
    r.push((owned("service"), owned(entry.service.as_str())));
    r.push((owned("account"), owned(entry.account.as_str())));
    r
}

/// The key read from the keychain tool: its output, trimmed, when it
/// succeeded; nothing otherwise.
pub fn keychain_read(success: bool, stdout: &[u8]) -> (r: Option<String>)
    ensures
        success ==> (r matches Some(k) && k@ == trim(utf8_lossy(stdout@))),
        !success ==> r is None,
{
    if success {
        let text = lossy_text(stdout);
        Some(trim_str(text.as_str()))
    } else {
        None
    }
}

/// The outcome of writing a key with the keychain tool: an error naming the
/// entry and quoting the tool's trimmed error output when it failed.
pub fn keychain_write_result(success: bool, entry: &SecretEntry, stderr: &[u8]) -> (r: Result<()>)
    ensures
        success ==> r is Ok,
        !success ==> (r matches Err(e) && is_invalid_state(
            e,
            "failed to write keychain secret for "@ + entry.service@ + "/"@ + entry.account@ + ": "@
                + trim(utf8_lossy(stderr@)),
        )),
{
    if success {
        return Ok(());
    }
    let text = lossy_text(stderr);
    let detail = trim_str(text.as_str());
    let head = concat3("failed to write keychain secret for ", entry.service.as_str(), "/");
    let mid = concat3(head.as_str(), entry.account.as_str(), ": ");
    Err(WisprError::InvalidState(concat2(mid.as_str(), detail.as_str())))
}

/// The key held by a keyring item, as text.
pub fn secret_text(secret: &[u8]) -> (r: String)
    ensures
        r@ == utf8_lossy(secret@),
{
    lossy_text(secret)
}

} // verus!
