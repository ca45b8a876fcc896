//! The content hash of a configuration: 64-bit FNV-1a over the fields in a
//! fixed order, every text preceded by its length in bytes and every
//! optional field by a presence word.

use vstd::prelude::*;
use vstd::utf8::encode_utf8;
use crate::config::{Configuration, EmailConfig, EmailTemplate, RecordApiConfig};

verus! {

/// The value a hash starts from.
pub const FNV_OFFSET: u64 = 0xcbf29ce484222325;

/// The multiplier of every round.
pub const FNV_PRIME: u64 = 0x00000100000001b3;

/// One round: `word` is xored into the state, which is then multiplied by
/// the prime, modulo 2^64.
pub open spec fn mix(h: u64, word: u64) -> u64 {
    (h ^ word).wrapping_mul(FNV_PRIME)
}

/// A round for each byte of `bytes`, first byte first.
pub open spec fn absorb(h: u64, bytes: Seq<u8>) -> u64
    decreases bytes.len(),
{
    if bytes.len() == 0 {
        h
    } else {
        mix(absorb(h, bytes.drop_last()), bytes.last() as u64)
    }
}

/// A round for the length of the UTF-8 encoding of `text`, then its bytes.
pub open spec fn absorb_text(h: u64, text: Seq<char>) -> u64 {
    absorb(mix(h, encode_utf8(text).len() as u64), encode_utf8(text))
}

/// A round with 0 for an absent text; a round with 1 and then the text for
/// a present one.
pub open spec fn absorb_optional(h: u64, text: Option<String>) -> u64 {
    match text {
        Some(s) => absorb_text(mix(h, 1), s@),
        None => mix(h, 0),
    }
}

/// A round with 0 for an absent port; a round with 1 and one with the port
/// for a present one.
pub open spec fn absorb_port(h: u64, port: Option<u32>) -> u64 {
    match port {
        Some(p) => mix(mix(h, 1), p as u64),
        None => mix(h, 0),
    }
}

/// A round with 0 for an absent template; a round with 1, then subject and
/// body, for a present one.
pub open spec fn absorb_template(h: u64, template: Option<EmailTemplate>) -> u64 {
    match template {
        Some(t) => absorb_optional(absorb_optional(mix(h, 1), t.subject), t.body),
        None => mix(h, 0),
    }
}

/// The e-mail settings, field by field in the order of their declaration.
pub open spec fn absorb_email(h: u64, email: EmailConfig) -> u64 {
    let h = absorb_optional(h, email.smtp_host);
    let h = absorb_port(h, email.smtp_port);
    let h = absorb_optional(h, email.smtp_username);
    let h = absorb_optional(h, email.smtp_password);
    let h = absorb_optional(h, email.sender_address);
    let h = absorb_optional(h, email.sender_name);
    let h = absorb_template(h, email.user_verification_template);
    let h = absorb_template(h, email.password_reset_template);
    absorb_template(h, email.change_email_template)
}

/// The name of a record API, then the table it exposes.
pub open spec fn absorb_api(h: u64, api: RecordApiConfig) -> u64 {
    absorb_optional(absorb_text(h, api.name@), api.table_name)
}

/// Every record API of `apis`, first one first.
pub open spec fn absorb_apis(h: u64, apis: Seq<RecordApiConfig>) -> u64
    decreases apis.len(),
{
    if apis.len() == 0 {
        h
    } else {
        absorb_api(absorb_apis(h, apis.drop_last()), apis.last())
    }
}

/// The content hash of a configuration: from the offset, the server's
/// names, the e-mail settings, the number of record APIs, and each of them.
#[verifier::opaque]
pub open spec fn content_hash(config: Configuration) -> u64 {
    let h = absorb_optional(FNV_OFFSET, config.server.application_name);
    let h = absorb_optional(h, config.server.site_url);
    let h = absorb_email(h, config.email);
    let h = mix(h, config.record_apis@.len() as u64);
    absorb_apis(h, config.record_apis@)
}

/// Configurations that say the same have the same hash.
pub proof fn lemma_hash_of_same_content(a: Configuration, b: Configuration)
    requires
        crate::config::same_content(a, b),
    ensures
        content_hash(a) == content_hash(b),
{
    reveal(content_hash);
}

fn round(h: u64, word: u64) -> (r: u64)
    ensures
        r == mix(h, word),
{
    (h ^ word).wrapping_mul(FNV_PRIME)
}

fn hash_text(h: u64, text: &str) -> (r: u64)
    ensures
        r == absorb_text(h, text@),
{
    let bytes = text.as_bytes();
    let mut state = round(h, bytes.len() as u64);
    let mut i: usize = 0;
    while i < bytes.len()
        invariant
            0 <= i <= bytes@.len(),
            state == absorb(mix(h, bytes@.len() as u64), bytes@.subrange(0, i as int)),
        decreases bytes@.len() - i,
    {
        assert(bytes@.subrange(0, i + 1).drop_last() =~= bytes@.subrange(0, i as int));
        state = round(state, bytes[i] as u64);
        i += 1;
    }
    assert(bytes@.subrange(0, i as int) =~= bytes@);
    state
}

fn hash_optional(h: u64, text: &Option<String>) -> (r: u64)
    ensures
        r == absorb_optional(h, *text),
{
    match text {
        Some(s) => hash_text(round(h, 1), s.as_str()),
        None => round(h, 0),
    }
}

fn hash_port(h: u64, port: &Option<u32>) -> (r: u64)
    ensures
        r == absorb_port(h, *port),
{
    match port {
        Some(p) => round(round(h, 1), *p as u64),
        None => round(h, 0),
    }
}

fn hash_template(h: u64, template: &Option<EmailTemplate>) -> (r: u64)
    ensures
        r == absorb_template(h, *template),
{
    match template {
        Some(t) => hash_optional(hash_optional(round(h, 1), &t.subject), &t.body),
        None => round(h, 0),
    }
}

fn hash_email(h: u64, email: &EmailConfig) -> (r: u64)
    ensures
        r == absorb_email(h, *email),
{
    let h = hash_optional(h, &email.smtp_host);
    let h = hash_port(h, &email.smtp_port);
    let h = hash_optional(h, &email.smtp_username);
    let h = hash_optional(h, &email.smtp_password);
    let h = hash_optional(h, &email.sender_address);
    let h = hash_optional(h, &email.sender_name);
    let h = hash_template(h, &email.user_verification_template);
    let h = hash_template(h, &email.password_reset_template);
    hash_template(h, &email.change_email_template)
}

impl Configuration {
    /// The content hash of the configuration.
    pub fn hash(&self) -> (r: u64)
        ensures
            r == content_hash(*self),
    {
        let h = hash_optional(FNV_OFFSET, &self.server.application_name);
        let h = hash_optional(h, &self.server.site_url);
        let h = hash_email(h, &self.email);
        let mut state = round(h, self.record_apis.len() as u64);
        let ghost start = state;
        let mut i: usize = 0;
        while i < self.record_apis.len()
            invariant
                0 <= i <= self.record_apis@.len(),
                state == absorb_apis(start, self.record_apis@.subrange(0, i as int)),
            decreases self.record_apis@.len() - i,
        {
            assert(self.record_apis@.subrange(0, i + 1).drop_last() =~= self.record_apis@.subrange(
                0,
                i as int,
            ));
            let api = &self.record_apis[i];
            state = hash_optional(hash_text(state, api.name.as_str()), &api.table_name);
            i += 1;
        }
        assert(self.record_apis@.subrange(0, i as int) =~= self.record_apis@);
        proof {
            reveal(content_hash);
        }
        state
    }
}

} // verus!
