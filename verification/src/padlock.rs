//! The crypto box: one AES-256-GCM key for sealing message bodies and one
//! independent HMAC-SHA256 key for tagging their plaintext.
//!
//! A sealed body travels as `nonce ‖ encrypted bytes ‖ tag`. The MAC is taken
//! over the plaintext, so that a body which opens but is not what was sent is
//! still noticed.

use crate::errors::{fails_internally, AppError, AppResult};
use crate::primitives::{
    aead_open, aead_seal, hmac_sign, hmac_tag, hmac_verify, open_in_place, random_bytes,
    seal_in_place_append_tag, AEAD_MAX_INPUT, KEY_LEN, MAC_LEN, MAC_MAX_INPUT, NONCE_LEN, TAG_LEN,
};
use vstd::prelude::*;

verus! {

/// The ciphertext of `plaintext` under `key` and `nonce`: the nonce followed
/// by the sealed bytes, or nothing where the cipher refuses.
pub open spec fn envelope_seal(key: Seq<u8>, nonce: Seq<u8>, plaintext: Seq<u8>) -> Option<
    Seq<u8>,
> {
    match aead_seal(key, nonce, plaintext) {
        Some(body) => Some(nonce + body),
        None => None,
    }
}

/// The plaintext that `ciphertext` opens to under `key`: nothing if it is too
/// short to hold a nonce and a tag, else whatever the cipher makes of the
/// bytes after the nonce.
pub open spec fn envelope_open(key: Seq<u8>, ciphertext: Seq<u8>) -> Option<Seq<u8>> {
    if ciphertext.len() < NONCE_LEN + TAG_LEN {
        None
    } else {
        aead_open(
            key,
            ciphertext.subrange(0, NONCE_LEN as int),
            ciphertext.subrange(NONCE_LEN as int, ciphertext.len() as int),
        )
    }
}

/// Holds the two secret keys. They are set once, at construction, and are
/// never handed out.
pub struct Padlock {
    encryption_key: Vec<u8>,
    hmac_key: Vec<u8>,
}

impl Padlock {
    #[verifier::type_invariant]
    spec fn keys_sized(&self) -> bool {
        &&& self.encryption_key@.len() == KEY_LEN
        &&& self.hmac_key@.len() == KEY_LEN
    }

    /// The sealing key.
    pub closed spec fn aead_key(&self) -> Seq<u8> {
        self.encryption_key@
    }

    /// The tagging key.
    pub closed spec fn mac_key(&self) -> Seq<u8> {
        self.hmac_key@
    }

    /// What `encrypt` yields when the nonce drawn is `nonce`.
    pub open spec fn spec_encrypt(&self, nonce: Seq<u8>, plaintext: Seq<u8>) -> Option<Seq<u8>> {
        envelope_seal(self.aead_key(), nonce, plaintext)
    }

    /// What `decrypt` yields.
    pub open spec fn spec_decrypt(&self, ciphertext: Seq<u8>) -> Option<Seq<u8>> {
        envelope_open(self.aead_key(), ciphertext)
    }

    /// What `encrypt` promises of a ciphertext that it returns for
    /// `plaintext`: it is a nonce followed by what the cipher makes of the
    /// plaintext under that nonce, and it opens to the plaintext.
    pub open spec fn encrypts(&self, plaintext: Seq<u8>, ciphertext: Seq<u8>) -> bool {
        &&& ciphertext.len() == NONCE_LEN + plaintext.len() + TAG_LEN
        &&& self.spec_encrypt(ciphertext.subrange(0, NONCE_LEN as int), plaintext) == Some(
            ciphertext,
        )
        &&& self.spec_decrypt(ciphertext) == Some(plaintext)
    }

    /// What `compute_hmac` yields.
    pub open spec fn spec_hmac(&self, data: Seq<u8>) -> Seq<u8> {
        hmac_tag(self.mac_key(), data)
    }

    /// What `verify_hmac` yields.
    pub open spec fn spec_verify(&self, data: Seq<u8>, tag: Seq<u8>) -> bool {
        tag == self.spec_hmac(data)
    }

    /// A padlock with two fresh 256-bit keys from the system's random source.
    pub fn new() -> (made: AppResult<Padlock>)
        ensures
            made matches Ok(p) ==> p.aead_key().len() == KEY_LEN && p.mac_key().len() == KEY_LEN,
            made is Err ==> fails_internally(made, "Random source failed"@),
    {
        let encryption_key = match random_bytes(KEY_LEN) {
            Ok(bytes) => bytes,
            Err(_) => {
                return Err(AppError::internal("Random source failed"));
            },
        };
        let hmac_key = match random_bytes(KEY_LEN) {
            Ok(bytes) => bytes,
            Err(_) => {
                return Err(AppError::internal("Random source failed"));
            },
        };
        Padlock::with_keys(encryption_key, hmac_key)
    }

    /// A padlock over the given key material, which must be 32 bytes each.
    pub fn with_keys(encryption_key: Vec<u8>, hmac_key: Vec<u8>) -> (made: AppResult<Padlock>)
        ensures
            encryption_key@.len() == KEY_LEN && hmac_key@.len() == KEY_LEN ==> (made matches Ok(p)
                && p.aead_key() == encryption_key@ && p.mac_key() == hmac_key@),
            encryption_key@.len() != KEY_LEN || hmac_key@.len() != KEY_LEN ==> fails_internally(
                made,
                "Key material has the wrong length"@,
            ),
    {
        if encryption_key.len() == KEY_LEN && hmac_key.len() == KEY_LEN {
            Ok(Padlock { encryption_key, hmac_key })
        } else {
            Err(AppError::internal("Key material has the wrong length"))
        }
    }

    /// Seals `plaintext` under a fresh random nonce and returns
    /// `nonce ‖ sealed bytes`.
    ///
    /// Whatever nonce was drawn, the result opens to `plaintext` again.
    pub fn encrypt(&self, plaintext: &[u8]) -> (sealed: AppResult<Vec<u8>>)
        ensures
            sealed matches Ok(c) ==> self.encrypts(plaintext@, c@),
            sealed is Ok ==> plaintext@.len() <= AEAD_MAX_INPUT,
            sealed is Err ==> fails_internally(sealed, "Random source failed"@) || fails_internally(
                sealed,
                "Encryption failed"@,
            ),
    {
        match random_bytes(NONCE_LEN) {
            Ok(nonce) => {
                self.seal_with_nonce(nonce, plaintext)
            },
            Err(_) => Err(AppError::internal("Random source failed")),
        }
    }

    /// Seals `plaintext` under the given nonce and returns
    /// `nonce ‖ sealed bytes`.
    ///
    /// A nonce must never be used twice with one padlock; `encrypt` draws a
    /// random one.
    pub fn seal_with_nonce(&self, nonce: Vec<u8>, plaintext: &[u8]) -> (sealed: AppResult<Vec<u8>>)
        ensures
            nonce@.len() == NONCE_LEN && self.spec_encrypt(nonce@, plaintext@) is Some ==> (
            sealed matches Ok(c) && Some(c@) == self.spec_encrypt(nonce@, plaintext@)),
            nonce@.len() == NONCE_LEN && self.spec_encrypt(nonce@, plaintext@) is None
                ==> fails_internally(sealed, "Encryption failed"@),
            nonce@.len() != NONCE_LEN ==> fails_internally(sealed, "Nonce has the wrong length"@),
            sealed matches Ok(c) ==> self.encrypts(plaintext@, c@),
            sealed is Ok ==> plaintext@.len() <= AEAD_MAX_INPUT,
    {
        proof {
            use_type_invariant(self);
        }
        if nonce.len() != NONCE_LEN {
            return Err(AppError::internal("Nonce has the wrong length"));
        }
        let key = self.encryption_key.as_slice();
        match seal_in_place_append_tag(key, nonce.as_slice(), plaintext) {
            Ok(body) => {
                let ghost body_bytes = body@;
                let mut body = body;
                let mut ciphertext = nonce;
                ciphertext.append(&mut body);
                proof {
                    let c = ciphertext@;
                    assert(c.subrange(0, NONCE_LEN as int) =~= nonce@);
                    assert(c.subrange(NONCE_LEN as int, c.len() as int) =~= body_bytes);
                }
                Ok(ciphertext)
            },
            Err(_) => Err(AppError::internal("Encryption failed")),
        }
    }

    /// Opens `nonce ‖ sealed bytes`. Returns nothing if the input is too short
    /// or does not authenticate under this padlock's key.
    pub fn decrypt(&self, ciphertext: &[u8]) -> (plain: Option<Vec<u8>>)
        ensures
            plain matches Some(p) ==> self.spec_decrypt(ciphertext@) == Some(p@),
            plain is None ==> self.spec_decrypt(ciphertext@) is None,
            plain matches Some(p) ==> p@.len() + NONCE_LEN + TAG_LEN == ciphertext@.len(),
            plain matches Some(p) ==> p@.len() <= AEAD_MAX_INPUT,
    {
        proof {
            use_type_invariant(self);
        }
        if ciphertext.len() < NONCE_LEN + TAG_LEN {
            return None;
        }
        let (nonce, body) = ciphertext.split_at(NONCE_LEN);
        match open_in_place(self.encryption_key.as_slice(), nonce, body) {
            Ok(plaintext) => Some(plaintext),
            Err(_) => None,
        }
    }

    /// The HMAC-SHA256 tag of `data` under the tagging key.
    pub fn compute_hmac(&self, data: &[u8]) -> (tag: Vec<u8>)
        requires
            data@.len() <= MAC_MAX_INPUT,
        ensures
            tag@ == self.spec_hmac(data@),
            tag@.len() == MAC_LEN,
    {
        proof {
            use_type_invariant(self);
        }
        hmac_sign(self.hmac_key.as_slice(), data)
    }

    /// Whether `expected_tag` is the tag of `data`, compared in constant time.
    pub fn verify_hmac(&self, data: &[u8], expected_tag: &[u8]) -> (ok: bool)
        requires
            data@.len() <= MAC_MAX_INPUT,
        ensures
            ok == self.spec_verify(data@, expected_tag@),
    {
        proof {
            use_type_invariant(self);
        }
        hmac_verify(self.hmac_key.as_slice(), data, expected_tag)
    }

    /// Decrypting what `encrypt` returned for a plaintext gives that plaintext
    /// back. This rests on what is taken on trust of the cipher: that opening
    /// undoes sealing.
    pub proof fn lemma_decrypt_undoes_encrypt(self, plaintext: Seq<u8>, ciphertext: Seq<u8>)
        requires
            self.encrypts(plaintext, ciphertext),
        ensures
            self.spec_decrypt(ciphertext) == Some(plaintext),
    {
    }

    /// The tag computed for some data verifies against that data.
    pub proof fn lemma_own_tag_verifies(self, data: Seq<u8>)
        ensures
            self.spec_verify(data, self.spec_hmac(data)),
    {
    }

    /// A tag computed for one input verifies against another input exactly
    /// when both inputs have the same tag.
    pub proof fn lemma_foreign_tag_verifies_only_on_collision(
        self,
        signed: Seq<u8>,
        checked: Seq<u8>,
    )
        ensures
            self.spec_verify(checked, self.spec_hmac(signed)) <==> self.spec_hmac(signed)
                == self.spec_hmac(checked),
    {
    }

    /// A ciphertext shorter than a nonce and a tag opens to nothing.
    pub proof fn lemma_short_ciphertext_is_rejected(self, ciphertext: Seq<u8>)
        requires
            ciphertext.len() < NONCE_LEN + TAG_LEN,
        ensures
            self.spec_decrypt(ciphertext) is None,
    {
    }
}

} // verus!
