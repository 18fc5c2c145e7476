//! The TLV area that follows a firmware image.
//!
//! The size of the area is recorded in the image header, and the header is
//! covered by the hash and the signature. So generation has two phases: a
//! generator is configured first, which fixes the flags and the exact size of
//! the area; then the covered bytes are appended, and the generator is
//! consumed to produce the records. Signatures are given their largest
//! possible size so that the size known up front never changes.

use vstd::prelude::*;
use crate::crypto::{
    MAX_DIGEST_INPUT, sha256_of, sha256, pem_parse, pem_tag, pem_into_contents,
    rsa_key_from_der, rsa_modulus_len, system_random, rsa_pss_sign,
};

verus! {

/// Header flag: the image is position independent.
pub const FLAG_PIC: u32 = 0x000001;
/// Header flag: a SHA-256 record is present.
pub const FLAG_SHA256: u32 = 0x000002;
/// Header flag: a PKCS#1 v1.5 RSA-2048 / SHA-256 signature is present.
pub const FLAG_PKCS15_RSA2048_SHA256: u32 = 0x000004;
/// Header flag: an ECDSA P-224 / SHA-256 signature is present.
pub const FLAG_ECDSA224_SHA256: u32 = 0x000008;
/// Header flag: the image is not bootable.
pub const FLAG_NON_BOOTABLE: u32 = 0x000010;
/// Header flag: an ECDSA P-256 / SHA-256 signature is present.
pub const FLAG_ECDSA256_SHA256: u32 = 0x000020;
/// Header flag: a PKCS#1 PSS RSA-2048 / SHA-256 signature is present.
pub const FLAG_PKCS1_PSS_RSA2048_SHA256: u32 = 0x000040;

/// Length of a SHA-256 digest.
pub const HASH_LEN: usize = 32;
/// Length of an RSA-2048 signature.
pub const RSA2048_SIG_LEN: usize = 256;

/// The kinds of record; each has a fixed tag known to the bootloader.
#[derive(Copy, Clone, Debug, PartialEq, Eq, Structural)]
pub enum TlvKinds {
    SHA256,
    RSA2048,
    ECDSA224,
    ECDSA256,
}

/// The failures of configuration and generation.
#[derive(Copy, Clone, Debug, PartialEq, Eq, Structural)]
pub enum TlvError {
    /// The requested protection scheme is not supported.
    ConfigurationError,
    /// The key is not a PEM `RSA PRIVATE KEY` block holding a valid RSA key.
    KeyLoadError,
    /// The signing primitive failed.
    SigningError,
    /// A digest or signature does not have the length promised by the size.
    InvariantViolation,
}

/// The tag byte of a kind of record.
pub open spec fn kind_tag(k: TlvKinds) -> u8 {
    match k {
        TlvKinds::SHA256 => 1,
        TlvKinds::RSA2048 => 2,
        TlvKinds::ECDSA224 => 3,
        TlvKinds::ECDSA256 => 4,
    }
}

impl TlvKinds {
    /// The tag byte written at the start of a record of this kind.
    pub fn tag(&self) -> (r: u8)
        ensures
            r == kind_tag(*self),
    {
        match self {
            TlvKinds::SHA256 => 1,
            TlvKinds::RSA2048 => 2,
            TlvKinds::ECDSA224 => 3,
            TlvKinds::ECDSA256 => 4,
        }
    }
}

/// A 16-bit length, little-endian.
pub open spec fn le16(n: nat) -> Seq<u8> {
    seq![(n % 256) as u8, (n / 256 % 256) as u8]
}

/// One record: tag, a zero byte, the payload length (little-endian), payload.
pub open spec fn record(tag: u8, payload: Seq<u8>) -> Seq<u8> {
    seq![tag, 0u8] + le16(payload.len()) + payload
}

/// Whether a list of kinds asks for a hash record.
pub open spec fn has_hash(kinds: Seq<TlvKinds>) -> bool {
    kinds.contains(TlvKinds::SHA256)
}

/// Whether a list of kinds asks for a signature record.
pub open spec fn has_signature(kinds: Seq<TlvKinds>) -> bool {
    kinds.contains(TlvKinds::RSA2048)
}

/// The TLV area for the given kinds, digest and signature: the hash record
/// first, then the signature record, each only where its kind is configured.
pub open spec fn tlv_bytes(kinds: Seq<TlvKinds>, hash: Seq<u8>, sig: Seq<u8>) -> Seq<u8> {
    (if has_hash(kinds) { record(kind_tag(TlvKinds::SHA256), hash) } else { Seq::empty() })
        + (if has_signature(kinds) { record(kind_tag(TlvKinds::RSA2048), sig) } else { Seq::empty() })
}

/// Appends one record to `out`.
pub fn push_record(out: &mut Vec<u8>, kind: TlvKinds, payload: &[u8])
    requires
        payload@.len() <= 0xffff,
    ensures
        final(out)@ == old(out)@ + record(kind_tag(kind), payload@),
{
    let len = payload.len();
    out.push(kind.tag());
    out.push(0);
    out.push((len & 0xff) as u8);
    out.push(((len >> 8) & 0xff) as u8);
    assert((len & 0xff) == len % 256 && ((len >> 8) & 0xff) == len / 256 % 256) by (bit_vector);
    let ghost before = out@;
    let mut i: usize = 0;
    while i < len
        invariant
            len == payload@.len(),
            i <= len,
            out@ == before + payload@.subrange(0, i as int),
        decreases len - i,
    {
        out.push(payload[i]);
        i += 1;
        assert(out@ =~= before + payload@.subrange(0, i as int));
    }
    assert(payload@.subrange(0, len as int) =~= payload@);
    assert(out@ =~= old(out)@ + record(kind_tag(kind), payload@));
}

/// What a generator holds: the header flags, the kinds of record in the
/// order they are emitted, the size of the area, and the covered bytes.
pub ghost struct TlvGenView {
    pub flags: u32,
    pub kinds: Seq<TlvKinds>,
    pub size: nat,
    pub payload: Seq<u8>,
}

/// A generator that emits only a SHA-256 record.
pub open spec fn hash_only_config(payload: Seq<u8>) -> TlvGenView {
    TlvGenView {
        flags: FLAG_SHA256,
        kinds: seq![TlvKinds::SHA256],
        size: 4 + 32,
        payload,
    }
}

/// A generator that emits a SHA-256 record and an RSA-2048 PSS signature.
pub open spec fn rsa_pss_config(payload: Seq<u8>) -> TlvGenView {
    TlvGenView {
        flags: (FLAG_SHA256 | FLAG_PKCS1_PSS_RSA2048_SHA256),
        kinds: seq![TlvKinds::SHA256, TlvKinds::RSA2048],
        size: 4 + 32 + 4 + 256,
        payload,
    }
}

/// The supported configurations.
pub open spec fn configured(v: TlvGenView) -> bool {
    v == hash_only_config(v.payload) || v == rsa_pss_config(v.payload)
}

/// The generator a header-flags value selects, if it names a supported scheme.
pub open spec fn resolved(flags: u32) -> Option<TlvGenView> {
    if flags == FLAG_SHA256 {
        Some(hash_only_config(Seq::empty()))
    } else if flags == (FLAG_SHA256 | FLAG_PKCS1_PSS_RSA2048_SHA256) {
        Some(rsa_pss_config(Seq::empty()))
    } else {
        None
    }
}

/// Whether `out` is a TLV area that a generator in state `v` may produce: the
/// SHA-256 digest of the covered bytes and, where configured, some 256-byte
/// signature (PSS signatures are randomized).
pub open spec fn tlv_output(v: TlvGenView, out: Seq<u8>) -> bool {
    sha256_of(v.payload).len() == 32 && exists|sig: Seq<u8>|
        sig.len() == 256 && out == #[trigger] tlv_bytes(v.kinds, sha256_of(v.payload), sig)
}

/// Builds the TLV area that follows an image: configured once, fed the covered
/// bytes (header, then body), and consumed to produce the records.
pub struct TlvGen {
    flags: u32,
    kinds: Vec<TlvKinds>,
    size: u16,
    payload: Vec<u8>,
}

impl View for TlvGen {
    type V = TlvGenView;

    closed spec fn view(&self) -> TlvGenView {
        TlvGenView {
            flags: self.flags,
            kinds: self.kinds@,
            size: self.size as nat,
            payload: self.payload@,
        }
    }
}

impl TlvGen {
    /// Whether the generator holds one of the supported configurations.
    pub open spec fn wf(&self) -> bool {
        configured(self@)
    }

    /// Construct a new tlv generator that will only contain a hash of the data.
    pub fn new_hash_only() -> (r: TlvGen)
        ensures
            r@ == hash_only_config(Seq::empty()),
            r.wf(),
    {
        let r = TlvGen {
            flags: FLAG_SHA256,
            kinds: vec![TlvKinds::SHA256],
            size: 4 + 32,
            payload: Vec::new(),
        };
        assert(r@.kinds =~= seq![TlvKinds::SHA256]);
        assert(r@.payload =~= Seq::<u8>::empty());
        r
    }

    /// Construct a new tlv generator that will contain a hash of the data
    /// followed by an RSA-2048 PSS signature of it.
    pub fn new_rsa_pss() -> (r: TlvGen)
        ensures
            r@ == rsa_pss_config(Seq::empty()),
            r.wf(),
    {
        let r = TlvGen {
            flags: FLAG_SHA256 | FLAG_PKCS1_PSS_RSA2048_SHA256,
            kinds: vec![TlvKinds::SHA256, TlvKinds::RSA2048],
            size: 4 + 32 + 4 + 256,
            payload: Vec::new(),
        };
        assert(r@.kinds =~= seq![TlvKinds::SHA256, TlvKinds::RSA2048]);
        assert(r@.payload =~= Seq::<u8>::empty());
        r
    }

    /// Construct the generator for the scheme that a header-flags value names:
    /// `FLAG_SHA256` alone, or together with `FLAG_PKCS1_PSS_RSA2048_SHA256`.
    /// Any other value is an unsupported scheme.
    pub fn resolve(flags: u32) -> (r: Result<TlvGen, TlvError>)
        ensures
            match r {
                Ok(g) => resolved(flags) == Some(g@),
                Err(e) => resolved(flags) is None && e == TlvError::ConfigurationError,
            },
    {
        if flags == FLAG_SHA256 {
            Ok(TlvGen::new_hash_only())
        } else if flags == (FLAG_SHA256 | FLAG_PKCS1_PSS_RSA2048_SHA256) {
            Ok(TlvGen::new_rsa_pss())
        } else {
            Err(TlvError::ConfigurationError)
        }
    }

    /// Retrieve the header flags for this configuration.  This can be called at any time.
    pub fn get_flags(&self) -> (r: u32)
        ensures
            r == self@.flags,
    {
        self.flags
    }

    /// Retrieve the size that the TLV will occupy.  This can be called at any time.
    pub fn get_size(&self) -> (r: u16)
        ensures
            r as nat == self@.size,
    {
        self.size
    }

    /// Add bytes to the covered hash.
    pub fn add_bytes(&mut self, bytes: &[u8])
        ensures
            final(self)@ == (TlvGenView { payload: old(self)@.payload + bytes@, ..old(self)@ }),
            old(self).wf() ==> final(self).wf(),
    {
        let ghost before = self.payload@;
        let mut i: usize = 0;
        while i < bytes.len()
            invariant
                i <= bytes@.len(),
                self.payload@ == before + bytes@.subrange(0, i as int),
                self.flags == old(self).flags,
                self.kinds@ == old(self).kinds@,
                self.size == old(self).size,
            decreases bytes@.len() - i,
        {
            self.payload.push(bytes[i]);
            i += 1;
            assert(self.payload@ =~= before + bytes@.subrange(0, i as int));
        }
        assert(bytes@.subrange(0, bytes@.len() as int) =~= bytes@);
    }

    /// Whether `kind` is among the configured kinds.
    fn has_kind(&self, kind: TlvKinds) -> (r: bool)
        ensures
            r == self@.kinds.contains(kind),
    {
        let mut i: usize = 0;
        while i < self.kinds.len()
            invariant
                i <= self.kinds@.len(),
                forall|j: int| 0 <= j < i ==> self.kinds@[j] != kind,
            decreases self.kinds@.len() - i,
        {
            if self.kinds[i] == kind {
                return true;
            }
            i += 1;
        }
        false
    }

    /// Serializes the records of this configuration from a computed digest and
    /// signature (the signature is ignored where none is configured). Fails
    /// when either does not have the length that the size was computed from.
    pub fn build_tlv(&self, hash: &[u8], sig: &[u8]) -> (r: Result<Vec<u8>, TlvError>)
        requires
            self.wf(),
        ensures
            r is Ok <==> hash@.len() == HASH_LEN
                && (has_signature(self@.kinds) ==> sig@.len() == RSA2048_SIG_LEN),
            r matches Ok(out) ==> out@ == tlv_bytes(self@.kinds, hash@, sig@),
            r matches Err(e) ==> e == TlvError::InvariantViolation,
    {
        let mut out: Vec<u8> = Vec::new();
        if self.has_kind(TlvKinds::SHA256) {
            if hash.len() != HASH_LEN {
                return Err(TlvError::InvariantViolation);
            }
            push_record(&mut out, TlvKinds::SHA256, hash);
        }
        if self.has_kind(TlvKinds::RSA2048) {
            if sig.len() != RSA2048_SIG_LEN {
                return Err(TlvError::InvariantViolation);
            }
            push_record(&mut out, TlvKinds::RSA2048, sig);
        }
        proof {
            lemma_configured_kinds(self@);
        }
        assert(out@ =~= tlv_bytes(self@.kinds, hash@, sig@));
        Ok(out)
    }

    /// Compute the TLV area over the covered bytes: the SHA-256 record, then,
    /// where configured, an RSA-2048 PSS signature made with the key in
    /// `key_pem`, a PEM `RSA PRIVATE KEY` block. The key is read only where a
    /// signature is configured, so a hash-only generator always succeeds.
    pub fn make_tlv(self, key_pem: &[u8]) -> (r: Result<Vec<u8>, TlvError>)
        requires
            self.wf(),
            self@.payload.len() <= MAX_DIGEST_INPUT,
        ensures
            r matches Ok(out) ==> tlv_output(self@, out@) && out@.len() == self@.size,
            r matches Err(e) ==> has_signature(self@.kinds) && (e == TlvError::KeyLoadError
                || e == TlvError::SigningError || e == TlvError::InvariantViolation),
    {
        let hash = sha256(self.payload.as_slice());
        let sig = if self.has_kind(TlvKinds::RSA2048) {
            rsa_pss_signature(key_pem, self.payload.as_slice())?
        } else {
            Vec::new()
        };
        proof {
            lemma_configured_kinds(self@);
        }
        let r = self.build_tlv(hash.as_slice(), sig.as_slice());
        proof {
            if r is Ok {
                let w = if has_signature(self@.kinds) { sig@ } else { Seq::new(256, |i: int| 0u8) };
                lemma_tlv_len(self@.kinds, hash@, w);
                assert(tlv_bytes(self@.kinds, sha256_of(self@.payload), w) == r->Ok_0@);
            }
        }
        r
    }
}

/// The DER key inside a decoded PEM block, which must be labelled
/// `RSA PRIVATE KEY`.
pub fn rsa_key_der(tag: &String, contents: Vec<u8>) -> (r: Result<Vec<u8>, TlvError>)
    ensures
        r == if tag@ == "RSA PRIVATE KEY"@ {
            Ok::<Vec<u8>, TlvError>(contents)
        } else {
            Err(TlvError::KeyLoadError)
        },
{
    let expected = String::from_str("RSA PRIVATE KEY");
    if *tag == expected {
        Ok(contents)
    } else {
        Err(TlvError::KeyLoadError)
    }
}

/// Signs `msg` with RSA-2048 PSS / SHA-256 under the PEM-encoded key. The
/// signature is exactly 256 bytes; a key of another size is refused.
fn rsa_pss_signature(key_pem: &[u8], msg: &[u8]) -> (r: Result<Vec<u8>, TlvError>)
    requires
        msg@.len() <= MAX_DIGEST_INPUT,
    ensures
        r matches Ok(sig) ==> sig@.len() == RSA2048_SIG_LEN,
        r matches Err(e) ==> e == TlvError::KeyLoadError || e == TlvError::SigningError
            || e == TlvError::InvariantViolation,
{
    let block = match pem_parse(key_pem) {
        Ok(b) => b,
        Err(_) => return Err(TlvError::KeyLoadError),
    };
    let tag = pem_tag(&block);
    let der = rsa_key_der(&tag, pem_into_contents(block))?;
    let key = match rsa_key_from_der(der.as_slice()) {
        Ok(k) => k,
        Err(_) => return Err(TlvError::KeyLoadError),
    };
    if rsa_modulus_len(&key) != RSA2048_SIG_LEN {
        return Err(TlvError::InvariantViolation);
    }
    let rng = system_random();
    let mut sig = vec![0u8; RSA2048_SIG_LEN];
    match rsa_pss_sign(&key, &rng, msg, &mut sig) {
        Ok(()) => Ok(sig),
        Err(_) => Err(TlvError::SigningError),
    }
}

/// The kinds of a supported configuration: a hash always, a signature exactly
/// in the RSA-PSS one.
proof fn lemma_configured_kinds(v: TlvGenView)
    requires
        configured(v),
    ensures
        has_hash(v.kinds),
        has_signature(v.kinds) <==> v == rsa_pss_config(v.payload),
{
    assert(v.kinds[0] == TlvKinds::SHA256);
    if v == rsa_pss_config(v.payload) {
        assert(v.kinds[1] == TlvKinds::RSA2048);
    } else {
        assert(v.kinds.len() == 1);
        assert(!v.kinds.contains(TlvKinds::RSA2048));
    }
}

/// Length of a TLV area built from payloads of the promised lengths.
proof fn lemma_tlv_len(kinds: Seq<TlvKinds>, hash: Seq<u8>, sig: Seq<u8>)
    requires
        hash.len() == 32,
        sig.len() == 256,
    ensures
        tlv_bytes(kinds, hash, sig).len() == (if has_hash(kinds) { 36nat } else { 0nat }) + (
        if has_signature(kinds) { 260nat } else { 0nat }),
{
}

/// The size fixed when a scheme is resolved is the exact length of the TLV
/// area produced after any covered bytes have been appended.
pub proof fn lemma_resolved_size_is_exact(flags: u32, payload: Seq<u8>, out: Seq<u8>)
    requires
        resolved(flags) is Some,
        tlv_output(TlvGenView { payload, ..resolved(flags)->Some_0 }, out),
    ensures
        out.len() == resolved(flags)->Some_0.size,
{
    let v = TlvGenView { payload, ..resolved(flags)->Some_0 };
    lemma_output_layout(v, out);
}

/// The layout of every TLV area a supported configuration produces: the hash
/// record, over the digest of the covered bytes, comes first; the signature
/// record, a 256-byte payload, follows exactly where one is configured; and
/// the whole has the configured size.
pub proof fn lemma_output_layout(v: TlvGenView, out: Seq<u8>)
    requires
        configured(v),
        tlv_output(v, out),
    ensures
        out.len() == v.size,
        out.subrange(0, 36) == record(kind_tag(TlvKinds::SHA256), sha256_of(v.payload)),
        has_signature(v.kinds) ==> out[36] == kind_tag(TlvKinds::RSA2048) && out[37] == 0
            && out.subrange(38, 40) == le16(256),
        !has_signature(v.kinds) ==> out.len() == 36,
{
    let sig = choose|sig: Seq<u8>|
        sig.len() == 256 && out == #[trigger] tlv_bytes(v.kinds, sha256_of(v.payload), sig);
    lemma_configured_kinds(v);
    lemma_tlv_len(v.kinds, sha256_of(v.payload), sig);
    assert(out.subrange(0, 36) =~= record(kind_tag(TlvKinds::SHA256), sha256_of(v.payload)));
    if has_signature(v.kinds) {
        assert(out.subrange(38, 40) =~= le16(256));
    }
}

/// Hashing is deterministic: two generators with the same configuration and
/// the same covered bytes produce the same hash record.
pub proof fn lemma_hash_record_deterministic(a: TlvGenView, b: TlvGenView, out_a: Seq<u8>, out_b: Seq<u8>)
    requires
        configured(a),
        configured(b),
        a.payload == b.payload,
        tlv_output(a, out_a),
        tlv_output(b, out_b),
    ensures
        out_a.subrange(0, 36) == out_b.subrange(0, 36),
{
    lemma_output_layout(a, out_a);
    lemma_output_layout(b, out_b);
}

/// A verifier that recomputes SHA-256 over the covered bytes finds exactly the
/// payload of the hash record.
pub proof fn lemma_hash_payload_matches(v: TlvGenView, out: Seq<u8>)
    requires
        configured(v),
        tlv_output(v, out),
    ensures
        out.subrange(4, 36) == sha256_of(v.payload),
{
    lemma_output_layout(v, out);
    assert(out.subrange(4, 36) =~= out.subrange(0, 36).subrange(4, 36));
    assert(record(kind_tag(TlvKinds::SHA256), sha256_of(v.payload)).subrange(4, 36)
        =~= sha256_of(v.payload));
}

} // verus!
