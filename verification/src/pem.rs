//! Certificate and key material parsing.
//!
//! A PEM buffer is modelled as the sequence of recognised blocks the decoder
//! yields, in file order, together with a flag saying whether the whole
//! buffer was consumed without a framing error. Certificate parsing collects
//! every certificate block; key parsing selects the first block of a
//! supported private-key encoding.
use vstd::prelude::*;

use crate::error::TlsError;

verus! {

/// One recognised PEM block, holding its decoded DER contents.
pub enum PemBlock {
    /// An X.509 certificate block.
    Certificate(Vec<u8>),
    /// A PKCS#1 (RSA) private-key block.
    Pkcs1Key(Vec<u8>),
    /// A PKCS#8 private-key block.
    Pkcs8Key(Vec<u8>),
    /// A SEC1 (EC) private-key block.
    Sec1Key(Vec<u8>),
    /// Any other recognised block kind (public key, CRL, CSR).
    Other,
}

/// The mathematical model of one PEM block.
pub enum PemEntry {
    Certificate(Seq<u8>),
    Pkcs1Key(Seq<u8>),
    Pkcs8Key(Seq<u8>),
    Sec1Key(Seq<u8>),
    Other,
}

impl View for PemBlock {
    type V = PemEntry;

    open spec fn view(&self) -> PemEntry {
        match self {
            PemBlock::Certificate(der) => PemEntry::Certificate(der@),
            PemBlock::Pkcs1Key(der) => PemEntry::Pkcs1Key(der@),
            PemBlock::Pkcs8Key(der) => PemEntry::Pkcs8Key(der@),
            PemBlock::Sec1Key(der) => PemEntry::Sec1Key(der@),
            PemBlock::Other => PemEntry::Other,
        }
    }
}

impl DeepView for PemBlock {
    type V = PemEntry;

    open spec fn deep_view(&self) -> PemEntry {
        self.view()
    }
}

/// A private key as an opaque DER buffer tagged with its encoding.
pub enum PrivateKey {
    Pkcs1(Vec<u8>),
    Pkcs8(Vec<u8>),
    Sec1(Vec<u8>),
}

/// The mathematical model of a private key.
pub enum KeyDer {
    Pkcs1(Seq<u8>),
    Pkcs8(Seq<u8>),
    Sec1(Seq<u8>),
}

impl View for PrivateKey {
    type V = KeyDer;

    open spec fn view(&self) -> KeyDer {
        match self {
            PrivateKey::Pkcs1(der) => KeyDer::Pkcs1(der@),
            PrivateKey::Pkcs8(der) => KeyDer::Pkcs8(der@),
            PrivateKey::Sec1(der) => KeyDer::Sec1(der@),
        }
    }
}

impl Clone for PrivateKey {
    /// Cloning duplicates the key material; no buffer is shared.
    fn clone(&self) -> (r: Self)
        ensures
            r@ == self@,
    {
        match self {
            PrivateKey::Pkcs1(der) => PrivateKey::Pkcs1(clone_bytes(der)),
            PrivateKey::Pkcs8(der) => PrivateKey::Pkcs8(clone_bytes(der)),
            PrivateKey::Sec1(der) => PrivateKey::Sec1(clone_bytes(der)),
        }
    }
}

/// Copies a byte buffer.
pub(crate) fn clone_bytes(v: &Vec<u8>) -> (r: Vec<u8>)
    ensures
        r@ == v@,
{
    let mut r: Vec<u8> = Vec::new();
    let mut i: usize = 0;
    while i < v.len()
        invariant
            i <= v.len(),
            r@ == v@.take(i as int),
        decreases v.len() - i,
    {
        r.push(v[i]);
        proof {
            assert(v@.take(i + 1 as int) =~= v@.take(i as int).push(v@[i as int]));
        }
        i = i + 1;
    }
    proof {
        assert(v@.take(v@.len() as int) =~= v@);
    }
    r
}

pub open spec fn is_cert_entry(e: PemEntry) -> bool {
    e is Certificate
}

pub open spec fn is_key_entry(e: PemEntry) -> bool {
    ||| e is Pkcs1Key
    ||| e is Pkcs8Key
    ||| e is Sec1Key
}

/// The key described by a key entry.
pub open spec fn entry_key(e: PemEntry) -> KeyDer
    recommends
        is_key_entry(e),
{
    match e {
        PemEntry::Pkcs1Key(der) => KeyDer::Pkcs1(der),
        PemEntry::Pkcs8Key(der) => KeyDer::Pkcs8(der),
        PemEntry::Sec1Key(der) => KeyDer::Sec1(der),
        _ => KeyDer::Pkcs8(Seq::empty()),
    }
}

/// The DER contents of the certificate blocks among `items`, in order.
pub open spec fn cert_ders(items: Seq<PemEntry>) -> Seq<Seq<u8>>
    decreases items.len(),
{
    if items.len() == 0 {
        Seq::empty()
    } else {
        match items.last() {
            PemEntry::Certificate(der) => cert_ders(items.drop_last()).push(der),
            _ => cert_ders(items.drop_last()),
        }
    }
}

/// The first supported private key among `items`, if any.
pub open spec fn first_key(items: Seq<PemEntry>) -> Option<KeyDer>
    decreases items.len(),
{
    if items.len() == 0 {
        None
    } else if is_key_entry(items.first()) {
        Some(entry_key(items.first()))
    } else {
        first_key(items.drop_first())
    }
}

/// What certificate parsing yields from scanned blocks: all certificate
/// blocks in order, or an error when the framing was malformed or no
/// certificate block was present.
pub open spec fn certs_from(items: Seq<PemEntry>, well_formed: bool) -> Result<Seq<Seq<u8>>, TlsError> {
    if !well_formed {
        Err(TlsError::MalformedPem)
    } else if cert_ders(items).len() == 0 {
        Err(TlsError::NoCertificates)
    } else {
        Ok(cert_ders(items))
    }
}

/// What key parsing yields from scanned blocks: the first supported key, or
/// an error. A key found before a framing error still counts, because the
/// scan never reaches the malformed remainder.
pub open spec fn key_from(items: Seq<PemEntry>, well_formed: bool) -> Result<KeyDer, TlsError> {
    match first_key(items) {
        Some(k) => Ok(k),
        None => if well_formed {
            Err(TlsError::NoPrivateKey)
        } else {
            Err(TlsError::MalformedPem)
        },
    }
}

/// The certificate-parsing outcome for a raw PEM buffer.
pub open spec fn certs_outcome(bytes: Seq<u8>) -> Result<Seq<Seq<u8>>, TlsError> {
    certs_from(crate::engine::pem_scan(bytes).0, crate::engine::pem_scan(bytes).1)
}

/// The key-parsing outcome for a raw PEM buffer.
pub open spec fn key_outcome(bytes: Seq<u8>) -> Result<KeyDer, TlsError> {
    key_from(crate::engine::pem_scan(bytes).0, crate::engine::pem_scan(bytes).1)
}

/// Collects every certificate block of the PEM buffer, in file order.
/// Malformed framing is a hard parse failure; a well-formed buffer without a
/// certificate block is a data-validation failure.
pub fn parse_certificates(pem_bytes: &[u8]) -> (r: Result<Vec<Vec<u8>>, TlsError>)
    ensures
        match r {
            Ok(certs) => certs_outcome(pem_bytes@) == Ok::<Seq<Seq<u8>>, TlsError>(certs.deep_view())
                && certs.len() > 0,
            Err(e) => certs_outcome(pem_bytes@) == Err::<Seq<Seq<u8>>, TlsError>(e),
        },
{
    let (blocks, well_formed) = crate::engine::scan_pem(pem_bytes);
    if !well_formed {
        return Err(TlsError::MalformedPem);
    }
    let ghost items = crate::engine::pem_scan(pem_bytes@).0;
    let mut certs: Vec<Vec<u8>> = Vec::new();
    let mut i: usize = 0;
    while i < blocks.len()
        invariant
            i <= blocks.len(),
            blocks.deep_view() == items,
            certs.deep_view() == cert_ders(items.take(i as int)),
        decreases blocks.len() - i,
    {
        proof {
            assert(items.take(i + 1 as int).drop_last() =~= items.take(i as int));
            assert(items.take(i + 1 as int).last() == items[i as int]);
            assert(blocks[i as int].deep_view() == items[i as int]);
        }
        match &blocks[i] {
            PemBlock::Certificate(der) => {
                let ghost old_certs = certs.deep_view();
                let der_copy = clone_bytes(der);
                certs.push(der_copy);
                proof {
                    assert(certs.deep_view() =~~= old_certs.push(der@));
                }
            },
            _ => {},
        }
        i = i + 1;
    }
    proof {
        assert(items.take(blocks.len() as int) =~= items);
    }
    if certs.len() == 0 {
        Err(TlsError::NoCertificates)
    } else {
        Ok(certs)
    }
}

/// Returns the first block recognised as one of the three supported
/// private-key encodings, scanning past any other block kinds; fails when
/// the buffer is exhausted (or the framing breaks) without finding one.
pub fn parse_key(pem_bytes: &[u8]) -> (r: Result<PrivateKey, TlsError>)
    ensures
        match r {
            Ok(key) => key_outcome(pem_bytes@) == Ok::<KeyDer, TlsError>(key@),
            Err(e) => key_outcome(pem_bytes@) == Err::<KeyDer, TlsError>(e),
        },
{
    let (blocks, well_formed) = crate::engine::scan_pem(pem_bytes);
    let ghost items = crate::engine::pem_scan(pem_bytes@).0;
    proof {
        assert(items.skip(0) =~= items);
    }
    let mut i: usize = 0;
    while i < blocks.len()
        invariant
            i <= blocks.len(),
            items == crate::engine::pem_scan(pem_bytes@).0,
            blocks.deep_view() == items,
            first_key(items) == first_key(items.skip(i as int)),
        decreases blocks.len() - i,
    {
        proof {
            assert(items.skip(i as int).len() > 0);
            assert(items.skip(i as int).first() == items[i as int]);
            assert(items.skip(i as int).drop_first() =~= items.skip(i + 1 as int));
            assert(blocks[i as int].deep_view() == items[i as int]);
        }
        match &blocks[i] {
            PemBlock::Pkcs1Key(der) => {
                proof {
                    assert(items[i as int] == PemEntry::Pkcs1Key(der@));
                    assert(first_key(items.skip(i as int)) == Some(KeyDer::Pkcs1(der@)));
                    assert(first_key(items) == Some(KeyDer::Pkcs1(der@)));
                }
                return Ok(PrivateKey::Pkcs1(clone_bytes(der)));
            },
            PemBlock::Pkcs8Key(der) => {
                proof {
                    assert(items[i as int] == PemEntry::Pkcs8Key(der@));
                    assert(first_key(items.skip(i as int)) == Some(KeyDer::Pkcs8(der@)));
                    assert(first_key(items) == Some(KeyDer::Pkcs8(der@)));
                }
                return Ok(PrivateKey::Pkcs8(clone_bytes(der)));
            },
            PemBlock::Sec1Key(der) => {
                proof {
                    assert(items[i as int] == PemEntry::Sec1Key(der@));
                    assert(first_key(items.skip(i as int)) == Some(KeyDer::Sec1(der@)));
                    assert(first_key(items) == Some(KeyDer::Sec1(der@)));
                }
                return Ok(PrivateKey::Sec1(clone_bytes(der)));
            },
            _ => {},
        }
        i = i + 1;
    }
    proof {
        assert(items.skip(blocks.len() as int) =~= Seq::<PemEntry>::empty());
    }
    if well_formed {
        Err(TlsError::NoPrivateKey)
    } else {
        Err(TlsError::MalformedPem)
    }
}

/// When the scanned blocks include no supported private-key block, however
/// many blocks of other kinds appear, no key is selected and key parsing on
/// well-formed content reports the missing private key.
pub proof fn lemma_missing_key_reported(items: Seq<PemEntry>)
    ensures
        (forall|i: int| 0 <= i < items.len() ==> !is_key_entry(#[trigger] items[i]))
            ==> first_key(items) is None
                && key_from(items, true) == Err::<KeyDer, TlsError>(TlsError::NoPrivateKey),
    decreases items.len(),
{
    if forall|i: int| 0 <= i < items.len() ==> !is_key_entry(#[trigger] items[i]) {
        if items.len() > 0 {
            assert(!is_key_entry(items[0]));
            assert(forall|i: int|
                0 <= i < items.drop_first().len() ==> !is_key_entry(
                    #[trigger] items.drop_first()[i],
                )) by {
                assert(forall|i: int|
                    0 <= i < items.drop_first().len() ==> items.drop_first()[i] == items[i + 1]);
            }
            lemma_missing_key_reported(items.drop_first());
        }
    }
}

/// When the scanned blocks include no certificate block, certificate
/// parsing collects nothing and reports the missing trust material.
pub proof fn lemma_missing_certificates_reported(items: Seq<PemEntry>)
    ensures
        (forall|i: int| 0 <= i < items.len() ==> !is_cert_entry(#[trigger] items[i]))
            ==> cert_ders(items) == Seq::<Seq<u8>>::empty()
                && certs_from(items, true) == Err::<Seq<Seq<u8>>, TlsError>(TlsError::NoCertificates),
    decreases items.len(),
{
    if forall|i: int| 0 <= i < items.len() ==> !is_cert_entry(#[trigger] items[i]) {
        if items.len() > 0 {
            assert(!is_cert_entry(items.last()));
            assert(forall|i: int|
                0 <= i < items.drop_last().len() ==> !is_cert_entry(
                    #[trigger] items.drop_last()[i],
                )) by {
                assert(forall|i: int|
                    0 <= i < items.drop_last().len() ==> items.drop_last()[i] == items[i]);
            }
            lemma_missing_certificates_reported(items.drop_last());
        }
    }
}

} // verus!
