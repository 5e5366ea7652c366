use vstd::prelude::*;

verus! {

/// The subject-name entries, as text, of the DER certificate `der`, or `None`
/// where the certificate or one of its entries cannot be decoded.
pub uninterp spec fn subject_of_der(der: Seq<u8>) -> Option<Seq<Seq<char>>>;

/// The text of each string.
pub open spec fn texts(v: Seq<String>) -> Seq<Seq<char>> {
    v.map_values(|s: String| s@)
}

/// The parts joined by commas.
pub open spec fn joined(parts: Seq<Seq<char>>) -> Seq<char>
    decreases parts.len(),
{
    if parts.len() == 0 {
        Seq::empty()
    } else if parts.len() == 1 {
        parts[0]
    } else {
        joined(parts.drop_last()) + seq![','] + parts.last()
    }
}

/// The certificate of a peer could not be decoded.
#[derive(Clone, Copy, Debug, PartialEq, Eq, Structural)]
pub enum CertificateError {
    Unreadable,
}

/// Relies on openssl's `X509::from_der`, `X509NameRef::entries` and
/// `Asn1StringRef::to_string`: the subject entries of a DER certificate, in
/// order, as UTF-8 text.
#[verifier::external_body]
fn subject_entries(der: &[u8]) -> (r: Option<Vec<String>>)
    ensures
        r matches Some(v) ==> subject_of_der(der@) == Some(texts(v@)),
        r is None ==> subject_of_der(der@) is None,
{
    let cert = openssl::x509::X509::from_der(der).ok()?;
    let mut subject = Vec::new();
    for entry in cert.subject_name().entries() {
        subject.push(entry.data().to_string().ok()?);
    }
    Some(subject)
}

/// Who the peer is, as its validated certificate names it.
pub struct PeerIdentity {
    pub subject: Vec<String>,
}

/// The identity named by a DER certificate, or `None` where it cannot be decoded.
pub fn peer_identity(der: &Vec<u8>) -> (r: Option<PeerIdentity>)
    ensures
        match subject_of_der(der@) {
            Some(parts) => (r matches Some(p) && texts(p.subject@) == parts),
            None => r is None,
        },
{
    match subject_entries(der.as_slice()) {
        Some(subject) => Some(PeerIdentity { subject }),
        None => None,
    }
}

/// The subject entries separated by commas.
pub fn display_subject(entries: &Vec<String>) -> (r: String)
    ensures
        r@ == joined(texts(entries@)),
{
    let mut out = String::new();
    let mut i: usize = 0;
    while i < entries.len()
        invariant
            i <= entries@.len(),
            out@ == joined(texts(entries@.subrange(0, i as int))),
        decreases entries@.len() - i,
    {
        let ghost prev = texts(entries@.subrange(0, i as int));
        let ghost next = texts(entries@.subrange(0, i + 1));
        assert(next.drop_last() =~= prev);
        assert(next.last() == entries@[i as int]@);
        if i > 0 {
            out.append(",");
        }
        proof {
            reveal_strlit(",");
        }
        out.append(entries[i].as_str());
        assert(out@ =~= joined(next));
        i = i + 1;
    }
    assert(entries@.subrange(0, entries@.len() as int) =~= entries@);
    out
}

/// The text shown for a peer certificate: `Certificate(None)` where the peer
/// presented none, else its subject entries separated by commas.
pub fn display_cert(cert: Option<Vec<u8>>) -> (r: Result<String, CertificateError>)
    ensures
        cert is None ==> (r matches Ok(s) && s@ == "Certificate(None)"@),
        cert matches Some(der) ==> match subject_of_der(der@) {
            Some(parts) => (r matches Ok(s) && s@ == joined(parts)),
            None => r == Err::<String, CertificateError>(CertificateError::Unreadable),
        },
{
    match cert {
        None => Ok("Certificate(None)".to_owned()),
        Some(der) => match peer_identity(&der) {
            Some(identity) => Ok(display_subject(&identity.subject)),
            None => Err(CertificateError::Unreadable),
        },
    }
}

} // verus!
