//! The orchestrator's TLS identity: a self-signed certificate for `localhost` made
//! once per process and reused by every endpoint after that.
use crate::text::has_prefix;
use vstd::prelude::*;

verus! {

/// A DER-encoded certificate and the DER-encoded (PKCS#8) private key that goes with it.
pub type DerIdentity = (Vec<u8>, Vec<u8>);

/// Makes a self-signed certificate for `subject_alt_names` with a fresh key pair
/// (`rcgen::generate_simple_self_signed`) and hands back the certificate and the
/// private key, both DER-encoded, or the generator's error message.
///
/// The key pair is drawn at random, so nothing is stated of the bytes that come back.
#[verifier::external_body]
fn generate_self_signed(subject_alt_names: Vec<String>) -> (r: Result<DerIdentity, String>) {
    match rcgen::generate_simple_self_signed(subject_alt_names) {
        Ok(certified) => Ok((certified.cert.der().to_vec(), certified.signing_key.serialize_der())),
        Err(e) => Err(e.to_string()),
    }
}

/// The prefix of the error reported when no certificate could be made.
pub open spec fn identity_error_prefix() -> Seq<char> {
    "Failed to generate runtime TLS certificate: "@
}

/// The names the certificate is made for: `localhost` alone.
pub open spec fn identity_names_spec() -> Seq<Seq<char>> {
    seq!["localhost"@]
}

/// The subject alternative names handed to the certificate generator: exactly
/// `["localhost"]`.
pub fn identity_subject_names() -> (r: Vec<String>)
    ensures
        r@.map_values(|n: String| n@) == identity_names_spec(),
{
    let mut names: Vec<String> = Vec::new();
    names.push(String::from_str("localhost"));
    assert(names@.map_values(|n: String| n@) =~= identity_names_spec());
    names
}

/// Where the identity is kept once it has been made.
pub struct TlsIdentityStore {
    identity: Option<DerIdentity>,
}

/// The bytes of an identity.
pub open spec fn identity_bytes(id: DerIdentity) -> (Seq<u8>, Seq<u8>) {
    (id.0@, id.1@)
}

impl View for TlsIdentityStore {
    type V = Option<(Seq<u8>, Seq<u8>)>;

    closed spec fn view(&self) -> Option<(Seq<u8>, Seq<u8>)> {
        match self.identity {
            Some(id) => Some(identity_bytes(id)),
            None => None,
        }
    }
}

fn copy_bytes(v: &Vec<u8>) -> (r: Vec<u8>)
    ensures
        r@ == v@,
{
    let mut r: Vec<u8> = Vec::new();
    let mut i: usize = 0;
    while i < v.len()
        invariant
            i <= v.len(),
            r@ == v@.subrange(0, i as int),
        decreases v.len() - i,
    {
        r.push(v[i]);
        i = i + 1;
        assert(r@ =~= v@.subrange(0, i as int));
    }
    assert(v@.subrange(0, v.len() as int) =~= v@);
    r
}

impl TlsIdentityStore {
    /// A store that holds no identity yet.
    pub fn new() -> (r: TlsIdentityStore)
        ensures
            r@ is None,
    {
        TlsIdentityStore { identity: None }
    }

    /// The process's identity: the one kept, when there is one; otherwise a certificate
    /// for the names of [`identity_subject_names`] (`localhost`) is made, kept and
    /// returned. Once made, every later call returns
    /// the same identity; a failure keeps nothing and reports
    /// `Failed to generate runtime TLS certificate: <reason>`.
    pub fn identity(&mut self) -> (r: Result<DerIdentity, String>)
        ensures
            old(self)@ is Some ==> final(self)@ == old(self)@ && r is Ok && identity_bytes(
                r->Ok_0,
            ) == old(self)@->0,
            old(self)@ is None ==> match r {
                Ok(id) => final(self)@ == Some(identity_bytes(id)),
                Err(e) => final(self)@ is None && has_prefix(e@, identity_error_prefix()),
            },
    {
        match &self.identity {
            Some(id) => {
                return Ok((copy_bytes(&id.0), copy_bytes(&id.1)));
            },
            None => {},
        }
        match generate_self_signed(identity_subject_names()) {
            Ok(id) => {
                let kept = (copy_bytes(&id.0), copy_bytes(&id.1));
                self.identity = Some(kept);
                Ok(id)
            },
            Err(reason) => {
                let mut e = String::from_str("Failed to generate runtime TLS certificate: ");
                e.append(reason.as_str());
                assert(e@.subrange(0, identity_error_prefix().len() as int) =~= identity_error_prefix());
                Err(e)
            },
        }
    }
}

} // verus!
