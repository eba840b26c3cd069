use crate::error::Error;
use crate::template::{
    encodable, leaf_issuable_at, leaf_template, names_view, root_template, CertTemplate,
    TemplateView,
};
use crate::x509::{
    all_ascii, ca_cert_pem_parses, cert_pem_text, certificate_pem, clear_subject, encodes,
    generate_key, issued_by, issuer_from_pem, issuer_key, issuer_subject_from, key_from_pem,
    key_from_text, key_pem, key_pem_parses, key_pem_text, new_params, now_unix, params_hold,
    params_window, push_common_name, push_extended_key_usage, push_key_usage, self_issued,
    self_sign, set_ca_unconstrained, set_validity, sign_by, window_of,
};
use std::path::PathBuf;
use vstd::prelude::*;
use vstd::string::*;

verus! {

#[verifier::external_type_specification]
#[verifier::external_body]
pub struct ExPathBuf(std::path::PathBuf);

/// A certificate bound to its private key.
pub struct Identity {
    pub cert: rcgen::Certificate,
    pub key: rcgen::KeyPair,
}

/// The location of a persisted PEM certificate.
pub struct CertPath(pub PathBuf);

/// The location of a persisted PEM private key.
pub struct KeyPath(pub PathBuf);

impl From<CertPath> for PathBuf {
    fn from(val: CertPath) -> PathBuf {
        val.0
    }
}

impl vstd::std_specs::convert::FromSpecImpl<CertPath> for PathBuf {
    open spec fn obeys_from_spec() -> bool {
        true
    }

    open spec fn from_spec(v: CertPath) -> PathBuf {
        v.0
    }
}

impl From<PathBuf> for CertPath {
    fn from(path: PathBuf) -> CertPath {
        CertPath(path)
    }
}

impl vstd::std_specs::convert::FromSpecImpl<PathBuf> for CertPath {
    open spec fn obeys_from_spec() -> bool {
        true
    }

    open spec fn from_spec(v: PathBuf) -> CertPath {
        CertPath(v)
    }
}

impl From<KeyPath> for PathBuf {
    fn from(val: KeyPath) -> PathBuf {
        val.0
    }
}

impl vstd::std_specs::convert::FromSpecImpl<KeyPath> for PathBuf {
    open spec fn obeys_from_spec() -> bool {
        true
    }

    open spec fn from_spec(v: KeyPath) -> PathBuf {
        v.0
    }
}

impl From<PathBuf> for KeyPath {
    fn from(path: PathBuf) -> KeyPath {
        KeyPath(path)
    }
}

impl vstd::std_specs::convert::FromSpecImpl<PathBuf> for KeyPath {
    open spec fn obeys_from_spec() -> bool {
        true
    }

    open spec fn from_spec(v: PathBuf) -> KeyPath {
        KeyPath(v)
    }
}

/// Permission bits of a persisted certificate: owner read/write, others read.
pub const CERT_FILE_MODE: u32 = 0o644;

/// Permission bits of a persisted private key: owner read/write only.
pub const KEY_FILE_MODE: u32 = 0o600;

/// One file of a persisted identity: its name inside the target directory,
/// the permission bits it is created with, and its text.
pub struct PemFile {
    pub file_name: String,
    pub mode: u32,
    pub contents: String,
}

/// The two files of a persisted identity.
pub struct PemFiles {
    pub cert: PemFile,
    pub key: PemFile,
}

/// A persisted private key is readable and writable by its owner and by
/// nobody else; a persisted certificate is readable and writable by its
/// owner, readable by everyone, and writable by nobody else.
pub proof fn lemma_file_modes()
    ensures
        KEY_FILE_MODE & 0o700 == 0o600,
        KEY_FILE_MODE & 0o077 == 0,
        CERT_FILE_MODE & 0o700 == 0o600,
        CERT_FILE_MODE & 0o044 == 0o044,
        CERT_FILE_MODE & 0o033 == 0,
{
    assert(0o600u32 & 0o700u32 == 0o600u32) by (bit_vector);
    assert(0o600u32 & 0o077u32 == 0u32) by (bit_vector);
    assert(0o644u32 & 0o700u32 == 0o600u32) by (bit_vector);
    assert(0o644u32 & 0o044u32 == 0o044u32) by (bit_vector);
    assert(0o644u32 & 0o033u32 == 0u32) by (bit_vector);
}

impl Identity {
    /// The files that persist this identity: `crt.pem` holding the
    /// certificate as PEM text with mode 0644, and `key.pem` holding the
    /// PKCS#8 private key as PEM text with mode 0600.
    pub fn pem_files(&self) -> (r: PemFiles)
        ensures
            r.cert.file_name@ == "crt.pem"@,
            r.cert.mode == CERT_FILE_MODE,
            r.cert.contents@ == cert_pem_text(self.cert),
            r.key.file_name@ == "key.pem"@,
            r.key.mode == KEY_FILE_MODE,
            r.key.contents@ == key_pem_text(self.key),
    {
        let cert = PemFile {
            file_name: String::from_str("crt.pem"),
            mode: CERT_FILE_MODE,
            contents: certificate_pem(&self.cert),
        };
        let key = PemFile {
            file_name: String::from_str("key.pem"),
            mode: KEY_FILE_MODE,
            contents: key_pem(&self.key),
        };
        PemFiles { cert, key }
    }
}

/// Builds the certificate parameters that `t` describes; fails exactly where
/// the builder refuses one of its alternative names.
fn params_for(t: &CertTemplate) -> (r: Option<rcgen::CertificateParams>)
    requires
        encodable(t@.validity),
    ensures
        r is Some <==> all_ascii(t@.dns_names),
        r matches Some(p) ==> params_hold(p, t@),
        r matches Some(p) ==> params_window(p) == window_of(t@.validity),
{
    let names = t.dns_names.clone();
    assert(names_view(names@) =~= names_view(t.dns_names@)) by {
        assert forall|i: int| 0 <= i < names@.len() implies names@[i]@ == t.dns_names@[i]@ by {
            assert(cloned::<String>(t.dns_names[i], names[i]));
        }
    }
    let mut params = match new_params(names) {
        Some(p) => p,
        None => return None,
    };
    clear_subject(&mut params);
    match &t.common_name {
        Some(cn) => push_common_name(&mut params, cn.clone()),
        None => {},
    }
    if t.is_ca {
        set_ca_unconstrained(&mut params);
    }
    let ghost base = TemplateView {
        common_name: t@.common_name,
        dns_names: t@.dns_names,
        is_ca: t@.is_ca,
        key_usages: Seq::empty(),
        extended_key_usages: Seq::empty(),
        validity: None,
    };
    assert(params_hold(params, base));
    assert(t.key_usages@.take(0) =~= Seq::<crate::template::KeyUsage>::empty());
    assert(base == (TemplateView { key_usages: t.key_usages@.take(0), ..base }));
    let mut i: usize = 0;
    while i < t.key_usages.len()
        invariant
            i <= t.key_usages.len(),
            params_hold(params, TemplateView { key_usages: t.key_usages@.take(i as int), ..base }),
            params_window(params) == window_of(None),
        decreases t.key_usages.len() - i,
    {
        let ghost before = TemplateView { key_usages: t.key_usages@.take(i as int), ..base };
        push_key_usage(&mut params, t.key_usages[i]);
        assert(params_hold(params, TemplateView { key_usages: before.key_usages.push(t.key_usages@[i as int]), ..before }));
        assert(t.key_usages@.take(i as int).push(t.key_usages@[i as int]) =~= t.key_usages@.take(
            i + 1,
        ));
        i = i + 1;
    }
    assert(t.key_usages@.take(i as int) =~= t.key_usages@);
    let ghost base2 = TemplateView { key_usages: t@.key_usages, ..base };
    assert(t.extended_key_usages@.take(0) =~= Seq::<crate::template::ExtendedKeyUsage>::empty());
    assert(base2 == (TemplateView { extended_key_usages: t.extended_key_usages@.take(0), ..base2 }));
    let mut j: usize = 0;
    while j < t.extended_key_usages.len()
        invariant
            j <= t.extended_key_usages.len(),
            params_hold(
                params,
                TemplateView { extended_key_usages: t.extended_key_usages@.take(j as int), ..base2 },
            ),
            params_window(params) == window_of(None),
        decreases t.extended_key_usages.len() - j,
    {
        let ghost before = TemplateView {
            extended_key_usages: t.extended_key_usages@.take(j as int),
            ..base2
        };
        push_extended_key_usage(&mut params, t.extended_key_usages[j]);
        assert(params_hold(params, TemplateView { extended_key_usages: before.extended_key_usages.push(t.extended_key_usages@[j as int]), ..before }));
        assert(t.extended_key_usages@.take(j as int).push(t.extended_key_usages@[j as int])
            =~= t.extended_key_usages@.take(j + 1));
        j = j + 1;
    }
    assert(t.extended_key_usages@.take(j as int) =~= t.extended_key_usages@);
    let ghost base3 = TemplateView { extended_key_usages: t@.extended_key_usages, ..base2 };
    assert(params_hold(params, base3));
    match t.validity {
        Some(v) => {
            set_validity(&mut params, v.not_before, v.not_after);
            assert(params_hold(params, TemplateView { validity: Some(v), ..base3 }));
            assert(t@ == (TemplateView { validity: Some(v), ..base3 }));
        },
        None => {
            assert(t@ == base3);
        },
    }
    Some(params)
}

/// A self-signed root authority, before it is persisted.
pub struct RootCA {
    cert: rcgen::Certificate,
    key: rcgen::KeyPair,
}

impl RootCA {
    /// The authority's certificate.
    pub closed spec fn spec_cert(&self) -> rcgen::Certificate {
        self.cert
    }

    /// The authority's signing key.
    pub closed spec fn spec_key(&self) -> rcgen::KeyPair {
        self.key
    }

    /// Generates a fresh signing key and a self-signed authority whose
    /// certificate encodes the root template of `name`: subject common name
    /// `"<name> Root CA"`, no alternative names, CA, key usages certificate
    /// signing and revocation list signing only.
    pub fn new(name: &str) -> (r: Result<RootCA, Error>)
        ensures
            r matches Ok(ca) ==> encodes(ca.spec_cert(), root_template(name@)),
            r matches Ok(ca) ==> self_issued(ca.spec_cert(), ca.spec_key()),
            r matches Err(e) ==> e == Error::CertificateError,
    {
        let template = CertTemplate::root(name);
        assert(template@.dns_names =~= Seq::<Seq<char>>::empty());
        let params = match params_for(&template) {
            Some(p) => p,
            None => return Err(Error::CertificateError),
        };
        let signing_key = match generate_key() {
            Some(k) => k,
            None => return Err(Error::CertificateError),
        };
        assert(encodable(Some(window_of(None))));
        let cert = match self_sign(&params, &signing_key) {
            Some(c) => c,
            None => return Err(Error::CertificateError),
        };
        Ok(RootCA { cert, key: signing_key })
    }

    /// The authority as an identity that can be persisted: the same
    /// certificate and key.
    pub fn into_identity(self) -> (r: Identity)
        ensures
            r.cert == self.spec_cert(),
            r.key == self.spec_key(),
    {
        Identity { cert: self.cert, key: self.key }
    }
}

/// A loaded authority that signs leaf certificates.
pub struct CertIssuer {
    inner: rcgen::Issuer<'static, rcgen::KeyPair>,
}

impl CertIssuer {
    /// The loaded rcgen authority.
    pub closed spec fn spec_issuer(&self) -> rcgen::Issuer<'static, rcgen::KeyPair> {
        self.inner
    }

    /// Whether this authority has the subject of the certificate in
    /// `cert_pem` and signs with the private key in `key_pem`.
    pub open spec fn loaded_from(&self, cert_pem: Seq<char>, key_pem: Seq<char>) -> bool {
        issuer_subject_from(self.spec_issuer(), cert_pem) && key_from_text(
            issuer_key(self.spec_issuer()),
            key_pem,
        )
    }

    /// Loads the authority from its PEM certificate and PEM private key;
    /// succeeds exactly where both parse.
    pub fn new(cert_pem: &str, key_pem: &str) -> (r: Result<CertIssuer, Error>)
        ensures
            r is Ok <==> key_pem_parses(key_pem@) && ca_cert_pem_parses(cert_pem@),
            r matches Ok(i) ==> i.loaded_from(cert_pem@, key_pem@),
            r matches Err(e) ==> e == Error::CertificateError,
    {
        let signing_key = match key_from_pem(key_pem) {
            Some(k) => k,
            None => return Err(Error::CertificateError),
        };
        match issuer_from_pem(cert_pem, signing_key) {
            Some(inner) => Ok(CertIssuer { inner }),
            None => Err(Error::CertificateError),
        }
    }

    /// Issues a server leaf for `dns_names` valid from `now` (seconds since
    /// the epoch), with a fresh key, signed by this authority. Fails where
    /// the window would start before the year 0 or end after the year 9999,
    /// or where a name is neither an IP address nor a valid DNS string.
    pub fn sign_at(&self, dns_names: Vec<String>, now: i64) -> (r: Result<Identity, Error>)
        ensures
            !leaf_issuable_at(now as int) ==> r is Err,
            !all_ascii(names_view(dns_names@)) ==> r is Err,
            r matches Ok(id) ==> encodes(id.cert, leaf_template(names_view(dns_names@), now)),
            r matches Ok(id) ==> issued_by(id.cert, id.key, self.spec_issuer()),
            r matches Err(e) ==> e == Error::CertificateError,
    {
        let ghost names = names_view(dns_names@);
        let template = match CertTemplate::leaf(dns_names, now) {
            Some(t) => t,
            None => return Err(Error::CertificateError),
        };
        let params = match params_for(&template) {
            Some(p) => p,
            None => return Err(Error::CertificateError),
        };
        let key = match generate_key() {
            Some(k) => k,
            None => return Err(Error::CertificateError),
        };
        let cert = match sign_by(&params, &key, &self.inner) {
            Some(c) => c,
            None => return Err(Error::CertificateError),
        };
        Ok(Identity { cert, key })
    }

    /// Issues a server leaf for `dns_names` valid from the current time on.
    pub fn sign(&self, dns_names: Vec<String>) -> (r: Result<Identity, Error>)
        ensures
            !all_ascii(names_view(dns_names@)) ==> r is Err,
            r matches Ok(id) ==> issued_by(id.cert, id.key, self.spec_issuer()),
            r matches Ok(id) ==> exists|now: i64|
                #![trigger leaf_template(names_view(dns_names@), now)]
                leaf_issuable_at(now as int) && encodes(id.cert, leaf_template(
                    names_view(dns_names@),
                    now,
                )),
            r matches Err(e) ==> e == Error::CertificateError,
    {
        let now = now_unix();
        self.sign_at(dns_names, now)
    }
}

} // verus!
