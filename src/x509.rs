//! The calls into the certificate builder and the clock that the authority
//! logic makes. Each item here is trusted: its contract is what the outside
//! crate's source shows.
//!
//! What parameters and certificates hold is stated as relations to a
//! `TemplateView`, because several views describe one value: the builder
//! reads an IP literal in any of its spellings, writes the key usages as one
//! bit string, and its default window (`None`) equals an explicit window of
//! the same dates. `params_hold(p, t)` and `encodes(c, t)` say that `p`, or
//! the certificate `c`, holds:
//! - as subject, the common name `t.common_name` alone, or an empty name;
//! - the alternative names `t.dns_names` as the builder reads them, in order;
//! - for `t.is_ca`, the CA basic constraint without a path length limit,
//!   and otherwise no CA constraint;
//! - exactly the key usages of `t.key_usages` and the extended key usages of
//!   `t.extended_key_usages`;
//! - the window `t.validity`, or the default window for `None`.
use crate::template::{encodable, names_view, ExtendedKeyUsage, KeyUsage, TemplateView, Validity};
use vstd::prelude::*;

verus! {

#[verifier::external_type_specification]
#[verifier::external_body]
pub struct ExCertificate(rcgen::Certificate);

#[verifier::external_type_specification]
#[verifier::external_body]
pub struct ExKeyPair(rcgen::KeyPair);

#[verifier::external_type_specification]
#[verifier::external_body]
pub struct ExCertificateParams(rcgen::CertificateParams);

#[verifier::external_type_specification]
#[verifier::external_body]
#[verifier::reject_recursive_types(S)]
pub struct ExIssuer<'a, S>(rcgen::Issuer<'a, S>);

/// The start of the builder's default window, 1975-01-01, in seconds since
/// the Unix epoch.
pub const DEFAULT_NOT_BEFORE: i64 = 157766400;

/// The end of the builder's default window, 4096-01-01, in seconds since
/// the Unix epoch.
pub const DEFAULT_NOT_AFTER: i64 = 67090118400;

/// The window that a template's `validity` stands for.
pub open spec fn window_of(v: Option<Validity>) -> Validity {
    match v {
        Some(w) => w,
        None => Validity { not_before: DEFAULT_NOT_BEFORE, not_after: DEFAULT_NOT_AFTER },
    }
}

/// Whether every character of every name is ASCII, which is what the
/// builder asks of an alternative name that is not an IP address.
pub open spec fn all_ascii(names: Seq<Seq<char>>) -> bool {
    forall|i: int, j: int|
        0 <= i < names.len() && 0 <= j < names[i].len() ==> (names[i][j] as u32) < 128
}

/// Whether the fields of rcgen's `CertificateParams` hold what `t` describes.
pub uninterp spec fn params_hold(p: rcgen::CertificateParams, t: TemplateView) -> bool;

/// The `not_before` and `not_after` fields of rcgen's `CertificateParams`.
pub uninterp spec fn params_window(p: rcgen::CertificateParams) -> Validity;

/// Whether an rcgen `Certificate` encodes what `t` describes.
pub uninterp spec fn encodes(c: rcgen::Certificate, t: TemplateView) -> bool;

/// Whether the certificate carries the public key of `k`, names its own
/// subject as issuer, and is signed with `k`.
pub uninterp spec fn self_issued(c: rcgen::Certificate, k: rcgen::KeyPair) -> bool;

/// Whether the certificate carries the public key of `k`, names the subject
/// of `i` as issuer, and is signed with the signing key of `i`.
pub uninterp spec fn issued_by(
    c: rcgen::Certificate,
    k: rcgen::KeyPair,
    i: rcgen::Issuer<'static, rcgen::KeyPair>,
) -> bool;

/// The signing key of an rcgen `Issuer`.
pub uninterp spec fn issuer_key(i: rcgen::Issuer<'static, rcgen::KeyPair>) -> rcgen::KeyPair;

/// Whether the subject of `i` is the subject of the certificate in the PEM
/// text `s`.
pub uninterp spec fn issuer_subject_from(
    i: rcgen::Issuer<'static, rcgen::KeyPair>,
    s: Seq<char>,
) -> bool;

/// Whether `k` is the private key held in the PEM text `s`.
pub uninterp spec fn key_from_text(k: rcgen::KeyPair, s: Seq<char>) -> bool;

/// Whether rcgen reads the text as a PEM private key it can sign with.
pub uninterp spec fn key_pem_parses(s: Seq<char>) -> bool;

/// Whether rcgen reads the text as a PEM X.509 certificate it can issue
/// under.
pub uninterp spec fn ca_cert_pem_parses(s: Seq<char>) -> bool;

/// The PEM text of an rcgen `Certificate`.
pub uninterp spec fn cert_pem_text(c: rcgen::Certificate) -> Seq<char>;

/// The PKCS#8 PEM text of an rcgen `KeyPair`.
pub uninterp spec fn key_pem_text(k: rcgen::KeyPair) -> Seq<char>;

/// Relies on rcgen's `CertificateParams::new` and `Default`: the given
/// alternative names over the defaults (common name "rcgen self signed
/// cert", no CA constraint, no usages, the default window); a name that is
/// not an IP address must be ASCII.
#[verifier::external_body]
pub(crate) fn new_params(names: Vec<String>) -> (r: Option<rcgen::CertificateParams>)
    ensures
        r is Some <==> all_ascii(names_view(names@)),
        r matches Some(p) ==> params_hold(
            p,
            TemplateView {
                common_name: Some("rcgen self signed cert"@),
                dns_names: names_view(names@),
                is_ca: false,
                key_usages: Seq::empty(),
                extended_key_usages: Seq::empty(),
                validity: None,
            },
        ),
        r matches Some(p) ==> params_window(p) == window_of(None),
{
    rcgen::CertificateParams::new(names).ok()
}

/// Relies on rcgen's `DistinguishedName::new`: an empty subject name.
#[verifier::external_body]
pub(crate) fn clear_subject(p: &mut rcgen::CertificateParams)
    ensures
        forall|t: TemplateView| #[trigger]
            params_hold(*old(p), t) ==> params_hold(
                *final(p),
                TemplateView { common_name: None, ..t },
            ),
        params_window(*final(p)) == params_window(*old(p)),
{
    p.distinguished_name = rcgen::DistinguishedName::new();
}

/// Relies on rcgen's `DistinguishedName::push`: sets the common name,
/// replacing any earlier one.
#[verifier::external_body]
pub(crate) fn push_common_name(p: &mut rcgen::CertificateParams, cn: String)
    ensures
        forall|t: TemplateView| #[trigger]
            params_hold(*old(p), t) ==> params_hold(
                *final(p),
                TemplateView { common_name: Some(cn@), ..t },
            ),
        params_window(*final(p)) == params_window(*old(p)),
{
    p.distinguished_name.push(rcgen::DnType::CommonName, cn);
}

/// Relies on rcgen's `IsCa::Ca` with `BasicConstraints::Unconstrained`:
/// marks the certificate as a CA without a path length limit.
#[verifier::external_body]
pub(crate) fn set_ca_unconstrained(p: &mut rcgen::CertificateParams)
    ensures
        forall|t: TemplateView| #[trigger]
            params_hold(*old(p), t) ==> params_hold(*final(p), TemplateView { is_ca: true, ..t }),
        params_window(*final(p)) == params_window(*old(p)),
{
    p.is_ca = rcgen::IsCa::Ca(rcgen::BasicConstraints::Unconstrained);
}

/// Relies on the public `key_usages` field of rcgen's `CertificateParams`:
/// appends the matching `KeyUsagePurpose`.
#[verifier::external_body]
pub(crate) fn push_key_usage(p: &mut rcgen::CertificateParams, u: KeyUsage)
    ensures
        forall|t: TemplateView| #[trigger]
            params_hold(*old(p), t) ==> params_hold(
                *final(p),
                TemplateView { key_usages: t.key_usages.push(u), ..t },
            ),
        params_window(*final(p)) == params_window(*old(p)),
{
    p.key_usages.push(
        match u {
            KeyUsage::DigitalSignature => rcgen::KeyUsagePurpose::DigitalSignature,
            KeyUsage::KeyEncipherment => rcgen::KeyUsagePurpose::KeyEncipherment,
            KeyUsage::KeyCertSign => rcgen::KeyUsagePurpose::KeyCertSign,
            KeyUsage::CrlSign => rcgen::KeyUsagePurpose::CrlSign,
        },
    );
}

/// Relies on the public `extended_key_usages` field of rcgen's
/// `CertificateParams`: appends the matching `ExtendedKeyUsagePurpose`.
#[verifier::external_body]
pub(crate) fn push_extended_key_usage(p: &mut rcgen::CertificateParams, u: ExtendedKeyUsage)
    ensures
        forall|t: TemplateView| #[trigger]
            params_hold(*old(p), t) ==> params_hold(
                *final(p),
                TemplateView { extended_key_usages: t.extended_key_usages.push(u), ..t },
            ),
        params_window(*final(p)) == params_window(*old(p)),
{
    p.extended_key_usages.push(
        match u {
            ExtendedKeyUsage::ServerAuth => rcgen::ExtendedKeyUsagePurpose::ServerAuth,
        },
    );
}

/// Relies on time's `OffsetDateTime::from_unix_timestamp`, which accepts
/// every instant of the years 0 to 9999, and on the public `not_before` and
/// `not_after` fields of rcgen's `CertificateParams`: sets the window.
#[verifier::external_body]
pub(crate) fn set_validity(p: &mut rcgen::CertificateParams, not_before: i64, not_after: i64)
    requires
        encodable(Some(Validity { not_before, not_after })),
    ensures
        forall|t: TemplateView| #[trigger]
            params_hold(*old(p), t) ==> params_hold(
                *final(p),
                TemplateView { validity: Some(Validity { not_before, not_after }), ..t },
            ),
        params_window(*final(p)) == (Validity { not_before, not_after }),
{
    let b = time::OffsetDateTime::from_unix_timestamp(not_before);
    let a = time::OffsetDateTime::from_unix_timestamp(not_after);
    if let (Ok(b), Ok(a)) = (b, a) {
        p.not_before = b;
        p.not_after = a;
    }
}

/// Relies on time's `OffsetDateTime::now_utc`: the current wall-clock time,
/// in seconds since the epoch.
#[verifier::external_body]
pub(crate) fn now_unix() -> (r: i64) {
    time::OffsetDateTime::now_utc().unix_timestamp()
}

/// Relies on rcgen's `KeyPair::generate`: a fresh random key pair.
#[verifier::external_body]
pub(crate) fn generate_key() -> (r: Option<rcgen::KeyPair>) {
    rcgen::KeyPair::generate().ok()
}

/// Relies on rcgen's `KeyPair::from_pem`: parses a PEM private key; whether
/// it succeeds depends on the text alone.
#[verifier::external_body]
pub(crate) fn key_from_pem(pem: &str) -> (r: Option<rcgen::KeyPair>)
    ensures
        r is Some <==> key_pem_parses(pem@),
        r matches Some(k) ==> key_from_text(k, pem@),
{
    rcgen::KeyPair::from_pem(pem).ok()
}

/// Relies on rcgen's `Issuer::from_ca_cert_pem`: an authority with the
/// subject of the PEM certificate and `key` as its signing key, which it
/// stores unchecked; whether it succeeds depends on the text alone.
#[verifier::external_body]
pub(crate) fn issuer_from_pem(pem: &str, key: rcgen::KeyPair) -> (r: Option<
    rcgen::Issuer<'static, rcgen::KeyPair>,
>)
    ensures
        r is Some <==> ca_cert_pem_parses(pem@),
        r matches Some(i) ==> issuer_key(i) == key && issuer_subject_from(i, pem@),
{
    rcgen::Issuer::from_ca_cert_pem(pem, key).ok()
}

/// Relies on rcgen's `CertificateParams::self_signed`: a certificate that
/// encodes the parameters, carries the public key of `key` and is signed by
/// it under its own subject. Signing writes each date of the window as an
/// ASN.1 time, which holds the years 0 to 9999 only.
#[verifier::external_body]
pub(crate) fn self_sign(p: &rcgen::CertificateParams, key: &rcgen::KeyPair) -> (r: Option<
    rcgen::Certificate,
>)
    requires
        encodable(Some(params_window(*p))),
    ensures
        r matches Some(c) ==> self_issued(c, *key),
        r matches Some(c) ==> forall|t: TemplateView| #[trigger]
            params_hold(*p, t) ==> encodes(c, t),
{
    p.self_signed(key).ok()
}

/// Relies on rcgen's `CertificateParams::signed_by`: a certificate that
/// encodes the parameters, carries the public key of `key`, names the
/// subject of `issuer` and is signed with its key. Signing writes each date
/// of the window as an ASN.1 time, which holds the years 0 to 9999 only.
#[verifier::external_body]
pub(crate) fn sign_by(
    p: &rcgen::CertificateParams,
    key: &rcgen::KeyPair,
    issuer: &rcgen::Issuer<'static, rcgen::KeyPair>,
) -> (r: Option<rcgen::Certificate>)
    requires
        encodable(Some(params_window(*p))),
    ensures
        r matches Some(c) ==> issued_by(c, *key, *issuer),
        r matches Some(c) ==> forall|t: TemplateView| #[trigger]
            params_hold(*p, t) ==> encodes(c, t),
{
    p.signed_by(key, issuer).ok()
}

/// Relies on rcgen's `Certificate::pem`: the certificate as PEM text.
#[verifier::external_body]
pub(crate) fn certificate_pem(c: &rcgen::Certificate) -> (r: String)
    ensures
        r@ == cert_pem_text(*c),
{
    c.pem()
}

/// Relies on rcgen's `KeyPair::serialize_pem`: the private key as PKCS#8
/// PEM text.
#[verifier::external_body]
pub(crate) fn key_pem(k: &rcgen::KeyPair) -> (r: String)
    ensures
        r@ == key_pem_text(*k),
{
    k.serialize_pem()
}

} // verus!
