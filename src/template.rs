use vstd::prelude::*;
use vstd::string::*;

verus! {

/// What a certified key may be used for.
#[derive(Clone, Copy, Debug, PartialEq, Eq, Structural)]
pub enum KeyUsage {
    DigitalSignature,
    KeyEncipherment,
    KeyCertSign,
    CrlSign,
}

/// What a certified key may be used for, beyond its key usages.
#[derive(Clone, Copy, Debug, PartialEq, Eq, Structural)]
pub enum ExtendedKeyUsage {
    ServerAuth,
}

/// A validity window, in seconds since the Unix epoch.
#[derive(Clone, Copy, Debug, PartialEq, Eq, Structural)]
pub struct Validity {
    pub not_before: i64,
    pub not_after: i64,
}

/// Days a leaf certificate stays valid after it is issued.
pub const LEAF_VALIDITY_DAYS: i64 = 825;

pub const SECONDS_PER_DAY: i64 = 86400;

/// Seconds a leaf certificate stays valid after it is issued.
pub const LEAF_VALIDITY_SECONDS: i64 = 71280000;

/// The first second of the year 0, in seconds since the Unix epoch: the
/// earliest instant a certificate can encode.
pub const EARLIEST_ENCODABLE: i64 = -62167219200;

/// The last second of the year 9999, in seconds since the Unix epoch: the
/// latest instant a certificate can encode.
pub const LATEST_ENCODABLE: i64 = 253402300799;

/// Whether a certificate can encode both ends of the window; `None` stands
/// for the certificate builder's default window, which it can.
pub open spec fn encodable(v: Option<Validity>) -> bool {
    match v {
        Some(w) => EARLIEST_ENCODABLE <= w.not_before <= LATEST_ENCODABLE
            && EARLIEST_ENCODABLE <= w.not_after <= LATEST_ENCODABLE,
        None => true,
    }
}

/// Whether a leaf issued at `now` has a window that a certificate can encode.
pub open spec fn leaf_issuable_at(now: int) -> bool {
    EARLIEST_ENCODABLE <= now && now + LEAF_VALIDITY_SECONDS <= LATEST_ENCODABLE
}

/// The decisions that shape one certificate, as plain values.
///
/// A `validity` of `None` leaves the window to the certificate builder's
/// defaults; a `common_name` of `None` leaves the subject name empty.
#[derive(Clone, Debug)]
pub struct CertTemplate {
    pub common_name: Option<String>,
    pub dns_names: Vec<String>,
    pub is_ca: bool,
    pub key_usages: Vec<KeyUsage>,
    pub extended_key_usages: Vec<ExtendedKeyUsage>,
    pub validity: Option<Validity>,
}

/// The mathematical content of a [`CertTemplate`].
pub struct TemplateView {
    pub common_name: Option<Seq<char>>,
    pub dns_names: Seq<Seq<char>>,
    pub is_ca: bool,
    pub key_usages: Seq<KeyUsage>,
    pub extended_key_usages: Seq<ExtendedKeyUsage>,
    pub validity: Option<Validity>,
}

pub open spec fn names_view(names: Seq<String>) -> Seq<Seq<char>> {
    names.map_values(|s: String| s@)
}

impl View for CertTemplate {
    type V = TemplateView;

    open spec fn view(&self) -> TemplateView {
        TemplateView {
            common_name: match self.common_name {
                Some(s) => Some(s@),
                None => None,
            },
            dns_names: names_view(self.dns_names@),
            is_ca: self.is_ca,
            key_usages: self.key_usages@,
            extended_key_usages: self.extended_key_usages@,
            validity: self.validity,
        }
    }
}

/// The subject common name of the root authority called `name`.
pub open spec fn root_common_name(name: Seq<char>) -> Seq<char> {
    name + " Root CA"@
}

/// The root authority called `name`: no alternative names, a CA without a
/// path length limit, allowed only to sign certificates and revocation lists.
pub open spec fn root_template(name: Seq<char>) -> TemplateView {
    TemplateView {
        common_name: Some(root_common_name(name)),
        dns_names: Seq::empty(),
        is_ca: true,
        key_usages: seq![KeyUsage::KeyCertSign, KeyUsage::CrlSign],
        extended_key_usages: Seq::empty(),
        validity: None,
    }
}

/// The window of a leaf issued at `now`, where a certificate can encode it.
pub open spec fn leaf_validity(now: int) -> Option<Validity> {
    if leaf_issuable_at(now) {
        Some(Validity { not_before: now as i64, not_after: (now + LEAF_VALIDITY_SECONDS) as i64 })
    } else {
        None
    }
}

/// The server leaf for `dns` issued at `now`: no subject name, the names as
/// alternative names in their order, no CA privileges, usable for signatures
/// and key encipherment in server authentication, valid from `now` on for
/// the leaf validity period.
pub open spec fn leaf_template(dns: Seq<Seq<char>>, now: i64) -> TemplateView {
    TemplateView {
        common_name: None,
        dns_names: dns,
        is_ca: false,
        key_usages: seq![KeyUsage::DigitalSignature, KeyUsage::KeyEncipherment],
        extended_key_usages: seq![ExtendedKeyUsage::ServerAuth],
        validity: leaf_validity(now as int),
    }
}

/// The leaf validity period is the stated number of days.
pub proof fn lemma_leaf_validity_seconds()
    ensures
        LEAF_VALIDITY_SECONDS == LEAF_VALIDITY_DAYS * SECONDS_PER_DAY,
{
}

/// A root authority is a CA whose key usages are exactly certificate signing
/// and revocation list signing: it carries neither the usages nor the
/// extended usage of a TLS server.
pub proof fn lemma_root_is_authority_only(name: Seq<char>)
    ensures
        root_template(name).is_ca,
        root_template(name).key_usages.to_set() == set![KeyUsage::KeyCertSign, KeyUsage::CrlSign],
        !root_template(name).key_usages.contains(KeyUsage::DigitalSignature),
        !root_template(name).key_usages.contains(KeyUsage::KeyEncipherment),
        !root_template(name).extended_key_usages.contains(ExtendedKeyUsage::ServerAuth),
        root_template(name).common_name == Some(name + " Root CA"@),
{
    let t = root_template(name);
    assert(t.key_usages[0] == KeyUsage::KeyCertSign);
    assert(t.key_usages[1] == KeyUsage::CrlSign);
    assert(t.key_usages.to_set() =~= set![KeyUsage::KeyCertSign, KeyUsage::CrlSign]) by {
        assert forall|u: KeyUsage| t.key_usages.contains(u) <==> (u == KeyUsage::KeyCertSign || u == KeyUsage::CrlSign) by {
            if t.key_usages.contains(u) {
                let i = choose|i: int| 0 <= i < t.key_usages.len() && t.key_usages[i] == u;
                assert(i == 0 || i == 1);
            }
            if u == KeyUsage::KeyCertSign {
                assert(t.key_usages[0] == u);
            }
            if u == KeyUsage::CrlSign {
                assert(t.key_usages[1] == u);
            }
        }
    }
}

/// A leaf issued at `now` for the names `dns` carries exactly those names in
/// their order, no CA privileges, the usages digital signature and key
/// encipherment, the extended usage server authentication, and a window of
/// exactly the leaf validity period starting at `now`.
pub proof fn lemma_leaf_is_server_only(dns: Seq<Seq<char>>, now: i64)
    requires
        leaf_issuable_at(now as int),
    ensures
        leaf_template(dns, now).dns_names == dns,
        !leaf_template(dns, now).is_ca,
        leaf_template(dns, now).common_name is None,
        leaf_template(dns, now).key_usages == seq![KeyUsage::DigitalSignature, KeyUsage::KeyEncipherment],
        leaf_template(dns, now).extended_key_usages == seq![ExtendedKeyUsage::ServerAuth],
        !leaf_template(dns, now).key_usages.contains(KeyUsage::KeyCertSign),
        !leaf_template(dns, now).key_usages.contains(KeyUsage::CrlSign),
        leaf_template(dns, now).validity matches Some(v) && v.not_before == now
            && v.not_after - v.not_before == LEAF_VALIDITY_DAYS * SECONDS_PER_DAY,
{
    let t = leaf_template(dns, now);
    assert(t.key_usages[0] == KeyUsage::DigitalSignature);
    assert(t.key_usages[1] == KeyUsage::KeyEncipherment);
    assert(t.key_usages.len() == 2);
}

/// Whatever instant it was issued at, a leaf for `dns` carries exactly
/// those names in their order, no CA privileges and no subject name, the
/// usages digital signature and key encipherment, the extended usage server
/// authentication, and a window of exactly the leaf validity period.
pub proof fn lemma_issued_leaf(dns: Seq<Seq<char>>, t: TemplateView)
    requires
        exists|now: i64|
            #![trigger leaf_template(dns, now)]
            leaf_issuable_at(now as int) && t == leaf_template(dns, now),
    ensures
        t.dns_names == dns,
        !t.is_ca,
        t.common_name is None,
        t.key_usages == seq![KeyUsage::DigitalSignature, KeyUsage::KeyEncipherment],
        t.extended_key_usages == seq![ExtendedKeyUsage::ServerAuth],
        t.validity matches Some(v) && v.not_after - v.not_before == LEAF_VALIDITY_DAYS
            * SECONDS_PER_DAY,
{
    let now = choose|now: i64|
        #![trigger leaf_template(dns, now)]
        leaf_issuable_at(now as int) && t == leaf_template(dns, now);
    lemma_leaf_is_server_only(dns, now);
}

impl CertTemplate {
    /// The template of the root authority called `name`.
    pub fn root(name: &str) -> (r: CertTemplate)
        ensures
            r@ == root_template(name@),
    {
        let common_name = String::from_str(name).concat(" Root CA");
        let r = CertTemplate {
            common_name: Some(common_name),
            dns_names: Vec::new(),
            is_ca: true,
            key_usages: vec![KeyUsage::KeyCertSign, KeyUsage::CrlSign],
            extended_key_usages: Vec::new(),
            validity: None,
        };
        assert(names_view(r.dns_names@) =~= Seq::empty());
        assert(r.key_usages@ =~= seq![KeyUsage::KeyCertSign, KeyUsage::CrlSign]);
        assert(r.extended_key_usages@ =~= Seq::empty());
        r
    }

    /// The template of a server leaf for `dns_names` issued at `now`, or
    /// `None` where its window starts before the year 0 or ends after the
    /// year 9999.
    pub fn leaf(dns_names: Vec<String>, now: i64) -> (r: Option<CertTemplate>)
        ensures
            r is None <==> !leaf_issuable_at(now as int),
            r matches Some(t) ==> t@ == leaf_template(names_view(dns_names@), now),
            r matches Some(t) ==> encodable(t@.validity),
    {
        if now < EARLIEST_ENCODABLE || now > LATEST_ENCODABLE - LEAF_VALIDITY_SECONDS {
            return None;
        }
        let validity = Validity { not_before: now, not_after: now + LEAF_VALIDITY_SECONDS };
        let r = CertTemplate {
            common_name: None,
            dns_names,
            is_ca: false,
            key_usages: vec![KeyUsage::DigitalSignature, KeyUsage::KeyEncipherment],
            extended_key_usages: vec![ExtendedKeyUsage::ServerAuth],
            validity: Some(validity),
        };
        assert(r.key_usages@ =~= seq![KeyUsage::DigitalSignature, KeyUsage::KeyEncipherment]);
        assert(r.extended_key_usages@ =~= seq![ExtendedKeyUsage::ServerAuth]);
        Some(r)
    }

    /// The subject common name, if the template sets one.
    pub fn common_name(&self) -> (r: Option<&String>)
        ensures
            r matches Some(s) ==> self.common_name == Some(*s),
            r is None <==> self.common_name is None,
    {
        self.common_name.as_ref()
    }
}

} // verus!
