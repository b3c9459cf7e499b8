//! The root certificate authority: what its certificate says, how it is
//! created, and how a persisted one is loaded for signing.

use crate::config::{Config, ConfigView, DnAttribute};
use crate::error::Error;
use crate::x509::{
    attribute_writable, certificate_bytes, certificate_der, certificate_pem, certificate_pem_text,
    certificate_view, certified, describe, generate_key, holds_key, issuer_accepted,
    issuer_from_ca_der, issuer_key, issuer_name, kept, key_bytes, key_from_pem, key_pem_text,
    key_to_pem, name_has, name_view, name_with, name_writable, oid_writable, on_curve, pem_body,
    pem_contents, printable_byte, printable_bytes, read_subject, self_issued, signed_with,
    subject_attributes, NameAttribute, NameAttributeView, PRINTABLE_STRING_TAG,
    SECOND_COMPONENT_LIMIT,
    params_default, params_others, params_subject, params_view, push_dn, push_extended_key_usage,
    push_key_usage, self_signed, set_ca, subject_has, subject_with, CaConstraint, Curve,
    ExtendedKeyUsage, KeyUsage, ParamsView, PLACEHOLDER_COMMON_NAME,
};
use rcgen::Error as CodecError;
use rcgen::{Certificate, CertificateParams, Issuer, KeyPair};
use vstd::prelude::*;

verus! {

/// A private key and the certificate over its public half, in the forms in
/// which they are stored and identified.
#[derive(Debug, Clone)]
pub struct KeyMaterial {
    /// The private key, in PEM.
    pub key_pem: String,
    /// The certificate, in PEM.
    pub cert_pem: String,
    /// The certificate, in DER: what the thumbprint is taken of.
    pub cert_der: Vec<u8>,
}

/// What the certificate of the root says: the identity as its subject, an
/// authority without a limit on the chain below it, the key usages digital
/// signature, key encipherment and certificate signing, and the extended key
/// usage server authentication.
pub open spec fn ca_profile(identity: ConfigView) -> ParamsView {
    ParamsView {
        subject: identity.subject(),
        sans: Seq::empty(),
        ca: CaConstraint::Unconstrained,
        key_usages: seq![
            KeyUsage::DigitalSignature,
            KeyUsage::KeyEncipherment,
            KeyUsage::KeyCertSign,
        ],
        extended_key_usages: seq![ExtendedKeyUsage::ServerAuth],
        others: 0,
    }
}

/// Writing the five attributes of an identity over the placeholder subject
/// leaves exactly the subject of the identity.
proof fn lemma_subject_written(identity: ConfigView)
    ensures
        ({
            let start = seq![(DnAttribute::CommonName, PLACEHOLDER_COMMON_NAME@)];
            let one = subject_with(
                start,
                DnAttribute::CommonName,
                identity.attribute(DnAttribute::CommonName),
            );
            let two = subject_with(
                one,
                DnAttribute::Locality,
                identity.attribute(DnAttribute::Locality),
            );
            let three = subject_with(
                two,
                DnAttribute::Country,
                identity.attribute(DnAttribute::Country),
            );
            let four = subject_with(
                three,
                DnAttribute::Organization,
                identity.attribute(DnAttribute::Organization),
            );
            subject_with(
                four,
                DnAttribute::OrganizationalUnit,
                identity.attribute(DnAttribute::OrganizationalUnit),
            )
        }) == identity.subject(),
{
    let start = seq![(DnAttribute::CommonName, PLACEHOLDER_COMMON_NAME@)];
    assert(start[0].0 == DnAttribute::CommonName);
    assert(subject_has(start, DnAttribute::CommonName));
}

/// Writes the subject of `identity` into fresh parameters: common name,
/// locality, country, organization, organizational unit.
pub(crate) fn write_subject(params: &mut CertificateParams, identity: &Config)
    requires
        params_subject(*old(params)) == seq![(DnAttribute::CommonName, PLACEHOLDER_COMMON_NAME@)],
        params_others(*old(params)) == 0,
    ensures
        params_view(*final(params)) == (ParamsView {
            subject: identity@.subject(),
            ..params_view(*old(params))
        }),
{
    proof {
        lemma_subject_written(identity@);
    }
    push_dn(params, DnAttribute::CommonName, identity.attribute(DnAttribute::CommonName));
    push_dn(params, DnAttribute::Locality, identity.attribute(DnAttribute::Locality));
    push_dn(params, DnAttribute::Country, identity.attribute(DnAttribute::Country));
    push_dn(params, DnAttribute::Organization, identity.attribute(DnAttribute::Organization));
    push_dn(
        params,
        DnAttribute::OrganizationalUnit,
        identity.attribute(DnAttribute::OrganizationalUnit),
    );
}

/// The parameters of the root certificate for `identity`.
pub fn ca_params(identity: &Config) -> (params: CertificateParams)
    ensures
        params_view(params) == ca_profile(identity@),
{
    let mut params = params_default();
    write_subject(&mut params, identity);
    set_ca(&mut params, CaConstraint::Unconstrained);
    push_key_usage(&mut params, KeyUsage::DigitalSignature);
    push_key_usage(&mut params, KeyUsage::KeyEncipherment);
    push_key_usage(&mut params, KeyUsage::KeyCertSign);
    push_extended_key_usage(&mut params, ExtendedKeyUsage::ServerAuth);
    assert(params_view(params).key_usages =~= ca_profile(identity@).key_usages);
    params
}

/// What a refusal of the codec becomes where a key is generated or a
/// certificate signed: a cryptographic failure. A success passes through.
pub fn crypto_outcome<T>(outcome: Result<T, CodecError>) -> (mapped: Result<T, Error>)
    ensures
        outcome matches Ok(value) ==> mapped == Ok::<T, Error>(value),
        outcome is Err ==> (mapped matches Err(e) && e is Crypto),
{
    match outcome {
        Ok(value) => Ok(value),
        Err(refusal) => Err(Error::Crypto(describe(&refusal))),
    }
}

/// What a refusal of the codec becomes where input is read: a parse error.
/// A success passes through.
pub fn parse_outcome<T>(outcome: Result<T, CodecError>) -> (mapped: Result<T, Error>)
    ensures
        outcome matches Ok(value) ==> mapped == Ok::<T, Error>(value),
        outcome is Err ==> (mapped matches Err(e) && e is Parse),
{
    match outcome {
        Ok(value) => Ok(value),
        Err(refusal) => Err(Error::Parse(describe(&refusal))),
    }
}

/// Whether `material` holds the stored forms of `key` and of `certificate`:
/// the key in PEM, and the certificate in PEM and in DER.
pub open spec fn material_of(
    material: KeyMaterial,
    key: KeyPair,
    certificate: Certificate,
) -> bool {
    &&& material.key_pem@ == key_pem_text(key_bytes(key))
    &&& material.cert_pem@ == certificate_pem_text(certificate_bytes(certificate))
    &&& material.cert_der@ == certificate_bytes(certificate)
}

/// Whether `material` holds the stored forms of one key pair and of one
/// certificate. Its certificate in PEM is then the one that it holds in DER.
pub open spec fn is_stored_forms(material: KeyMaterial) -> bool {
    exists|key: KeyPair, certificate: Certificate| #[trigger]
        material_of(material, key, certificate)
}

/// Whether the key of `material` is an ECDSA key on `curve` whose public half
/// the certificate of `material` certifies.
pub open spec fn is_certified_key(material: KeyMaterial, curve: Curve) -> bool {
    exists|document: Seq<u8>|
        {
            &&& material.key_pem@ == #[trigger] key_pem_text(document)
            &&& on_curve(document, curve)
            &&& holds_key(material.cert_der@, document)
        }
}

/// Whether the key of `material` is an ECDSA key on `curve` whose public half
/// the certificate of `material` certifies and with which that certificate is
/// signed: the certificate verifies against its own key.
pub open spec fn is_own_key(material: KeyMaterial, curve: Curve) -> bool {
    exists|document: Seq<u8>|
        {
            &&& material.key_pem@ == #[trigger] key_pem_text(document)
            &&& on_curve(document, curve)
            &&& holds_key(material.cert_der@, document)
            &&& signed_with(material.cert_der@, document)
        }
}

/// The stored forms of a key and its certificate.
pub(crate) fn key_material(key: &KeyPair, certificate: &Certificate) -> (material: KeyMaterial)
    ensures
        material_of(material, *key, *certificate),
{
    KeyMaterial {
        key_pem: key_to_pem(key),
        cert_pem: certificate_pem(certificate),
        cert_der: certificate_der(certificate),
    }
}

/// Creates a root: a fresh key pair on `curve`, and over it a certificate
/// that says [`ca_profile`] of `identity`, signed with that same key.
///
/// Whether the key can be generated and the certificate signed is for the
/// codec to say; if it refuses, the failure is cryptographic. What comes back
/// otherwise is the stored forms of that key and of that certificate: the
/// certificate in PEM is the one in DER, of which the thumbprint is taken.
/// It says [`ca_profile`] of `identity`, certifies the public half of the key
/// that comes with it, is signed with that key and names itself as its
/// issuer; the key is on `curve`. Nothing is stored: that is the caller's
/// part.
pub fn create_ca(identity: &Config, curve: Curve) -> (made: Result<KeyMaterial, Error>)
    ensures
        made matches Err(e) ==> e is Crypto,
        made matches Ok(material) ==> is_stored_forms(material),
        made matches Ok(material) ==> material.cert_pem@ == certificate_pem_text(
            material.cert_der@,
        ),
        made matches Ok(material) ==> certificate_view(material.cert_der@) == certified(
            ca_profile(identity@),
        ),
        made matches Ok(material) ==> is_own_key(material, curve),
        made matches Ok(material) ==> self_issued(material.cert_der@),
{
    let params = ca_params(identity);
    let key = crypto_outcome(generate_key(curve))?;
    let certificate = crypto_outcome(self_signed(&params, &key))?;
    let material = key_material(&key, &certificate);
    assert(material_of(material, key, certificate));
    assert(material.key_pem@ == key_pem_text(key_bytes(key)));
    Ok(material)
}

/// The root as it is loaded for signing: the issuer that the codec works
/// with, and the name that it carries, attribute by attribute.
///
/// The name is the one that the issuer holds, and the codec can write every
/// attribute of it: a certificate signed by this root can carry its name.
pub struct Root {
    issuer: Issuer<'static, KeyPair>,
    name: Vec<NameAttribute>,
}

impl Root {
    /// What holds of every root: the name is that of the issuer, and the
    /// codec can write it.
    #[verifier::type_invariant]
    pub closed spec fn sound(self) -> bool {
        &&& issuer_name(self.issuer) == name_view(self.name@)
        &&& name_writable(name_view(self.name@))
    }

    /// The name of the root, attribute by attribute: what a certificate
    /// signed by it carries as the name of its issuer.
    pub closed spec fn name_view(self) -> Seq<NameAttributeView> {
        issuer_name(self.issuer)
    }

    /// The PKCS#8 document of the key that the root signs with.
    pub closed spec fn key_view(self) -> Seq<u8> {
        issuer_key(self.issuer)
    }

    /// The issuer, for the codec, which can write its name.
    pub fn issuer(&self) -> (issuer: &Issuer<'static, KeyPair>)
        ensures
            issuer_name(*issuer) == self.name_view(),
            issuer_key(*issuer) == self.key_view(),
            name_writable(issuer_name(*issuer)),
    {
        proof {
            use_type_invariant(self);
        }
        &self.issuer
    }

    /// The name of the root, attribute by attribute.
    pub fn name(&self) -> (name: &Vec<NameAttribute>)
        ensures
            name_view(name@) == self.name_view(),
            name_writable(self.name_view()),
    {
        proof {
            use_type_invariant(self);
        }
        &self.name
    }
}

/// The subject that a root certificate in PEM is read to have, if it can be
/// read.
pub open spec fn root_subject(cert_pem: Seq<char>) -> Option<Seq<NameAttributeView>> {
    match pem_body(cert_pem) {
        Some(der) => subject_attributes(der),
        None => None,
    }
}

/// Whether a root certificate in PEM can be loaded: it can be read, the codec
/// can write every attribute of the name that it keeps of the subject, and
/// the codec accepts the certificate as that of an issuer.
pub open spec fn root_loadable(cert_pem: Seq<char>) -> bool {
    &&& pem_body(cert_pem) matches Some(der)
    &&& subject_attributes(der) matches Some(subject)
    &&& name_writable(kept(subject))
    &&& issuer_accepted(der)
}

/// The name of the root whose certificate in PEM is `cert_pem`: what the
/// codec keeps of its subject. With no attribute type twice in the subject,
/// that is the subject.
pub open spec fn root_name(cert_pem: Seq<char>) -> Seq<NameAttributeView> {
    match root_subject(cert_pem) {
        Some(subject) => kept(subject),
        None => Seq::empty(),
    }
}

/// Whether the codec can write the object identifier with these components.
pub fn oid_is_writable(oid: &Vec<u64>) -> (writable: bool)
    ensures
        writable == oid_writable(oid@),
{
    oid.len() >= 2 && oid[0] < 3 && oid[1] < SECOND_COMPONENT_LIMIT && (oid[0] >= 2 || oid[1] < 40)
}

/// Whether the codec writes each of these bytes in a printable string.
pub fn bytes_are_printable(data: &Vec<u8>) -> (printable: bool)
    ensures
        printable == printable_bytes(data@),
{
    let mut i: usize = 0;
    while i < data.len()
        invariant
            i <= data.len(),
            forall|k: int| 0 <= k < i ==> printable_byte(#[trigger] data@[k]),
        decreases data.len() - i,
    {
        let byte = data[i];
        let printable = byte == 32 || (39 <= byte && byte <= 58 && byte != 42) || byte == 61 || (65
            <= byte && byte <= 90) || (97 <= byte && byte <= 122);
        if !printable {
            return false;
        }
        i += 1;
    }
    true
}

/// Whether the codec can write every attribute of this name.
pub fn name_is_writable(name: &Vec<NameAttribute>) -> (writable: bool)
    ensures
        writable == name_writable(name_view(name@)),
{
    let mut i: usize = 0;
    while i < name.len()
        invariant
            i <= name.len(),
            forall|k: int| 0 <= k < i ==> attribute_writable(#[trigger] name_view(name@)[k]),
        decreases name.len() - i,
    {
        let attribute = &name[i];
        assert(name_view(name@)[i as int] == attribute@);
        if !oid_is_writable(&attribute.oid) {
            return false;
        }
        if attribute.tag == PRINTABLE_STRING_TAG && !bytes_are_printable(&attribute.data) {
            return false;
        }
        i += 1;
    }
    true
}

/// Whether two object identifiers have the same components.
fn same_oid(a: &Vec<u64>, b: &Vec<u64>) -> (same: bool)
    ensures
        same == (a@ == b@),
{
    if a.len() != b.len() {
        return false;
    }
    let mut i: usize = 0;
    while i < a.len()
        invariant
            i <= a.len(),
            a.len() == b.len(),
            forall|k: int| 0 <= k < i ==> a@[k] == b@[k],
        decreases a.len() - i,
    {
        if a[i] != b[i] {
            return false;
        }
        i += 1;
    }
    assert(a@ =~= b@);
    true
}

/// An attribute with the same type, tag and value.
fn copy_of(attribute: &NameAttribute) -> (copy: NameAttribute)
    ensures
        copy@ == attribute@,
{
    let oid = attribute.oid.clone();
    let data = attribute.data.clone();
    assert(oid@ =~= attribute.oid@);
    assert(data@ =~= attribute.data@);
    NameAttribute { oid, tag: attribute.tag, data }
}

/// Puts `attribute` into `name`, as the codec does: over the attribute of its
/// type where there is one, and at the end where there is none.
fn put(name: &mut Vec<NameAttribute>, attribute: NameAttribute)
    ensures
        name_view(final(name)@) == name_with(name_view(old(name)@), attribute@),
{
    let ghost before = name_view(name@);
    let mut found = false;
    let mut j: usize = 0;
    while j < name.len()
        invariant
            j <= name.len(),
            name.len() == before.len(),
            found == (exists|k: int| 0 <= k < j && (#[trigger] before[k]).oid == attribute@.oid),
            forall|k: int|
                0 <= k < name.len() ==> (#[trigger] name@[k])@ == (if k < j && before[k].oid
                    == attribute@.oid {
                    attribute@
                } else {
                    before[k]
                }),
        decreases name.len() - j,
    {
        if same_oid(&name[j].oid, &attribute.oid) {
            let copy = copy_of(&attribute);
            name.set(j, copy);
            found = true;
        }
        j += 1;
    }
    if found {
        assert(name_has(before, attribute@.oid));
        assert(name_view(name@) =~= name_with(before, attribute@));
    } else {
        assert(!name_has(before, attribute@.oid));
        name.push(attribute);
        assert(name_view(name@) =~= name_with(before, attribute@));
    }
}

/// The name that the codec keeps of a subject: of each type one attribute,
/// where the first of that type stood and with the value of the last.
pub fn keep_last(subject: &Vec<NameAttribute>) -> (name: Vec<NameAttribute>)
    ensures
        name_view(name@) == kept(name_view(subject@)),
{
    let mut name: Vec<NameAttribute> = Vec::new();
    let mut i: usize = 0;
    assert(name_view(name@) =~= kept(name_view(subject@).take(0)));
    while i < subject.len()
        invariant
            i <= subject.len(),
            name_view(name@) == kept(name_view(subject@).take(i as int)),
        decreases subject.len() - i,
    {
        put(&mut name, copy_of(&subject[i]));
        proof {
            let read = name_view(subject@);
            assert(read.take(i + 1).drop_last() == read.take(i as int));
            assert(read.take(i + 1).last() == subject@[i as int]@);
        }
        i += 1;
    }
    assert(name_view(subject@).take(i as int) == name_view(subject@));
    name
}

/// What the error says where the root certificate cannot be read.
pub const UNREADABLE_ROOT: &'static str = "Could not parse certificate";

/// What the error says where the name of the root could not be written into
/// a leaf.
pub const UNWRITABLE_ROOT: &'static str =
    "The subject of the root certificate holds an attribute that cannot be written again";

/// Makes the root of a key that was read and of the certificate in PEM.
///
/// The certificate has to be readable, the codec has to be able to write the
/// name that it keeps of the subject, and the codec has to accept the
/// certificate as that of an issuer: then, and only then, there is a root.
/// Anything else is a parse error. The root has the name kept of the subject,
/// and signs with the key.
pub fn root_from(key: KeyPair, cert_pem: &str) -> (loaded: Result<Root, Error>)
    ensures
        loaded is Ok <==> root_loadable(cert_pem@),
        loaded matches Err(e) ==> e is Parse,
        loaded matches Ok(root) ==> root.name_view() == root_name(cert_pem@),
        loaded matches Ok(root) ==> root.key_view() == key_bytes(key),
{
    let der = match pem_contents(cert_pem) {
        Some(der) => der,
        None => {
            return Err(Error::Parse(UNREADABLE_ROOT.to_owned()));
        },
    };
    let subject = match read_subject(der.as_slice()) {
        Some(subject) => subject,
        None => {
            return Err(Error::Parse(UNREADABLE_ROOT.to_owned()));
        },
    };
    let name = keep_last(&subject);
    if !name_is_writable(&name) {
        return Err(Error::Parse(UNWRITABLE_ROOT.to_owned()));
    }
    let issuer = parse_outcome(issuer_from_ca_der(der.as_slice(), key))?;
    Ok(Root { issuer, name })
}

/// Loads the persisted root for signing, from the contents of its two files;
/// `None` stands for a file that is not there.
///
/// With either file absent no root is installed, and that is what the error
/// says. A key text that holds no PEM block, and a certificate of which
/// [`root_from`] makes no root, are parse errors. Whether the key in the
/// block is well-formed is for the codec to say; if it refuses it, that is a
/// parse error too. A root that is loaded has the name kept of the subject of
/// the certificate, and signs with the key in the key file.
pub fn load_ca(key_pem: Option<&str>, cert_pem: Option<&str>) -> (loaded: Result<Root, Error>)
    ensures
        (key_pem is None || cert_pem is None) <==> (loaded matches Err(e) && e is NotFound),
        loaded matches Err(e) ==> e is NotFound || e is Parse,
        cert_pem matches Some(text) ==> (key_pem is Some && !root_loadable(text@) ==> (
        loaded matches Err(e) && e is Parse)),
        key_pem matches Some(text) ==> (cert_pem is Some && pem_body(text@) is None ==> (
        loaded matches Err(e) && e is Parse)),
        loaded matches Ok(root) ==> cert_pem matches Some(text) && root_loadable(text@)
            && root.name_view() == root_name(text@),
        loaded matches Ok(root) ==> key_pem matches Some(text) && pem_body(text@) == Some(
            root.key_view(),
        ),
{
    match (key_pem, cert_pem) {
        (Some(key_text), Some(cert_text)) => {
            let key = parse_outcome(key_from_pem(key_text))?;
            root_from(key, cert_text)
        },
        _ => Err(Error::NotFound),
    }
}

} // verus!
