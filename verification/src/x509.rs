//! The certificate codec. Keys are generated and parsed, and certificates are
//! built and signed, by the `rcgen` crate; this module holds the contracts that
//! the rest of the library takes on trust for it.
//!
//! A `CertificateParams` is opaque to the verifier. What it holds is spoken of
//! through [`ParamsView`], which the functions below relate to the calls that
//! fill it. What a signed certificate says is spoken of through
//! [`CertificateView`], over its DER encoding.
//!
//! A distinguished name is read from a certificate by the `x509-parser` crate,
//! and a PEM text is opened by the `pem` crate, the two that `rcgen` itself
//! reads a root with.

use crate::config::DnAttribute;
use rcgen::Error as CodecError;
use rcgen::{
    BasicConstraints, Certificate, CertificateParams, DnType, ExtendedKeyUsagePurpose, IsCa, Issuer,
    KeyPair, KeyUsagePurpose, PKCS_ECDSA_P256_SHA256, PKCS_ECDSA_P384_SHA384,
};
use vstd::prelude::*;
use vstd::utf8::is_ascii_chars;

verus! {

/// `rcgen::CertificateParams`: what a certificate is to say.
#[verifier::external_type_specification]
#[verifier::external_body]
pub struct ExCertificateParams(CertificateParams);

/// `rcgen::KeyPair`: a private key with its public half.
#[verifier::external_type_specification]
#[verifier::external_body]
pub struct ExKeyPair(KeyPair);

/// `rcgen::Certificate`: a signed certificate.
#[verifier::external_type_specification]
#[verifier::external_body]
pub struct ExCertificate(Certificate);

/// `rcgen::Issuer`: the name of a certificate authority with its signing key.
#[verifier::external_type_specification]
#[verifier::external_body]
#[verifier::reject_recursive_types(S)]
pub struct ExIssuer<'a, S>(Issuer<'a, S>);

/// `rcgen::Error`: why the codec refused.
#[verifier::external_type_specification]
#[verifier::external_body]
pub struct ExCodecError(CodecError);

/// The elliptic curve of a key pair. A root and the leaves under it may use
/// either; a loaded root keeps the curve it was created with.
#[derive(Debug, Clone, Copy, PartialEq, Eq, Structural)]
pub enum Curve {
    P256,
    P384,
}

impl Default for Curve {
    /// P-384, for roots and leaves alike.
    fn default() -> (curve: Curve)
        ensures
            curve == Curve::P384,
    {
        Curve::P384
    }
}

/// Whether a certificate may sign others.
#[derive(Debug, Clone, Copy, PartialEq, Eq, Structural)]
pub enum CaConstraint {
    /// An end entity: no basic constraints are written.
    NotCa,
    /// A certificate authority, with no limit on the length of the chain
    /// below it.
    Unconstrained,
}

/// The key usages that this library grants.
#[derive(Debug, Clone, Copy, PartialEq, Eq, Structural)]
pub enum KeyUsage {
    DigitalSignature,
    KeyEncipherment,
    KeyCertSign,
}

/// The extended key usages that this library grants.
#[derive(Debug, Clone, Copy, PartialEq, Eq, Structural)]
pub enum ExtendedKeyUsage {
    ServerAuth,
}

/// A subject alternative name as the codec holds it.
pub enum SanName {
    /// A DNS name, with its text.
    Dns(Seq<char>),
    /// An IP address, with its four or sixteen octets.
    Ip(Seq<u8>),
}

/// The entries of the field `distinguished_name` of `params` for the five
/// attributes of [`DnAttribute`], each with its text, in the order in which
/// the name holds them.
pub uninterp spec fn params_subject(params: CertificateParams) -> Seq<(DnAttribute, Seq<char>)>;

/// The entries of the field `subject_alt_names` of `params` that are DNS
/// names or IP addresses, in order: a DNS name with its text, an IP address
/// with its octets.
pub uninterp spec fn params_sans(params: CertificateParams) -> Seq<SanName>;

/// The field `is_ca` of `params`: `Unconstrained` exactly where it is
/// `IsCa::Ca(BasicConstraints::Unconstrained)`.
pub uninterp spec fn params_ca(params: CertificateParams) -> CaConstraint;

/// The entries of the field `key_usages` of `params` for the usages of
/// [`KeyUsage`], in order.
pub uninterp spec fn params_key_usages(params: CertificateParams) -> Seq<KeyUsage>;

/// The entries of the field `extended_key_usages` of `params` for the usages
/// of [`ExtendedKeyUsage`], in order.
pub uninterp spec fn params_extended_key_usages(params: CertificateParams) -> Seq<
    ExtendedKeyUsage,
>;

/// How much `params` holds that this library never writes: the number of its
/// custom extensions, of its CRL distribution points and of its name
/// constraints, of its subject attributes of another type than the five or
/// with another value than a UTF-8 string, of its subject alternative names
/// that are neither DNS names nor IP addresses, and of its key usages and
/// extended key usages outside [`KeyUsage`] and [`ExtendedKeyUsage`].
pub uninterp spec fn params_others(params: CertificateParams) -> nat;

/// The subject of the certificate encoded in `der`: its attributes of the five
/// types of [`DnAttribute`], each with its text, in order.
pub uninterp spec fn der_subject(der: Seq<u8>) -> Seq<(DnAttribute, Seq<char>)>;

/// The subject alternative names of the certificate encoded in `der` that are
/// DNS names or IP addresses, in order; none where it has no such extension.
pub uninterp spec fn der_sans(der: Seq<u8>) -> Seq<SanName>;

/// Whether the certificate encoded in `der` is an authority without a limit:
/// `Unconstrained` exactly where its basic constraints say that it is a
/// certificate authority and give no path length.
pub uninterp spec fn der_ca(der: Seq<u8>) -> CaConstraint;

/// The key usages of [`KeyUsage`] that the certificate encoded in `der`
/// grants. The encoding is a set of bits and keeps no order.
pub uninterp spec fn der_key_usages(der: Seq<u8>) -> Set<KeyUsage>;

/// The extended key usages of [`ExtendedKeyUsage`] that the certificate
/// encoded in `der` grants, in order; none where it has no such extension.
pub uninterp spec fn der_extended_key_usages(der: Seq<u8>) -> Seq<ExtendedKeyUsage>;

/// What `pem::parse` reads from `text`: the contents of its first block, or
/// `None` where it finds none that is well-formed.
pub uninterp spec fn pem_body(text: Seq<char>) -> Option<Seq<u8>>;

/// What `x509_parser::parse_x509_certificate` reads as the subject of the
/// certificate encoded in `der`: every attribute in order. `None` where `der`
/// is no certificate, or where a component of an object identifier does not
/// fit 64 bits.
pub uninterp spec fn subject_attributes(der: Seq<u8>) -> Option<Seq<NameAttributeView>>;

/// Whether `Issuer::from_ca_cert_der` accepts the certificate encoded in
/// `der` as that of a certificate authority to sign with.
pub uninterp spec fn issuer_accepted(der: Seq<u8>) -> bool;

/// The PKCS#8 document of the key that `issuer` signs with.
pub uninterp spec fn issuer_key(issuer: Issuer<'static, KeyPair>) -> Seq<u8>;

/// The issuer of the certificate encoded in `der`: the attributes of its name
/// in order, each with the components of its type, the tag of the string type
/// of its value and the bytes of its value.
pub uninterp spec fn der_issuer(der: Seq<u8>) -> Seq<NameAttributeView>;

/// Whether the certificate encoded in `der` names itself as its issuer: its
/// issuer is its subject.
pub uninterp spec fn self_issued(der: Seq<u8>) -> bool;

/// Whether the signature of the certificate encoded in `der` was made with
/// the private key in the PKCS#8 document `key`, so that it verifies under
/// the public half of that key.
pub uninterp spec fn signed_with(der: Seq<u8>, key: Seq<u8>) -> bool;

/// Whether the certificate encoded in `der` certifies the public half of the
/// private key in the PKCS#8 document `key`.
pub uninterp spec fn holds_key(der: Seq<u8>, key: Seq<u8>) -> bool;

/// Whether the PKCS#8 document `key` holds an ECDSA private key on `curve`.
pub uninterp spec fn on_curve(key: Seq<u8>, curve: Curve) -> bool;

/// The attributes of the distinguished name that `issuer` holds, in order,
/// each with the components of its type, the tag of the string type of its
/// value and the bytes of its value: what a certificate signed by it carries
/// as the name of its issuer.
pub uninterp spec fn issuer_name(issuer: Issuer<'static, KeyPair>) -> Seq<NameAttributeView>;

/// How `CertificateParams::new` reads one name: as an IP address, with its
/// octets, where the text is an IP literal, and as a DNS name, with that text,
/// where it is not.
pub uninterp spec fn san_name(text: Seq<char>) -> SanName;

/// The DER encoding that `certificate` holds.
pub uninterp spec fn certificate_bytes(certificate: Certificate) -> Seq<u8>;

/// The text that `Certificate::pem` gives for a certificate that holds `der`:
/// the bytes in base64 between the lines that mark a certificate. The lines
/// end as the target that the crate is built for ends them; of one build, the
/// text is a function of the bytes alone.
pub uninterp spec fn certificate_pem_text(der: Seq<u8>) -> Seq<char>;

/// The PKCS#8 document that `key` holds: the private key as it was generated
/// or read.
pub uninterp spec fn key_bytes(key: KeyPair) -> Seq<u8>;

/// The text that `KeyPair::serialize_pem` gives for a key pair that holds
/// `document`: the bytes in base64 between the lines that mark a private key.
/// The lines end as the target that the crate is built for ends them; of one
/// build, the text is a function of the bytes alone.
pub uninterp spec fn key_pem_text(document: Seq<u8>) -> Seq<char>;

/// What a `CertificateParams` holds: the five parts that this library fills,
/// and how much there is beside them.
pub struct ParamsView {
    pub subject: Seq<(DnAttribute, Seq<char>)>,
    pub sans: Seq<SanName>,
    pub ca: CaConstraint,
    pub key_usages: Seq<KeyUsage>,
    pub extended_key_usages: Seq<ExtendedKeyUsage>,
    pub others: nat,
}

/// The parts of `params` together.
pub open spec fn params_view(params: CertificateParams) -> ParamsView {
    ParamsView {
        subject: params_subject(params),
        sans: params_sans(params),
        ca: params_ca(params),
        key_usages: params_key_usages(params),
        extended_key_usages: params_extended_key_usages(params),
        others: params_others(params),
    }
}

/// What a signed certificate says, as far as this library decides it.
pub struct CertificateView {
    pub subject: Seq<(DnAttribute, Seq<char>)>,
    pub sans: Seq<SanName>,
    pub ca: CaConstraint,
    pub key_usages: Set<KeyUsage>,
    pub extended_key_usages: Seq<ExtendedKeyUsage>,
}

/// What the certificate encoded in `der` says.
pub open spec fn certificate_view(der: Seq<u8>) -> CertificateView {
    CertificateView {
        subject: der_subject(der),
        sans: der_sans(der),
        ca: der_ca(der),
        key_usages: der_key_usages(der),
        extended_key_usages: der_extended_key_usages(der),
    }
}

/// What a certificate says that was signed over parameters that hold
/// `params`: the same, but that the key usages have lost their order.
pub open spec fn certified(params: ParamsView) -> CertificateView {
    CertificateView {
        subject: params.subject,
        sans: params.sans,
        ca: params.ca,
        key_usages: params.key_usages.to_set(),
        extended_key_usages: params.extended_key_usages,
    }
}

/// One attribute of a distinguished name, as it stands in a certificate.
#[derive(Debug, Clone)]
pub struct NameAttribute {
    /// The type, as the components of its object identifier.
    pub oid: Vec<u64>,
    /// The ASN.1 tag of the string type of the value: 12 for a UTF-8 string,
    /// 19 for a printable string.
    pub tag: u32,
    /// The bytes of the value.
    pub data: Vec<u8>,
}

/// A [`NameAttribute`] with its fields as sequences.
pub struct NameAttributeView {
    pub oid: Seq<u64>,
    pub tag: u32,
    pub data: Seq<u8>,
}

impl View for NameAttribute {
    type V = NameAttributeView;

    open spec fn view(&self) -> NameAttributeView {
        NameAttributeView { oid: self.oid@, tag: self.tag, data: self.data@ }
    }
}

/// The views of the attributes of a name.
pub open spec fn name_view(name: Seq<NameAttribute>) -> Seq<NameAttributeView> {
    Seq::new(name.len(), |i: int| name[i]@)
}

/// The view of a name that may not have been read.
pub open spec fn read_name_view(read: Option<Vec<NameAttribute>>) -> Option<
    Seq<NameAttributeView>,
> {
    match read {
        Some(name) => Some(name_view(name@)),
        None => None,
    }
}

/// The view of bytes that may not have been read.
pub open spec fn read_bytes_view(read: Option<Vec<u8>>) -> Option<Seq<u8>> {
    match read {
        Some(bytes) => Some(bytes@),
        None => None,
    }
}

/// Whether `name` has an attribute of the type `oid`.
pub open spec fn name_has(name: Seq<NameAttributeView>, oid: Seq<u64>) -> bool {
    exists|i: int| 0 <= i < name.len() && (#[trigger] name[i]).oid == oid
}

/// `name` after `attribute` was put into it: an attribute of that type that
/// is there keeps its place and takes the value, a new one goes to the end.
pub open spec fn name_with(name: Seq<NameAttributeView>, attribute: NameAttributeView) -> Seq<
    NameAttributeView,
> {
    if name_has(name, attribute.oid) {
        Seq::new(
            name.len(),
            |i: int|
                if name[i].oid == attribute.oid {
                    attribute
                } else {
                    name[i]
                },
        )
    } else {
        name.push(attribute)
    }
}

/// The name that the codec keeps of a subject: the attributes put into it one
/// after the other, so that of each type there is one, where the first of
/// that type stood and with the value of the last.
pub open spec fn kept(subject: Seq<NameAttributeView>) -> Seq<NameAttributeView>
    decreases subject.len(),
{
    if subject.len() == 0 {
        Seq::empty()
    } else {
        name_with(kept(subject.drop_last()), subject.last())
    }
}

/// The tag of a printable string.
pub const PRINTABLE_STRING_TAG: u32 = 19;

/// The largest second component of an object identifier that the codec
/// writes.
pub const SECOND_COMPONENT_LIMIT: u64 = 18446744073709551535;

/// Whether the codec can write the object identifier with these components:
/// there are two at least, the first is 0, 1 or 2, and under 0 and 1 the
/// second is below 40. The codec panics on any other.
pub open spec fn oid_writable(oid: Seq<u64>) -> bool {
    &&& oid.len() >= 2
    &&& oid[0] < 3
    &&& oid[1] < SECOND_COMPONENT_LIMIT
    &&& (oid[0] >= 2 || oid[1] < 40)
}

/// Whether the codec writes this byte in a printable string: a space, a
/// letter, one of `'` to `:` but `*`, or `=`. It panics on any other, the
/// question mark among them.
pub open spec fn printable_byte(byte: u8) -> bool {
    ||| byte == 32
    ||| (39 <= byte <= 58 && byte != 42)
    ||| byte == 61
    ||| 65 <= byte <= 90
    ||| 97 <= byte <= 122
}

/// Whether the codec writes each of these bytes in a printable string.
pub open spec fn printable_bytes(data: Seq<u8>) -> bool {
    forall|i: int| 0 <= i < data.len() ==> printable_byte(#[trigger] data[i])
}

/// Whether the codec can write this attribute.
pub open spec fn attribute_writable(attribute: NameAttributeView) -> bool {
    &&& oid_writable(attribute.oid)
    &&& attribute.tag == PRINTABLE_STRING_TAG ==> printable_bytes(attribute.data)
}

/// Whether the codec can write every attribute of this name.
pub open spec fn name_writable(name: Seq<NameAttributeView>) -> bool {
    forall|i: int| 0 <= i < name.len() ==> attribute_writable(#[trigger] name[i])
}

/// The common name that `rcgen` gives to parameters it creates.
pub const PLACEHOLDER_COMMON_NAME: &'static str = "rcgen self signed cert";

/// Whether `subject` has an entry for `attribute`.
pub open spec fn subject_has(
    subject: Seq<(DnAttribute, Seq<char>)>,
    attribute: DnAttribute,
) -> bool {
    exists|i: int| 0 <= i < subject.len() && (#[trigger] subject[i]).0 == attribute
}

/// `subject` after `attribute` was given `value`: an entry that is there keeps
/// its place and takes the value, a new one goes to the end.
pub open spec fn subject_with(
    subject: Seq<(DnAttribute, Seq<char>)>,
    attribute: DnAttribute,
    value: Seq<char>,
) -> Seq<(DnAttribute, Seq<char>)> {
    if subject_has(subject, attribute) {
        Seq::new(
            subject.len(),
            |i: int|
                if subject[i].0 == attribute {
                    (attribute, value)
                } else {
                    subject[i]
                },
        )
    } else {
        subject.push((attribute, value))
    }
}

/// Whether the codec accepts `text` as a subject alternative name: an IP
/// literal, or a DNS name of ASCII characters. Nothing else is asked of it.
pub open spec fn san_accepted(text: Seq<char>) -> bool {
    san_name(text) is Ip || is_ascii_chars(text)
}

/// Whether the codec accepts every name of `sans`.
pub open spec fn sans_accepted(sans: Seq<String>) -> bool {
    forall|i: int| 0 <= i < sans.len() ==> san_accepted(#[trigger] sans[i]@)
}

/// The names of `sans` as the codec reads them, in the same order.
pub open spec fn names_of(sans: Seq<String>) -> Seq<SanName> {
    Seq::new(sans.len(), |i: int| san_name(sans[i]@))
}

/// Whether each DNS name among `names` has the text that `sans` gave in its
/// place.
pub open spec fn dns_verbatim(sans: Seq<String>, names: Seq<SanName>) -> bool {
    forall|i: int|
        0 <= i < sans.len() && i < names.len() && (#[trigger] names[i]) is Dns ==> names[i]
            == SanName::Dns(sans[i]@)
}

/// Whether `names` is `sans` as the codec reads it: name for name, in the
/// same order, a DNS name with the text that was given.
pub open spec fn sans_read(sans: Seq<String>, names: Seq<SanName>) -> bool {
    names == names_of(sans) && dns_verbatim(sans, names)
}

/// What fresh parameters hold but for their names: the placeholder subject,
/// no authority, no usages, and nothing beside.
pub open spec fn fresh_params(sans: Seq<SanName>) -> ParamsView {
    ParamsView {
        subject: seq![(DnAttribute::CommonName, PLACEHOLDER_COMMON_NAME@)],
        sans,
        ca: CaConstraint::NotCa,
        key_usages: Seq::empty(),
        extended_key_usages: Seq::empty(),
        others: 0,
    }
}

/// Calls `CertificateParams::default`: the parameters have the placeholder
/// common name as their only subject attribute, no subject alternative name,
/// no basic constraints, no usages and no custom extension.
#[verifier::external_body]
pub(crate) fn params_default() -> (params: CertificateParams)
    ensures
        params_others(params) == 0,
        params_subject(params) == fresh_params(Seq::empty()).subject,
        params_sans(params) == Seq::<SanName>::empty(),
        params_ca(params) == CaConstraint::NotCa,
        params_key_usages(params) == Seq::<KeyUsage>::empty(),
        params_extended_key_usages(params) == Seq::<ExtendedKeyUsage>::empty(),
{
    CertificateParams::default()
}

/// Calls `CertificateParams::new`: it reads each name as an IP address or,
/// failing that, as a DNS name, which must be ASCII. It succeeds exactly when
/// every name is accepted; the parameters then hold the names in the order
/// given and are otherwise as `CertificateParams::default` makes them.
#[verifier::external_body]
pub(crate) fn params_new(sans: Vec<String>) -> (made: Result<CertificateParams, CodecError>)
    ensures
        made is Ok <==> sans_accepted(sans@),
        made matches Ok(params) ==> params_sans(params) == Seq::new(
            sans@.len(),
            |i: int| san_name(sans@[i]@),
        ),
        made matches Ok(params) ==> dns_verbatim(sans@, params_sans(params)),
        made matches Ok(params) ==> params_view(params) == fresh_params(params_sans(params)),
{
    CertificateParams::new(sans)
}

/// Calls `DistinguishedName::push` on the subject of `params`: the attribute
/// takes the value, as a UTF-8 string, in its old place if the subject had it
/// and at the end if not. Nothing else changes, but that a value of another
/// string type may have gone.
#[verifier::external_body]
pub(crate) fn push_dn(params: &mut CertificateParams, attribute: DnAttribute, value: String)
    ensures
        params_view(*final(params)) == (ParamsView {
            subject: subject_with(params_subject(*old(params)), attribute, value@),
            others: params_others(*final(params)),
            ..params_view(*old(params))
        }),
        params_others(*final(params)) <= params_others(*old(params)),
{
    let ty = match attribute {
        DnAttribute::CommonName => DnType::CommonName,
        DnAttribute::Locality => DnType::LocalityName,
        DnAttribute::Country => DnType::CountryName,
        DnAttribute::Organization => DnType::OrganizationName,
        DnAttribute::OrganizationalUnit => DnType::OrganizationalUnitName,
    };
    params.distinguished_name.push(ty, value);
}

/// Sets the field `is_ca` of `params`: to `IsCa::NoCa` for `NotCa`, and to
/// `IsCa::Ca(BasicConstraints::Unconstrained)` for `Unconstrained`. Nothing
/// else changes.
#[verifier::external_body]
pub(crate) fn set_ca(params: &mut CertificateParams, constraint: CaConstraint)
    ensures
        params_view(*final(params)) == (ParamsView { ca: constraint, ..params_view(*old(params)) }),
{
    params.is_ca = match constraint {
        CaConstraint::NotCa => IsCa::NoCa,
        CaConstraint::Unconstrained => IsCa::Ca(BasicConstraints::Unconstrained),
    };
}

/// Appends the `KeyUsagePurpose` of the same name to the field `key_usages`
/// of `params`. Nothing else changes.
#[verifier::external_body]
pub(crate) fn push_key_usage(params: &mut CertificateParams, usage: KeyUsage)
    ensures
        params_view(*final(params)) == (ParamsView {
            key_usages: params_key_usages(*old(params)).push(usage),
            ..params_view(*old(params))
        }),
{
    params.key_usages.push(
        match usage {
            KeyUsage::DigitalSignature => KeyUsagePurpose::DigitalSignature,
            KeyUsage::KeyEncipherment => KeyUsagePurpose::KeyEncipherment,
            KeyUsage::KeyCertSign => KeyUsagePurpose::KeyCertSign,
        },
    );
}

/// Appends the `ExtendedKeyUsagePurpose` of the same name to the field
/// `extended_key_usages` of `params`. Nothing else changes.
#[verifier::external_body]
pub(crate) fn push_extended_key_usage(params: &mut CertificateParams, usage: ExtendedKeyUsage)
    ensures
        params_view(*final(params)) == (ParamsView {
            extended_key_usages: params_extended_key_usages(*old(params)).push(usage),
            ..params_view(*old(params))
        }),
{
    params.extended_key_usages.push(
        match usage {
            ExtendedKeyUsage::ServerAuth => ExtendedKeyUsagePurpose::ServerAuth,
        },
    );
}

/// Calls `KeyPair::generate_for` with the ECDSA algorithm of `curve`. The key
/// is random, and generation may fail; a key that comes back is on the curve.
#[verifier::external_body]
pub(crate) fn generate_key(curve: Curve) -> (made: Result<KeyPair, CodecError>)
    ensures
        made matches Ok(key) ==> on_curve(key_bytes(key), curve),
{
    KeyPair::generate_for(
        match curve {
            Curve::P256 => &PKCS_ECDSA_P256_SHA256,
            Curve::P384 => &PKCS_ECDSA_P384_SHA384,
        },
    )
}

/// Calls `KeyPair::from_pem`, which opens the text with `pem::parse`. Whether
/// the key is accepted is for the codec to say; a key pair that comes back
/// holds the contents of the block as its document.
#[verifier::external_body]
pub(crate) fn key_from_pem(pem: &str) -> (read: Result<KeyPair, CodecError>)
    ensures
        read matches Ok(key) ==> pem_body(pem@) == Some(key_bytes(key)),
{
    KeyPair::from_pem(pem)
}

/// Calls `KeyPair::serialize_pem`: the PKCS#8 document that the key pair
/// holds, in PEM form.
#[verifier::external_body]
pub(crate) fn key_to_pem(key: &KeyPair) -> (pem: String)
    ensures
        pem@ == key_pem_text(key_bytes(*key)),
{
    key.serialize_pem()
}

/// Calls `pem::parse`, and takes the contents of the block that it read.
#[verifier::external_body]
pub(crate) fn pem_contents(text: &str) -> (read: Option<Vec<u8>>)
    ensures
        read_bytes_view(read) == pem_body(text@),
{
    pem::parse(text).ok().map(|block| block.into_contents())
}

/// Calls `x509_parser::parse_x509_certificate`, and takes from the subject
/// that it read, attribute by attribute, the components of the type, the tag
/// of the value and the bytes of the value.
#[verifier::external_body]
pub(crate) fn read_subject(der: &[u8]) -> (read: Option<Vec<NameAttribute>>)
    ensures
        read_name_view(read) == subject_attributes(der@),
{
    let (_, certificate) = x509_parser::parse_x509_certificate(der).ok()?;
    certificate.subject().iter_attributes().map(
        |attribute|
            Some(
                NameAttribute {
                    oid: attribute.attr_type().iter()?.collect(),
                    tag: attribute.attr_value().header.tag().0,
                    data: attribute.attr_value().data.to_vec(),
                },
            ),
    ).collect()
}

/// Calls `Issuer::from_ca_cert_der`, which reads the subject of the
/// certificate with `x509_parser::parse_x509_certificate` and puts its
/// attributes one after the other into the name of the issuer. Whether the
/// certificate is accepted goes by its bytes alone. An issuer that comes back
/// has the name kept of the subject, and signs with the key that was given.
#[verifier::external_body]
pub(crate) fn issuer_from_ca_der(der: &[u8], key: KeyPair) -> (read: Result<
    Issuer<'static, KeyPair>,
    CodecError,
>)
    ensures
        read is Ok <==> issuer_accepted(der@),
        read matches Ok(issuer) ==> subject_attributes(der@) is Some,
        read matches Ok(issuer) ==> issuer_name(issuer) == kept(
            subject_attributes(der@).unwrap(),
        ),
        read matches Ok(issuer) ==> issuer_key(issuer) == key_bytes(key),
{
    Issuer::from_ca_cert_der(&der.into(), key)
}

/// Calls `CertificateParams::self_signed`, on parameters that hold nothing
/// but what this library writes. The signature is randomised, and signing may
/// fail. A certificate that comes back says what the parameters hold:
/// subject, names and extended key usages in their order, the key usages as a
/// set, and the authority. It certifies the public half of the key, is signed
/// with the key, and names itself as its issuer.
#[verifier::external_body]
pub(crate) fn self_signed(params: &CertificateParams, key: &KeyPair) -> (signed: Result<
    Certificate,
    CodecError,
>)
    requires
        params_others(*params) == 0,
    ensures
        signed matches Ok(certificate) ==> der_subject(certificate_bytes(certificate))
            == params_subject(*params),
        signed matches Ok(certificate) ==> der_sans(certificate_bytes(certificate)) == params_sans(
            *params,
        ),
        signed matches Ok(certificate) ==> der_ca(certificate_bytes(certificate)) == params_ca(
            *params,
        ),
        signed matches Ok(certificate) ==> der_key_usages(certificate_bytes(certificate))
            == params_key_usages(*params).to_set(),
        signed matches Ok(certificate) ==> der_extended_key_usages(certificate_bytes(certificate))
            == params_extended_key_usages(*params),
        signed matches Ok(certificate) ==> holds_key(
            certificate_bytes(certificate),
            key_bytes(*key),
        ),
        signed matches Ok(certificate) ==> signed_with(
            certificate_bytes(certificate),
            key_bytes(*key),
        ),
        signed matches Ok(certificate) ==> self_issued(certificate_bytes(certificate)),
{
    params.self_signed(key)
}

/// Calls `CertificateParams::signed_by`, on parameters that hold nothing but
/// what this library writes and with an issuer whose name the codec can
/// write: it panics on another. The signature is randomised, and signing may
/// fail. A certificate that comes back says what the parameters hold, as one
/// from `self_signed` does. It certifies the public half of the key, is
/// signed with the key of the issuer, and carries the name of the issuer.
#[verifier::external_body]
pub(crate) fn signed_by(
    params: &CertificateParams,
    key: &KeyPair,
    issuer: &Issuer<'static, KeyPair>,
) -> (signed: Result<Certificate, CodecError>)
    requires
        params_others(*params) == 0,
        name_writable(issuer_name(*issuer)),
    ensures
        signed matches Ok(certificate) ==> certificate_view(certificate_bytes(certificate))
            == certified(params_view(*params)),
        signed matches Ok(certificate) ==> holds_key(
            certificate_bytes(certificate),
            key_bytes(*key),
        ),
        signed matches Ok(certificate) ==> signed_with(
            certificate_bytes(certificate),
            issuer_key(*issuer),
        ),
        signed matches Ok(certificate) ==> der_issuer(certificate_bytes(certificate))
            == issuer_name(*issuer),
{
    params.signed_by(key, issuer)
}

/// Calls `Certificate::pem`: the DER encoding that the certificate holds, in
/// PEM form.
#[verifier::external_body]
pub(crate) fn certificate_pem(certificate: &Certificate) -> (pem: String)
    ensures
        pem@ == certificate_pem_text(certificate_bytes(*certificate)),
{
    certificate.pem()
}

/// Calls `Certificate::der`: the DER encoding that the certificate holds.
#[verifier::external_body]
pub(crate) fn certificate_der(certificate: &Certificate) -> (der: Vec<u8>)
    ensures
        der@ == certificate_bytes(*certificate),
{
    certificate.der().to_vec()
}

/// Formats an `rcgen::Error` as its `Display` writes it. Nothing is promised
/// of the text.
#[verifier::external_body]
pub(crate) fn describe(error: &CodecError) -> (text: String) {
    format!("{error}")
}

} // verus!
