//! Leaf certificates: what one says, and how it is issued under the root.

use crate::authority::{
    crypto_outcome, is_certified_key, is_stored_forms, key_material, load_ca, material_of,
    parse_outcome, root_loadable, root_name, write_subject, KeyMaterial, Root,
};
use crate::config::{Config, ConfigView};
use crate::error::Error;
use crate::x509::{
    certificate_pem_text, certificate_view, certified, der_issuer, dns_verbatim, generate_key,
    key_bytes, key_pem_text, names_of, pem_body, signed_with,
    params_new, params_sans, params_view, push_extended_key_usage,
    sans_accepted, sans_read, signed_by, CaConstraint, Curve, ExtendedKeyUsage, ParamsView, SanName,
};
use rcgen::CertificateParams;
use vstd::prelude::*;

verus! {

/// What a leaf certificate says: the identity as its subject, the names it
/// was asked for, no authority, and the extended key usage server
/// authentication.
pub open spec fn leaf_profile(identity: ConfigView, names: Seq<SanName>) -> ParamsView {
    ParamsView {
        subject: identity.subject(),
        sans: names,
        ca: CaConstraint::NotCa,
        key_usages: Seq::empty(),
        extended_key_usages: seq![ExtendedKeyUsage::ServerAuth],
        others: 0,
    }
}

/// The parameters of a leaf certificate for `identity` with the subject
/// alternative names `sans`.
///
/// The names are taken as they come: in the order given, with nothing removed
/// and nothing normalised; an empty list is in order. The codec reads each as
/// an IP address or as a DNS name, and refuses one that is neither; that is a
/// parse error, and the only failure.
pub fn leaf_params(identity: &Config, sans: Vec<String>) -> (made: Result<CertificateParams, Error>)
    ensures
        made is Ok <==> sans_accepted(sans@),
        made matches Ok(params) ==> params_view(params) == leaf_profile(identity@, names_of(sans@)),
        made matches Ok(params) ==> sans_read(sans@, params_sans(params)),
        made matches Err(e) ==> e is Parse,
{
    let mut params = parse_outcome(params_new(sans))?;
    write_subject(&mut params, identity);
    push_extended_key_usage(&mut params, ExtendedKeyUsage::ServerAuth);
    Ok(params)
}

/// Issues a leaf certificate under `root`: a fresh key pair on `curve`, and
/// over it a certificate that says [`leaf_profile`] of `identity` and `sans`,
/// signed with the key of the root.
///
/// A name that the codec refuses is a parse error, and nothing is generated
/// then. With every name accepted, whether the key can be generated and the
/// certificate signed is for the codec to say; if it refuses, the failure is
/// cryptographic. What comes back otherwise is the stored forms of that key
/// and of that certificate, and the certificate says [`leaf_profile`]: the
/// names in the order given, a DNS name with the text that was given. It
/// certifies the public half of the new key, which is on `curve`, carries the
/// name of the root as that of its issuer, and is signed with the key of the
/// root. Nothing is retried, and nothing is recorded of what was issued.
pub fn issue(root: &Root, identity: &Config, sans: Vec<String>, curve: Curve) -> (made: Result<
    KeyMaterial,
    Error,
>)
    ensures
        !sans_accepted(sans@) <==> (made matches Err(e) && e is Parse),
        made matches Err(e) ==> e is Parse || e is Crypto,
        made matches Ok(material) ==> is_stored_forms(material),
        made matches Ok(material) ==> material.cert_pem@ == certificate_pem_text(
            material.cert_der@,
        ),
        made matches Ok(material) ==> certificate_view(material.cert_der@) == certified(
            leaf_profile(identity@, names_of(sans@)),
        ),
        made matches Ok(material) ==> dns_verbatim(
            sans@,
            certificate_view(material.cert_der@).sans,
        ),
        made matches Ok(material) ==> is_certified_key(material, curve),
        made matches Ok(material) ==> signed_with(material.cert_der@, root.key_view()),
        made matches Ok(material) ==> der_issuer(material.cert_der@) == root.name_view(),
{
    let params = leaf_params(identity, sans)?;
    let key = crypto_outcome(generate_key(curve))?;
    let certificate = crypto_outcome(signed_by(&params, &key, root.issuer()))?;
    let material = key_material(&key, &certificate);
    assert(material_of(material, key, certificate));
    assert(material.key_pem@ == key_pem_text(key_bytes(key)));
    Ok(material)
}

/// Issues a leaf certificate under the persisted root, given the contents of
/// the root's key file and certificate file; `None` stands for a file that is
/// not there.
///
/// With either file absent the error says that no root is installed. With
/// both present, a key text without a PEM block, contents or a name that the
/// codec refuses, and a root whose name cannot be written into a leaf are
/// parse errors; a key or a signature that the codec cannot make is a
/// cryptographic failure. On any failure there is no leaf to write. What
/// comes back otherwise is as [`issue`] gives it: a leaf that carries the
/// name of the root and is signed with the key in the key file.
pub fn new_cert(
    identity: &Config,
    root_key_pem: Option<&str>,
    root_cert_pem: Option<&str>,
    sans: Vec<String>,
    curve: Curve,
) -> (made: Result<KeyMaterial, Error>)
    ensures
        (root_key_pem is None || root_cert_pem is None) <==> (made matches Err(e) && e is NotFound),
        root_key_pem is Some && root_cert_pem is Some && !sans_accepted(sans@)
            ==> (made matches Err(e) && e is Parse),
        made matches Err(e) ==> e is NotFound || e is Parse || e is Crypto,
        made matches Err(e) && e is Crypto ==> sans_accepted(sans@),
        root_cert_pem matches Some(text) ==> (root_key_pem is Some && !root_loadable(text@) ==> (
        made matches Err(e) && e is Parse)),
        root_key_pem matches Some(text) ==> (root_cert_pem is Some && pem_body(text@) is None ==> (
        made matches Err(e) && e is Parse)),
        made matches Ok(material) ==> root_cert_pem matches Some(text) && root_loadable(text@)
            && der_issuer(material.cert_der@) == root_name(text@),
        made matches Ok(material) ==> root_key_pem matches Some(text) && pem_body(text@) is Some
            && signed_with(material.cert_der@, pem_body(text@).unwrap()),
        made matches Ok(material) ==> is_certified_key(material, curve),
        made matches Ok(material) ==> is_stored_forms(material),
        made matches Ok(material) ==> material.cert_pem@ == certificate_pem_text(
            material.cert_der@,
        ),
        made matches Ok(material) ==> certificate_view(material.cert_der@) == certified(
            leaf_profile(identity@, names_of(sans@)),
        ),
        made matches Ok(material) ==> dns_verbatim(
            sans@,
            certificate_view(material.cert_der@).sans,
        ),
{
    let root = load_ca(root_key_pem, root_cert_pem)?;
    issue(&root, identity, sans, curve)
}

} // verus!
