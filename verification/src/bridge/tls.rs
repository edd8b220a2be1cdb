//! The certificate that the bridge shows to browsers.
use vstd::prelude::*;

use crate::bridge::certificate::{
    holds_long_enough, is_der_valid, second_time, MIN_REMAINING_SECS,
};
use crate::json::{field_view, json_field, read_field, Json, JsonView};
use crate::text::{joined, stands_at};

verus! {

/// The kinds of private key.
#[derive(Debug, Clone, Copy, PartialEq, Eq, Structural)]
pub enum KeyKind {
    Pkcs1,
    Sec1,
    Pkcs8,
}

/// A private key in binary form.
#[derive(Debug)]
pub struct KeyDer {
    pub kind: KeyKind,
    pub bytes: Vec<u8>,
}

/// A private key in binary form, with its bytes as a sequence.
pub struct KeyView {
    pub kind: KeyKind,
    pub bytes: Seq<u8>,
}

impl View for KeyDer {
    type V = KeyView;

    open spec fn view(&self) -> KeyView {
        KeyView { kind: self.kind, bytes: self.bytes@ }
    }
}

/// A TLS acceptor, as tokio-rustls has it.
#[verifier::external_type_specification]
#[verifier::external_body]
pub struct ExTlsAcceptor(tokio_rustls::TlsAcceptor);

/// The certificates that rustls-pemfile finds in a text, or its own words for what is
/// wrong.
pub uninterp spec fn pem_certificates(pem: Seq<char>) -> Result<Seq<Seq<u8>>, Seq<char>>;

/// The first private key that rustls-pemfile finds in a text, if there is one, or its
/// own words for what is wrong.
pub uninterp spec fn pem_private_key(pem: Seq<char>) -> Result<Option<KeyView>, Seq<char>>;

/// Byte vectors as byte sequences.
pub open spec fn byte_seqs(v: Seq<Vec<u8>>) -> Seq<Seq<u8>> {
    v.map_values(|b: Vec<u8>| b@)
}

/// What was read of certificates, with its parts as sequences.
pub open spec fn certs_view(r: Result<Vec<Vec<u8>>, String>) -> Result<Seq<Seq<u8>>, Seq<char>> {
    match r {
        Ok(certs) => Ok(byte_seqs(certs@)),
        Err(e) => Err(e@),
    }
}

/// What was read of a key, with its parts as sequences.
pub open spec fn key_view(r: Result<Option<KeyDer>, String>) -> Result<Option<KeyView>, Seq<char>> {
    match r {
        Ok(Some(key)) => Ok(Some(key@)),
        Ok(None) => Ok(None),
        Err(e) => Err(e@),
    }
}

/// `rustls_pemfile::certs` on a text in memory: all certificates in it, in order, or
/// the text of the first error. It depends on the text alone.
#[verifier::external_body]
fn read_certificates(pem: &str) -> (r: Result<Vec<Vec<u8>>, String>)
    ensures
        certs_view(r) == pem_certificates(pem@),
{
    rustls_pemfile::certs(&mut pem.as_bytes())
        .map(|cert| cert.map(|der| der.as_ref().to_vec()).map_err(|e| e.to_string()))
        .collect()
}

/// `rustls_pemfile::private_key` on a text in memory: the first private key in it, if
/// there is one, or the text of the error. It depends on the text alone.
#[verifier::external_body]
fn read_private_key(pem: &str) -> (r: Result<Option<KeyDer>, String>)
    ensures
        key_view(r) == pem_private_key(pem@),
{
    let key = rustls_pemfile::private_key(&mut pem.as_bytes()).map_err(|e| e.to_string())?;
    Ok(match key {
        Some(rustls::pki_types::PrivateKeyDer::Pkcs1(k)) => Some(KeyDer { kind: KeyKind::Pkcs1, bytes: k.secret_pkcs1_der().to_vec() }),
        Some(rustls::pki_types::PrivateKeyDer::Sec1(k)) => Some(KeyDer { kind: KeyKind::Sec1, bytes: k.secret_sec1_der().to_vec() }),
        Some(rustls::pki_types::PrivateKeyDer::Pkcs8(k)) => Some(KeyDer { kind: KeyKind::Pkcs8, bytes: k.secret_pkcs8_der().to_vec() }),
        _ => None,
    })
}

/// `rustls::ServerConfig::builder_with_provider` with the ring provider, the default
/// protocol versions, no client authentication and one certificate chain, as a
/// `tokio_rustls::TlsAcceptor`; or the text of the error. Nothing is said of the result:
/// reading an elliptic-curve key takes random numbers from the system, and fails where
/// there are none.
#[verifier::external_body]
fn make_acceptor(certs: Vec<Vec<u8>>, key: KeyDer) -> (r: Result<
    tokio_rustls::TlsAcceptor,
    String,
>)
{
    let provider = std::sync::Arc::new(rustls::crypto::ring::default_provider());
    let key = match key.kind {
        KeyKind::Pkcs1 => rustls::pki_types::PrivatePkcs1KeyDer::from(key.bytes).into(),
        KeyKind::Sec1 => rustls::pki_types::PrivateSec1KeyDer::from(key.bytes).into(),
        KeyKind::Pkcs8 => rustls::pki_types::PrivatePkcs8KeyDer::from(key.bytes).into(),
    };
    rustls::ServerConfig::builder_with_provider(provider)
        .with_safe_default_protocol_versions()
        .map(|b| b.with_no_client_auth())
        .and_then(|b| b.with_single_cert(certs.into_iter().map(|c| c.into()).collect(), key))
        .map(|config| tokio_rustls::TlsAcceptor::from(std::sync::Arc::new(config)))
        .map_err(|e| e.to_string())
}

/// The certificates and the key to serve with, or what is missing.
pub open spec fn tls_materials(
    certs: Result<Seq<Seq<u8>>, Seq<char>>,
    key: Result<Option<KeyView>, Seq<char>>,
) -> Result<(Seq<Seq<u8>>, KeyView), Seq<char>> {
    match certs {
        Err(e) => Err("Failed to parse certs: "@ + e),
        Ok(certs) => if certs.len() == 0 {
            Err("No certificates found in PEM"@)
        } else {
            match key {
                Err(e) => Err("Failed to parse key: "@ + e),
                Ok(None) => Err("No private key found in PEM"@),
                Ok(Some(key)) => Ok((certs, key)),
            }
        },
    }
}

/// The certificates and the key to serve with, or what is missing.
pub fn materials(
    certs: Result<Vec<Vec<u8>>, String>,
    key: Result<Option<KeyDer>, String>,
) -> (r: Result<(Vec<Vec<u8>>, KeyDer), String>)
    ensures
        match tls_materials(certs_view(certs), key_view(key)) {
            Ok((c, k)) => r matches Ok((certs, key)) && byte_seqs(certs@) == c && key@ == k,
            Err(text) => r matches Err(e) && e@ == text,
        },
{
    let certs = match certs {
        Ok(c) => c,
        Err(e) => {
            return Err(joined("Failed to parse certs: ", e.as_str()));
        },
    };
    if certs.len() == 0 {
        return Err("No certificates found in PEM".to_owned());
    }
    match key {
        Ok(Some(key)) => Ok((certs, key)),
        Ok(None) => Err("No private key found in PEM".to_owned()),
        Err(e) => Err(joined("Failed to parse key: ", e.as_str())),
    }
}

/// What comes of making an acceptor: the acceptor, or its error told as such.
pub fn acceptor_result(made: Result<tokio_rustls::TlsAcceptor, String>) -> (r: Result<
    tokio_rustls::TlsAcceptor,
    String,
>)
    ensures
        match made {
            Ok(acceptor) => r == Ok::<_, String>(acceptor),
            Err(e) => r matches Err(text) && text@ == "TLS config error: "@ + e@,
        },
{
    match made {
        Ok(acceptor) => Ok(acceptor),
        Err(e) => Err(joined("TLS config error: ", e.as_str())),
    }
}

/// A TLS acceptor that serves with a certificate and a key in PEM texts. What is missing
/// in the texts is told; with both there, it is up to rustls whether there is an acceptor.
pub fn build_acceptor(cert_pem: &str, key_pem: &str) -> (r: Result<
    tokio_rustls::TlsAcceptor,
    String,
>)
    ensures
        match tls_materials(pem_certificates(cert_pem@), pem_private_key(key_pem@)) {
            Err(text) => r matches Err(e) && e@ == text,
            Ok(_) => r matches Err(e) ==> stands_at("TLS config error: "@, e@, 0),
        },
{
    match materials(read_certificates(cert_pem), read_private_key(key_pem)) {
        Ok((certs, key)) => {
            let r = acceptor_result(make_acceptor(certs, key));
            proof {
                let intro = "TLS config error: "@;
                assert forall|e: Seq<char>| stands_at(intro, #[trigger] (intro + e), 0) by {
                    assert((intro + e).subrange(0, intro.len() as int) =~= intro);
                }
            }
            r
        },
        Err(e) => Err(e),
    }
}

/// Whether the first of some certificates may be used at the given time; there must
/// be one.
pub open spec fn usable_certs(
    certs: Result<Seq<Seq<u8>>, Seq<char>>,
    now_secs: u64,
) -> bool {
    match certs {
        Ok(certs) => certs.len() > 0 && holds_long_enough(certs[0], now_secs),
        Err(_) => false,
    }
}

/// Whether the first of some certificates may be used at the given time.
pub fn are_certs_valid(certs: Result<Vec<Vec<u8>>, String>, now_secs: u64) -> (r: bool)
    ensures
        r == usable_certs(certs_view(certs), now_secs),
{
    match certs {
        Ok(certs) => certs.len() > 0 && is_der_valid(certs[0].as_slice(), now_secs),
        Err(_) => false,
    }
}

/// Whether the first certificate in a PEM text may be used at the given time: one
/// must be there, its end must be told, and be more than seven days away.
pub fn is_cert_valid(cert_pem: &str, now_secs: u64) -> (r: bool)
    ensures
        r == usable_certs(pem_certificates(cert_pem@), now_secs),
{
    are_certs_valid(read_certificates(cert_pem), now_secs)
}

/// Whether a stored certificate and key may serve: both are there, and the certificate may
/// still be used.
pub open spec fn may_serve(cert_pem: Seq<char>, key_pem: Seq<char>, now_secs: u64) -> bool {
    cert_pem.len() > 0 && key_pem.len() > 0 && usable_certs(pem_certificates(cert_pem), now_secs)
        && tls_materials(pem_certificates(cert_pem), pem_private_key(key_pem)) is Ok
}

/// A TLS acceptor from what was stored; where there is none, a new certificate has to be
/// fetched. With a certificate and key that may serve, it is up to rustls whether there is
/// one.
pub fn cached_acceptor(cert_pem: &str, key_pem: &str, now_secs: u64) -> (r: Option<
    tokio_rustls::TlsAcceptor,
>)
    ensures
        r is Some ==> may_serve(cert_pem@, key_pem@, now_secs),
{
    if cert_pem.is_empty() || key_pem.is_empty() {
        return None;
    }
    if is_cert_valid(cert_pem, now_secs) {
        match build_acceptor(cert_pem, key_pem) {
            Ok(acceptor) => Some(acceptor),
            Err(_) => None,
        }
    } else {
        None
    }
}

/// The certificate and the key in a bundle, by what was read of its two fields, or
/// what is wrong with it.
pub open spec fn bundle(
    cert: Result<Option<JsonView>, Seq<char>>,
    key: Result<Option<JsonView>, Seq<char>>,
) -> Result<(Seq<char>, Seq<char>), Seq<char>> {
    match (cert, key) {
        (Err(e), _) => Err("Failed to parse JSON: "@ + e),
        (Ok(Some(JsonView::Text(cert))), Err(e)) => Err("Failed to parse JSON: "@ + e),
        (Ok(Some(JsonView::Text(cert))), Ok(Some(JsonView::Text(key)))) => if cert.len() == 0
            || key.len() == 0 {
            Err("Empty cert or key in response"@)
        } else {
            Ok((cert, key))
        },
        (Ok(Some(JsonView::Text(cert))), Ok(_)) => Err("Missing key_pem in response"@),
        (Ok(_), _) => Err("Missing cert_pem in response"@),
    }
}

/// The certificate and the key, or what is wrong, with their texts as character
/// sequences.
pub open spec fn bundle_view(r: Result<(String, String), String>) -> Result<
    (Seq<char>, Seq<char>),
    Seq<char>,
> {
    match r {
        Ok((cert, key)) => Ok((cert@, key@)),
        Err(e) => Err(e@),
    }
}

/// The certificate and the key in a bundle, by what was read of its two fields.
pub fn bundle_of(
    cert: Result<Option<Json>, String>,
    key: Result<Option<Json>, String>,
) -> (r: Result<(String, String), String>)
    ensures
        bundle_view(r) == bundle(field_view(cert), field_view(key)),
{
    match cert {
        Err(e) => Err(joined("Failed to parse JSON: ", e.as_str())),
        Ok(Some(Json::Text(cert))) => match key {
            Err(e) => Err(joined("Failed to parse JSON: ", e.as_str())),
            Ok(Some(Json::Text(key))) => {
                if cert.as_str().is_empty() || key.as_str().is_empty() {
                    Err("Empty cert or key in response".to_owned())
                } else {
                    Ok((cert, key))
                }
            },
            Ok(_) => Err("Missing key_pem in response".to_owned()),
        },
        Ok(_) => Err("Missing cert_pem in response".to_owned()),
    }
}

/// The certificate and the key in a bundle that was fetched: a JSON object with the
/// texts `cert_pem` and `key_pem`.
pub fn parse_bundle(body: &str) -> (r: Result<(String, String), String>)
    ensures
        bundle_view(r) == bundle(json_field(body@, "cert_pem"@), json_field(body@, "key_pem"@)),
{
    bundle_of(read_field(body, "cert_pem"), read_field(body, "key_pem"))
}

/// What is served with from the store has not ended, nor will within seven days, and comes
/// with a key.
pub proof fn law_only_valid_certificates_serve(
    cert_pem: Seq<char>,
    key_pem: Seq<char>,
    now_secs: u64,
)
    requires
        may_serve(cert_pem, key_pem, now_secs),
    ensures
        pem_certificates(cert_pem) matches Ok(certs) && certs.len() > 0 && (second_time(
            certs[0],
            0,
            false,
        ) matches Some(end) && end > now_secs + MIN_REMAINING_SECS),
        pem_private_key(key_pem) matches Ok(Some(_)),
{
}

/// What is read from the two texts is served with as it is: all certificates in their
/// order, and the key with its kind. The first thing that is wrong is told.
pub proof fn law_materials_are_as_read(certs: Seq<Seq<u8>>, key: KeyView, e: Seq<char>)
    ensures
        certs.len() > 0 ==> tls_materials(Ok(certs), Ok(Some(key))) == Ok::<
            (Seq<Seq<u8>>, KeyView),
            Seq<char>,
        >((certs, key)),
        certs.len() > 0 ==> tls_materials(Ok(certs), Ok(None)) == Err::<
            (Seq<Seq<u8>>, KeyView),
            Seq<char>,
        >("No private key found in PEM"@),
        certs.len() > 0 ==> tls_materials(Ok(certs), Err(e)) == Err::<
            (Seq<Seq<u8>>, KeyView),
            Seq<char>,
        >("Failed to parse key: "@ + e),
        forall|k: Result<Option<KeyView>, Seq<char>>|
            #[trigger] tls_materials(Ok(Seq::empty()), k) == Err::<
                (Seq<Seq<u8>>, KeyView),
                Seq<char>,
            >("No certificates found in PEM"@),
        forall|k: Result<Option<KeyView>, Seq<char>>|
            #[trigger] tls_materials(Err(e), k) == Err::<(Seq<Seq<u8>>, KeyView), Seq<char>>(
                "Failed to parse certs: "@ + e,
            ),
{
}

/// Whether certificates may be used is up to the first of them.
pub proof fn law_first_certificate_decides(first: Seq<u8>, rest: Seq<Seq<u8>>, now_secs: u64)
    ensures
        usable_certs(Ok(seq![first] + rest), now_secs) <==> holds_long_enough(first, now_secs),
        !usable_certs(Ok(Seq::empty()), now_secs),
        forall|e: Seq<char>| !#[trigger] usable_certs(Err(e), now_secs),
{
    assert((seq![first] + rest)[0] == first);
}

/// A bundle is its certificate and its key, each under its own name, as they are; without
/// one of them, or with an empty one, there is none.
pub proof fn law_bundle_is_as_fetched(cert: Seq<char>, key: Seq<char>, e: Seq<char>)
    ensures
        cert.len() > 0 && key.len() > 0 ==> bundle(
            Ok(Some(JsonView::Text(cert))),
            Ok(Some(JsonView::Text(key))),
        ) == Ok::<(Seq<char>, Seq<char>), Seq<char>>((cert, key)),
        cert.len() == 0 || key.len() == 0 ==> bundle(
            Ok(Some(JsonView::Text(cert))),
            Ok(Some(JsonView::Text(key))),
        ) == Err::<(Seq<char>, Seq<char>), Seq<char>>("Empty cert or key in response"@),
        forall|k: Option<JsonView>|
            !(k matches Some(JsonView::Text(_))) ==> #[trigger] bundle(
                Ok(Some(JsonView::Text(cert))),
                Ok(k),
            ) == Err::<(Seq<char>, Seq<char>), Seq<char>>("Missing key_pem in response"@),
        forall|c: Option<JsonView>, k: Result<Option<JsonView>, Seq<char>>|
            !(c matches Some(JsonView::Text(_))) ==> #[trigger] bundle(Ok(c), k) == Err::<
                (Seq<char>, Seq<char>),
                Seq<char>,
            >("Missing cert_pem in response"@),
        forall|k: Result<Option<JsonView>, Seq<char>>| #[trigger]
            bundle(Err(e), k) == Err::<(Seq<char>, Seq<char>), Seq<char>>(
                "Failed to parse JSON: "@ + e,
            ),
{
}

/// What is served with, which certificates may be used, and what is in a bundle is found as
/// the model has it.
pub proof fn law_certificates_are_used_as_modelled(
    certs: Result<Vec<Vec<u8>>, String>,
    key: Result<Option<KeyDer>, String>,
    served: Result<(Vec<Vec<u8>>, KeyDer), String>,
    now_secs: u64,
    valid: bool,
    cert_pem: &str,
    pem_valid: bool,
    cert_field: Result<Option<Json>, String>,
    key_field: Result<Option<Json>, String>,
    found: Result<(String, String), String>,
    body: &str,
    parsed: Result<(String, String), String>,
)
    requires
        call_ensures(materials, (certs, key), served),
        call_ensures(are_certs_valid, (certs, now_secs), valid),
        call_ensures(is_cert_valid, (cert_pem, now_secs), pem_valid),
        call_ensures(bundle_of, (cert_field, key_field), found),
        call_ensures(parse_bundle, (body,), parsed),
    ensures
        served is Ok <==> tls_materials(certs_view(certs), key_view(key)) is Ok,
        tls_materials(certs_view(certs), key_view(key)) matches Ok((c, k)) ==> (served matches Ok(
            (cs, ks),
        ) && byte_seqs(cs@) == c && ks@ == k),
        tls_materials(certs_view(certs), key_view(key)) matches Err(text) ==> (served matches Err(
            e,
        ) && e@ == text),
        valid == usable_certs(certs_view(certs), now_secs),
        pem_valid == usable_certs(pem_certificates(cert_pem@), now_secs),
        bundle_view(found) == bundle(field_view(cert_field), field_view(key_field)),
        bundle_view(parsed) == bundle(
            json_field(body@, "cert_pem"@),
            json_field(body@, "key_pem"@),
        ),
{
}

} // verus!
