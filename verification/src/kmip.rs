//! The KMIP adapter's logic: resolving the client-certificate option
//! combination, assembling the connection settings, and normalizing the
//! protocol's responses into key records. The protocol client itself stays
//! outside the library; it hands in identifiers, object descriptions and
//! attribute values as plain data.

use vstd::prelude::*;

use crate::config::{Opt, ServerOpt};
use crate::error::{ErrorKind, InventoryError};
use crate::key::{Key, KeyType, KeyView};
use crate::text::{dec_str_of_int, i32_to_dec_string};
use crate::util::load_binary_file;

verus! {

/// The fixed connect, read and write timeout of the KMIP path, in seconds.
pub const KMIP_TIMEOUT_SECS: u64 = 5;

/// The client identity handed to the transport: either a PEM certificate
/// with an optional separate PEM key, or one combined PKCS#12 bundle.
/// The two forms are mutually exclusive by construction.
#[derive(Debug, Clone)]
pub enum ClientCertOpt {
    SeparatePem { cert_bytes: Vec<u8>, key_bytes: Option<Vec<u8>> },
    CombinedPkcs12 { cert_bytes: Vec<u8> },
}

/// Mathematical image of a [`ClientCertOpt`].
pub enum ClientCertView {
    SeparatePem { cert_bytes: Seq<u8>, key_bytes: Option<Seq<u8>> },
    CombinedPkcs12 { cert_bytes: Seq<u8> },
}

impl View for ClientCertOpt {
    type V = ClientCertView;

    open spec fn view(&self) -> ClientCertView {
        match self {
            ClientCertOpt::SeparatePem { cert_bytes, key_bytes } => ClientCertView::SeparatePem {
                cert_bytes: cert_bytes@,
                key_bytes: match key_bytes {
                    Some(k) => Some(k@),
                    None => None,
                },
            },
            ClientCertOpt::CombinedPkcs12 { cert_bytes } => ClientCertView::CombinedPkcs12 {
                cert_bytes: cert_bytes@,
            },
        }
    }
}

/// The client-certificate truth table over the three inputs: nothing given
/// is no identity; a PKCS#12 bundle alone is the combined form; a
/// certificate with or without its key is the separate form; a key without
/// a certificate, or a bundle next to either, is no valid combination.
pub open spec fn resolve_cert_spec(
    cert: Option<Seq<u8>>,
    key: Option<Seq<u8>>,
    pkcs12: Option<Seq<u8>>,
) -> Option<Option<ClientCertView>> {
    match (cert, key, pkcs12) {
        (Option::None, Option::None, Option::None) => Some(None),
        (Option::None, Option::None, Option::Some(b)) => Some(
            Some(ClientCertView::CombinedPkcs12 { cert_bytes: b }),
        ),
        (Option::Some(c), Option::None, Option::None) => Some(
            Some(ClientCertView::SeparatePem { cert_bytes: c, key_bytes: None }),
        ),
        (Option::Some(c), Option::Some(k), Option::None) => Some(
            Some(ClientCertView::SeparatePem { cert_bytes: c, key_bytes: Some(k) }),
        ),
        _ => None,
    }
}

/// View of optional bytes.
pub open spec fn opt_bytes_view(o: Option<Vec<u8>>) -> Option<Seq<u8>> {
    match o {
        Some(b) => Some(b@),
        None => None,
    }
}

/// Resolves the client-certificate inputs per the truth table; an invalid
/// combination is a validation error raised before any connection attempt.
pub fn resolve_client_cert(
    cert: Option<Vec<u8>>,
    key: Option<Vec<u8>>,
    pkcs12: Option<Vec<u8>>,
) -> (r: Result<Option<ClientCertOpt>, InventoryError>)
    ensures
        match resolve_cert_spec(
            opt_bytes_view(cert),
            opt_bytes_view(key),
            opt_bytes_view(pkcs12),
        ) {
            Some(shape) => r matches Ok(c) && (match (c, shape) {
                (Option::None, Option::None) => true,
                (Option::Some(cc), Option::Some(sv)) => cc@ == sv,
                _ => false,
            }),
            None => r matches Err(e) && e.kind == ErrorKind::Parse,
        },
{
    match (cert, key, pkcs12) {
        (Option::None, Option::None, Option::None) => Ok(None),
        (Option::None, Option::None, Option::Some(b)) => Ok(
            Some(ClientCertOpt::CombinedPkcs12 { cert_bytes: b }),
        ),
        (Option::Some(c), Option::None, Option::None) => Ok(
            Some(ClientCertOpt::SeparatePem { cert_bytes: c, key_bytes: None }),
        ),
        (Option::Some(c), Option::Some(k), Option::None) => Ok(
            Some(ClientCertOpt::SeparatePem { cert_bytes: c, key_bytes: Some(k) }),
        ),
        (Option::None, Option::Some(_), Option::None) => Err(
            InventoryError::new(
                ErrorKind::Parse,
                "Client certificate key path requires a client certificate path".to_owned(),
            ),
        ),
        _ => Err(
            InventoryError::new(
                ErrorKind::Parse,
                "Use either but not both of: client certificate and key PEM file paths, or a PKCS#12 certificate file path".to_owned(),
            ),
        ),
    }
}

/// Everything the transport needs to open the KMIP session, as plain
/// values: address, credentials, certificate material and the fixed
/// timeouts. The response size is uncapped.
#[derive(Debug, Clone)]
pub struct KmipConnectionConfig {
    pub host: String,
    pub port: u16,
    pub username: Option<String>,
    pub password: Option<String>,
    pub insecure: bool,
    pub client_cert: Option<ClientCertOpt>,
    pub server_cert: Option<Vec<u8>>,
    pub ca_cert: Option<Vec<u8>>,
    pub connect_timeout_secs: u64,
    pub read_timeout_secs: u64,
    pub write_timeout_secs: u64,
    pub max_response_bytes: Option<u64>,
}

/// Loads the client-certificate files named by the options and resolves
/// them per the truth table. The combination is validated before any file
/// is read, so an invalid one fails with a validation error even when the
/// files are unreadable; a failing read on a valid combination is an I/O
/// error.
pub fn load_client_cert(opt: &Opt) -> (r: Result<Option<ClientCertOpt>, InventoryError>)
    ensures
        opt.client_key_path is Some && opt.client_cert_path is None ==> (r matches Err(e)
            && e.kind == ErrorKind::Parse),
        opt.client_pkcs12_path is Some && (opt.client_cert_path is Some
            || opt.client_key_path is Some) ==> (r matches Err(e) && e.kind
            == ErrorKind::Parse),
        opt.client_cert_path is None && opt.client_key_path is None && opt.client_pkcs12_path
            is None ==> (r matches Ok(c) && c is None),
        r is Ok && r->Ok_0 is Some ==> match r->Ok_0->Some_0@ {
            ClientCertView::SeparatePem { cert_bytes, key_bytes } => opt.client_cert_path
                is Some && (key_bytes is Some <==> opt.client_key_path is Some),
            ClientCertView::CombinedPkcs12 { cert_bytes } => opt.client_pkcs12_path is Some,
        },
        r is Ok && r->Ok_0 is None ==> opt.client_cert_path is None && opt.client_key_path
            is None && opt.client_pkcs12_path is None,
        r is Err && r->Err_0.kind == ErrorKind::Parse ==> ((opt.client_key_path is Some
            && opt.client_cert_path is None) || (opt.client_pkcs12_path is Some
            && (opt.client_cert_path is Some || opt.client_key_path is Some))),
        r is Err && r->Err_0.kind != ErrorKind::Parse ==> r->Err_0.kind == ErrorKind::Io,
{
    let cert = match &opt.client_cert_path {
        Some(p) => {
            match &opt.client_pkcs12_path {
                Some(_) => {
                    return Err(mutual_exclusion_error());
                },
                None => (),
            }
            match load_binary_file(p.as_str()) {
                Ok(b) => Some(b),
                Err(e) => {
                    return Err(e);
                },
            }
        },
        None => None,
    };
    let key = match &opt.client_key_path {
        Some(p) => {
            if cert.is_none() {
                return Err(
                    InventoryError::new(
                        ErrorKind::Parse,
                        "Client certificate key path requires a client certificate path".to_owned(),
                    ),
                );
            }
            match &opt.client_pkcs12_path {
                Some(_) => {
                    return Err(mutual_exclusion_error());
                },
                None => (),
            }
            match load_binary_file(p.as_str()) {
                Ok(b) => Some(b),
                Err(e) => {
                    return Err(e);
                },
            }
        },
        None => None,
    };
    let pkcs12 = match &opt.client_pkcs12_path {
        Some(p) => match load_binary_file(p.as_str()) {
            Ok(b) => Some(b),
            Err(e) => {
                return Err(e);
            },
        },
        None => None,
    };
    resolve_client_cert(cert, key, pkcs12)
}

fn mutual_exclusion_error() -> (r: InventoryError)
    ensures
        r.kind == ErrorKind::Parse,
{
    InventoryError::new(
        ErrorKind::Parse,
        "Use either but not both of: client certificate and key PEM file paths, or a PKCS#12 certificate file path".to_owned(),
    )
}

/// Assembles the connection settings of the KMIP path from the parsed
/// options: address and credentials from the descriptor, certificate
/// material from the option files, the fixed five-second timeouts, and no
/// response-size cap. A descriptor of the other backend is a contract
/// violation, not a user error.
pub fn kmip_connection_settings(opt: &Opt) -> (r: Result<KmipConnectionConfig, InventoryError>)
    ensures
        opt.server matches ServerOpt::Pkcs11(_) ==> (r matches Err(e) && e.kind
            == ErrorKind::Parse),
        r matches Ok(c) ==> opt.server matches ServerOpt::Kmip(s) && c.host@ == s.addr@
            && c.port == s.port && crate::config::opt_str_view(c.username)
            == crate::config::opt_str_view(s.user) && crate::config::opt_str_view(c.password)
            == crate::config::opt_str_view(s.pass) && c.insecure == opt.insecure
            && (c.server_cert is Some <==> opt.server_cert_path is Some) && (c.ca_cert
            is Some <==> opt.ca_cert_path is Some) && c.connect_timeout_secs
            == KMIP_TIMEOUT_SECS && c.read_timeout_secs == KMIP_TIMEOUT_SECS
            && c.write_timeout_secs == KMIP_TIMEOUT_SECS && c.max_response_bytes is None
            && (match c.client_cert {
            Some(cc) => match cc@ {
                ClientCertView::SeparatePem { cert_bytes, key_bytes } => opt.client_cert_path
                    is Some && (key_bytes is Some <==> opt.client_key_path is Some),
                ClientCertView::CombinedPkcs12 { cert_bytes } => opt.client_pkcs12_path
                    is Some,
            },
            None => opt.client_cert_path is None && opt.client_pkcs12_path is None,
        }),
        opt.server matches ServerOpt::Kmip(s) && opt.client_cert_path is None
            && opt.client_key_path is None && opt.client_pkcs12_path is None
            && opt.server_cert_path is None && opt.ca_cert_path is None ==> (r matches Ok(c)
            && c.client_cert is None && c.server_cert is None && c.ca_cert is None),
        r matches Err(e) && e.kind == ErrorKind::Parse ==> (opt.server matches ServerOpt::Pkcs11(
            _,
        ) || (opt.client_key_path is Some && opt.client_cert_path is None) || (
        opt.client_pkcs12_path is Some && (opt.client_cert_path is Some || opt.client_key_path
            is Some))),
        r is Err && r->Err_0.kind != ErrorKind::Parse ==> r->Err_0.kind == ErrorKind::Io,
{
    let server_opt = match &opt.server {
        ServerOpt::Kmip(s) => s,
        ServerOpt::Pkcs11(_) => {
            return Err(
                InventoryError::new(ErrorKind::Parse, "Expected KMIP settings".to_owned()),
            );
        },
    };
    let client_cert = match load_client_cert(opt) {
        Ok(c) => c,
        Err(e) => {
            return Err(e);
        },
    };
    let server_cert = match &opt.server_cert_path {
        Some(p) => match load_binary_file(p.as_str()) {
            Ok(b) => Some(b),
            Err(e) => {
                return Err(e);
            },
        },
        None => None,
    };
    let ca_cert = match &opt.ca_cert_path {
        Some(p) => match load_binary_file(p.as_str()) {
            Ok(b) => Some(b),
            Err(e) => {
                return Err(e);
            },
        },
        None => None,
    };
    Ok(
        KmipConnectionConfig {
            host: server_opt.addr.clone(),
            port: server_opt.port,
            username: clone_opt_string(&server_opt.user),
            password: clone_opt_string(&server_opt.pass),
            insecure: opt.insecure,
            client_cert,
            server_cert,
            ca_cert,
            connect_timeout_secs: KMIP_TIMEOUT_SECS,
            read_timeout_secs: KMIP_TIMEOUT_SECS,
            write_timeout_secs: KMIP_TIMEOUT_SECS,
            max_response_bytes: None,
        },
    )
}

/// Copies an optional string.
fn clone_opt_string(o: &Option<String>) -> (r: Option<String>)
    ensures
        crate::config::opt_str_view(r) == crate::config::opt_str_view(*o),
{
    match o {
        Some(s) => Some(clone_string(s)),
        None => None,
    }
}

/// Copies a string.
fn clone_string(s: &String) -> (r: String)
    ensures
        r@ == s@,
{
    s.as_str().to_owned()
}

// ---------------------------------------------------------------------------
// Normalizing the protocol's responses
// ---------------------------------------------------------------------------

/// What the get-object response says about one managed object, as far as
/// the inventory cares: its kind, and the algorithm and bit length of its
/// key block, each possibly absent. Algorithm names arrive already
/// rendered.
#[derive(Debug, Clone)]
pub enum KmipObject {
    PublicKey { alg: Option<String>, len: Option<i32> },
    PrivateKey { alg: Option<String>, len: Option<i32> },
    Other,
}

/// One attribute value from the name-attribute response, as far as the
/// inventory cares: a name or text value carries a display string, any
/// other value type does not.
#[derive(Debug, Clone)]
pub enum KmipNameValue {
    Name(String),
    Text(String),
    Other,
}

/// The display name a name-attribute response resolves to: the first
/// attribute's value when there is one and it is a name or text value, and
/// the fallback `None` otherwise.
pub open spec fn kmip_name_spec(attrs: Option<Seq<KmipNameValue>>) -> Seq<char> {
    match attrs {
        Some(vs) => if vs.len() > 0 {
            match vs[0] {
                KmipNameValue::Name(t) => t@,
                KmipNameValue::Text(t) => t@,
                KmipNameValue::Other => "None"@,
            }
        } else {
            "None"@
        },
        None => "None"@,
    }
}

/// Resolves the display name from the name-attribute response.
pub fn kmip_display_name(attrs: &Option<Vec<KmipNameValue>>) -> (r: String)
    ensures
        r@ == kmip_name_spec(match *attrs {
            Some(vs) => Some(vs@),
            None => None,
        }),
{
    match attrs {
        Some(vs) => {
            if vs.len() > 0 {
                match &vs[0] {
                    KmipNameValue::Name(t) => clone_string(t),
                    KmipNameValue::Text(t) => clone_string(t),
                    KmipNameValue::Other => "None".to_owned(),
                }
            } else {
                "None".to_owned()
            }
        },
        None => "None".to_owned(),
    }
}

/// A display string or its fallback: the string itself when present, the
/// word `unknown` when absent.
pub open spec fn alg_display_spec(alg: Option<Seq<char>>) -> Seq<char> {
    match alg {
        Some(a) => a,
        None => "unknown"@,
    }
}

/// The bit length display: the decimal rendering when present, the word
/// `unknown` when absent.
pub open spec fn len_display_spec(len: Option<i32>) -> Seq<char> {
    match len {
        Some(v) => dec_str_of_int(v as int),
        None => "unknown"@,
    }
}

/// What record a get-object response normalizes to, given the resolved
/// display name; an object that is neither a public nor a private key does
/// not normalize.
pub open spec fn kmip_record_spec(id: Seq<char>, obj: KmipObject, name: Seq<char>) -> Option<
    KeyView,
> {
    match obj {
        KmipObject::PublicKey { alg, len } => Some(
            KeyView {
                id,
                typ: KeyType::Public,
                name,
                alg: alg_display_spec(match alg {
                    Some(a) => Some(a@),
                    None => None,
                }),
                len: len_display_spec(len),
            },
        ),
        KmipObject::PrivateKey { alg, len } => Some(
            KeyView {
                id,
                typ: KeyType::Private,
                name,
                alg: alg_display_spec(match alg {
                    Some(a) => Some(a@),
                    None => None,
                }),
                len: len_display_spec(len),
            },
        ),
        KmipObject::Other => None,
    }
}

/// Builds one key record from a get-object response: the kind from the
/// object's variant, algorithm and length with their `unknown` fallbacks,
/// and the given identifier and display name. Any other object kind is a
/// fetch error, fatal on this backend.
pub fn kmip_key_record(id: &str, obj: &KmipObject, name: &str) -> (r: Result<
    Key,
    InventoryError,
>)
    ensures
        match kmip_record_spec(id@, *obj, name@) {
            Some(k) => r matches Ok(key) && key@ == k,
            None => r matches Err(e) && e.kind == ErrorKind::Fetch,
        },
{
    let (typ, alg, len) = match obj {
        KmipObject::PublicKey { alg, len } => (KeyType::Public, alg, len),
        KmipObject::PrivateKey { alg, len } => (KeyType::Private, alg, len),
        KmipObject::Other => {
            return Err(InventoryError::new(ErrorKind::Fetch, "Unsupported type".to_owned()));
        },
    };
    let alg_s = match alg {
        Some(a) => clone_string(a),
        None => "unknown".to_owned(),
    };
    let len_s = match len {
        Some(v) => i32_to_dec_string(*v),
        None => "unknown".to_owned(),
    };
    Ok(Key { id: id.to_owned(), typ, name: name.to_owned(), alg: alg_s, len: len_s })
}

} // verus!
