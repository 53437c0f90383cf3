//! The connection-descriptor grammar: one command-line token selects a
//! backend and its connection parameters.
//!
//! A descriptor is `kmip:[user[:pass]@]host[:port]` or
//! `pkcs11:slot_id_or_label[:user_pin]@path/to/lib.so`. The scheme is read
//! off the first colon; each further split is on the first occurrence of
//! its delimiter. Parsing is permissive: empty hosts or labels pass the
//! grammar and are rejected later by the backend.

use vstd::prelude::*;

use crate::error::{ErrorKind, InventoryError};
use crate::text::{
    contains_char,
    parse_u16_str,
    parse_u64_str,
    parse_uint_spec,
    split_first,
    split_first_spec,
};

verus! {

/// The port a KMIP descriptor means when it names none.
pub const DEFAULT_KMIP_PORT: u16 = 5696;

/// Which slot of a hardware token to use: exactly one of a numeric id or a
/// token label, never both and never neither.
#[derive(Debug, Clone, PartialEq, Eq)]
pub enum SlotSelector {
    ById(u64),
    ByLabel(String),
}

/// Mathematical image of a [`SlotSelector`].
pub enum SlotSelectorView {
    ById(u64),
    ByLabel(Seq<char>),
}

impl View for SlotSelector {
    type V = SlotSelectorView;

    open spec fn view(&self) -> SlotSelectorView {
        match self {
            SlotSelector::ById(id) => SlotSelectorView::ById(*id),
            SlotSelector::ByLabel(l) => SlotSelectorView::ByLabel(l@),
        }
    }
}

/// Connection parameters of a networked KMIP service.
#[derive(Debug, Clone, PartialEq, Eq)]
pub struct KmipServerOpt {
    pub addr: String,
    pub port: u16,
    pub user: Option<String>,
    pub pass: Option<String>,
}

/// Mathematical image of a [`KmipServerOpt`].
#[verifier::ext_equal]
pub struct KmipServerOptView {
    pub addr: Seq<char>,
    pub port: u16,
    pub user: Option<Seq<char>>,
    pub pass: Option<Seq<char>>,
}

/// View of an optional string.
pub open spec fn opt_str_view(o: Option<String>) -> Option<Seq<char>> {
    match o {
        Some(s) => Some(s@),
        None => None,
    }
}

impl View for KmipServerOpt {
    type V = KmipServerOptView;

    open spec fn view(&self) -> KmipServerOptView {
        KmipServerOptView {
            addr: self.addr@,
            port: self.port,
            user: opt_str_view(self.user),
            pass: opt_str_view(self.pass),
        }
    }
}

/// Connection parameters of a local hardware token.
#[derive(Debug, Clone, PartialEq, Eq)]
pub struct Pkcs11ServerOpt {
    pub lib_path: String,
    pub slot: SlotSelector,
    pub user_pin: Option<String>,
}

/// Mathematical image of a [`Pkcs11ServerOpt`].
#[verifier::ext_equal]
pub struct Pkcs11ServerOptView {
    pub lib_path: Seq<char>,
    pub slot: SlotSelectorView,
    pub user_pin: Option<Seq<char>>,
}

impl View for Pkcs11ServerOpt {
    type V = Pkcs11ServerOptView;

    open spec fn view(&self) -> Pkcs11ServerOptView {
        Pkcs11ServerOptView {
            lib_path: self.lib_path@,
            slot: self.slot@,
            user_pin: opt_str_view(self.user_pin),
        }
    }
}

/// The parsed connection descriptor: which backend, with its parameters.
#[derive(Debug, Clone, PartialEq, Eq)]
pub enum ServerOpt {
    Kmip(KmipServerOpt),
    Pkcs11(Pkcs11ServerOpt),
}

/// Mathematical image of a [`ServerOpt`].
pub enum ServerOptView {
    Kmip(KmipServerOptView),
    Pkcs11(Pkcs11ServerOptView),
}

impl View for ServerOpt {
    type V = ServerOptView;

    open spec fn view(&self) -> ServerOptView {
        match self {
            ServerOpt::Kmip(k) => ServerOptView::Kmip(k@),
            ServerOpt::Pkcs11(p) => ServerOptView::Pkcs11(p@),
        }
    }
}

/// Everything the command line hands the engine: the descriptor plus the
/// transport-security options of the KMIP path. Paths stand as plain
/// strings; reading the files they name happens elsewhere.
#[derive(Debug, Clone)]
pub struct Opt {
    pub insecure: bool,
    pub client_cert_path: Option<String>,
    pub client_key_path: Option<String>,
    pub client_pkcs12_path: Option<String>,
    pub server_cert_path: Option<String>,
    pub ca_cert_path: Option<String>,
    pub server: ServerOpt,
}

// ---------------------------------------------------------------------------
// The grammar, one spec function per rule
// ---------------------------------------------------------------------------

/// `user[:pass]`: everything before the first colon is the user, what
/// follows it the password; no colon means no password. Never fails.
pub open spec fn user_pass_spec(s: Seq<char>) -> (Seq<char>, Option<Seq<char>>) {
    match split_first_spec(s, ':') {
        Some(p) => (p.0, Some(p.1)),
        None => (s, None),
    }
}

/// `host[:port]`: an absent port defaults to 5696; a present one must be a
/// decimal `u16`.
pub open spec fn addr_port_spec(s: Seq<char>) -> Option<(Seq<char>, u16)> {
    match split_first_spec(s, ':') {
        Some(p) => match parse_uint_spec(p.1, u16::MAX as nat) {
            Some(v) => Some((p.0, v as u16)),
            None => None,
        },
        None => Some((s, DEFAULT_KMIP_PORT)),
    }
}

/// `[user[:pass]@]host[:port]`: the first `@` separates credentials from
/// address; no `@` means no credentials.
pub open spec fn kmip_server_spec(s: Seq<char>) -> Option<KmipServerOptView> {
    match split_first_spec(s, '@') {
        Some(p) => match addr_port_spec(p.1) {
            Some(ap) => Some(
                KmipServerOptView {
                    addr: ap.0,
                    port: ap.1,
                    user: Some(user_pass_spec(p.0).0),
                    pass: user_pass_spec(p.0).1,
                },
            ),
            None => None,
        },
        None => match addr_port_spec(s) {
            Some(ap) => Some(
                KmipServerOptView { addr: ap.0, port: ap.1, user: None, pass: None },
            ),
            None => None,
        },
    }
}

/// A slot token that reads as a decimal `u64` is an id; anything else is a
/// label. A purely numeric label is therefore not representable.
pub open spec fn slot_selector_spec(s: Seq<char>) -> SlotSelectorView {
    match parse_uint_spec(s, u64::MAX as nat) {
        Some(v) => SlotSelectorView::ById(v as u64),
        None => SlotSelectorView::ByLabel(s),
    }
}

/// `slot[:pin]@lib_path`: the first `@` separates the slot-and-pin part
/// from the library path; a missing `@` fails the grammar.
pub open spec fn pkcs11_server_spec(s: Seq<char>) -> Option<Pkcs11ServerOptView> {
    match split_first_spec(s, '@') {
        Some(p) => match split_first_spec(p.0, ':') {
            Some(sp) => Some(
                Pkcs11ServerOptView {
                    lib_path: p.1,
                    slot: slot_selector_spec(sp.0),
                    user_pin: Some(sp.1),
                },
            ),
            None => Some(
                Pkcs11ServerOptView {
                    lib_path: p.1,
                    slot: slot_selector_spec(p.0),
                    user_pin: None,
                },
            ),
        },
        None => None,
    }
}

/// The whole descriptor: the scheme is whatever precedes the first colon,
/// and only `kmip` and `pkcs11` are recognized.
pub open spec fn server_spec(s: Seq<char>) -> Option<ServerOptView> {
    match split_first_spec(s, ':') {
        Some(p) => if p.0 == "kmip"@ {
            match kmip_server_spec(p.1) {
                Some(k) => Some(ServerOptView::Kmip(k)),
                None => None,
            }
        } else if p.0 == "pkcs11"@ {
            match pkcs11_server_spec(p.1) {
                Some(v) => Some(ServerOptView::Pkcs11(v)),
                None => None,
            }
        } else {
            None
        },
        None => None,
    }
}

// ---------------------------------------------------------------------------
// The parser, one function per rule
// ---------------------------------------------------------------------------

/// Parses `user[:pass]`.
pub fn parse_user_pass(input: &str) -> (r: Result<(String, Option<String>), InventoryError>)
    ensures
        r matches Ok(v) && (v.0@, opt_str_view(v.1)) == user_pass_spec(input@),
{
    match split_first(input, ':') {
        Some((user, pass)) => Ok((user, Some(pass))),
        None => Ok((input.to_owned(), None)),
    }
}

/// Parses `host[:port]`, defaulting an absent port to 5696.
pub fn parse_addr_port(input: &str) -> (r: Result<(String, u16), InventoryError>)
    ensures
        match addr_port_spec(input@) {
            Some(ap) => r matches Ok(v) && v.0@ == ap.0 && v.1 == ap.1,
            None => r matches Err(e) && e.kind == ErrorKind::Parse,
        },
{
    match split_first(input, ':') {
        Some((host, port_str)) => match parse_u16_str(port_str.as_str()) {
            Some(port) => Ok((host, port)),
            None => Err(
                InventoryError::new(
                    ErrorKind::Parse,
                    "Port is not an unsigned 16-bit integer".to_owned(),
                ),
            ),
        },
        None => Ok((input.to_owned(), DEFAULT_KMIP_PORT)),
    }
}

/// Parses `[user[:pass]@]host[:port]`.
pub fn parse_kmip_server(input: &str) -> (r: Result<KmipServerOpt, InventoryError>)
    ensures
        match kmip_server_spec(input@) {
            Some(k) => r matches Ok(v) && v@ == k,
            None => r matches Err(e) && e.kind == ErrorKind::Parse,
        },
{
    match split_first(input, '@') {
        Some((user_pass, rest)) => {
            let (user, pass) = match parse_user_pass(user_pass.as_str()) {
                Ok(up) => up,
                Err(e) => {
                    return Err(e);
                },
            };
            let (addr, port) = match parse_addr_port(rest.as_str()) {
                Ok(ap) => ap,
                Err(e) => {
                    return Err(e);
                },
            };
            Ok(KmipServerOpt { addr, port, user: Some(user), pass })
        },
        None => {
            let (addr, port) = match parse_addr_port(input) {
                Ok(ap) => ap,
                Err(e) => {
                    return Err(e);
                },
            };
            Ok(KmipServerOpt { addr, port, user: None, pass: None })
        },
    }
}

/// Reads a slot token: a decimal `u64` is an id, anything else a label.
pub fn parse_slot_id_or_label(input: &str) -> (r: SlotSelector)
    ensures
        r@ == slot_selector_spec(input@),
{
    match parse_u64_str(input) {
        Some(id) => SlotSelector::ById(id),
        None => SlotSelector::ByLabel(input.to_owned()),
    }
}

/// Parses `slot_id_or_label[:user_pin]@path/to/lib.so`.
pub fn parse_pkcs11_server(input: &str) -> (r: Result<Pkcs11ServerOpt, InventoryError>)
    ensures
        match pkcs11_server_spec(input@) {
            Some(v) => r matches Ok(p) && p@ == v,
            None => r matches Err(e) && e.kind == ErrorKind::Parse && e.msg@
                == "Missing '@' character in PKCS#11 server specification"@,
        },
{
    match split_first(input, '@') {
        Some((slot_pin, lib_path)) => match split_first(slot_pin.as_str(), ':') {
            Some((slot_token, pin)) => Ok(
                Pkcs11ServerOpt {
                    lib_path,
                    slot: parse_slot_id_or_label(slot_token.as_str()),
                    user_pin: Some(pin),
                },
            ),
            None => Ok(
                Pkcs11ServerOpt {
                    lib_path,
                    slot: parse_slot_id_or_label(slot_pin.as_str()),
                    user_pin: None,
                },
            ),
        },
        None => Err(
            InventoryError::new(
                ErrorKind::Parse,
                "Missing '@' character in PKCS#11 server specification".to_owned(),
            ),
        ),
    }
}

/// Parses a whole connection descriptor.
pub fn parse_server(input: &str) -> (r: Result<ServerOpt, InventoryError>)
    ensures
        match server_spec(input@) {
            Some(v) => r matches Ok(s) && s@ == v,
            None => r matches Err(e) && e.kind == ErrorKind::Parse,
        },
        (match split_first_spec(input@, ':') {
            Some(p) => p.0 != "kmip"@ && p.0 != "pkcs11"@,
            None => true,
        }) ==> (r matches Err(e) && e.msg@
            == "Expected: kmip:[user[:pass]@]ip_or_fqdn[:port] or pkcs11:slot_id_or_label[:user_pin]@path/to/lib.so"@),
        (match split_first_spec(input@, ':') {
            Some(p) => p.0 == "pkcs11"@ && !contains_char(p.1, '@'),
            None => false,
        }) ==> (r matches Err(e) && e.msg@
            == "Missing '@' character in PKCS#11 server specification"@),
{
    proof {
        reveal_strlit("kmip");
        reveal_strlit("pkcs11");
        assert("kmip"@.len() != "pkcs11"@.len());
    }
    match split_first(input, ':') {
        Some((scheme, body)) => {
            if crate::text::str_eq(scheme.as_str(), "kmip") {
                match parse_kmip_server(body.as_str()) {
                    Ok(k) => Ok(ServerOpt::Kmip(k)),
                    Err(e) => Err(e),
                }
            } else if crate::text::str_eq(scheme.as_str(), "pkcs11") {
                match parse_pkcs11_server(body.as_str()) {
                    Ok(p) => Ok(ServerOpt::Pkcs11(p)),
                    Err(e) => Err(e),
                }
            } else {
                Err(
                    InventoryError::new(
                        ErrorKind::Parse,
                        "Expected: kmip:[user[:pass]@]ip_or_fqdn[:port] or pkcs11:slot_id_or_label[:user_pin]@path/to/lib.so".to_owned(),
                    ),
                )
            }
        },
        None => Err(
            InventoryError::new(
                ErrorKind::Parse,
                "Expected: kmip:[user[:pass]@]ip_or_fqdn[:port] or pkcs11:slot_id_or_label[:user_pin]@path/to/lib.so".to_owned(),
            ),
        ),
    }
}

// ---------------------------------------------------------------------------
// Laws of the grammar
// ---------------------------------------------------------------------------

/// A KMIP body with no credentials and no port names the default port 5696
/// and carries no user and no password.
pub proof fn lemma_kmip_plain_host_defaults(body: Seq<char>)
    requires
        !contains_char(body, '@'),
        !contains_char(body, ':'),
    ensures
        kmip_server_spec(body) == Some(
            (KmipServerOptView { addr: body, port: 5696, user: None, pass: None }),
        ),
{
}

/// A whole descriptor `kmip:` followed by a plain host parses to that host
/// with port 5696 and no credentials.
pub proof fn lemma_kmip_host_descriptor(desc: Seq<char>, body: Seq<char>)
    requires
        desc == "kmip:"@ + body,
        !contains_char(body, '@'),
        !contains_char(body, ':'),
    ensures
        server_spec(desc) == Some(
            ServerOptView::Kmip(
                (KmipServerOptView { addr: body, port: 5696, user: None, pass: None }),
            ),
        ),
{
    reveal_strlit("kmip:");
    reveal_strlit("kmip");
    assert(desc.len() == 5 + body.len());
    assert forall|j: int| 0 <= j < 4 implies desc[j] != ':' by {
        assert(desc[j] == "kmip:"@[j]);
    }
    assert(desc[4] == "kmip:"@[4]);
    crate::text::lemma_first_index_at(desc, ':', 4);
    assert(desc.take(4) =~= "kmip"@);
    assert(desc.skip(5) =~= body);
    lemma_kmip_plain_host_defaults(body);
}

/// A string whose first-colon prefix is neither `kmip` nor `pkcs11`, or
/// which has no colon at all, is no descriptor.
pub proof fn lemma_unknown_scheme_rejected(s: Seq<char>)
    requires
        match split_first_spec(s, ':') {
            Some(p) => p.0 != "kmip"@ && p.0 != "pkcs11"@,
            None => true,
        },
    ensures
        server_spec(s) is None,
{
}

} // verus!
