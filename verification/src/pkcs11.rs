//! The hardware-token adapter's logic: paginated handle search, slot
//! resolution, and normalization of one handle's attribute set into a key
//! record. The token driver itself stays outside the library; it hands in
//! slot ids, label bytes, handle pages and attribute values.

use vstd::prelude::*;

use crate::config::{Opt, Pkcs11ServerOpt, ServerOpt};
use crate::error::{ErrorKind, InventoryError};
use crate::key::{Key, KeyType, KeyView};
use crate::text::{dec_str_of, str_eq, trim_end_str, trimmed_end, u64_to_dec_string};

verus! {

// ---------------------------------------------------------------------------
// Uppercase hex rendering of a byte identifier
// ---------------------------------------------------------------------------

/// The uppercase hex character for one value below sixteen.
pub open spec fn hex_digit_char(d: nat) -> char {
    if d == 0 {
        '0'
    } else if d == 1 {
        '1'
    } else if d == 2 {
        '2'
    } else if d == 3 {
        '3'
    } else if d == 4 {
        '4'
    } else if d == 5 {
        '5'
    } else if d == 6 {
        '6'
    } else if d == 7 {
        '7'
    } else if d == 8 {
        '8'
    } else if d == 9 {
        '9'
    } else if d == 10 {
        'A'
    } else if d == 11 {
        'B'
    } else if d == 12 {
        'C'
    } else if d == 13 {
        'D'
    } else if d == 14 {
        'E'
    } else {
        'F'
    }
}

/// Two uppercase hex digits for every byte, in order.
pub open spec fn hex_upper_of(b: Seq<u8>) -> Seq<char>
    decreases b.len(),
{
    if b.len() == 0 {
        Seq::empty()
    } else {
        hex_upper_of(b.drop_last()) + seq![
            hex_digit_char((b.last() / 16) as nat),
            hex_digit_char((b.last() % 16) as nat),
        ]
    }
}

fn hex_digit(d: u8) -> (c: char)
    requires
        d < 16,
    ensures
        c == hex_digit_char(d as nat),
{
    if d == 0 {
        '0'
    } else if d == 1 {
        '1'
    } else if d == 2 {
        '2'
    } else if d == 3 {
        '3'
    } else if d == 4 {
        '4'
    } else if d == 5 {
        '5'
    } else if d == 6 {
        '6'
    } else if d == 7 {
        '7'
    } else if d == 8 {
        '8'
    } else if d == 9 {
        '9'
    } else if d == 10 {
        'A'
    } else if d == 11 {
        'B'
    } else if d == 12 {
        'C'
    } else if d == 13 {
        'D'
    } else if d == 14 {
        'E'
    } else {
        'F'
    }
}

/// Renders bytes as uppercase hex, two digits per byte.
pub fn hex_upper(b: &Vec<u8>) -> (r: String)
    ensures
        r@ == hex_upper_of(b@),
{
    let mut s = String::new();
    let mut i: usize = 0;
    while i < b.len()
        invariant
            i <= b@.len(),
            s@ == hex_upper_of(b@.take(i as int)),
        decreases b@.len() - i,
    {
        let byte = b[i];
        let hi = hex_digit(byte / 16);
        let lo = hex_digit(byte % 16);
        crate::text::push_char(&mut s, hi);
        crate::text::push_char(&mut s, lo);
        proof {
            let p = b@.take(i as int + 1);
            assert(p.drop_last() =~= b@.take(i as int));
            assert(p.last() == b@[i as int]);
            assert(s@ =~= hex_upper_of(p));
        }
        i += 1;
    }
    proof {
        assert(b@.take(b@.len() as int) =~= b@);
    }
    s
}

// ---------------------------------------------------------------------------
// Label bytes
// ---------------------------------------------------------------------------

/// What std's lossy UTF-8 decoding makes of the given bytes; it depends on
/// the bytes alone.
pub uninterp spec fn utf8_lossy_of(b: Seq<u8>) -> Seq<char>;

/// Relies on String::from_utf8_lossy: decodes the bytes as UTF-8, turning
/// every invalid sequence into the replacement character.
#[verifier::external_body]
fn utf8_lossy(b: &Vec<u8>) -> (r: String)
    ensures
        r@ == utf8_lossy_of(b@),
{
    String::from_utf8_lossy(b).to_string()
}

/// Decodes label bytes the way key names are displayed.
pub fn label_to_string(b: &Vec<u8>) -> (r: String)
    ensures
        r@ == utf8_lossy_of(b@),
{
    utf8_lossy(b)
}

/// Whether token label bytes, decoded and stripped of trailing whitespace,
/// equal the wanted label.
pub fn label_matches(label_bytes: &Vec<u8>, wanted: &str) -> (r: bool)
    ensures
        r == (trimmed_end(utf8_lossy_of(label_bytes@)) == wanted@),
{
    let s = utf8_lossy(label_bytes);
    let t = trim_end_str(s.as_str());
    str_eq(t.as_str(), wanted)
}

// ---------------------------------------------------------------------------
// Slot resolution
// ---------------------------------------------------------------------------

/// Position of the first slot whose id equals `wanted`, searched over all
/// slots, initialized or not.
pub fn find_slot_by_id(slot_ids: &Vec<u64>, wanted: u64) -> (r: Option<usize>)
    ensures
        match r {
            Some(i) => i < slot_ids@.len() && slot_ids@[i as int] == wanted && (forall|j: int|
                0 <= j < i ==> slot_ids@[j] != wanted),
            None => forall|j: int| 0 <= j < slot_ids@.len() ==> slot_ids@[j] != wanted,
        },
{
    let mut i: usize = 0;
    while i < slot_ids.len()
        invariant
            i <= slot_ids@.len(),
            forall|j: int| 0 <= j < i ==> slot_ids@[j] != wanted,
        decreases slot_ids@.len() - i,
    {
        if slot_ids[i] == wanted {
            return Some(i);
        }
        i += 1;
    }
    None
}

/// Picks the hardware-token parameters out of the parsed options. A
/// descriptor of the other backend is a contract violation, not a user
/// error; it is rejected here, mirroring the check on the KMIP side.
pub fn pkcs11_server_settings(opt: &Opt) -> (r: Result<&Pkcs11ServerOpt, InventoryError>)
    ensures
        opt.server matches ServerOpt::Kmip(_) ==> (r matches Err(e) && e.kind
            == ErrorKind::Parse),
        opt.server matches ServerOpt::Pkcs11(s) ==> (r matches Ok(p) && *p == s),
{
    match &opt.server {
        ServerOpt::Pkcs11(s) => Ok(s),
        ServerOpt::Kmip(_) => Err(
            InventoryError::new(ErrorKind::Parse, "Expected PKCS#11 settings".to_owned()),
        ),
    }
}

// ---------------------------------------------------------------------------
// Paginated handle search
// ---------------------------------------------------------------------------

/// How many handles one search round trip asks for.
pub const PAGE_SIZE: usize = 100;

/// The state of one paginated object search: the handles gathered so far,
/// and whether a short page has ended the search. The search stops exactly
/// when a page comes back shorter than [`PAGE_SIZE`]; a result set whose
/// last full page is exactly [`PAGE_SIZE`] long costs one extra empty
/// round trip, which ends the search like any other short page.
pub struct PagedSearch {
    pub handles: Vec<u64>,
    pub done: bool,
}

impl PagedSearch {
    /// A search that has seen no page yet.
    pub fn new() -> (r: PagedSearch)
        ensures
            r.handles@ == Seq::<u64>::empty(),
            !r.done,
    {
        PagedSearch { handles: Vec::new(), done: false }
    }

    /// Takes in one page of handles: they are appended in order, and the
    /// search is over exactly when the page is short.
    pub fn feed(&mut self, page: Vec<u64>)
        requires
            !old(self).done,
        ensures
            final(self).handles@ == old(self).handles@ + page@,
            final(self).done == (page@.len() < PAGE_SIZE),
    {
        self.done = page.len() < PAGE_SIZE;
        let mut p = page;
        self.handles.append(&mut p);
    }
}

// ---------------------------------------------------------------------------
// Normalizing one handle's attributes
// ---------------------------------------------------------------------------

/// The object class of a token object, as far as the inventory cares.
#[derive(Clone, Copy, Debug, PartialEq, Eq, Structural)]
pub enum TokenClass {
    PrivateKey,
    PublicKey,
    Other,
}

/// Whether a token key is an RSA key.
#[derive(Clone, Copy, Debug, PartialEq, Eq, Structural)]
pub enum TokenKeyKind {
    Rsa,
    Other,
}

/// One attribute of a token object, already read from the driver as plain
/// values. Attributes outside the requested set are not represented: the
/// caller drops them, as the fetch ignores them anyway.
#[derive(Debug, Clone)]
pub enum TokenAttr {
    Class(TokenClass),
    Id(Vec<u8>),
    KeyKind(TokenKeyKind),
    Label(Vec<u8>),
    ModulusBits(u64),
}

/// Mathematical image of a [`TokenAttr`].
pub enum TokenAttrView {
    Class(TokenClass),
    Id(Seq<u8>),
    KeyKind(TokenKeyKind),
    Label(Seq<u8>),
    ModulusBits(u64),
}

impl View for TokenAttr {
    type V = TokenAttrView;

    open spec fn view(&self) -> TokenAttrView {
        match self {
            TokenAttr::Class(c) => TokenAttrView::Class(*c),
            TokenAttr::Id(b) => TokenAttrView::Id(b@),
            TokenAttr::KeyKind(k) => TokenAttrView::KeyKind(*k),
            TokenAttr::Label(b) => TokenAttrView::Label(b@),
            TokenAttr::ModulusBits(n) => TokenAttrView::ModulusBits(*n),
        }
    }
}

/// The record a fetch starts from, before any attribute arrives: the
/// private kind, an empty identifier and name, and the `unknown` fallback
/// for algorithm and bit length, which stands when the attribute run
/// carries no key-type or no modulus-bits attribute.
pub open spec fn start_key_view() -> KeyView {
    KeyView {
        id: Seq::empty(),
        typ: KeyType::Private,
        name: Seq::empty(),
        alg: "unknown"@,
        len: "unknown"@,
    }
}

/// What one attribute does to the record: the class picks the kind and any
/// class besides public and private key fails the fetch; the id renders as
/// uppercase hex; the key type decides `RSA` against `Non-RSA`; the label
/// decodes lossily; the modulus bit count renders in decimal.
pub open spec fn apply_token_attr(k: KeyView, a: TokenAttrView) -> Option<KeyView> {
    match a {
        TokenAttrView::Class(c) => match c {
            TokenClass::PrivateKey => Some(KeyView { typ: KeyType::Private, ..k }),
            TokenClass::PublicKey => Some(KeyView { typ: KeyType::Public, ..k }),
            TokenClass::Other => None,
        },
        TokenAttrView::Id(b) => Some(KeyView { id: hex_upper_of(b), ..k }),
        TokenAttrView::KeyKind(kk) => match kk {
            TokenKeyKind::Rsa => Some(KeyView { alg: "RSA"@, ..k }),
            TokenKeyKind::Other => Some(KeyView { alg: "Non-RSA"@, ..k }),
        },
        TokenAttrView::Label(b) => Some(KeyView { name: utf8_lossy_of(b), ..k }),
        TokenAttrView::ModulusBits(n) => Some(KeyView { len: dec_str_of(n as nat), ..k }),
    }
}

/// The attributes applied in order, or nothing once one fails.
pub open spec fn fold_token_attrs(k: KeyView, s: Seq<TokenAttrView>) -> Option<KeyView>
    decreases s.len(),
{
    if s.len() == 0 {
        Some(k)
    } else {
        match apply_token_attr(k, s[0]) {
            Some(k2) => fold_token_attrs(k2, s.drop_first()),
            None => None,
        }
    }
}

/// The views of a run of attributes.
pub open spec fn attr_views(s: Seq<TokenAttr>) -> Seq<TokenAttrView> {
    s.map_values(|a: TokenAttr| a@)
}

/// Builds one key record from a fetched attribute run, applying the
/// attributes in order; an object class besides public and private key
/// fails with a fetch error, the kind the orchestrator may skip.
pub fn token_key_from_attrs(attrs: &Vec<TokenAttr>) -> (r: Result<Key, InventoryError>)
    ensures
        match fold_token_attrs(start_key_view(), attr_views(attrs@)) {
            Some(k) => r matches Ok(key) && key@ == k,
            None => r matches Err(e) && e.kind == ErrorKind::Fetch,
        },
{
    let ghost views = attr_views(attrs@);
    let mut id = String::new();
    let mut typ = KeyType::Private;
    let mut name = String::new();
    let mut alg = "unknown".to_owned();
    let mut len = "unknown".to_owned();
    proof {
        assert(start_key_view() =~= (KeyView {
            id: id@,
            typ,
            name: name@,
            alg: alg@,
            len: len@,
        }));
        assert(views.skip(0) =~= views);
    }
    let mut i: usize = 0;
    while i < attrs.len()
        invariant
            i <= attrs@.len(),
            views == attr_views(attrs@),
            fold_token_attrs(start_key_view(), views) == fold_token_attrs(
                KeyView { id: id@, typ, name: name@, alg: alg@, len: len@ },
                views.skip(i as int),
            ),
        decreases attrs@.len() - i,
    {
        let ghost cur = KeyView { id: id@, typ, name: name@, alg: alg@, len: len@ };
        let ghost tail = views.skip(i as int);
        proof {
            assert(tail[0] == views[i as int]);
            assert(tail.drop_first() =~= views.skip(i as int + 1));
        }
        match &attrs[i] {
            TokenAttr::Class(c) => {
                match c {
                    TokenClass::PrivateKey => {
                        typ = KeyType::Private;
                    },
                    TokenClass::PublicKey => {
                        typ = KeyType::Public;
                    },
                    TokenClass::Other => {
                        return Err(
                            InventoryError::new(
                                ErrorKind::Fetch,
                                "Unsupported object class".to_owned(),
                            ),
                        );
                    },
                }
            },
            TokenAttr::Id(b) => {
                id = hex_upper(b);
            },
            TokenAttr::KeyKind(kk) => {
                match kk {
                    TokenKeyKind::Rsa => {
                        alg = "RSA".to_owned();
                    },
                    TokenKeyKind::Other => {
                        alg = "Non-RSA".to_owned();
                    },
                }
            },
            TokenAttr::Label(b) => {
                name = label_to_string(b);
            },
            TokenAttr::ModulusBits(n) => {
                len = u64_to_dec_string(*n);
            },
        }
        proof {
            assert(apply_token_attr(cur, views[i as int]) == Some(
                (KeyView { id: id@, typ, name: name@, alg: alg@, len: len@ }),
            ));
        }
        i += 1;
    }
    proof {
        assert(views.skip(views.len() as int).len() == 0);
    }
    Ok(Key { id, typ, name, alg, len })
}

} // verus!
