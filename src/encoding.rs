//! The byte encodings of messages, files and protocol states, built from a
//! [`Config`], public keys and length-prefixed byte strings.

use vstd::prelude::*;

use crate::codec::{framed, lemma_framed, lemma_split, read_framed, take_framed, write_framed};
use crate::config::{lemma_config_encoding_len, lemma_config_read, Config};
use crate::public_key::{
    lemma_public_key_read, public_key_encoding, public_key_valid, read_public_key, PublicKey,
};

verus! {

/// A configuration, then a byte string.
pub open spec fn tagged_encoding(config: Config, body: Seq<u8>) -> Seq<u8> {
    config.spec_encoding() + framed(body)
}

/// Reads [`tagged_encoding`] from the whole of `s`.
pub open spec fn read_tagged(s: Seq<u8>) -> Option<(Config, Seq<u8>)> {
    match Config::read_at(s, 0) {
        Some((c, p)) => match read_framed(s, p) {
            Some((b, q)) => if q == s.len() {
                Some((c, b))
            } else {
                None
            },
            None => None,
        },
        None => None,
    }
}

/// A configuration, a public key, then a byte string.
pub open spec fn keyed_encoding(config: Config, key: (Config, Seq<u8>), body: Seq<u8>) -> Seq<u8> {
    config.spec_encoding() + public_key_encoding(key) + framed(body)
}

/// Reads [`keyed_encoding`] from the whole of `s`.
pub open spec fn read_keyed(s: Seq<u8>) -> Option<(Config, (Config, Seq<u8>), Seq<u8>)> {
    match Config::read_at(s, 0) {
        Some((c, p)) => match read_public_key(s, p) {
            Some((k, q)) => match read_framed(s, q) {
                Some((b, t)) => if t == s.len() {
                    Some((c, k, b))
                } else {
                    None
                },
                None => None,
            },
            None => None,
        },
        None => None,
    }
}

/// A configuration, an optional public key (a byte 0, or a byte 1 and the
/// key), then two byte strings.
pub open spec fn client_state_encoding(
    config: Config,
    key: Option<(Config, Seq<u8>)>,
    first: Seq<u8>,
    second: Seq<u8>,
) -> Seq<u8> {
    config.spec_encoding() + match key {
        Some(k) => seq![1u8] + public_key_encoding(k),
        None => seq![0u8],
    } + framed(first) + framed(second)
}

/// Whether an optional key belongs to the configuration it is stored with.
pub open spec fn key_fits(config: Config, key: Option<(Config, Seq<u8>)>) -> bool {
    key matches Some(k) ==> k.0 == config
}

/// Reads an optional public key at `pos`.
pub open spec fn read_optional_key(s: Seq<u8>, pos: int) -> Option<(Option<(Config, Seq<u8>)>, int)> {
    if 0 <= pos < s.len() {
        if s[pos] == 0 {
            Some((None, pos + 1))
        } else if s[pos] == 1 {
            match read_public_key(s, pos + 1) {
                Some((k, q)) => Some((Some(k), q)),
                None => None,
            }
        } else {
            None
        }
    } else {
        None
    }
}

/// Reads [`client_state_encoding`] from the whole of `s`.
pub open spec fn read_client_state(s: Seq<u8>) -> Option<
    (Config, Option<(Config, Seq<u8>)>, Seq<u8>, Seq<u8>),
> {
    match Config::read_at(s, 0) {
        Some((c, p)) => match read_optional_key(s, p) {
            Some((k, q)) => match read_framed(s, q) {
                Some((a, t)) => match read_framed(s, t) {
                    Some((b, u)) => if u == s.len() {
                        Some((c, k, a, b))
                    } else {
                        None
                    },
                    None => None,
                },
                None => None,
            },
            None => None,
        },
        None => None,
    }
}

/// Decoding the encoding of a message gives the message back: for each of
/// the six message types, `decode(encode(m))` has the configuration and the
/// payload of `m` (their `encode` writes [`tagged_encoding`], their `decode`
/// reads [`read_tagged`]).
pub proof fn lemma_tagged_round_trip(config: Config, body: Seq<u8>)
    requires
        config.wf(),
        body.len() <= u64::MAX,
    ensures
        read_tagged(tagged_encoding(config, body)) == Some((config, body)),
{
    let s = tagged_encoding(config, body);
    let ce = config.spec_encoding();
    lemma_config_encoding_len(config);
    assert(s.subrange(0, s.len() as int) =~= s);
    lemma_split(s, 0, ce, framed(body));
    lemma_config_read(config, s, 0);
    lemma_framed(body, s, ce.len() as int);
}

/// Decoding the encoding of a server file, server login state, server
/// registration state or server configuration gives it back: `encode`
/// writes [`keyed_encoding`] of the value's parts and `decode` reads
/// [`read_keyed`].
pub proof fn lemma_keyed_round_trip(config: Config, key: (Config, Seq<u8>), body: Seq<u8>)
    requires
        config.wf(),
        public_key_valid(key),
        body.len() <= u64::MAX,
    ensures
        read_keyed(keyed_encoding(config, key, body)) == Some((config, key, body)),
{
    let s = keyed_encoding(config, key, body);
    let ce = config.spec_encoding();
    let ke = public_key_encoding(key);
    lemma_config_encoding_len(config);
    assert(s.subrange(0, s.len() as int) =~= s);
    assert(s =~= ce + (ke + framed(body)));
    lemma_split(s, 0, ce, ke + framed(body));
    lemma_split(s, ce.len() as int, ke, framed(body));
    lemma_config_read(config, s, 0);
    lemma_public_key_read(key, s, ce.len() as int);
    lemma_framed(body, s, (ce.len() + ke.len()) as int);
}

/// Decoding the encoding of a client registration or login state gives it
/// back: `encode` writes [`client_state_encoding`] of the state's parts,
/// `decode` reads [`read_client_state`] and keeps what passes [`key_fits`],
/// as every state does.
pub proof fn lemma_client_state_round_trip(
    config: Config,
    key: Option<(Config, Seq<u8>)>,
    first: Seq<u8>,
    second: Seq<u8>,
)
    requires
        config.wf(),
        key matches Some(k) ==> public_key_valid(k),
        key_fits(config, key),
        first.len() <= u64::MAX,
        second.len() <= u64::MAX,
    ensures
        read_client_state(client_state_encoding(config, key, first, second)) == Some(
            (config, key, first, second),
        ),
        key_fits(config, key),
{
    let s = client_state_encoding(config, key, first, second);
    let ce = config.spec_encoding();
    let oe = match key {
        Some(k) => seq![1u8] + public_key_encoding(k),
        None => seq![0u8],
    };
    let fa = framed(first);
    let fb = framed(second);
    lemma_config_encoding_len(config);
    assert(s.subrange(0, s.len() as int) =~= s);
    assert(s =~= ce + (oe + (fa + fb)));
    lemma_split(s, 0, ce, oe + (fa + fb));
    lemma_split(s, ce.len() as int, oe, fa + fb);
    lemma_split(s, (ce.len() + oe.len()) as int, fa, fb);
    lemma_config_read(config, s, 0);
    let p = ce.len() as int;
    assert(s[p] == oe[0]);
    match key {
        Some(k) => {
            let w = s.subrange(p, p + oe.len());
            assert(s.subrange(p + 1, p + oe.len()) =~= w.subrange(1, oe.len() as int));
            assert(oe.subrange(1, oe.len() as int) =~= public_key_encoding(k));
            lemma_public_key_read(k, s, p + 1);
        },
        None => {},
    }
    lemma_framed(first, s, p + oe.len());
    lemma_framed(second, s, p + oe.len() + fa.len());
}

/// Writes [`tagged_encoding`].
pub(crate) fn write_tagged(config: &Config, body: &[u8]) -> (r: Vec<u8>)
    ensures
        r@ == tagged_encoding(*config, body@),
        config.wf(),
        body@.len() <= u64::MAX,
{
    assert(body@.len() == body.len());
    assert(body.len() <= usize::MAX);
    assert(usize::MAX <= u64::MAX);
    let mut out: Vec<u8> = Vec::new();
    config.write_to(&mut out);
    write_framed(&mut out, body);
    assert(out@ =~= tagged_encoding(*config, body@));
    out
}

/// Reads [`tagged_encoding`] from the whole of `s`.
pub(crate) fn take_tagged(s: &[u8]) -> (r: Option<(Config, Vec<u8>)>)
    ensures
        match (r, read_tagged(s@)) {
            (Some((c, b)), Some((sc, sb))) => c == sc && b@ == sb,
            (None, None) => true,
            _ => false,
        },
{
    let (c, p) = match Config::read_from(s, 0) {
        Some(x) => x,
        None => return None,
    };
    let (b, q) = match take_framed(s, p) {
        Some(x) => x,
        None => return None,
    };
    if q != s.len() {
        return None;
    }
    Some((c, b))
}

/// Writes [`keyed_encoding`].
pub(crate) fn write_keyed(config: &Config, key: &PublicKey, body: &[u8]) -> (r: Vec<u8>)
    ensures
        r@ == keyed_encoding(*config, key.model(), body@),
        config.wf(),
        public_key_valid(key.model()),
    body@.len() <= u64::MAX,
{
    assert(body@.len() == body.len());
    assert(usize::MAX <= u64::MAX);
    let mut out: Vec<u8> = Vec::new();
    config.write_to(&mut out);
    key.write_to(&mut out);
    write_framed(&mut out, body);
    assert(out@ =~= keyed_encoding(*config, key.model(), body@));
    out
}

/// Reads [`keyed_encoding`] from the whole of `s`.
pub(crate) fn take_keyed(s: &[u8]) -> (r: Option<(Config, PublicKey, Vec<u8>)>)
    ensures
        match (r, read_keyed(s@)) {
            (Some((c, k, b)), Some((sc, sk, sb))) => c == sc && k.model() == sk && b@ == sb,
            (None, None) => true,
            _ => false,
        },
{
    let (c, p) = match Config::read_from(s, 0) {
        Some(x) => x,
        None => return None,
    };
    let (k, q) = match PublicKey::read_from(s, p) {
        Some(x) => x,
        None => return None,
    };
    let (b, t) = match take_framed(s, q) {
        Some(x) => x,
        None => return None,
    };
    if t != s.len() {
        return None;
    }
    Some((c, k, b))
}

/// Writes [`client_state_encoding`].
pub(crate) fn write_client_state(
    config: &Config,
    key: &Option<PublicKey>,
    first: &[u8],
    second: &[u8],
) -> (r: Vec<u8>)
    ensures
        r@ == client_state_encoding(
            *config,
            match key {
                Some(k) => Some(k.model()),
                None => None,
            },
            first@,
            second@,
        ),
        config.wf(),
        key matches Some(k) ==> public_key_valid(k.model()),
    first@.len() <= u64::MAX,
        second@.len() <= u64::MAX,
{
    assert(first@.len() == first.len());
    assert(second@.len() == second.len());
    assert(usize::MAX <= u64::MAX);
    let mut out: Vec<u8> = Vec::new();
    config.write_to(&mut out);
    let ghost mid = out@;
    match key {
        Some(k) => {
            out.push(1u8);
            k.write_to(&mut out);
            assert(out@ =~= mid + (seq![1u8] + public_key_encoding(k.model())));
        },
        None => {
            out.push(0u8);
            assert(out@ =~= mid + seq![0u8]);
        },
    }
    write_framed(&mut out, first);
    write_framed(&mut out, second);
    assert(out@ =~= client_state_encoding(
        *config,
        match key {
            Some(k) => Some(k.model()),
            None => None,
        },
        first@,
        second@,
    ));
    out
}

/// Reads [`client_state_encoding`] from the whole of `s`.
pub(crate) fn take_client_state(s: &[u8]) -> (r: Option<(Config, Option<PublicKey>, Vec<u8>, Vec<u8>)>)
    ensures
        match (r, read_client_state(s@)) {
            (Some((c, k, a, b)), Some((sc, sk, sa, sb))) => c == sc && match k {
                Some(k) => Some(k.model()),
                None => None,
            } == sk && a@ == sa && b@ == sb,
            (None, None) => true,
            _ => false,
        },
{
    let (c, p) = match Config::read_from(s, 0) {
        Some(x) => x,
        None => return None,
    };
    if p >= s.len() {
        return None;
    }
    let (k, q) = if s[p] == 0 {
        (None, p + 1)
    } else if s[p] == 1 {
        match PublicKey::read_from(s, p + 1) {
            Some((k, q)) => (Some(k), q),
            None => return None,
        }
    } else {
        return None;
    };
    let (a, t) = match take_framed(s, q) {
        Some(x) => x,
        None => return None,
    };
    let (b, u) = match take_framed(s, t) {
        Some(x) => x,
        None => return None,
    };
    if u != s.len() {
        return None;
    }
    Some((c, k, a, b))
}

} // verus!
