//! The server's public key as a client sees it.

use vstd::prelude::*;

use crate::codec::lemma_split;
use crate::config::{lemma_config_encoding_len, lemma_config_read, public_key_len, Config, CONFIG_ENCODING_LEN};

verus! {

/// Public key of a server, tied to the [`Config`] it was made under. It holds
/// the group's encoding: 32 bytes, or 33 for P-256.
#[derive(Debug, PartialEq, Eq, Hash)]
pub struct PublicKey {
    config: Config,
    key: Vec<u8>,
}

/// Whether two byte strings are equal, compared in full.
pub(crate) fn bytes_equal(a: &[u8], b: &[u8]) -> (r: bool)
    ensures
        r == (a@ == b@),
{
    if a.len() != b.len() {
        return false;
    }
    let mut i: usize = 0;
    while i < a.len()
        invariant
            a@.len() == b@.len(),
            0 <= i <= a@.len(),
            forall|j: int| 0 <= j < i ==> a@[j] == b@[j],
        decreases a@.len() - i,
    {
        if a[i] != b[i] {
            return false;
        }
        i = i + 1;
    }
    assert(a@ =~= b@);
    true
}

/// A copy of a byte string.
pub(crate) fn copy_bytes(a: &[u8]) -> (r: Vec<u8>)
    ensures
        r@ == a@,
{
    let mut out: Vec<u8> = Vec::with_capacity(a.len());
    let mut i: usize = 0;
    while i < a.len()
        invariant
            0 <= i <= a@.len(),
            out@ == a@.subrange(0, i as int),
        decreases a@.len() - i,
    {
        out.push(a[i]);
        assert(out@ =~= a@.subrange(0, i as int + 1));
        i = i + 1;
    }
    assert(out@ =~= a@);
    out
}

impl PublicKey {
    #[verifier::type_invariant]
    spec fn inv(self) -> bool {
        self.key@.len() == public_key_len(self.config.spec_ake())
    }

    /// The configuration the key was made under.
    pub closed spec fn spec_config(self) -> Config {
        self.config
    }

    /// The key in its group's encoding.
    pub closed spec fn spec_bytes(self) -> Seq<u8> {
        self.key@
    }

    /// Wraps a key in its group's encoding.
    pub(crate) fn new(config: Config, key: Vec<u8>) -> (r: Self)
        requires
            key@.len() == public_key_len(config.spec_ake()),
        ensures
            r.spec_config() == config,
            r.spec_bytes() == key@,
    {
        PublicKey { config, key }
    }

    /// The configuration the key was made under.
    pub fn config(&self) -> (r: Config)
        ensures
            r == self.spec_config(),
    {
        self.config
    }

    /// The key in its group's encoding: 32 bytes, or 33 for P-256.
    pub fn to_bytes(&self) -> (r: Vec<u8>)
        ensures
            r@ == self.spec_bytes(),
            r@.len() == public_key_len(self.spec_config().spec_ake()),
    {
        proof {
            use_type_invariant(self);
        }
        copy_bytes(self.key.as_slice())
    }

    /// A copy of this key.
    pub fn duplicate(&self) -> (r: Self)
        ensures
            r.spec_config() == self.spec_config(),
            r.spec_bytes() == self.spec_bytes(),
    {
        proof {
            use_type_invariant(self);
        }
        PublicKey { config: self.config, key: copy_bytes(self.key.as_slice()) }
    }

    /// The model of the key.
    pub open spec fn model(self) -> (Config, Seq<u8>) {
        (self.spec_config(), self.spec_bytes())
    }

    /// Appends the encoding of the key.
    pub(crate) fn write_to(&self, out: &mut Vec<u8>)
        ensures
            final(out)@ == old(out)@ + public_key_encoding(self.model()),
            public_key_valid(self.model()),
    {
        proof {
            use_type_invariant(self);
        }
        let ghost start = out@;
        self.config.write_to(out);
        let mut i: usize = 0;
        let ghost mid = out@;
        while i < ENVELOPE_LEN
            invariant
                self.key@.len() <= ENVELOPE_LEN,
                0 <= i <= ENVELOPE_LEN,
                out@ == mid + envelope(self.key@).subrange(0, i as int),
            decreases ENVELOPE_LEN - i,
        {
            let b: u8 = if i < self.key.len() { self.key[i] } else { 0u8 };
            out.push(b);
            assert(out@ =~= mid + envelope(self.key@).subrange(0, i as int + 1));
            i = i + 1;
        }
        assert(envelope(self.key@).subrange(0, 33) =~= envelope(self.key@));
        assert(out@ =~= start + public_key_encoding(self.model()));
    }

    /// Reads the key encoded at `pos`.
    pub(crate) fn read_from(s: &[u8], pos: usize) -> (r: Option<(PublicKey, usize)>)
        ensures
            match (r, read_public_key(s@, pos as int)) {
                (Some((k, next)), Some((m, snext))) => k.model() == m && next == snext,
                (None, None) => true,
                _ => false,
            },
    {
        let (config, p) = match Config::read_from(s, pos) {
            Some(x) => x,
            None => return None,
        };
        if p > s.len() || s.len() - p < ENVELOPE_LEN {
            return None;
        }
        let n: usize = match config.ake() {
            crate::config::Ake::P256 => 33,
            _ => 32,
        };
        assert(n == public_key_len(config.spec_ake()));
        assert(Config::read_at(s@, pos as int) == Some((config, p as int)));
        let mut j: usize = n;
        while j < ENVELOPE_LEN
            invariant
                p + ENVELOPE_LEN <= s@.len(),
                s@.len() == s.len(),
                n <= j <= ENVELOPE_LEN,
                n == public_key_len(config.spec_ake()),
                Config::read_at(s@, pos as int) == Some((config, p as int)),
                forall|i: int| p + n <= i < p + j ==> s@[i] == 0,
            decreases ENVELOPE_LEN - j,
        {
            if s[p + j] != 0 {
                assert(!(forall|i: int| p + n <= i < p + ENVELOPE_LEN ==> s@[i] == 0)) by {
                    assert(s@[p + j] != 0);
                }
                return None;
            }
            j = j + 1;
        }
        let mut key: Vec<u8> = Vec::with_capacity(n);
        let mut i: usize = 0;
        while i < n
            invariant
                p + ENVELOPE_LEN <= s@.len(),
                s@.len() == s.len(),
                n <= ENVELOPE_LEN,
                0 <= i <= n,
                key@ == s@.subrange(p as int, p + i),
            decreases n - i,
        {
            key.push(s[p + i]);
            assert(key@ =~= s@.subrange(p as int, p + i + 1));
            i = i + 1;
        }
        Some((PublicKey { config, key }, p + ENVELOPE_LEN))
    }

    /// The encoding of the key: its [`Config`], then the key padded with
    /// zeros to 33 bytes.
    pub fn encode(&self) -> (r: Vec<u8>)
        ensures
            r@ == public_key_encoding(self.model()),
            read_public_key(r@, 0) == Some((self.model(), r@.len() as int)),
    {
        let mut out: Vec<u8> = Vec::new();
        self.write_to(&mut out);
        assert(out@ =~= public_key_encoding(self.model()));
        proof {
            lemma_public_key_round_trip(self.model());
        }
        out
    }

    /// Reads a key from its encoding; `None` unless `bytes` encode one key
    /// and nothing more.
    pub fn decode(bytes: &[u8]) -> (r: Option<PublicKey>)
        ensures
            match (r, read_public_key(bytes@, 0)) {
                (Some(k), Some((m, next))) => k.model() == m && next == bytes@.len(),
                (None, Some((_, next))) => next != bytes@.len(),
                (None, None) => true,
                _ => false,
            },
    {
        match PublicKey::read_from(bytes, 0) {
            Some((k, next)) => if next == bytes.len() {
                Some(k)
            } else {
                None
            },
            None => None,
        }
    }

    /// Whether two keys are the same: same configuration, same bytes.
    pub fn same_as(&self, other: &PublicKey) -> (r: bool)
        ensures
            r == (self.spec_config() == other.spec_config() && self.spec_bytes()
                == other.spec_bytes()),
    {
        self.config == other.config && bytes_equal(self.key.as_slice(), other.key.as_slice())
    }

    /// The key in its group's encoding, borrowed.
    pub(crate) fn key_bytes(&self) -> (r: &[u8])
        ensures
            r@ == self.spec_bytes(),
    {
        self.key.as_slice()
    }

    /// Whether this key is the given encoding.
    pub(crate) fn is_encoding(&self, key: &[u8]) -> (r: bool)
        ensures
            r == (self.spec_bytes() == key@),
    {
        bytes_equal(self.key.as_slice(), key)
    }
}

impl Clone for PublicKey {
    fn clone(&self) -> (r: Self)
        ensures
            r.spec_config() == self.spec_config(),
            r.spec_bytes() == self.spec_bytes(),
    {
        self.duplicate()
    }
}

/// Length of an encoded [`PublicKey`]: the configuration and a 33-byte
/// envelope.
pub const PUBLIC_KEY_ENCODING_LEN: usize = 48;

/// Width of the envelope that holds a key of any group.
pub const ENVELOPE_LEN: usize = 33;

/// A key padded with zeros to [`ENVELOPE_LEN`] bytes.
pub open spec fn envelope(key: Seq<u8>) -> Seq<u8> {
    key + Seq::new((ENVELOPE_LEN - key.len()) as nat, |i: int| 0u8)
}

/// The encoding of a key: its configuration, then its envelope.
pub open spec fn public_key_encoding(model: (Config, Seq<u8>)) -> Seq<u8> {
    model.0.spec_encoding() + envelope(model.1)
}

/// Whether a model is that of a key a program can hold.
pub open spec fn public_key_valid(model: (Config, Seq<u8>)) -> bool {
    model.0.wf() && model.1.len() == public_key_len(model.0.spec_ake())
}

/// The key encoded at `pos`, and the position after it. The padding must be
/// zero.
pub open spec fn read_public_key(s: Seq<u8>, pos: int) -> Option<((Config, Seq<u8>), int)> {
    match Config::read_at(s, pos) {
        Some((c, p)) => {
            let n = public_key_len(c.spec_ake());
            if p + ENVELOPE_LEN <= s.len() && (forall|i: int|
                p + n <= i < p + ENVELOPE_LEN ==> s[i] == 0) {
                Some(((c, s.subrange(p, p + n)), p + ENVELOPE_LEN))
            } else {
                None
            }
        },
        None => None,
    }
}

/// An encoded key placed at `pos` is read back, whatever follows.
pub proof fn lemma_public_key_read(model: (Config, Seq<u8>), s: Seq<u8>, pos: int)
    requires
        public_key_valid(model),
        0 <= pos,
        pos + public_key_encoding(model).len() <= s.len(),
        s.subrange(pos, pos + public_key_encoding(model).len()) == public_key_encoding(model),
    ensures
        public_key_encoding(model).len() == PUBLIC_KEY_ENCODING_LEN,
        read_public_key(s, pos) == Some((model, pos + PUBLIC_KEY_ENCODING_LEN)),
{
    let (c, key) = model;
    let ce = c.spec_encoding();
    let env = envelope(key);
    lemma_config_encoding_len(c);
    lemma_split(s, pos, ce, env);
    lemma_config_read(c, s, pos);
    let p = pos + 15;
    let n = public_key_len(c.spec_ake()) as int;
    assert(s.subrange(p, p + n) =~= env.subrange(0, n));
    assert(env.subrange(0, n) =~= key);
    assert forall|i: int| p + n <= i < p + ENVELOPE_LEN implies s[i] == 0 by {
        assert(s[i] == s.subrange(p, p + 33)[i - p]);
    }
}

/// Decoding the encoding of a public key (or of a client file, which is
/// encoded as its key) gives the key back.
pub proof fn lemma_public_key_round_trip(model: (Config, Seq<u8>))
    requires
        public_key_valid(model),
    ensures
        read_public_key(public_key_encoding(model), 0) == Some(
            (model, public_key_encoding(model).len() as int),
        ),
{
    let e = public_key_encoding(model);
    assert(e.subrange(0, e.len() as int) =~= e);
    lemma_public_key_read(model, e, 0);
}

/// What an optional key stands for: its configuration and bytes.
pub open spec fn key_model(key: Option<PublicKey>) -> Option<(Config, Seq<u8>)> {
    match key {
        Some(k) => Some((k.spec_config(), k.spec_bytes())),
        None => None,
    }
}

/// Copy of an optional key.
pub(crate) fn duplicate_option(key: &Option<PublicKey>) -> (r: Option<PublicKey>)
    ensures
        key_model(r) == key_model(*key),
{
    match key {
        Some(k) => Some(k.duplicate()),
        None => None,
    }
}

} // verus!
