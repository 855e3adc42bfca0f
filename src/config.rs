//! Algorithm selection: [`Config`] and the MHF parameters.

use vstd::prelude::*;

use crate::codec::{
    lemma_u32_le, read_u32_le, take_u32_le, u32_le, write_u32_le,
};
use crate::error::Error;

verus! {

/// Smallest Argon2 memory cost, in blocks.
pub const ARGON2_MIN_M_COST: u32 = 8;
/// Largest Argon2 memory cost, in blocks.
pub const ARGON2_MAX_M_COST: u32 = 0x0fff_ffff;
/// Smallest Argon2 number of passes.
pub const ARGON2_MIN_T_COST: u32 = 1;
/// Largest Argon2 number of passes.
pub const ARGON2_MAX_T_COST: u32 = 0xffff_ffff;
/// Smallest Argon2 degree of parallelism.
pub const ARGON2_MIN_P_COST: u32 = 1;
/// Largest Argon2 degree of parallelism.
pub const ARGON2_MAX_P_COST: u32 = 0x00ff_ffff;
/// Argon2 memory cost used when none is given (the `argon2` crate's default).
pub const ARGON2_DEFAULT_M_COST: u32 = 19456;
/// Argon2 number of passes used when none is given (the `argon2` crate's default).
pub const ARGON2_DEFAULT_T_COST: u32 = 2;
/// Argon2 parallelism used when none is given (the `argon2` crate's default).
pub const ARGON2_DEFAULT_P_COST: u32 = 1;
/// PBKDF2 rounds used when none are given.
pub const PBKDF2_DEFAULT_ROUNDS: u32 = 10000;

/// Group of the authenticated key exchange.
#[derive(Clone, Copy, Debug, PartialEq, Eq, Structural, Hash)]
pub enum Ake {
    /// Ristretto255.
    Ristretto255,
    /// X25519.
    X25519,
    /// NIST P-256.
    P256,
}

impl Default for Ake {
    fn default() -> (r: Self)
        ensures
            r == Ake::Ristretto255,
    {
        Ake::Ristretto255
    }
}

/// Prime-order group of the OPRF.
#[derive(Clone, Copy, Debug, PartialEq, Eq, Structural, Hash)]
pub enum Group {
    /// Ristretto255, hashed with SHA-512.
    Ristretto255,
    /// NIST P-256, hashed with SHA-256.
    P256,
}

impl Default for Group {
    fn default() -> (r: Self)
        ensures
            r == Group::Ristretto255,
    {
        Group::Ristretto255
    }
}

/// Hash family of the suite.
///
/// `opaque-ke` fixes the hash by the OPRF group, so SHA-2 is the only family
/// this build offers. A SHA-3 or BLAKE3 suite would need an OPRF cipher suite
/// of this crate's own, whose `ID` constant in the impl of `opaque-ke`'s
/// outside trait the verifier does not accept.
#[derive(Clone, Copy, Debug, PartialEq, Eq, Structural, Hash)]
pub enum Hash {
    /// SHA-2; its width follows the [`Group`]: SHA-512 for Ristretto255,
    /// SHA-256 for P-256.
    Sha2,
}

impl Hash {
    /// Display name of the hash family.
    pub fn name(&self) -> (r: &'static str)
        ensures
            r@ == "SHA-2"@,
    {
        "SHA-2"
    }
}

impl Default for Hash {
    fn default() -> (r: Self)
        ensures
            r == Hash::Sha2,
    {
        Hash::Sha2
    }
}

/// Argon2 variant.
#[derive(Clone, Copy, Debug, PartialEq, Eq, Structural, Hash)]
pub enum Argon2Algorithm {
    /// Argon2id: resists side-channel attacks.
    Argon2id,
    /// Argon2d: faster, but only for hosts that are trusted.
    Argon2d,
}

impl Default for Argon2Algorithm {
    fn default() -> (r: Self)
        ensures
            r == Argon2Algorithm::Argon2id,
    {
        Argon2Algorithm::Argon2id
    }
}

/// Whether Argon2 costs lie in the accepted ranges.
pub open spec fn argon2_costs_valid(m_cost: u32, t_cost: u32, p_cost: u32) -> bool {
    &&& ARGON2_MIN_M_COST <= m_cost <= ARGON2_MAX_M_COST
    &&& ARGON2_MIN_T_COST <= t_cost <= ARGON2_MAX_T_COST
    &&& ARGON2_MIN_P_COST <= p_cost <= ARGON2_MAX_P_COST
}

/// Parameters of Argon2; the costs always lie in the accepted ranges.
#[derive(Clone, Copy, Debug, PartialEq, Eq, Structural, Hash)]
pub struct Argon2Params {
    algorithm: Argon2Algorithm,
    m_cost: u32,
    t_cost: u32,
    p_cost: u32,
}

impl Argon2Params {
    #[verifier::type_invariant]
    spec fn inv(self) -> bool {
        argon2_costs_valid(self.m_cost, self.t_cost, self.p_cost)
    }

    /// The Argon2 variant.
    pub closed spec fn spec_algorithm(self) -> Argon2Algorithm {
        self.algorithm
    }

    /// Memory cost in blocks.
    pub closed spec fn spec_m_cost(self) -> u32 {
        self.m_cost
    }

    /// Number of passes.
    pub closed spec fn spec_t_cost(self) -> u32 {
        self.t_cost
    }

    /// Degree of parallelism.
    pub closed spec fn spec_p_cost(self) -> u32 {
        self.p_cost
    }

    /// Builds parameters from the given values, taking the defaults for
    /// those that are `None`. Fails with [`Error::MhfConfig`] exactly when a
    /// cost is out of range.
    pub fn new(
        algorithm: Option<Argon2Algorithm>,
        m_cost: Option<u32>,
        t_cost: Option<u32>,
        p_cost: Option<u32>,
    ) -> (r: Result<Self, Error>)
        ensures
            ({
                let a = match algorithm { Some(a) => a, None => Argon2Algorithm::Argon2id };
                let m = match m_cost { Some(m) => m, None => ARGON2_DEFAULT_M_COST };
                let t = match t_cost { Some(t) => t, None => ARGON2_DEFAULT_T_COST };
                let p = match p_cost { Some(p) => p, None => ARGON2_DEFAULT_P_COST };
                &&& argon2_costs_valid(m, t, p) ==> (r matches Ok(params) && params.spec_algorithm()
                    == a && params.spec_m_cost() == m && params.spec_t_cost() == t
                    && params.spec_p_cost() == p)
                &&& !argon2_costs_valid(m, t, p) ==> r == Err::<Self, Error>(Error::MhfConfig)
            }),
    {
        let algorithm = match algorithm {
            Some(a) => a,
            None => Argon2Algorithm::Argon2id,
        };
        let m_cost = match m_cost {
            Some(m) => m,
            None => ARGON2_DEFAULT_M_COST,
        };
        let t_cost = match t_cost {
            Some(t) => t,
            None => ARGON2_DEFAULT_T_COST,
        };
        let p_cost = match p_cost {
            Some(p) => p,
            None => ARGON2_DEFAULT_P_COST,
        };
        if m_cost < ARGON2_MIN_M_COST || m_cost > ARGON2_MAX_M_COST || t_cost < ARGON2_MIN_T_COST
            || t_cost > ARGON2_MAX_T_COST || p_cost < ARGON2_MIN_P_COST || p_cost > ARGON2_MAX_P_COST {
            return Err(Error::MhfConfig);
        }
        Ok(Argon2Params { algorithm, m_cost, t_cost, p_cost })
    }

    /// The Argon2 variant.
    pub fn algorithm(&self) -> (r: Argon2Algorithm)
        ensures
            r == self.spec_algorithm(),
    {
        self.algorithm
    }

    /// Memory cost in blocks.
    pub fn m_cost(&self) -> (r: u32)
        ensures
            r == self.spec_m_cost(),
            ARGON2_MIN_M_COST <= r <= ARGON2_MAX_M_COST,
    {
        proof {
            use_type_invariant(self);
        }
        self.m_cost
    }

    /// Number of passes.
    pub fn t_cost(&self) -> (r: u32)
        ensures
            r == self.spec_t_cost(),
            ARGON2_MIN_T_COST <= r,
    {
        proof {
            use_type_invariant(self);
        }
        self.t_cost
    }

    /// Degree of parallelism.
    pub fn p_cost(&self) -> (r: u32)
        ensures
            r == self.spec_p_cost(),
            ARGON2_MIN_P_COST <= r <= ARGON2_MAX_P_COST,
    {
        proof {
            use_type_invariant(self);
        }
        self.p_cost
    }
}

impl Default for Argon2Params {
    fn default() -> (r: Self)
        ensures
            r.spec_algorithm() == Argon2Algorithm::Argon2id,
            r.spec_m_cost() == ARGON2_DEFAULT_M_COST,
            r.spec_t_cost() == ARGON2_DEFAULT_T_COST,
            r.spec_p_cost() == ARGON2_DEFAULT_P_COST,
    {
        Argon2Params {
            algorithm: Argon2Algorithm::Argon2id,
            m_cost: ARGON2_DEFAULT_M_COST,
            t_cost: ARGON2_DEFAULT_T_COST,
            p_cost: ARGON2_DEFAULT_P_COST,
        }
    }
}

/// Hash of PBKDF2's HMAC.
#[derive(Clone, Copy, Debug, PartialEq, Eq, Structural, Hash)]
pub enum Pbkdf2Hash {
    /// SHA-256.
    Sha256,
    /// SHA-512.
    Sha512,
}

impl Default for Pbkdf2Hash {
    fn default() -> (r: Self)
        ensures
            r == Pbkdf2Hash::Sha256,
    {
        Pbkdf2Hash::Sha256
    }
}

/// Parameters of PBKDF2; the number of rounds is never zero. The suites of
/// this build stretch with Argon2 only, so no [`Mhf`] holds these yet.
#[derive(Clone, Copy, Debug, PartialEq, Eq, Structural, Hash)]
pub struct Pbkdf2Params {
    hash: Pbkdf2Hash,
    rounds: u32,
}

impl Pbkdf2Params {
    #[verifier::type_invariant]
    spec fn inv(self) -> bool {
        self.rounds >= 1
    }

    /// Hash of the HMAC.
    pub closed spec fn spec_hash(self) -> Pbkdf2Hash {
        self.hash
    }

    /// Number of rounds.
    pub closed spec fn spec_rounds(self) -> u32 {
        self.rounds
    }

    /// Builds parameters, taking SHA-256 and 10 000 rounds for what is
    /// `None`. Fails with [`Error::MhfConfig`] exactly when `rounds` is zero.
    pub fn new(hash: Option<Pbkdf2Hash>, rounds: Option<u32>) -> (r: Result<Self, Error>)
        ensures
            ({
                let h = match hash { Some(h) => h, None => Pbkdf2Hash::Sha256 };
                let n = match rounds { Some(n) => n, None => PBKDF2_DEFAULT_ROUNDS };
                &&& n >= 1 ==> (r matches Ok(params) && params.spec_hash() == h
                    && params.spec_rounds() == n)
                &&& n == 0 ==> r == Err::<Self, Error>(Error::MhfConfig)
            }),
    {
        let hash = match hash {
            Some(h) => h,
            None => Pbkdf2Hash::Sha256,
        };
        let rounds = match rounds {
            Some(n) => n,
            None => PBKDF2_DEFAULT_ROUNDS,
        };
        if rounds == 0 {
            return Err(Error::MhfConfig);
        }
        Ok(Pbkdf2Params { hash, rounds })
    }

    /// Hash of the HMAC.
    pub fn hash(&self) -> (r: Pbkdf2Hash)
        ensures
            r == self.spec_hash(),
    {
        self.hash
    }

    /// Number of rounds, at least one.
    pub fn rounds(&self) -> (r: u32)
        ensures
            r == self.spec_rounds(),
            r >= 1,
    {
        proof {
            use_type_invariant(self);
        }
        self.rounds
    }
}

impl Default for Pbkdf2Params {
    fn default() -> (r: Self)
        ensures
            r.spec_hash() == Pbkdf2Hash::Sha256,
            r.spec_rounds() == PBKDF2_DEFAULT_ROUNDS,
    {
        Pbkdf2Params { hash: Pbkdf2Hash::Sha256, rounds: PBKDF2_DEFAULT_ROUNDS }
    }
}

/// Memory-hard function that stretches the OPRF output.
///
/// Argon2 is the one function this build offers: `opaque-ke` stretches
/// through its own `Ksf` trait, which it implements for Argon2 only, and an
/// impl of it for PBKDF2 would have to take `GenericArray` values, which the
/// verifier cannot declare. [`Pbkdf2Params`] validates PBKDF2 settings but no
/// suite runs them.
///
/// Costs in the accepted ranges may still ask for less than eight blocks of
/// memory per lane; `argon2` refuses those, and the client's `finish` then
/// fails with [`Error::MhfConfig`].
#[derive(Clone, Copy, Debug, PartialEq, Eq, Structural, Hash)]
pub enum Mhf {
    /// Argon2 with the given parameters.
    Argon2(Argon2Params),
}

impl Default for Mhf {
    fn default() -> (r: Self)
        ensures
            r == Mhf::Argon2(r->Argon2_0),
            r->Argon2_0.spec_algorithm() == Argon2Algorithm::Argon2id,
            r->Argon2_0.spec_m_cost() == ARGON2_DEFAULT_M_COST,
            r->Argon2_0.spec_t_cost() == ARGON2_DEFAULT_T_COST,
            r->Argon2_0.spec_p_cost() == ARGON2_DEFAULT_P_COST,
    {
        Mhf::Argon2(Argon2Params::default())
    }
}

/// Relies on `argon2::Params::new` (with no output length): for costs in the
/// accepted ranges it fails exactly when the memory cost is below eight
/// blocks per lane.
#[verifier::external_body]
fn argon2_accepts(m_cost: u32, t_cost: u32, p_cost: u32) -> (r: bool)
    requires
        argon2_costs_valid(m_cost, t_cost, p_cost),
    ensures
        r <==> 8 * p_cost <= m_cost,
{
    argon2::Params::new(m_cost, t_cost, p_cost, None).is_ok()
}

impl Argon2Algorithm {
    /// The `argon2` crate's name for the variant.
    pub(crate) fn to_argon2(self) -> (r: argon2::Algorithm)
        ensures
            (r == argon2::Algorithm::Argon2d) == (self == Argon2Algorithm::Argon2d),
            (r == argon2::Algorithm::Argon2id) == (self == Argon2Algorithm::Argon2id),
    {
        match self {
            Argon2Algorithm::Argon2id => argon2::Algorithm::Argon2id,
            Argon2Algorithm::Argon2d => argon2::Algorithm::Argon2d,
        }
    }
}

impl Mhf {
    /// Display name of the function: the Argon2 variant.
    pub fn name(&self) -> (r: &'static str)
        ensures
            self.spec_variant() == Argon2Algorithm::Argon2id ==> r@ == "Argon2id"@,
            self.spec_variant() == Argon2Algorithm::Argon2d ==> r@ == "Argon2d"@,
    {
        match self {
            Mhf::Argon2(params) => match params.algorithm() {
                Argon2Algorithm::Argon2id => "Argon2id",
                Argon2Algorithm::Argon2d => "Argon2d",
            },
        }
    }

    /// The Argon2 variant of the function.
    pub open spec fn spec_variant(self) -> Argon2Algorithm {
        match self {
            Mhf::Argon2(p) => p.spec_algorithm(),
        }
    }

    /// Whether the `argon2` crate accepts these parameters: besides the
    /// ranges, it asks for eight blocks of memory per lane.
    pub open spec fn spec_usable(self) -> bool {
        match self {
            Mhf::Argon2(p) => 8 * p.spec_p_cost() <= p.spec_m_cost(),
        }
    }

    /// The Argon2 parameters that stretch the OPRF output, once the `argon2`
    /// crate has accepted them; the protocol builds Argon2 (default version,
    /// no secret or associated data) from exactly these values, and hands it
    /// a fixed all-zero salt.
    pub(crate) fn to_slow_hash(self) -> (r: Result<Argon2Params, Error>)
        ensures
            r.is_ok() <==> self.spec_usable(),
            r matches Ok(p) ==> self == Mhf::Argon2(p),
            r.is_err() ==> r == Err::<Argon2Params, Error>(Error::MhfConfig),
    {
        match self {
            Mhf::Argon2(params) => {
                if argon2_accepts(params.m_cost(), params.t_cost(), params.p_cost()) {
                    Ok(params)
                } else {
                    Err(Error::MhfConfig)
                }
            },
        }
    }
}

/// The cipher suites of this build: one per pair of key-exchange group and
/// OPRF group, all with SHA-2 and Argon2.
#[derive(Clone, Copy, Debug, PartialEq, Eq, Structural, Hash)]
pub enum CipherSuite {
    /// Ristretto255 key exchange, Ristretto255 OPRF.
    Ristretto255Sha2Argon2,
    /// X25519 key exchange, Ristretto255 OPRF.
    X25519Ristretto255Sha2Argon2,
    /// P-256 key exchange, Ristretto255 OPRF.
    P256Ristretto255Sha2Argon2,
    /// Ristretto255 key exchange, P-256 OPRF.
    Ristretto255P256Sha2Argon2,
    /// X25519 key exchange, P-256 OPRF.
    X25519P256Sha2Argon2,
    /// P-256 key exchange, P-256 OPRF.
    P256Sha2Argon2,
}

/// The suite tag of a selector triple.
pub open spec fn suite_of(ake: Ake, group: Group, hash: Hash) -> CipherSuite {
    match (ake, group) {
        (Ake::Ristretto255, Group::Ristretto255) => CipherSuite::Ristretto255Sha2Argon2,
        (Ake::X25519, Group::Ristretto255) => CipherSuite::X25519Ristretto255Sha2Argon2,
        (Ake::P256, Group::Ristretto255) => CipherSuite::P256Ristretto255Sha2Argon2,
        (Ake::Ristretto255, Group::P256) => CipherSuite::Ristretto255P256Sha2Argon2,
        (Ake::X25519, Group::P256) => CipherSuite::X25519P256Sha2Argon2,
        (Ake::P256, Group::P256) => CipherSuite::P256Sha2Argon2,
    }
}

/// Key-exchange group of a suite.
pub open spec fn ake_of(suite: CipherSuite) -> Ake {
    match suite {
        CipherSuite::Ristretto255Sha2Argon2 | CipherSuite::Ristretto255P256Sha2Argon2 => Ake::Ristretto255,
        CipherSuite::X25519Ristretto255Sha2Argon2 | CipherSuite::X25519P256Sha2Argon2 => Ake::X25519,
        CipherSuite::P256Ristretto255Sha2Argon2 | CipherSuite::P256Sha2Argon2 => Ake::P256,
    }
}

/// OPRF group of a suite.
pub open spec fn group_of(suite: CipherSuite) -> Group {
    match suite {
        CipherSuite::Ristretto255Sha2Argon2
        | CipherSuite::X25519Ristretto255Sha2Argon2
        | CipherSuite::P256Ristretto255Sha2Argon2 => Group::Ristretto255,
        _ => Group::P256,
    }
}

/// Length of a server public key in the encoding of a key-exchange group:
/// 32 bytes, or 33 for a compressed P-256 point.
pub open spec fn public_key_len(ake: Ake) -> nat {
    match ake {
        Ake::P256 => 33,
        _ => 32,
    }
}

/// Length of a serialised server setup: the OPRF seed (one output of the
/// OPRF group's hash) and two 32-byte private keys.
pub open spec fn server_setup_len(group: Group) -> nat {
    match group {
        Group::Ristretto255 => 128,
        Group::P256 => 96,
    }
}

/// Length of the export key that OPAQUE derives: one output of the OPRF
/// group's hash.
pub open spec fn raw_export_key_len(group: Group) -> nat {
    match group {
        Group::Ristretto255 => 64,
        Group::P256 => 32,
    }
}

/// The selectors determine the suite tag, and the tag gives them back: no
/// two selector pairs share a suite.
pub proof fn lemma_suite_of_selectors(ake: Ake, group: Group, hash: Hash)
    ensures
        ake_of(suite_of(ake, group, hash)) == ake,
        group_of(suite_of(ake, group, hash)) == group,
{
}

/// Algorithm choice shared by server and client. Two values are equal
/// exactly when all selectors and the MHF parameters are.
#[derive(Clone, Copy, Debug, PartialEq, Eq, Structural, Hash)]
pub struct Config {
    pub(crate) cipher_suite: CipherSuite,
    pub(crate) mhf: Mhf,
}

impl Config {
    /// Key-exchange group.
    pub closed spec fn spec_ake(self) -> Ake {
        ake_of(self.cipher_suite)
    }

    /// OPRF group.
    pub closed spec fn spec_group(self) -> Group {
        group_of(self.cipher_suite)
    }

    /// Hash family.
    pub closed spec fn spec_hash(self) -> Hash {
        Hash::Sha2
    }

    /// Memory-hard function.
    pub closed spec fn spec_mhf(self) -> Mhf {
        self.mhf
    }

    /// Suite tag.
    pub closed spec fn spec_suite(self) -> CipherSuite {
        self.cipher_suite
    }

    /// Builds the configuration of the given selectors.
    pub fn new(ake: Ake, group: Group, hash: Hash, mhf: Mhf) -> (r: Self)
        ensures
            r.spec_suite() == suite_of(ake, group, hash),
            r.spec_ake() == ake,
            r.spec_group() == group,
            r.spec_hash() == hash,
            r.spec_mhf() == mhf,
    {
        let cipher_suite = match (ake, group) {
            (Ake::Ristretto255, Group::Ristretto255) => CipherSuite::Ristretto255Sha2Argon2,
            (Ake::X25519, Group::Ristretto255) => CipherSuite::X25519Ristretto255Sha2Argon2,
            (Ake::P256, Group::Ristretto255) => CipherSuite::P256Ristretto255Sha2Argon2,
            (Ake::Ristretto255, Group::P256) => CipherSuite::Ristretto255P256Sha2Argon2,
            (Ake::X25519, Group::P256) => CipherSuite::X25519P256Sha2Argon2,
            (Ake::P256, Group::P256) => CipherSuite::P256Sha2Argon2,
        };
        Config { cipher_suite, mhf }
    }

    /// Key-exchange group.
    pub fn ake(self) -> (r: Ake)
        ensures
            r == self.spec_ake(),
    {
        match self.cipher_suite {
            CipherSuite::Ristretto255Sha2Argon2 | CipherSuite::Ristretto255P256Sha2Argon2 => Ake::Ristretto255,
            CipherSuite::X25519Ristretto255Sha2Argon2 | CipherSuite::X25519P256Sha2Argon2 => Ake::X25519,
            CipherSuite::P256Ristretto255Sha2Argon2 | CipherSuite::P256Sha2Argon2 => Ake::P256,
        }
    }

    /// OPRF group.
    pub fn group(self) -> (r: Group)
        ensures
            r == self.spec_group(),
    {
        match self.cipher_suite {
            CipherSuite::Ristretto255Sha2Argon2
            | CipherSuite::X25519Ristretto255Sha2Argon2
            | CipherSuite::P256Ristretto255Sha2Argon2 => Group::Ristretto255,
            CipherSuite::Ristretto255P256Sha2Argon2
            | CipherSuite::X25519P256Sha2Argon2
            | CipherSuite::P256Sha2Argon2 => Group::P256,
        }
    }

    /// Hash family.
    pub fn crypto_hash(self) -> (r: Hash)
        ensures
            r == self.spec_hash(),
    {
        Hash::Sha2
    }

    /// Memory-hard function.
    pub fn mhf(self) -> (r: Mhf)
        ensures
            r == self.spec_mhf(),
    {
        self.mhf
    }

    /// Suite tag.
    pub(crate) fn cipher_suite(self) -> (r: CipherSuite)
        ensures
            r == self.spec_suite(),
            ake_of(r) == self.spec_ake(),
            group_of(r) == self.spec_group(),
    {
        self.cipher_suite
    }
}

impl Default for Config {
    fn default() -> (r: Self)
        ensures
            r.spec_suite() == CipherSuite::Ristretto255Sha2Argon2,
            r.spec_mhf()->Argon2_0.spec_algorithm() == Argon2Algorithm::Argon2id,
            r.spec_mhf()->Argon2_0.spec_m_cost() == ARGON2_DEFAULT_M_COST,
            r.spec_mhf()->Argon2_0.spec_t_cost() == ARGON2_DEFAULT_T_COST,
            r.spec_mhf()->Argon2_0.spec_p_cost() == ARGON2_DEFAULT_P_COST,
    {
        Config::new(Ake::Ristretto255, Group::Ristretto255, Hash::Sha2, Mhf::default())
    }
}

/// Length of an encoded [`Config`] in bytes.
pub const CONFIG_ENCODING_LEN: usize = 15;

/// The byte that stands for a suite.
pub open spec fn suite_code(suite: CipherSuite) -> u8 {
    match suite {
        CipherSuite::Ristretto255Sha2Argon2 => 0,
        CipherSuite::X25519Ristretto255Sha2Argon2 => 1,
        CipherSuite::P256Ristretto255Sha2Argon2 => 2,
        CipherSuite::Ristretto255P256Sha2Argon2 => 3,
        CipherSuite::X25519P256Sha2Argon2 => 4,
        CipherSuite::P256Sha2Argon2 => 5,
    }
}

/// The suite a byte stands for, if any.
pub open spec fn suite_of_code(code: u8) -> Option<CipherSuite> {
    if code == 0 {
        Some(CipherSuite::Ristretto255Sha2Argon2)
    } else if code == 1 {
        Some(CipherSuite::X25519Ristretto255Sha2Argon2)
    } else if code == 2 {
        Some(CipherSuite::P256Ristretto255Sha2Argon2)
    } else if code == 3 {
        Some(CipherSuite::Ristretto255P256Sha2Argon2)
    } else if code == 4 {
        Some(CipherSuite::X25519P256Sha2Argon2)
    } else if code == 5 {
        Some(CipherSuite::P256Sha2Argon2)
    } else {
        None
    }
}

/// The byte that stands for an Argon2 variant.
pub open spec fn algorithm_code(algorithm: Argon2Algorithm) -> u8 {
    match algorithm {
        Argon2Algorithm::Argon2id => 0,
        Argon2Algorithm::Argon2d => 1,
    }
}

/// The Argon2 variant a byte stands for, if any.
pub open spec fn algorithm_of_code(code: u8) -> Option<Argon2Algorithm> {
    if code == 0 {
        Some(Argon2Algorithm::Argon2id)
    } else if code == 1 {
        Some(Argon2Algorithm::Argon2d)
    } else {
        None
    }
}

impl Config {
    /// Whether the MHF costs lie in the accepted ranges; true of every value
    /// that a program holds.
    pub closed spec fn wf(self) -> bool {
        match self.mhf {
            Mhf::Argon2(p) => argon2_costs_valid(p.m_cost, p.t_cost, p.p_cost),
        }
    }

    /// The fifteen bytes that encode the configuration: the suite, the MHF
    /// family (0 for Argon2), the Argon2 variant, then the memory, time and
    /// parallelism costs as little-endian `u32`s.
    pub closed spec fn spec_encoding(self) -> Seq<u8> {
        match self.mhf {
            Mhf::Argon2(p) => seq![suite_code(self.cipher_suite), 0u8, algorithm_code(p.algorithm)]
                + u32_le(p.m_cost) + u32_le(p.t_cost) + u32_le(p.p_cost),
        }
    }

    /// Appends the encoding of the configuration.
    pub(crate) fn write_to(&self, out: &mut Vec<u8>)
        ensures
            final(out)@ == old(out)@ + self.spec_encoding(),
            self.wf(),
            self.spec_encoding().len() == CONFIG_ENCODING_LEN,
    {
        let ghost start = out@;
        let suite: u8 = match self.cipher_suite {
            CipherSuite::Ristretto255Sha2Argon2 => 0,
            CipherSuite::X25519Ristretto255Sha2Argon2 => 1,
            CipherSuite::P256Ristretto255Sha2Argon2 => 2,
            CipherSuite::Ristretto255P256Sha2Argon2 => 3,
            CipherSuite::X25519P256Sha2Argon2 => 4,
            CipherSuite::P256Sha2Argon2 => 5,
        };
        match self.mhf {
            Mhf::Argon2(p) => {
                proof {
                    use_type_invariant(&p);
                }
                out.push(suite);
                out.push(0u8);
                out.push(
                    match p.algorithm {
                        Argon2Algorithm::Argon2id => 0u8,
                        Argon2Algorithm::Argon2d => 1u8,
                    },
                );
                write_u32_le(out, p.m_cost);
                write_u32_le(out, p.t_cost);
                write_u32_le(out, p.p_cost);
                assert(out@ =~= start + self.spec_encoding());
            },
        }
    }

    /// The configuration encoded at `pos`, and the position after it.
    pub closed spec fn read_at(s: Seq<u8>, pos: int) -> Option<(Config, int)> {
        if 0 <= pos && pos + 15 <= s.len() {
            let suite = suite_of_code(s[pos]);
            let algorithm = algorithm_of_code(s[pos + 2]);
            let m = read_u32_le(s, pos + 3);
            let t = read_u32_le(s, pos + 7);
            let p = read_u32_le(s, pos + 11);
            if suite.is_some() && s[pos + 1] == 0 && algorithm.is_some() && argon2_costs_valid(
                m,
                t,
                p,
            ) {
                Some(
                    (
                        Config {
                            cipher_suite: suite.unwrap(),
                            mhf: Mhf::Argon2(
                                Argon2Params {
                                    algorithm: algorithm.unwrap(),
                                    m_cost: m,
                                    t_cost: t,
                                    p_cost: p,
                                },
                            ),
                        },
                        pos + 15,
                    ),
                )
            } else {
                None
            }
        } else {
            None
        }
    }

    /// Reads the configuration encoded at `pos`.
    pub(crate) fn read_from(s: &[u8], pos: usize) -> (r: Option<(Config, usize)>)
        ensures
            match (r, Config::read_at(s@, pos as int)) {
                (Some((c, next)), Some((sc, snext))) => c == sc && next == snext,
                (None, None) => true,
                _ => false,
            },
    {
        if pos > s.len() || s.len() - pos < CONFIG_ENCODING_LEN {
            return None;
        }
        let suite = match s[pos] {
            0 => CipherSuite::Ristretto255Sha2Argon2,
            1 => CipherSuite::X25519Ristretto255Sha2Argon2,
            2 => CipherSuite::P256Ristretto255Sha2Argon2,
            3 => CipherSuite::Ristretto255P256Sha2Argon2,
            4 => CipherSuite::X25519P256Sha2Argon2,
            5 => CipherSuite::P256Sha2Argon2,
            _ => return None,
        };
        if s[pos + 1] != 0 {
            return None;
        }
        let algorithm = match s[pos + 2] {
            0 => Argon2Algorithm::Argon2id,
            1 => Argon2Algorithm::Argon2d,
            _ => return None,
        };
        let m_cost = take_u32_le(s, pos + 3);
        let t_cost = take_u32_le(s, pos + 7);
        let p_cost = take_u32_le(s, pos + 11);
        match Argon2Params::new(Some(algorithm), Some(m_cost), Some(t_cost), Some(p_cost)) {
            Ok(params) => {
                let c = Config { cipher_suite: suite, mhf: Mhf::Argon2(params) };
                assert(c == Config::read_at(s@, pos as int).unwrap().0);
                Some((c, pos + CONFIG_ENCODING_LEN))
            },
            Err(_) => None,
        }
    }

    /// The encoding of the configuration.
    pub fn encode(&self) -> (r: Vec<u8>)
        ensures
            r@ == self.spec_encoding(),
            self.wf(),
            Config::spec_from_bytes(r@) == Some(*self),
    {
        let mut out: Vec<u8> = Vec::new();
        self.write_to(&mut out);
        assert(out@ =~= self.spec_encoding());
        proof {
            lemma_config_round_trip(*self);
        }
        out
    }

    /// The configuration that `bytes` encode, if they encode one and nothing
    /// more.
    pub closed spec fn spec_from_bytes(bytes: Seq<u8>) -> Option<Config> {
        match Config::read_at(bytes, 0) {
            Some((c, next)) => if next == bytes.len() {
                Some(c)
            } else {
                None
            },
            None => None,
        }
    }

    /// Reads a configuration from its encoding.
    pub fn decode(bytes: &[u8]) -> (r: Option<Config>)
        ensures
            r == Config::spec_from_bytes(bytes@),
    {
        match Config::read_from(bytes, 0) {
            Some((c, next)) => if next == bytes.len() {
                Some(c)
            } else {
                None
            },
            None => None,
        }
    }
}

/// Every configuration encodes to fifteen bytes.
pub proof fn lemma_config_encoding_len(c: Config)
    ensures
        c.spec_encoding().len() == CONFIG_ENCODING_LEN,
{
}

/// An encoded configuration placed at `pos` is read back, whatever follows.
pub proof fn lemma_config_read(c: Config, s: Seq<u8>, pos: int)
    requires
        c.wf(),
        0 <= pos,
        pos + 15 <= s.len(),
        s.subrange(pos, pos + 15) == c.spec_encoding(),
    ensures
        Config::read_at(s, pos) == Some((c, pos + 15)),
        c.spec_encoding().len() == 15,
{
    let e = c.spec_encoding();
    match c.mhf {
        Mhf::Argon2(p) => {
            assert(s[pos] == e[0]);
            assert(s[pos + 1] == e[1]);
            assert(s[pos + 2] == e[2]);
            assert(e.subrange(3, 7) =~= u32_le(p.m_cost));
            assert(e.subrange(7, 11) =~= u32_le(p.t_cost));
            assert(e.subrange(11, 15) =~= u32_le(p.p_cost));
            assert(s.subrange(pos + 3, pos + 7) =~= e.subrange(3, 7));
            assert(s.subrange(pos + 7, pos + 11) =~= e.subrange(7, 11));
            assert(s.subrange(pos + 11, pos + 15) =~= e.subrange(11, 15));
            lemma_u32_le(p.m_cost, s, pos + 3);
            lemma_u32_le(p.t_cost, s, pos + 7);
            lemma_u32_le(p.p_cost, s, pos + 11);
        },
    }
}

/// Decoding the encoding of a configuration gives the configuration back.
pub proof fn lemma_config_round_trip(c: Config)
    requires
        c.wf(),
    ensures
        Config::spec_from_bytes(c.spec_encoding()) == Some(c),
{
    let e = c.spec_encoding();
    assert(e.subrange(0, 15) =~= e);
    lemma_config_read(c, e, 0);
}

/// Two configurations built from selectors are equal exactly when their
/// selectors and MHFs are.
pub proof fn lemma_config_equality(a: Config, b: Config)
    ensures
        a == b <==> (a.spec_ake() == b.spec_ake() && a.spec_group() == b.spec_group()
            && a.spec_hash() == b.spec_hash() && a.spec_mhf() == b.spec_mhf()),
{
}

} // verus!
