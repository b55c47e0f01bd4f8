//! The chain's common parameter object: a plain record of consensus-wide
//! limits, carried between host components and serialized with RLP.
//!
//! The network identifier is modelled as its two ASCII bytes. On the wire
//! the record is an RLP list of five unsigned values, the network
//! identifier packed big-endian into one 16-bit value.

use vstd::prelude::*;

verus! {

/// A two-character network identifier.
#[derive(Clone, Copy, Debug, PartialEq, Eq, Structural)]
pub struct NetworkId {
    pub c0: u8,
    pub c1: u8,
}

/// The characters of a network identifier, in order.
pub open spec fn network_id_chars(n: NetworkId) -> Seq<char> {
    seq![n.c0 as char, n.c1 as char]
}

/// The identifier's two bytes packed big-endian into one value.
pub open spec fn network_id_code_spec(n: NetworkId) -> u16 {
    (n.c0 * 256 + n.c1) as u16
}

impl NetworkId {
    /// The identifier's two bytes packed big-endian into one value.
    pub fn code(&self) -> (r: u16)
        ensures
            r == network_id_code_spec(*self),
    {
        (self.c0 as u16) * 256 + (self.c1 as u16)
    }

    /// The identifier unpacked from its 16-bit code: the inverse of
    /// `code`.
    pub fn from_code(code: u16) -> (r: NetworkId)
        ensures
            network_id_code_spec(r) == code,
            forall|m: NetworkId| network_id_code_spec(m) == code ==> m == r,
    {
        let r = NetworkId { c0: (code / 256) as u8, c1: (code % 256) as u8 };
        proof {
            assert(r.c0 * 256 + r.c1 == code);
            assert forall|m: NetworkId| network_id_code_spec(m) == code implies m == r by {
                assert(m.c0 * 256 + m.c1 == code);
                assert(m.c0 == code / 256 && m.c1 == code % 256) by (nonlinear_arith)
                    requires m.c0 * 256 + m.c1 == code && m.c1 < 256;
            }
        }
        r
    }

    /// The identifier as text.
    pub fn text(&self) -> (r: String)
        ensures
            r@ == network_id_chars(*self),
    {
        let mut s = String::new();
        push_char(&mut s, self.c0 as char);
        push_char(&mut s, self.c1 as char);
        proof {
            assert(s@ =~= network_id_chars(*self));
        }
        s
    }
}

impl Default for NetworkId {
    /// The test network identifier, "tc" (bytes 116 and 99).
    fn default() -> (r: NetworkId)
        ensures
            r == (NetworkId { c0: 116, c1: 99 }),
    {
        NetworkId { c0: 116, c1: 99 }
    }
}

/// Relies on std's `String::push`: appends one character to the string.
#[verifier::external_body]
fn push_char(s: &mut String, c: char)
    ensures
        final(s)@ == old(s)@.push(c),
{
    s.push(c);
}

/// The decimal digit character for `d`.
pub open spec fn dec_digit(d: int) -> char {
    ((d + 48) as u8) as char
}

/// The decimal rendering of `n`, most significant digit first.
pub open spec fn dec_spec(n: nat) -> Seq<char>
    decreases n,
{
    if n < 10 {
        seq![dec_digit(n as int)]
    } else {
        dec_spec(n / 10).push(dec_digit((n % 10) as int))
    }
}

/// Renders `n` in decimal.
fn u64_dec(n: u64) -> (r: String)
    ensures
        r@ == dec_spec(n as nat),
    decreases n,
{
    if n < 10 {
        let mut s = String::new();
        push_char(&mut s, (48 + n as u8) as char);
        proof {
            assert(s@ =~= dec_spec(n as nat));
        }
        s
    } else {
        let mut s = u64_dec(n / 10);
        push_char(&mut s, (48 + (n % 10) as u8) as char);
        s
    }
}

/// The diagnostic for a transaction that tries to change the network
/// identifier from `current` to `proposed`.
pub open spec fn network_change_message(current: NetworkId, proposed: NetworkId) -> Seq<char> {
    "The current network id is "@ + network_id_chars(current)
        + " but the transaction tries to change the network id to "@
        + network_id_chars(proposed)
}

/// The diagnostic for a transaction whose era `proposed` falls behind the
/// current era `current`.
pub open spec fn era_change_message(proposed: u64, current: u64) -> Seq<char> {
    "The era("@ + dec_spec(proposed as nat) + ") shouldn't be less than the current era("@
        + dec_spec(current as nat) + ")"@
}

/// Consensus-wide parameters.
#[derive(Clone, Copy, Debug, PartialEq, Eq, Structural)]
pub struct CommonParams {
    max_extra_data_size: usize,
    network_id: NetworkId,
    max_body_size: usize,
    snapshot_period: u64,
    era: u64,
}

/// Why a parameter record could not be read back from bytes.
#[derive(Clone, Copy, Debug, PartialEq, Eq, Structural)]
pub enum DecodeError {
    /// The bytes hold a list of the wrong length.
    IncorrectListLen { expected: usize, got: usize },
    /// The bytes do not hold a well-formed value where one was expected.
    InvalidValue,
}

/// The RLP image of a list of the five values, in order: a canonical
/// encoding, so equal images mean equal values.
pub uninterp spec fn rlp5_of(a: u64, n: u16, b: u64, s: u64, e: u64) -> Seq<u8>;

/// Relies on rlp's `RlpStream`: `begin_list(5)` followed by five unsigned
/// `append`s yields the RLP encoding of the five-item list.
#[verifier::external_body]
fn rlp_encode_five(a: u64, n: u16, b: u64, s: u64, e: u64) -> (r: Vec<u8>)
    ensures
        r@ == rlp5_of(a, n, b, s, e),
{
    let mut st = rlp::RlpStream::new();
    st.begin_list(5usize);
    st.append(&a).append(&n).append(&b).append(&s).append(&e);
    st.out().to_vec()
}

/// Relies on rlp's `Rlp::item_count`: on the encoding of a five-item list
/// it reports five.
#[verifier::external_body]
fn rlp_item_count(bytes: &Vec<u8>) -> (r: Option<usize>)
    ensures
        forall|a: u64, n: u16, b: u64, s: u64, e: u64|
            bytes@ == #[trigger] rlp5_of(a, n, b, s, e) ==> r == Some(5usize),
{
    rlp::Rlp::new(bytes.as_slice()).item_count().ok()
}

/// Relies on rlp's `Rlp::val_at::<u64>`: on the encoding of a five-item
/// list of unsigned values it reads back the value at the index; RLP's
/// unsigned encoding does not depend on the width it was written with.
#[verifier::external_body]
fn rlp_val_u64(bytes: &Vec<u8>, index: usize) -> (r: Option<u64>)
    ensures
        forall|a: u64, n: u16, b: u64, s: u64, e: u64|
            bytes@ == #[trigger] rlp5_of(a, n, b, s, e) ==> {
                &&& (index == 0 ==> r == Some(a))
                &&& (index == 1 ==> r == Some(n as u64))
                &&& (index == 2 ==> r == Some(b))
                &&& (index == 3 ==> r == Some(s))
                &&& (index == 4 ==> r == Some(e))
            },
{
    rlp::Rlp::new(bytes.as_slice()).val_at::<u64>(index).ok()
}

impl CommonParams {
    /// Maximum size of extra data.
    pub closed spec fn max_extra_data_size_spec(self) -> usize {
        self.max_extra_data_size
    }

    /// The network this record belongs to.
    pub closed spec fn network_id_spec(self) -> NetworkId {
        self.network_id
    }

    /// Maximum size of a block body.
    pub closed spec fn max_body_size_spec(self) -> usize {
        self.max_body_size
    }

    /// Snapshot creation period, in block numbers.
    pub closed spec fn snapshot_period_spec(self) -> u64 {
        self.snapshot_period
    }

    /// The record's era.
    pub closed spec fn era_spec(self) -> u64 {
        self.era
    }

    /// The record's RLP image.
    pub open spec fn rlp_spec(self) -> Seq<u8> {
        rlp5_of(
            self.max_extra_data_size_spec() as u64,
            network_id_code_spec(self.network_id_spec()),
            self.max_body_size_spec() as u64,
            self.snapshot_period_spec(),
            self.era_spec(),
        )
    }

    /// A record from its five values.
    pub fn new(
        max_extra_data_size: usize,
        network_id: NetworkId,
        max_body_size: usize,
        snapshot_period: u64,
        era: u64,
    ) -> (r: Self)
        ensures
            r.max_extra_data_size_spec() == max_extra_data_size,
            r.network_id_spec() == network_id,
            r.max_body_size_spec() == max_body_size,
            r.snapshot_period_spec() == snapshot_period,
            r.era_spec() == era,
    {
        Self { max_extra_data_size, network_id, max_body_size, snapshot_period, era }
    }

    pub fn max_extra_data_size(&self) -> (r: usize)
        ensures
            r == self.max_extra_data_size_spec(),
    {
        self.max_extra_data_size
    }

    pub fn network_id(&self) -> (r: NetworkId)
        ensures
            r == self.network_id_spec(),
    {
        self.network_id
    }

    pub fn max_body_size(&self) -> (r: usize)
        ensures
            r == self.max_body_size_spec(),
    {
        self.max_body_size
    }

    pub fn snapshot_period(&self) -> (r: u64)
        ensures
            r == self.snapshot_period_spec(),
    {
        self.snapshot_period
    }

    pub fn era(&self) -> (r: u64)
        ensures
            r == self.era_spec(),
    {
        self.era
    }

    /// A parameter record is well-formed on its own terms: there is no
    /// further condition to check.
    pub fn verify(&self) -> (r: Result<(), String>)
        ensures
            r is Ok,
    {
        Ok(())
    }

    /// Whether this record is an acceptable change from `current_params`:
    /// the network identifier must not change, and the era must not fall
    /// behind. On refusal the diagnostic names what changed.
    pub fn verify_change(&self, current_params: &Self) -> (r: Result<(), String>)
        ensures
            r is Ok <==> (self.network_id_spec() == current_params.network_id_spec()
                && self.era_spec() >= current_params.era_spec()),
            self.network_id_spec() != current_params.network_id_spec() ==> r is Err
                && r->Err_0@ == network_change_message(
                    current_params.network_id_spec(),
                    self.network_id_spec(),
                ),
            self.network_id_spec() == current_params.network_id_spec()
                && self.era_spec() < current_params.era_spec() ==> r is Err
                && r->Err_0@ == era_change_message(self.era_spec(), current_params.era_spec()),
    {
        let current_network_id = current_params.network_id();
        let transaction_network_id = self.network_id();
        if current_network_id != transaction_network_id {
            let mut m = "The current network id is ".to_owned();
            let cur = current_network_id.text();
            m.append(cur.as_str());
            m.append(" but the transaction tries to change the network id to ");
            let new_id = transaction_network_id.text();
            m.append(new_id.as_str());
            proof {
                assert(m@ =~= network_change_message(
                    current_params.network_id_spec(),
                    self.network_id_spec(),
                ));
            }
            return Err(m);
        }
        if self.era < current_params.era {
            let mut m = "The era(".to_owned();
            let proposed = u64_dec(self.era);
            m.append(proposed.as_str());
            m.append(") shouldn't be less than the current era(");
            let current = u64_dec(current_params.era);
            m.append(current.as_str());
            m.append(")");
            proof {
                assert(m@ =~= era_change_message(self.era_spec(), current_params.era_spec()));
            }
            return Err(m);
        }
        Ok(())
    }

    /// The record's RLP encoding: a list of the five values in order.
    pub fn rlp_bytes(&self) -> (r: Vec<u8>)
        ensures
            r@ == self.rlp_spec(),
    {
        rlp_encode_five(
            self.max_extra_data_size as u64,
            self.network_id.code(),
            self.max_body_size as u64,
            self.snapshot_period,
            self.era,
        )
    }

    /// Reads a record back from its RLP encoding: the encoding of any
    /// record decodes to that record. Bytes that hold a list of the wrong
    /// length are refused with the length found.
    pub fn decode(bytes: &Vec<u8>) -> (r: Result<Self, DecodeError>)
        ensures
            forall|p: CommonParams| bytes@ == #[trigger] p.rlp_spec()
                ==> r == Ok::<CommonParams, DecodeError>(p),
    {
        let size = match rlp_item_count(bytes) {
            Some(c) => c,
            None => {
                return Err(DecodeError::InvalidValue);
            },
        };
        if size != 5 {
            return Err(DecodeError::IncorrectListLen { expected: 5, got: size });
        }
        let v0 = match rlp_val_u64(bytes, 0) {
            Some(v) => v,
            None => {
                return Err(DecodeError::InvalidValue);
            },
        };
        let v1 = match rlp_val_u64(bytes, 1) {
            Some(v) => v,
            None => {
                return Err(DecodeError::InvalidValue);
            },
        };
        let v2 = match rlp_val_u64(bytes, 2) {
            Some(v) => v,
            None => {
                return Err(DecodeError::InvalidValue);
            },
        };
        let v3 = match rlp_val_u64(bytes, 3) {
            Some(v) => v,
            None => {
                return Err(DecodeError::InvalidValue);
            },
        };
        let v4 = match rlp_val_u64(bytes, 4) {
            Some(v) => v,
            None => {
                return Err(DecodeError::InvalidValue);
            },
        };
        if v0 > (usize::MAX as u64) || v1 > (u16::MAX as u64) || v2 > (usize::MAX as u64) {
            return Err(DecodeError::InvalidValue);
        }
        let decoded = Self {
            max_extra_data_size: v0 as usize,
            network_id: NetworkId::from_code(v1 as u16),
            max_body_size: v2 as usize,
            snapshot_period: v3,
            era: v4,
        };
        Ok(decoded)
    }

    /// The record every test starts from: all limits zero on the test
    /// network.
    pub fn default_for_test() -> (r: Self)
        ensures
            r == Self::default_spec(),
            r.max_extra_data_size_spec() == 0,
            r.network_id_spec() == (NetworkId { c0: 116, c1: 99 }),
            r.max_body_size_spec() == 0,
            r.snapshot_period_spec() == 0,
            r.era_spec() == 0,
    {
        Self {
            max_extra_data_size: 0,
            network_id: NetworkId { c0: 116, c1: 99 },
            max_body_size: 0,
            snapshot_period: 0,
            era: 0,
        }
    }

    /// The default record: all limits zero on the test network.
    pub closed spec fn default_spec() -> CommonParams {
        CommonParams {
            max_extra_data_size: 0,
            network_id: NetworkId { c0: 116, c1: 99 },
            max_body_size: 0,
            snapshot_period: 0,
            era: 0,
        }
    }
}

impl Default for CommonParams {
    /// The default record: all limits zero on the test network.
    fn default() -> (r: CommonParams)
        ensures
            r == CommonParams::default_spec(),
    {
        CommonParams::default_for_test()
    }
}

} // verus!
