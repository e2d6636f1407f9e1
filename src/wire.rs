//! Light-client lifecycle messages built from a source-chain header: the
//! one-time create message and the recurring update message.
use vstd::prelude::*;
use vstd::string::StrSliceExecFns;
use vstd::utf8::encode_utf8;
use crate::msg::{StdMsg, MsgCreateWasmClient, MsgUpdateWasmClient, create_wasm_client_tag, update_wasm_client_tag};
use crate::proto::{leading_data, lemma_leading_data, bytes_field, message_field, uint_field, push_bytes_field, push_message_field, push_uint_field};
use crate::rlp::{rlp_list, rlp_string, rlp_uint, push_rlp_string, push_rlp_uint, rlp_list_of};
use std::time::{SystemTime, UNIX_EPOCH};

verus! {

/// std's `SystemTime`, carried opaque from the clock to the epoch difference.
#[verifier::external_type_specification]
#[verifier::external_body]
pub struct ExSystemTime(SystemTime);

/// A source-chain header as the light client takes it: its height and the
/// canonical (RLP) encodings of the header and of the initial state entry.
#[derive(Clone, Debug)]
pub struct CeloWrappedHeader {
    pub number: u64,
    pub header_rlp: Vec<u8>,
    pub initial_state_entry_rlp: Vec<u8>,
}

/// The client parameters, as the operator writes them.
#[derive(Clone, Debug)]
pub struct ClientConfig {
    /// Identifier of the deployed light-client code, in hex.
    pub wasm_id: String,
    pub trusting_period: String,
    pub unbonding_period: String,
    pub max_clock_drift: String,
}

/// Why a message could not be built.
#[derive(Clone, Copy, Debug, PartialEq, Eq, Structural)]
pub enum EncodeError {
    InvalidWasmId,
    InvalidTrustingPeriod,
    InvalidMaxClockDrift,
    InvalidUnbondingPeriod,
    ClockBeforeEpoch,
}

/// A type-tagged envelope, ready for a broadcaster.
#[derive(Clone, Debug)]
pub struct WasmMessage {
    pub type_url: String,
    pub value: Vec<u8>,
}

pub open spec fn is_hex_char(c: char) -> bool {
    ('0' <= c && c <= '9') || ('a' <= c && c <= 'f') || ('A' <= c && c <= 'F')
}

pub open spec fn hex_val(c: char) -> nat {
    if '0' <= c && c <= '9' {
        (c as nat - '0' as nat) as nat
    } else if 'a' <= c && c <= 'f' {
        (c as nat - 'a' as nat + 10) as nat
    } else {
        (c as nat - 'A' as nat + 10) as nat
    }
}

/// Text that decodes as hex: an even number of hex digits, either case.
pub open spec fn is_hex(s: Seq<char>) -> bool {
    s.len() % 2 == 0 && forall|i: int| 0 <= i < s.len() ==> is_hex_char(#[trigger] s[i])
}

/// The bytes that hex text stands for, two digits each, high digit first.
pub open spec fn hex_decoded(s: Seq<char>) -> Seq<u8> {
    Seq::new(s.len() / 2, |i: int| (hex_val(s[2 * i]) * 16 + hex_val(s[2 * i + 1])) as u8)
}

pub open spec fn hex_digit(n: nat) -> char {
    if n < 10 {
        (n + '0' as nat) as char
    } else {
        (n - 10 + 'a' as nat) as char
    }
}

/// Lower-case hex text of `b`, two digits each, high digit first.
pub open spec fn hex_of(b: Seq<u8>) -> Seq<char> {
    Seq::new(
        2 * b.len(),
        |i: int|
            if i % 2 == 0 {
                hex_digit((b[i / 2] / 16) as nat)
            } else {
                hex_digit((b[i / 2] % 16) as nat)
            },
    )
}

/// Whole seconds of a human-readable duration ("5m", "3 days"), or none where
/// the text is no duration or its seconds overflow.
pub uninterp spec fn duration_secs(s: Seq<char>) -> Option<u64>;

/// Relies on hex::decode: `Ok` exactly for an even number of hex digits of
/// either case, each pair giving one byte, high digit first.
#[verifier::external_body]
fn decode_hex(s: &str) -> (r: Option<Vec<u8>>)
    ensures
        r.is_some() == is_hex(s@),
        r.is_some() ==> r.unwrap()@ == hex_decoded(s@),
{
    hex::decode(s).ok()
}

/// Relies on hex::encode: two lower-case digits for each byte.
#[verifier::external_body]
fn encode_hex(b: &Vec<u8>) -> (r: String)
    ensures
        r@ == hex_of(b@),
{
    hex::encode(b)
}

/// Relies on parse_duration::parse, taking the whole seconds of what it returns.
#[verifier::external_body]
fn parse_duration_secs(s: &str) -> (r: Option<u64>)
    ensures
        r == duration_secs(s@),
{
    parse_duration::parse(s).ok().map(|d| d.as_secs())
}

/// Relies on SystemTime::now: the wall clock, whatever it reads.
#[verifier::external_body]
fn wall_clock() -> SystemTime {
    SystemTime::now()
}

/// Relies on SystemTime::duration_since: whole seconds since the Unix epoch,
/// none for a time before it.
#[verifier::external_body]
fn secs_since_epoch(t: &SystemTime) -> Option<u64> {
    t.duration_since(UNIX_EPOCH).ok().map(|d| d.as_secs())
}

pub open spec fn utf8(s: Seq<char>) -> Seq<u8> {
    encode_utf8(s)
}

fn utf8_of(s: &str) -> (r: Vec<u8>)
    ensures
        r@ == utf8(s@),
{
    s.as_bytes_vec()
}

pub open spec fn client_type() -> Seq<char> {
    "wasm_dummy"@
}

pub open spec fn client_state_url() -> Seq<char> {
    "/ibc.lightclients.wasm.v1.ClientState"@
}

pub open spec fn consensus_state_url() -> Seq<char> {
    "/ibc.lightclients.wasm.v1.ConsensusState"@
}

pub open spec fn header_url() -> Seq<char> {
    "/ibc.lightclients.wasm.v1.Header"@
}

/// The placeholder commitment root: the target chain refuses an empty one.
pub open spec fn placeholder_root() -> Seq<u8> {
    seq![1u8, 2u8, 3u8, 4u8]
}

/// `Any { type_url, value }`.
pub open spec fn any_bytes(url: Seq<char>, value: Seq<u8>) -> Seq<u8> {
    bytes_field(1, utf8(url)) + bytes_field(2, value)
}

/// An unrevised `Height { revision_number: 0, revision_height: 0 }`: both
/// fields at their default, so the body is empty.
pub open spec fn zero_height() -> Seq<u8> {
    Seq::empty()
}

/// The client parameters as the light client reads them: a list holding the
/// maximum clock drift in seconds.
pub open spec fn client_state_data(max_clock_drift: u64) -> Seq<u8> {
    rlp_list(rlp_uint(max_clock_drift as nat))
}

/// The initial consensus data: a list of the header and the state entry.
pub open spec fn init_msg(h: CeloWrappedHeader) -> Seq<u8> {
    rlp_list(rlp_string(h.header_rlp@) + rlp_string(h.initial_state_entry_rlp@))
}

/// `ClientState { data, code_id, frozen: false, frozen_height: None,
/// latest_height: Some(zero), type }`.
pub open spec fn client_state_bytes(max_clock_drift: u64, code_id: Seq<u8>) -> Seq<u8> {
    bytes_field(1, client_state_data(max_clock_drift)) + bytes_field(2, code_id) + message_field(
        5,
        zero_height(),
    ) + bytes_field(6, utf8(client_type()))
}

/// `ConsensusState { data, code_id, timestamp, root: Some(MerkleRoot), type }`.
pub open spec fn consensus_state_bytes(
    h: CeloWrappedHeader,
    code_id: Seq<u8>,
    timestamp: u64,
) -> Seq<u8> {
    bytes_field(1, init_msg(h)) + bytes_field(2, code_id) + uint_field(3, timestamp as nat)
        + message_field(4, bytes_field(1, placeholder_root())) + bytes_field(5, utf8(client_type()))
}

/// `MsgCreateClient { client_state, consensus_state, signer }`.
pub open spec fn create_body(
    h: CeloWrappedHeader,
    code_id: Seq<u8>,
    max_clock_drift: u64,
    timestamp: u64,
    signer: Seq<char>,
) -> Seq<u8> {
    message_field(1, any_bytes(client_state_url(), client_state_bytes(max_clock_drift, code_id)))
        + message_field(2, any_bytes(consensus_state_url(), consensus_state_bytes(h, code_id, timestamp)))
        + bytes_field(3, utf8(signer))
}

/// The wasm `Header { data, height: Some(zero), type }` of a header.
pub open spec fn header_bytes(h: CeloWrappedHeader) -> Seq<u8> {
    bytes_field(1, h.header_rlp@) + message_field(2, zero_height()) + bytes_field(
        3,
        utf8(client_type()),
    )
}

/// `MsgUpdateClient { client_id, header, signer }`. The target runtime reads
/// the embedded header as hex text, so its encoding goes in hex.
pub open spec fn update_body(h: CeloWrappedHeader, client_id: Seq<char>, signer: Seq<char>) -> Seq<u8> {
    bytes_field(1, utf8(client_id)) + message_field(
        2,
        any_bytes(header_url(), utf8(hex_of(header_bytes(h)))),
    ) + bytes_field(3, utf8(signer))
}

fn push_any(buf: &mut Vec<u8>, field: u64, url: &str, value: &Vec<u8>)
    requires
        1 <= field <= 15,
    ensures
        final(buf)@ == old(buf)@ + message_field(field as nat, any_bytes(url@, value@)),
{
    let mut body: Vec<u8> = Vec::new();
    push_bytes_field(&mut body, 1, &utf8_of(url));
    push_bytes_field(&mut body, 2, value);
    assert(body@ =~= any_bytes(url@, value@));
    push_message_field(buf, field, &body);
}

/// The first thing wrong with a configuration, in the order it is read: the
/// code identifier, then the trusting period, the drift and the unbonding
/// period.
pub open spec fn config_error(cfg: ClientConfig) -> Option<EncodeError> {
    if !is_hex(cfg.wasm_id@) {
        Some(EncodeError::InvalidWasmId)
    } else if duration_secs(cfg.trusting_period@) is None {
        Some(EncodeError::InvalidTrustingPeriod)
    } else if duration_secs(cfg.max_clock_drift@) is None {
        Some(EncodeError::InvalidMaxClockDrift)
    } else if duration_secs(cfg.unbonding_period@) is None {
        Some(EncodeError::InvalidUnbondingPeriod)
    } else {
        None
    }
}

/// What the submission loop needs of a source chain's header: its height and
/// the two light-client messages built from it.
pub trait WasmHeader: Sized {
    spec fn spec_height(&self) -> u64;

    /// The create message's body, given the decoded code identifier, the
    /// drift in seconds, the timestamp and the signer.
    spec fn create_payload(
        &self,
        code_id: Seq<u8>,
        max_clock_drift: u64,
        timestamp: u64,
        signer: Seq<char>,
    ) -> Seq<u8>;

    /// The update message's body for a client and a signer.
    spec fn update_payload(&self, client_id: Seq<char>, signer: Seq<char>) -> Seq<u8>;

    /// Name of the source chain.
    fn chain_name() -> &'static str;

    /// Block height of the header.
    fn height(&self) -> (r: u64)
        ensures
            r == self.spec_height(),
    ;

    /// The one-time create message. Fails when the configuration does not
    /// read (see `config_error`) or the clock reads before the epoch; else the
    /// message holds the decoded identifier, the drift in seconds and the time
    /// of the call.
    fn to_wasm_create_msg(&self, cfg: &ClientConfig, address: &String) -> (r: Result<
        WasmMessage,
        EncodeError,
    >)
        ensures
            config_error(*cfg) is Some ==> r == Err::<WasmMessage, EncodeError>(
                config_error(*cfg).unwrap(),
            ),
            config_error(*cfg) is None ==> (r.is_ok() || r == Err::<WasmMessage, EncodeError>(
                EncodeError::ClockBeforeEpoch,
            )),
            r.is_ok() ==> r.unwrap().type_url@ == create_wasm_client_tag() && exists|t: u64|
                r.unwrap().value@ == self.create_payload(
                    hex_decoded(cfg.wasm_id@),
                    duration_secs(cfg.max_clock_drift@).unwrap(),
                    t,
                    address@,
                ),
    ;

    /// The recurring update message.
    fn to_wasm_update_msg(&self, address: &String, client_id: &String) -> (r: WasmMessage)
        ensures
            r.type_url@ == update_wasm_client_tag(),
            r.value@ == self.update_payload(client_id@, address@),
    ;
}

impl CeloWrappedHeader {
    /// The wasm `ConsensusState` that a create message carries.
    pub fn consensus_state(&self, code_id: &Vec<u8>, timestamp: u64) -> (r: Vec<u8>)
        ensures
            r@ == consensus_state_bytes(*self, code_id@, timestamp),
    {
        let mut init_items: Vec<u8> = Vec::new();
        push_rlp_string(&mut init_items, &self.header_rlp);
        push_rlp_string(&mut init_items, &self.initial_state_entry_rlp);
        let init = rlp_list_of(&init_items);
        assert(init_items@ =~= rlp_string(self.header_rlp@) + rlp_string(self.initial_state_entry_rlp@));
        let mut root: Vec<u8> = Vec::new();
        push_bytes_field(&mut root, 1, &vec![1u8, 2u8, 3u8, 4u8]);
        let mut consensus_state: Vec<u8> = Vec::new();
        push_bytes_field(&mut consensus_state, 1, &init);
        push_bytes_field(&mut consensus_state, 2, code_id);
        push_uint_field(&mut consensus_state, 3, timestamp);
        push_message_field(&mut consensus_state, 4, &root);
        push_bytes_field(&mut consensus_state, 5, &utf8_of("wasm_dummy"));
        assert(consensus_state@ =~= consensus_state_bytes(*self, code_id@, timestamp));
        consensus_state
    }

    /// The wasm `Header` that an update message carries, before hex.
    pub fn wasm_header(&self) -> (r: Vec<u8>)
        ensures
            r@ == header_bytes(*self),
    {
        let mut header: Vec<u8> = Vec::new();
        push_bytes_field(&mut header, 1, &self.header_rlp);
        push_message_field(&mut header, 2, &Vec::new());
        push_bytes_field(&mut header, 3, &utf8_of("wasm_dummy"));
        assert(header@ =~= header_bytes(*self));
        header
    }

    /// The create message from parts already at hand: the decoded code
    /// identifier, the drift in seconds and the timestamp.
    pub fn create_message_from_parts(
        &self,
        code_id: &Vec<u8>,
        max_clock_drift: u64,
        timestamp: u64,
        signer: &String,
    ) -> (r: WasmMessage)
        ensures
            r.type_url@ == create_wasm_client_tag(),
            r.value@ == create_body(*self, code_id@, max_clock_drift, timestamp, signer@),
    {
        let mut csd_items: Vec<u8> = Vec::new();
        push_rlp_uint(&mut csd_items, max_clock_drift);
        let csd = rlp_list_of(&csd_items);
        let mut client_state: Vec<u8> = Vec::new();
        push_bytes_field(&mut client_state, 1, &csd);
        push_bytes_field(&mut client_state, 2, code_id);
        push_message_field(&mut client_state, 5, &Vec::new());
        push_bytes_field(&mut client_state, 6, &utf8_of("wasm_dummy"));
        assert(client_state@ =~= client_state_bytes(max_clock_drift, code_id@));

        let consensus_state = self.consensus_state(code_id, timestamp);

        let mut body: Vec<u8> = Vec::new();
        push_any(&mut body, 1, "/ibc.lightclients.wasm.v1.ClientState", &client_state);
        push_any(&mut body, 2, "/ibc.lightclients.wasm.v1.ConsensusState", &consensus_state);
        push_bytes_field(&mut body, 3, &utf8_of(signer.as_str()));
        assert(body@ =~= create_body(*self, code_id@, max_clock_drift, timestamp, signer@));
        WasmMessage { type_url: MsgCreateWasmClient::<CeloWrappedHeader>::get_type(), value: body }
    }
}

impl WasmHeader for CeloWrappedHeader {
    open spec fn spec_height(&self) -> u64 {
        self.number
    }

    open spec fn create_payload(
        &self,
        code_id: Seq<u8>,
        max_clock_drift: u64,
        timestamp: u64,
        signer: Seq<char>,
    ) -> Seq<u8> {
        create_body(*self, code_id, max_clock_drift, timestamp, signer)
    }

    open spec fn update_payload(&self, client_id: Seq<char>, signer: Seq<char>) -> Seq<u8> {
        update_body(*self, client_id, signer)
    }

    fn chain_name() -> &'static str {
        "Celo"
    }

    fn height(&self) -> (r: u64) {
        self.number
    }

    fn to_wasm_create_msg(&self, cfg: &ClientConfig, address: &String) -> (r: Result<
        WasmMessage,
        EncodeError,
    >) {
        let code_id = match decode_hex(cfg.wasm_id.as_str()) {
            Some(c) => c,
            None => return Err(EncodeError::InvalidWasmId),
        };
        if parse_duration_secs(cfg.trusting_period.as_str()).is_none() {
            return Err(EncodeError::InvalidTrustingPeriod);
        }
        let drift = match parse_duration_secs(cfg.max_clock_drift.as_str()) {
            Some(d) => d,
            None => return Err(EncodeError::InvalidMaxClockDrift),
        };
        if parse_duration_secs(cfg.unbonding_period.as_str()).is_none() {
            return Err(EncodeError::InvalidUnbondingPeriod);
        }
        let timestamp = match secs_since_epoch(&wall_clock()) {
            Some(t) => t,
            None => return Err(EncodeError::ClockBeforeEpoch),
        };
        let m = self.create_message_from_parts(&code_id, drift, timestamp, address);
        assert(m.value@ == self.create_payload(
            hex_decoded(cfg.wasm_id@),
            duration_secs(cfg.max_clock_drift@).unwrap(),
            timestamp,
            address@,
        ));
        Ok(m)
    }

    fn to_wasm_update_msg(&self, address: &String, client_id: &String) -> (r: WasmMessage) {
        let header = self.wasm_header();
        let header_hex = utf8_of(encode_hex(&header).as_str());
        let mut body: Vec<u8> = Vec::new();
        push_bytes_field(&mut body, 1, &utf8_of(client_id.as_str()));
        push_any(&mut body, 2, "/ibc.lightclients.wasm.v1.Header", &header_hex);
        push_bytes_field(&mut body, 3, &utf8_of(address.as_str()));
        assert(body@ =~= update_body(*self, client_id@, address@));
        WasmMessage { type_url: MsgUpdateWasmClient::<CeloWrappedHeader>::get_type(), value: body }
    }
}

/// The header's canonical encoding reads back unchanged out of the wasm
/// header that an update message carries.
pub proof fn lemma_update_header_round_trip(h: CeloWrappedHeader)
    ensures
        leading_data(header_bytes(h)) == Some(h.header_rlp@),
{
    let rest = message_field(2, zero_height()) + bytes_field(3, utf8(client_type()));
    assert(crate::proto::varint(18) == seq![18u8]);
    assert(header_bytes(h) =~= bytes_field(1, h.header_rlp@) + rest);
    lemma_leading_data(h.header_rlp@, rest);
}

/// The initial data (header and state entry) reads back unchanged out of
/// the consensus state that a create message carries.
pub proof fn lemma_create_consensus_round_trip(h: CeloWrappedHeader, code_id: Seq<u8>, timestamp: u64)
    ensures
        leading_data(consensus_state_bytes(h, code_id, timestamp)) == Some(init_msg(h)),
{
    let d = init_msg(h);
    let rest = bytes_field(2, code_id) + uint_field(3, timestamp as nat) + message_field(
        4,
        bytes_field(1, placeholder_root()),
    ) + bytes_field(5, utf8(client_type()));
    assert(consensus_state_bytes(h, code_id, timestamp) =~= bytes_field(1, d) + rest);
    assert(d.len() > 0);
    lemma_leading_data(d, rest);
}

} // verus!
