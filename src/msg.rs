//! Transaction bodies and their type tags.
use vstd::prelude::*;

verus! {

/// The type tag under which a transaction body is broadcast.
pub open spec fn create_wasm_client_tag() -> Seq<char> {
    "ibc/client/MsgCreateWasmClient"@
}

pub open spec fn update_wasm_client_tag() -> Seq<char> {
    "ibc/client/MsgUpdateWasmClient"@
}

pub open spec fn send_tag() -> Seq<char> {
    "cosmos-sdk/MsgSend"@
}

/// A message kind that the target chain recognises by its type tag.
pub trait StdMsg {
    spec fn type_tag() -> Seq<char>;

    fn get_type() -> (r: String)
        ensures
            r@ == Self::type_tag(),
    ;
}

/// Payload to initialise a wasm light client.
#[derive(Clone, Debug)]
pub struct MsgCreateWasmClient<T> {
    pub client_id: String,
    pub header: T,
    pub trusting_period: String,
    pub unbonding_period: String,
    pub max_clock_drift: String,
    pub address: String,
    pub wasm_id: u32,
}

impl<T> StdMsg for MsgCreateWasmClient<T> {
    open spec fn type_tag() -> Seq<char> {
        create_wasm_client_tag()
    }

    fn get_type() -> (r: String) {
        "ibc/client/MsgCreateWasmClient".to_string()
    }
}

/// Payload to update a wasm light client.
#[derive(Clone, Debug)]
pub struct MsgUpdateWasmClient<T> {
    pub client_id: String,
    pub header: T,
    pub address: String,
}

impl<T> StdMsg for MsgUpdateWasmClient<T> {
    open spec fn type_tag() -> Seq<char> {
        update_wasm_client_tag()
    }

    fn get_type() -> (r: String) {
        "ibc/client/MsgUpdateWasmClient".to_string()
    }
}

/// An amount of one denomination.
#[derive(Clone, Debug)]
pub struct Coin {
    pub denom: String,
    pub amount: String,
}

/// A plain token transfer.
#[derive(Clone, Debug)]
pub struct MsgSend {
    pub from_address: String,
    pub to_address: String,
    pub amount: Vec<Coin>,
}

impl StdMsg for MsgSend {
    open spec fn type_tag() -> Seq<char> {
        send_tag()
    }

    fn get_type() -> (r: String) {
        "cosmos-sdk/MsgSend".to_string()
    }
}

} // verus!
