use vstd::prelude::*;
use crate::address::{address_bytes, parse_valid_address, valid_address};
use crate::types::ArbitrageCore;

verus! {

/// Smallest gas limit the protocol accepts.
pub const MIN_GAS_LIMIT: u64 = 21_000;

/// Largest gas price accepted, in the smallest native unit (500 gwei).
pub const MAX_GAS_PRICE: u64 = 500_000_000_000;

/// An unsigned 256-bit integer as four 64-bit limbs, least significant first.
#[derive(Clone, Copy, Debug)]
pub struct Uint256 {
    pub limbs: [u64; 4],
}

impl Uint256 {
    pub open spec fn value(&self) -> nat {
        let b: nat = 0x1_0000_0000_0000_0000;
        (self.limbs[0] + b * (self.limbs[1] + b * (self.limbs[2] + b * self.limbs[3]))) as nat
    }

    pub fn from_u64(v: u64) -> (r: Uint256)
        ensures
            r.value() == v,
    {
        Uint256 { limbs: [v, 0, 0, 0] }
    }

    pub fn from_u128(v: u128) -> (r: Uint256)
        ensures
            r.value() == v,
    {
        let low = (v % 0x1_0000_0000_0000_0000) as u64;
        let high = (v / 0x1_0000_0000_0000_0000) as u64;
        Uint256 { limbs: [low, high, 0, 0] }
    }
}

/// Why a transaction could not be built.
#[derive(Clone, Copy, Debug, PartialEq, Eq, Structural)]
pub enum TxBuildError {
    InvalidAddress,
    GasLimitTooLow,
    GasPriceTooHigh,
}

/// A validated intent to transact; built only by the transaction builder.
#[derive(Clone, Debug)]
pub struct SecureTransaction {
    /// Destination address, 20 bytes, big endian.
    pub to: [u8; 20],
    pub value: Uint256,
    pub gas_limit: Uint256,
    pub gas_price: Uint256,
    pub data: Vec<u8>,
    pub nonce: Uint256,
}

/// The error a build with these parameters fails with, checked in order:
/// address, then gas limit, then gas price.
pub open spec fn build_error(to: Seq<char>, gas_limit: u64, gas_price: u64) -> Option<TxBuildError> {
    if !valid_address(to) {
        Some(TxBuildError::InvalidAddress)
    } else if gas_limit < MIN_GAS_LIMIT {
        Some(TxBuildError::GasLimitTooLow)
    } else if gas_price > MAX_GAS_PRICE {
        Some(TxBuildError::GasPriceTooHigh)
    } else {
        None
    }
}

impl ArbitrageCore {
    /// Validates the parameters and assembles a transaction, every field
    /// copied verbatim but the address, which is parsed into its bytes.
    pub fn secure_transaction_builder(
        &self,
        to: &str,
        value: u64,
        data: Vec<u8>,
        gas_limit: u64,
        gas_price: u64,
        nonce: u64,
    ) -> (r: Result<SecureTransaction, TxBuildError>)
        ensures
            r is Err <==> build_error(to@, gas_limit, gas_price) is Some,
            r is Err ==> Some(r->Err_0) == build_error(to@, gas_limit, gas_price),
            r is Ok ==> ({
                let t = r->Ok_0;
                &&& t.to@ == address_bytes(to@)
                &&& t.value.value() == value
                &&& t.gas_limit.value() == gas_limit
                &&& t.gas_price.value() == gas_price
                &&& t.data@ == data@
                &&& t.nonce.value() == nonce
            }),
    {
        let to_address = match parse_valid_address(to) {
            Some(a) => a,
            None => return Err(TxBuildError::InvalidAddress),
        };
        if gas_limit < MIN_GAS_LIMIT {
            return Err(TxBuildError::GasLimitTooLow);
        }
        if gas_price > MAX_GAS_PRICE {
            return Err(TxBuildError::GasPriceTooHigh);
        }
        Ok(SecureTransaction {
            to: to_address,
            value: Uint256::from_u64(value),
            gas_limit: Uint256::from_u64(gas_limit),
            gas_price: Uint256::from_u64(gas_price),
            data,
            nonce: Uint256::from_u64(nonce),
        })
    }
}

} // verus!
