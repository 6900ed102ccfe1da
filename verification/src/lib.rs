//! Data model for a Raydium transaction monitor: a fixed-layout binary
//! record codec for pool-initialization and swap instructions, an
//! identifier normalizer that turns base-58 text into a canonical 32-byte
//! public key, and a tagged value type carrying extracted instruction
//! data.

pub mod codec;
pub mod error;
pub mod instruction;
pub mod pubkey;

pub use codec::{
    decode_pool_init, decode_swap, encode_pool_init, encode_swap, RaydiumInstruction, SwapIxData,
};
pub use error::{DecodeError, MonitorError};
pub use instruction::{InstructionData, InstructionDataValue};
pub use pubkey::{Pubkey, ToPubkey};
