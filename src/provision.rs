//! The background task's decisions: what to make of the one-shot read of the
//! stored configuration, and how often the heartbeat fires.
use vstd::prelude::*;

verus! {

/// Flash offset of the stored network configuration.
pub const CONFIG_OFFSET: u32 = 0xc000;

/// Bytes read from that offset.
pub const CONFIG_LEN: usize = 128;

/// Time between two heartbeats.
pub const HEARTBEAT_INTERVAL_MS: u64 = 5_000;

/// Value of every byte of erased flash.
pub const ERASED_BYTE: u8 = 0xFF;

/// A failed read of persistent storage.
#[derive(Clone, Copy, Debug, PartialEq, Eq, Structural)]
pub enum StorageError {
    /// The offset or length lies outside the storage.
    OutOfBounds,
    /// The storage device reported a fault.
    DeviceError,
}

/// The configuration the background task goes on with.
#[derive(Clone, Debug)]
pub enum Provisioning {
    /// The bytes that were found in storage.
    Stored(Vec<u8>),
    /// Nothing usable was stored: the built-in defaults apply.
    Default,
}

/// A read result holds a configuration when it succeeded and is neither empty
/// nor erased flash.
pub open spec fn holds_config(data: Seq<u8>) -> bool {
    data.len() > 0 && exists|i: int| 0 <= i < data.len() && data[i] != ERASED_BYTE
}

/// Is every byte of `data` erased flash?
pub fn is_erased(data: &Vec<u8>) -> (b: bool)
    ensures
        b == forall|i: int| 0 <= i < data@.len() ==> data@[i] == ERASED_BYTE,
{
    let mut i: usize = 0;
    while i < data.len()
        invariant
            i <= data@.len(),
            forall|j: int| 0 <= j < i ==> data@[j] == ERASED_BYTE,
        decreases data@.len() - i,
    {
        if data[i] != ERASED_BYTE {
            return false;
        }
        i = i + 1;
    }
    true
}

/// Turns the outcome of the configuration read into the configuration to
/// use. A failed read, an empty one or erased flash gives the defaults; it is
/// never a fault.
pub fn interpret_config_read(result: Result<Vec<u8>, StorageError>) -> (p: Provisioning)
    ensures
        match result {
            Ok(data) => if holds_config(data@) {
                p matches Provisioning::Stored(d) && d@ == data@
            } else {
                p is Default
            },
            Err(_) => p is Default,
        },
{
    match result {
        Ok(data) => {
            if data.len() == 0 || is_erased(&data) {
                Provisioning::Default
            } else {
                Provisioning::Stored(data)
            }
        },
        Err(_) => Provisioning::Default,
    }
}

} // verus!
