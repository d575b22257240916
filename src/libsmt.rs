use vstd::prelude::*;

verus! {

/// Size in bytes of a root, of a key and of a value.
pub const SMT_CHUNK_SIZE: usize = 32;

/// Error: the keys and the values differ in length.
pub const SMT_CHUNK_COUNT_MISMATCH: i32 = -1;

/// Error: the keys (and so the values) are not a whole number of chunks.
pub const SMT_TRUNCATED_CHUNK: i32 = -2;

/// Error: the root is not 32 bytes long.
pub const SMT_INVALID_ROOT_SIZE: i32 = -3;

/// What the checks made before a native proof verification give: the number
/// of key/value pairs to pass, or the first check that fails.
pub open spec fn smt_check(root_len: nat, keys_len: nat, values_len: nat) -> Result<u32, i32> {
    if keys_len != values_len {
        Err(SMT_CHUNK_COUNT_MISMATCH)
    } else if root_len != 32 {
        Err(SMT_INVALID_ROOT_SIZE)
    } else if keys_len % 32 != 0 {
        Err(SMT_TRUNCATED_CHUNK)
    } else {
        Ok((keys_len / 32) as u32)
    }
}

/// Handle on the loaded native sparse-Merkle-tree library.
pub struct LibCKBSmt;

impl LibCKBSmt {
    /// Checks the shape of a proof request before it reaches the native
    /// verifier: the keys and the values must be of one length, the root must
    /// be 32 bytes, and the keys and the values must be sequences of 32-byte
    /// chunks. On success, the number of key/value pairs.
    pub fn smt_pair_count(&self, root: &[u8], keys: &[u8], values: &[u8]) -> (r: Result<u32, i32>)
        requires
            keys@.len() == values@.len() ==> keys@.len() / 32 <= u32::MAX,
        ensures
            r == smt_check(root@.len(), keys@.len(), values@.len()),
    {
        if keys.len() != values.len() {
            return Err(SMT_CHUNK_COUNT_MISMATCH);
        }
        if root.len() != SMT_CHUNK_SIZE {
            return Err(SMT_INVALID_ROOT_SIZE);
        }
        if keys.len() % SMT_CHUNK_SIZE != 0 {
            return Err(SMT_TRUNCATED_CHUNK);
        }
        Ok((keys.len() / SMT_CHUNK_SIZE) as u32)
    }
}

/// The shape checks are exclusive and ordered: unequal key and value lengths
/// always give `SMT_CHUNK_COUNT_MISMATCH`, whatever the root; with equal
/// lengths a root that is not 32 bytes always gives `SMT_INVALID_ROOT_SIZE`;
/// with a good root, lengths that are not a multiple of 32 give
/// `SMT_TRUNCATED_CHUNK`; and the pairs counted are the 32-byte chunks.
pub proof fn lemma_smt_check(root_len: nat, keys_len: nat, values_len: nat)
    ensures
        keys_len != values_len ==> smt_check(root_len, keys_len, values_len) == Err::<u32, i32>(
            SMT_CHUNK_COUNT_MISMATCH,
        ),
        keys_len == values_len && root_len != 32 ==> smt_check(root_len, keys_len, values_len)
            == Err::<u32, i32>(SMT_INVALID_ROOT_SIZE),
        keys_len == values_len && root_len == 32 && keys_len % 32 != 0 ==> smt_check(
            root_len,
            keys_len,
            values_len,
        ) == Err::<u32, i32>(SMT_TRUNCATED_CHUNK),
        keys_len == values_len && root_len == 32 && keys_len % 32 == 0 && keys_len / 32
            <= u32::MAX ==> smt_check(root_len, keys_len, values_len) == Ok::<u32, i32>(
            (keys_len / 32) as u32,
        ) && 32 * ((keys_len / 32) as u32) == keys_len,
{
}

} // verus!
