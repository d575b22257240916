use vstd::prelude::*;

use crate::status::{native_status, status_code, zeroed};

verus! {

/// Size in bytes of the precomputed data of the secp256k1 verifier.
pub const SECP256K1_DATA_SIZE: usize = 1048576;

/// The precomputed data of the secp256k1 verifier, filled once by the native
/// library and then read by every recovery.
pub struct PrefilledData {
    data: Vec<u8>,
}

impl PrefilledData {
    #[verifier::type_invariant]
    spec fn inv(&self) -> bool {
        self.data@.len() == SECP256K1_DATA_SIZE
    }

    /// The bytes of the data.
    pub closed spec fn bytes(&self) -> Seq<u8> {
        self.data@
    }

    /// The bytes of the data, as handed to the native recovery routine.
    pub fn as_slice(&self) -> (r: &[u8])
        ensures
            r@ == self.bytes(),
            r@.len() == SECP256K1_DATA_SIZE,
    {
        proof {
            use_type_invariant(self);
        }
        self.data.as_slice()
    }
}

/// The 65-byte uncompressed public key that a successful recovery yields.
pub struct Pubkey([u8; 65]);

impl View for Pubkey {
    type V = Seq<u8>;

    closed spec fn view(&self) -> Seq<u8> {
        self.0@
    }
}

impl Pubkey {
    /// The bytes of the key.
    pub fn as_slice(&self) -> (r: &[u8])
        ensures
            r@ == self@,
            r@.len() == 65,
    {
        self.0.as_slice()
    }
}

impl Default for Pubkey {
    /// An all-zero key: the output buffer handed to the native recovery.
    fn default() -> (r: Self)
        ensures
            r@ == zeroed(65),
    {
        let r = Pubkey([0u8; 65]);
        assert(r@ =~= zeroed(65));
        r
    }
}

impl From<Pubkey> for [u8; 65] {
    fn from(k: Pubkey) -> (r: [u8; 65]) {
        k.0
    }
}

impl vstd::std_specs::convert::FromSpecImpl<Pubkey> for [u8; 65] {
    open spec fn obeys_from_spec() -> bool {
        true
    }

    closed spec fn from_spec(k: Pubkey) -> [u8; 65] {
        k.0
    }
}

/// Handle on the loaded native secp256k1 library.
pub struct LibSecp256k1;

impl LibSecp256k1 {
    /// A fresh all-zero buffer of `SECP256K1_DATA_SIZE` bytes, for the native
    /// library to fill with its precomputed data.
    pub fn prefilled_buffer(&self) -> (r: Vec<u8>)
        ensures
            r@ == zeroed(SECP256K1_DATA_SIZE as nat),
    {
        let mut r: Vec<u8> = Vec::new();
        let mut i: usize = 0;
        while i < SECP256K1_DATA_SIZE
            invariant
                i <= SECP256K1_DATA_SIZE,
                r@ == zeroed(i as nat),
            decreases SECP256K1_DATA_SIZE - i,
        {
            r.push(0u8);
            i = i + 1;
            assert(r@ =~= zeroed(i as nat));
        }
        r
    }

    /// Interprets what the native loader did with `data`: on status `0` the
    /// filled buffer becomes the precomputed data; any other status is the
    /// error.
    pub fn prefilled_outcome(&self, status: isize, data: Vec<u8>) -> (r: Result<PrefilledData, i32>)
        requires
            data@.len() == SECP256K1_DATA_SIZE,
        ensures
            status == 0 ==> (r matches Ok(p) && p.bytes() == data@),
            status != 0 ==> r is Err && r->Err_0 == status_code(status),
    {
        match native_status(status) {
            Ok(()) => Ok(PrefilledData { data }),
            Err(code) => Err(code),
        }
    }

    /// Interprets what the native recovery did with an all-zero output
    /// buffer: on status `0` the filled `output` is the recovered key; any
    /// other status is the error, and no output is handed out.
    pub fn recovery_outcome(&self, status: isize, output: [u8; 65]) -> (r: Result<Pubkey, i32>)
        ensures
            status == 0 ==> (r matches Ok(k) && k@ == output@),
            status != 0 ==> r == Err::<Pubkey, i32>(status_code(status)),
    {
        match native_status(status) {
            Ok(()) => Ok(Pubkey(output)),
            Err(code) => Err(code),
        }
    }
}

} // verus!
