use vstd::prelude::*;

use crate::status::{native_status, status_code, zeroed};

verus! {

/// Algorithm tag that opens an RSA argument buffer: "verify an RSA signature".
pub const CKB_VERIFY_RSA: u32 = 1;

/// Error: the modulus and the signature differ in length.
pub const RSA_LENGTH_MISMATCH: i32 = 8;

/// Error: no DKIM candidate of an email verified.
pub const DKIM_NO_MATCH: i32 = 1;

/// The four little-endian bytes of `x`.
pub open spec fn le32(x: u32) -> Seq<u8> {
    seq![
        (x % 256) as u8,
        ((x / 256) % 256) as u8,
        ((x / 65536) % 256) as u8,
        (x / 16777216) as u8,
    ]
}

/// The argument buffer of the native RSA verifier: the algorithm tag, the key
/// size in bits and the exponent, each as four little-endian bytes, then the
/// modulus, then the signature.
pub open spec fn rsa_info_layout(n: Seq<u8>, e: u32, sig: Seq<u8>) -> Seq<u8> {
    le32(CKB_VERIFY_RSA) + le32((n.len() * 8) as u32) + le32(e) + n + sig
}

/// Whether the key size in bits of a modulus of `len` bytes fits the four-byte
/// field that carries it.
pub open spec fn key_size_fits(len: nat) -> bool {
    len * 8 <= u32::MAX
}

/// The layout of the RSA argument buffer, field by field: for a modulus and a
/// signature of `L` bytes each, the buffer is `12 + 2L` bytes long and holds
/// the tag, `8L`, the exponent, the modulus and the signature at the offsets
/// `0`, `4`, `8`, `12` and `12 + L`.
pub proof fn lemma_rsa_info_fields(n: Seq<u8>, e: u32, sig: Seq<u8>)
    requires
        n.len() == sig.len(),
        key_size_fits(n.len()),
    ensures
        ({
            let b = rsa_info_layout(n, e, sig);
            let l = n.len() as int;
            &&& b.len() == 12 + 2 * l
            &&& b.subrange(0, 4) == le32(CKB_VERIFY_RSA)
            &&& b.subrange(4, 8) == le32((8 * l) as u32)
            &&& b.subrange(8, 12) == le32(e)
            &&& b.subrange(12, 12 + l) == n
            &&& b.subrange(12 + l, 12 + 2 * l) == sig
        }),
{
    let b = rsa_info_layout(n, e, sig);
    let l = n.len() as int;
    assert(b.subrange(0, 4) =~= le32(CKB_VERIFY_RSA));
    assert(b.subrange(4, 8) =~= le32((8 * l) as u32));
    assert(b.subrange(8, 12) =~= le32(e));
    assert(b.subrange(12, 12 + l) =~= n);
    assert(b.subrange(12 + l, 12 + 2 * l) =~= sig);
}

/// Context of the RSA verifier: it needs no precomputed data.
pub struct PrefilledData;

/// The 20-byte public-key hash that a successful RSA verification yields.
pub struct PubkeyHash([u8; 20]);

impl View for PubkeyHash {
    type V = Seq<u8>;

    closed spec fn view(&self) -> Seq<u8> {
        self.0@
    }
}

impl PubkeyHash {
    /// The bytes of the hash.
    pub fn as_slice(&self) -> (r: &[u8])
        ensures
            r@ == self@,
            r@.len() == 20,
    {
        self.0.as_slice()
    }
}

impl Default for PubkeyHash {
    /// An all-zero hash: the output buffer handed to the native verifier.
    fn default() -> (r: Self)
        ensures
            r@ == zeroed(20),
    {
        let r = PubkeyHash([0u8; 20]);
        assert(r@ =~= zeroed(20));
        r
    }
}

impl From<PubkeyHash> for [u8; 20] {
    fn from(h: PubkeyHash) -> (r: [u8; 20]) {
        h.0
    }
}

impl vstd::std_specs::convert::FromSpecImpl<PubkeyHash> for [u8; 20] {
    open spec fn obeys_from_spec() -> bool {
        true
    }

    closed spec fn from_spec(h: PubkeyHash) -> [u8; 20] {
        h.0
    }
}

/// Handle on the loaded native RSA library.
pub struct LibRSA;

impl LibRSA {
    /// The RSA verifier has no precomputed context: this always succeeds.
    pub fn load_prefilled_data(&self) -> (r: Result<PrefilledData, i32>)
        ensures
            r is Ok,
    {
        Ok(PrefilledData)
    }

    /// Builds the argument buffer of the native RSA verifier from a modulus
    /// `n`, an exponent `e` and a signature `sig`. Fails with
    /// `RSA_LENGTH_MISMATCH` exactly when `n` and `sig` differ in length.
    pub fn get_rsa_info(n: &[u8], e: u32, sig: &[u8]) -> (r: Result<Vec<u8>, i32>)
        requires
            n@.len() == sig@.len() ==> key_size_fits(n@.len()),
        ensures
            match r {
                Ok(info) => n@.len() == sig@.len() && info@ == rsa_info_layout(n@, e, sig@),
                Err(code) => n@.len() != sig@.len() && code == RSA_LENGTH_MISMATCH,
            },
    {
        if n.len() != sig.len() {
            return Err(RSA_LENGTH_MISMATCH);
        }
        let pub_key_size: u32 = (n.len() as u32) * 8;
        let mut rsa_info: Vec<u8> = Vec::new();
        push_le32(&mut rsa_info, CKB_VERIFY_RSA);
        push_le32(&mut rsa_info, pub_key_size);
        push_le32(&mut rsa_info, e);
        push_all(&mut rsa_info, n);
        push_all(&mut rsa_info, sig);
        Ok(rsa_info)
    }

    /// Interprets what the native RSA verifier did with an all-zero output
    /// buffer: on status `0` the filled `output` is the key hash; any other
    /// status is the error, and no output is handed out.
    pub fn signature_outcome(&self, status: isize, output: [u8; 20]) -> (r: Result<
        PubkeyHash,
        i32,
    >)
        ensures
            status == 0 ==> (r matches Ok(h) && h@ == output@),
            status != 0 ==> r == Err::<PubkeyHash, i32>(status_code(status)),
    {
        match native_status(status) {
            Ok(()) => Ok(PubkeyHash(output)),
            Err(code) => Err(code),
        }
    }
}

/// The first candidate at or after `from`, among the first `count`, whose
/// signature has the modulus's length, so that its argument buffer can be
/// built; `count` when there is none.
pub open spec fn first_encodable(n: Seq<u8>, sigs: Seq<Vec<u8>>, count: int, from: int) -> int
    decreases count - from,
{
    if from >= count {
        count
    } else if sigs[from]@.len() == n.len() {
        from
    } else {
        first_encodable(n, sigs, count, from + 1)
    }
}

proof fn lemma_first_encodable(n: Seq<u8>, sigs: Seq<Vec<u8>>, count: int, from: int)
    requires
        0 <= from <= count,
    ensures
        from <= first_encodable(n, sigs, count, from) <= count,
        first_encodable(n, sigs, count, from) < count ==> sigs[first_encodable(
            n,
            sigs,
            count,
            from,
        )]@.len() == n.len(),
    decreases count - from,
{
    if from < count && sigs[from]@.len() != n.len() {
        lemma_first_encodable(n, sigs, count, from + 1);
    }
}

/// What the DKIM scan asks of its host next.
pub enum DkimAction {
    /// Run the native RSA verifier on this argument buffer and message, then
    /// report whether it succeeded.
    Verify { rsa_info: Vec<u8>, message: Vec<u8> },
    /// A candidate verified: the email's DKIM signature is accepted.
    Matched,
    /// Every candidate was tried and none verified.
    NoMatch,
}

/// Matching an email's DKIM signatures against an RSA public key, one
/// candidate at a time.
///
/// Candidate `i` pairs the `i`-th signed message body with the `i`-th DKIM
/// signature; pairs beyond the shorter of the two sequences are not tried.
/// Candidates are tried in order, a candidate whose signature cannot be
/// encoded is passed over, and the scan stops at the first one that verifies.
pub struct DkimScan {
    n: Vec<u8>,
    e: u32,
    messages: Vec<Vec<u8>>,
    signatures: Vec<Vec<u8>>,
    next: usize,
}

impl DkimScan {
    /// The modulus of the public key.
    pub closed spec fn modulus(&self) -> Seq<u8> {
        self.n@
    }

    /// The public exponent.
    pub closed spec fn exponent(&self) -> u32 {
        self.e
    }

    /// The signed message bodies.
    pub closed spec fn messages(&self) -> Seq<Vec<u8>> {
        self.messages@
    }

    /// The signatures of the DKIM headers.
    pub closed spec fn signatures(&self) -> Seq<Vec<u8>> {
        self.signatures@
    }

    /// Index of the first candidate not yet tried.
    pub closed spec fn cursor(&self) -> int {
        self.next as int
    }

    /// Number of candidates: the shorter of the two sequences.
    pub open spec fn pair_count(&self) -> int {
        if self.messages().len() <= self.signatures().len() {
            self.messages().len() as int
        } else {
            self.signatures().len() as int
        }
    }

    /// The scan's invariant.
    pub open spec fn wf(&self) -> bool {
        &&& 0 <= self.cursor() <= self.pair_count()
        &&& key_size_fits(self.modulus().len())
    }

    /// The next candidate to verify: the first encodable one from the cursor.
    pub open spec fn next_candidate(&self) -> int {
        first_encodable(self.modulus(), self.signatures(), self.pair_count(), self.cursor())
    }

    /// A scan over the candidates of an email, for the key `(e, n)`, that has
    /// tried none yet.
    pub fn new(n: Vec<u8>, e: u32, messages: Vec<Vec<u8>>, signatures: Vec<Vec<u8>>) -> (r: Self)
        requires
            key_size_fits(n@.len()),
        ensures
            r.wf(),
            r.modulus() == n@,
            r.exponent() == e,
            r.messages() == messages@,
            r.signatures() == signatures@,
            r.cursor() == 0,
    {
        DkimScan { n, e, messages, signatures, next: 0 }
    }

    /// One step of the scan. `verified` tells whether the candidate of the
    /// last `Verify` action verified; the first step passes `false`.
    ///
    /// A verified candidate ends the scan with `Matched`. Otherwise the next
    /// encodable candidate is asked for, with its argument buffer and message,
    /// and the cursor moves past it; when none is left the answer is `NoMatch`.
    pub fn advance(&mut self, verified: bool) -> (r: DkimAction)
        requires
            old(self).wf(),
        ensures
            final(self).wf(),
            final(self).modulus() == old(self).modulus(),
            final(self).exponent() == old(self).exponent(),
            final(self).messages() == old(self).messages(),
            final(self).signatures() == old(self).signatures(),
            verified ==> r is Matched && final(self).cursor() == old(self).cursor(),
            !verified && old(self).next_candidate() < old(self).pair_count() ==> ({
                let j = old(self).next_candidate();
                &&& r matches DkimAction::Verify { rsa_info, message } && rsa_info@
                    == rsa_info_layout(old(self).modulus(), old(self).exponent(), old(self).signatures()[j]@)
                    && message@ == old(self).messages()[j]@
                &&& final(self).cursor() == j + 1
            }),
            !verified && old(self).next_candidate() == old(self).pair_count() ==> r is NoMatch
                && final(self).cursor() == old(self).pair_count(),
    {
        if verified {
            return DkimAction::Matched;
        }
        let count: usize = if self.messages.len() <= self.signatures.len() {
            self.messages.len()
        } else {
            self.signatures.len()
        };
        proof {
            lemma_first_encodable(self.n@, self.signatures@, count as int, self.next as int);
        }
        while self.next < count
            invariant
                !verified,
                self.wf(),
                count == self.pair_count(),
                self.modulus() == old(self).modulus(),
                self.exponent() == old(self).exponent(),
                self.messages() == old(self).messages(),
                self.signatures() == old(self).signatures(),
                old(self).cursor() <= self.cursor(),
                self.next_candidate() == old(self).next_candidate(),
            decreases count - self.next,
        {
            let i = self.next;
            match LibRSA::get_rsa_info(self.n.as_slice(), self.e, self.signatures[i].as_slice()) {
                Ok(rsa_info) => {
                    assert(self.next_candidate() == i);
                    self.next = i + 1;
                    let message = self.messages[i].clone();
                    return DkimAction::Verify { rsa_info, message };
                },
                Err(_) => {
                    self.next = i + 1;
                },
            }
        }
        DkimAction::NoMatch
    }
}

/// Appends the four little-endian bytes of `x`.
fn push_le32(v: &mut Vec<u8>, x: u32)
    ensures
        final(v)@ == old(v)@ + le32(x),
{
    v.push((x % 256) as u8);
    v.push(((x / 256) % 256) as u8);
    v.push(((x / 65536) % 256) as u8);
    v.push((x / 16777216) as u8);
    assert(final(v)@ =~= old(v)@ + le32(x));
}

/// Appends every byte of `s`, in order.
fn push_all(v: &mut Vec<u8>, s: &[u8])
    ensures
        final(v)@ == old(v)@ + s@,
{
    let ghost start = v@;
    let mut i: usize = 0;
    while i < s.len()
        invariant
            i <= s@.len(),
            v@ == start + s@.subrange(0, i as int),
        decreases s@.len() - i,
    {
        v.push(s[i]);
        i = i + 1;
        assert(v@ =~= start + s@.subrange(0, i as int));
    }
    assert(s@.subrange(0, i as int) =~= s@);
}

} // verus!
