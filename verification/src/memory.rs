//! Guest linear-memory access for the attestation host call. The host call
//! must never fault the guest: every out-of-range access, and every nonce
//! longer than the attestor accepts, turns the call into a silent no-op.

use vstd::prelude::*;

verus! {

/// The longest nonce an attestation report can bind, in bytes.
pub const MAX_NONCE_LEN: usize = 64;

/// Read `len` bytes of guest memory at `ptr`. Pointer and length arrive as
/// the guest's signed 32-bit values and are taken unsigned, as the guest ABI
/// prescribes. Returns the bytes exactly when the whole range lies inside
/// the current memory.
pub fn read(mem: &Vec<u8>, ptr: i32, len: i32) -> (r: Option<Vec<u8>>)
    ensures
        r is Some <==> (ptr as u32) + (len as u32) <= mem@.len(),
        r matches Some(v) ==> v@ == mem@.subrange(
            ptr as u32 as int,
            ptr as u32 as int + len as u32 as int,
        ),
{
    let p = (#[verifier::truncate] (ptr as u32)) as usize;
    let l = (#[verifier::truncate] (len as u32)) as usize;
    if p <= mem.len() && l <= mem.len() - p {
        let mut out: Vec<u8> = Vec::new();
        let mut i: usize = 0;
        while i < l
            invariant
                p + l <= mem@.len(),
                p + l <= usize::MAX,
                i <= l,
                out@.len() == i,
                forall|k: int| 0 <= k < i ==> out@[k] == mem@[p + k],
            decreases l - i,
        {
            out.push(mem[p + i]);
            i = i + 1;
        }
        proof {
            assert(out@ =~= mem@.subrange(p as int, p as int + l as int));
        }
        Some(out)
    } else {
        None
    }
}

/// What a bounded write leaves in guest memory: the first
/// `min(|data|, len)` bytes of `data` placed at `ptr` when that range lies
/// inside the memory, and the memory unchanged otherwise. No byte outside
/// the written range changes either way.
pub open spec fn spec_write(mem: Seq<u8>, ptr: i32, len: i32, data: Seq<u8>) -> Seq<u8> {
    let p = ptr as u32 as int;
    let cap = len as u32 as int;
    let n = if data.len() <= cap {
        data.len() as int
    } else {
        cap
    };
    if p + n <= mem.len() {
        mem.take(p) + data.take(n) + mem.skip(p + n)
    } else {
        mem
    }
}

/// Write up to `len` bytes of `data` into guest memory at `ptr`; a silent
/// no-op when the target range does not lie inside the memory.
pub fn write(mem: &mut Vec<u8>, ptr: i32, len: i32, data: &Vec<u8>)
    ensures
        final(mem)@ == spec_write(old(mem)@, ptr, len, data@),
        final(mem)@.len() == old(mem)@.len(),
{
    let p = (#[verifier::truncate] (ptr as u32)) as usize;
    let cap = (#[verifier::truncate] (len as u32)) as usize;
    let n = if data.len() <= cap {
        data.len()
    } else {
        cap
    };
    if p <= mem.len() && n <= mem.len() - p {
        let mut i: usize = 0;
        while i < n
            invariant
                p + n <= old(mem)@.len(),
                p + n <= usize::MAX,
                n <= data@.len(),
                i <= n,
                mem@.len() == old(mem)@.len(),
                forall|k: int| 0 <= k < i ==> mem@[p + k] == data@[k],
                forall|k: int|
                    0 <= k < mem@.len() && !(p <= k < p + i) ==> mem@[k] == old(mem)@[k],
            decreases n - i,
        {
            mem.set(p + i, data[i]);
            i = i + 1;
        }
        proof {
            assert(mem@ =~= old(mem)@.take(p as int) + data@.take(n as int) + old(
                mem,
            )@.skip(p as int + n as int));
        }
    }
}

/// Fetch the attestation nonce from guest memory. `None` — and so a silent
/// no-op of the whole host call — when the declared length exceeds
/// [`MAX_NONCE_LEN`] or the range lies outside the memory.
pub fn read_nonce(mem: &Vec<u8>, nonce_ptr: i32, nonce_len: i32) -> (r: Option<Vec<u8>>)
    ensures
        nonce_len > 64 ==> r is None,
        nonce_len <= 64 ==> (r is Some <==> (nonce_ptr as u32) + (nonce_len as u32)
            <= mem@.len()),
        r matches Some(v) ==> v@ == mem@.subrange(
            nonce_ptr as u32 as int,
            nonce_ptr as u32 as int + nonce_len as u32 as int,
        ),
{
    if nonce_len > 64 {
        None
    } else {
        read(mem, nonce_ptr, nonce_len)
    }
}

/// The whole host call as a function of the memory, the guest's four
/// arguments, and what the attestor answered (`None` for any attestor
/// failure): the memory after the call.
pub open spec fn spec_attestation_call(
    mem: Seq<u8>,
    nonce_ptr: i32,
    nonce_len: i32,
    out_ptr: i32,
    out_len: i32,
    report: Option<Seq<u8>>,
) -> Seq<u8> {
    if nonce_len > 64 {
        mem
    } else if (nonce_ptr as u32 as int) + (nonce_len as u32 as int) > mem.len() {
        mem
    } else {
        match report {
            Option::None => mem,
            Option::Some(rep) => spec_write(mem, out_ptr, out_len, rep),
        }
    }
}

/// An oversized nonce length makes the host call a no-op: it writes zero
/// bytes to the output region and changes no other guest memory, whatever
/// the attestor would have answered.
pub proof fn lemma_oversize_nonce_writes_nothing(
    mem: Seq<u8>,
    nonce_ptr: i32,
    nonce_len: i32,
    out_ptr: i32,
    out_len: i32,
    report: Option<Seq<u8>>,
)
    requires
        nonce_len > 64,
    ensures
        spec_attestation_call(mem, nonce_ptr, nonce_len, out_ptr, out_len, report) == mem,
{
}

} // verus!
