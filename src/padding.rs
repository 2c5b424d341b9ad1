use vstd::prelude::*;

verus! {

/// Size in bytes of one cipher block.
pub const BLOCK_SIZE: usize = 16;

/// Number of padding bytes PKCS#7 appends to a message of length `n`:
/// always between 1 and a full block.
pub open spec fn pad_count(n: nat) -> nat {
    (BLOCK_SIZE as nat - n % (BLOCK_SIZE as nat)) as nat
}

/// `data` followed by `k` copies of the byte `k`, where `k` is `pad_count`.
pub open spec fn pkcs7_padded(data: Seq<u8>) -> Seq<u8> {
    let k = pad_count(data.len());
    data + Seq::new(k, |i: int| k as u8)
}

/// Whether `data` ends in a well-formed PKCS#7 padding run.
pub open spec fn has_valid_padding(data: Seq<u8>) -> bool {
    let n = data.len();
    &&& n > 0
    &&& 1 <= data[n - 1] <= BLOCK_SIZE
    &&& data[n - 1] <= n
    &&& forall|i: int| n - data[n - 1] <= i < n ==> #[trigger] data[i] == data[n - 1]
}

/// The message with its padding removed, when the padding is well-formed.
pub open spec fn pkcs7_unpadded(data: Seq<u8>) -> Option<Seq<u8>> {
    if has_valid_padding(data) {
        Some(data.subrange(0, data.len() - data[data.len() - 1]))
    } else {
        None
    }
}

/// The padded message is a positive whole number of blocks: one more block
/// than the message fills completely.
pub proof fn lemma_padded_length(data: Seq<u8>)
    ensures
        pkcs7_padded(data).len() == (data.len() / (BLOCK_SIZE as nat) + 1) * (BLOCK_SIZE as nat),
        pkcs7_padded(data).len() % (BLOCK_SIZE as nat) == 0,
        pkcs7_padded(data).len() > data.len(),
        data.len() % (BLOCK_SIZE as nat) != 0 ==> pkcs7_padded(data).len() < data.len()
            + BLOCK_SIZE,
{
    let n = data.len() as int;
    assert(n == (n / 16) * 16 + n % 16) by (nonlinear_arith);
    assert(((n / 16 + 1) * 16) % 16 == 0) by (nonlinear_arith);
}

/// Removing the padding of a padded message gives the message back.
pub proof fn lemma_unpad_inverts_pad(data: Seq<u8>)
    ensures
        pkcs7_unpadded(pkcs7_padded(data)) == Some(data),
{
    let p = pkcs7_padded(data);
    let k = pad_count(data.len());
    assert(p[p.len() - 1] == k as u8);
    assert(p.subrange(0, data.len() as int) =~= data);
}

/// Appends the PKCS#7 padding to `data`.
pub fn pkcs7_pad(data: &[u8]) -> (r: Vec<u8>)
    requires
        data@.len() + BLOCK_SIZE <= isize::MAX,
    ensures
        r@ == pkcs7_padded(data@),
{
    let k: usize = BLOCK_SIZE - data.len() % BLOCK_SIZE;
    let mut out: Vec<u8> = Vec::with_capacity(data.len() + k);
    let mut i: usize = 0;
    while i < data.len()
        invariant
            i <= data@.len(),
            out@ =~= data@.subrange(0, i as int),
        decreases data@.len() - i,
    {
        out.push(data[i]);
        i = i + 1;
    }
    let mut j: usize = 0;
    while j < k
        invariant
            k == pad_count(data@.len()),
            1 <= k <= BLOCK_SIZE,
            j <= k,
            out@ =~= data@ + Seq::new(j as nat, |t: int| k as u8),
        decreases k - j,
    {
        out.push(k as u8);
        j = j + 1;
    }
    out
}

/// Strips PKCS#7 padding, or returns `None` when it is malformed.
pub fn pkcs7_unpad(data: &[u8]) -> (r: Option<Vec<u8>>)
    ensures
        r is Some <==> has_valid_padding(data@),
        r is Some ==> Some(r->Some_0@) == pkcs7_unpadded(data@),
{
    let n = data.len();
    if n == 0 {
        return None;
    }
    let k = data[n - 1];
    if k == 0 || k as usize > BLOCK_SIZE || k as usize > n {
        return None;
    }
    let start: usize = n - k as usize;
    let mut i: usize = start;
    while i < n
        invariant
            start == n - k,
            n == data@.len(),
            k == data@[n - 1],
            start <= i <= n,
            forall|t: int| start <= t < i ==> #[trigger] data@[t] == k,
        decreases n - i,
    {
        if data[i] != k {
            return None;
        }
        i = i + 1;
    }
    let mut out: Vec<u8> = Vec::with_capacity(start);
    let mut j: usize = 0;
    while j < start
        invariant
            start <= n,
            n == data@.len(),
            j <= start,
            out@ =~= data@.subrange(0, j as int),
        decreases start - j,
    {
        out.push(data[j]);
        j = j + 1;
    }
    Some(out)
}

} // verus!
