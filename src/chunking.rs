use vstd::prelude::*;

verus! {

/// Size of each part of a chunked upload, and the size from which a file is
/// uploaded in parts: 5 MiB.
pub const CHUNK_SIZE: u64 = 5242880;

/// Number of parts a source of `size` bytes is cut into: `ceil(size / chunk)`.
pub open spec fn part_count_spec(size: nat, chunk: nat) -> nat
    recommends
        chunk > 0,
{
    if chunk == 0 {
        0
    } else {
        ((size + chunk - 1) as nat) / chunk
    }
}

/// Length of the part with zero-based index `i`.
pub open spec fn chunk_len_spec(size: nat, chunk: nat, i: nat) -> nat {
    if size > i * chunk {
        let rest = (size - i * chunk) as nat;
        if rest < chunk {
            rest
        } else {
            chunk
        }
    } else {
        0
    }
}

/// Total length of the first `n` parts.
pub open spec fn chunks_total(size: nat, chunk: nat, n: nat) -> nat
    decreases n,
{
    if n == 0 {
        0
    } else {
        chunks_total(size, chunk, (n - 1) as nat) + chunk_len_spec(size, chunk, (n - 1) as nat)
    }
}

/// Bytes covered by the first `n` parts: `min(n * chunk, size)`.
pub open spec fn covered(size: nat, chunk: nat, n: nat) -> nat {
    if n * chunk < size {
        n * chunk
    } else {
        size
    }
}

proof fn lemma_mul_succ(n: nat, chunk: nat)
    ensures
        (n + 1) * chunk == n * chunk + chunk,
{
    assert((n + 1) * chunk == n * chunk + chunk) by (nonlinear_arith);
}

/// The first `n` parts cover `min(n * chunk, size)` bytes.
pub proof fn lemma_chunks_total(size: nat, chunk: nat, n: nat)
    requires
        chunk > 0,
    ensures
        chunks_total(size, chunk, n) == covered(size, chunk, n),
    decreases n,
{
    if n > 0 {
        let m = (n - 1) as nat;
        lemma_chunks_total(size, chunk, m);
        lemma_mul_succ(m, chunk);
        assert(n * chunk == m * chunk + chunk);
        assert(chunks_total(size, chunk, n) == chunks_total(size, chunk, m) + chunk_len_spec(
            size,
            chunk,
            m,
        ));
        if m * chunk < size {
            assert(chunks_total(size, chunk, m) == m * chunk);
        } else {
            assert(chunk_len_spec(size, chunk, m) == 0);
        }
    }
}

/// `ceil(size / chunk)` parts are the fewest whose chunks reach `size`.
pub proof fn lemma_part_count_bounds(size: nat, chunk: nat)
    requires
        chunk > 0,
        size > 0,
    ensures
        part_count_spec(size, chunk) >= 1,
        part_count_spec(size, chunk) * chunk >= size,
        (part_count_spec(size, chunk) - 1) * chunk < size,
{
    let n = part_count_spec(size, chunk);
    let t = (size + chunk - 1) as nat;
    assert(n == t / chunk);
    assert(t == n * chunk + t % chunk) by (nonlinear_arith)
        requires
            n == t / chunk,
            chunk > 0,
    ;
    assert(t % chunk < chunk) by (nonlinear_arith)
        requires
            chunk > 0,
    ;
    assert(n >= 1) by (nonlinear_arith)
        requires
            n == t / chunk,
            t >= chunk,
            chunk > 0,
    ;
    assert((n - 1) * chunk == n * chunk - chunk) by (nonlinear_arith)
        requires
            n >= 1,
    ;
}

/// A source of `size > 0` bytes cut into parts of `chunk` bytes: there are
/// `ceil(size / chunk)` parts, numbered 1 to that count without gaps; every part
/// but the last is `chunk` long, none is empty, and their lengths sum to `size`.
pub proof fn lemma_chunk_plan(size: nat, chunk: nat)
    requires
        size > 0,
        chunk > 0,
    ensures
        part_count_spec(size, chunk) >= 1,
        chunks_total(size, chunk, part_count_spec(size, chunk)) == size,
        forall|i: nat|
            i < part_count_spec(size, chunk) ==> chunk_len_spec(size, chunk, i) > 0,
        forall|i: nat|
            i + 1 < part_count_spec(size, chunk) ==> chunk_len_spec(size, chunk, i) == chunk,
        forall|i: nat|
            i >= part_count_spec(size, chunk) ==> chunk_len_spec(size, chunk, i) == 0,
{
    let n = part_count_spec(size, chunk);
    lemma_part_count_bounds(size, chunk);
    lemma_chunks_total(size, chunk, n);
    assert forall|i: nat| i < n implies chunk_len_spec(size, chunk, i) > 0 by {
        assert(i * chunk <= (n - 1) * chunk) by (nonlinear_arith)
            requires
                i <= n - 1,
        ;
    }
    assert forall|i: nat| i + 1 < n implies chunk_len_spec(size, chunk, i) == chunk by {
        lemma_mul_succ(i, chunk);
        assert((i + 1) * chunk <= (n - 1) * chunk) by (nonlinear_arith)
            requires
                i + 1 <= n - 1,
        ;
    }
    assert forall|i: nat| i >= n implies chunk_len_spec(size, chunk, i) == 0 by {
        assert(i * chunk >= n * chunk) by (nonlinear_arith)
            requires
                i >= n,
        ;
    }
}

/// Number of parts for a source of `size` bytes.
pub fn part_count(size: u64, chunk: u64) -> (r: u64)
    requires
        chunk > 0,
    ensures
        r == part_count_spec(size as nat, chunk as nat),
{
    let q = size / chunk;
    if size % chunk == 0 {
        proof {
            assert(((size + chunk - 1) as nat) / (chunk as nat) == q) by (nonlinear_arith)
                requires
                    q == size / chunk,
                    size % chunk == 0,
                    chunk > 0,
            ;
        }
        q
    } else {
        proof {
            assert(((size + chunk - 1) as nat) / (chunk as nat) == q + 1) by (nonlinear_arith)
                requires
                    q == size / chunk,
                    size % chunk != 0,
                    chunk > 0,
            ;
            assert(q < size) by (nonlinear_arith)
                requires
                    q == size / chunk,
                    size % chunk != 0,
                    chunk > 0,
            ;
        }
        q + 1
    }
}

/// Length of the part with zero-based index `index`; zero past the last part.
pub fn chunk_length(size: u64, chunk: u64, index: u64) -> (r: u64)
    requires
        chunk > 0,
    ensures
        r == chunk_len_spec(size as nat, chunk as nat, index as nat),
{
    proof {
        assert(index as u128 * chunk as u128 <= u64::MAX as u128 * u64::MAX as u128)
            by (nonlinear_arith);
    }
    let start = index as u128 * chunk as u128;
    if start < size as u128 {
        let rest = size - start as u64;
        if rest < chunk {
            rest
        } else {
            chunk
        }
    } else {
        0
    }
}

/// How a request is carried to the store.
#[derive(Debug, PartialEq, Eq, Structural)]
pub enum Strategy {
    /// One `PutObject` request holding the whole body.
    SinglePut,
    /// A multipart session driven chunk by chunk.
    Multipart,
}

/// Inline content always goes in one request; a file goes in parts when it is
/// at least `threshold` bytes long, and an empty file never does.
pub open spec fn strategy_spec(is_inline: bool, size: nat, threshold: nat) -> Strategy {
    if is_inline || size < threshold || size == 0 {
        Strategy::SinglePut
    } else {
        Strategy::Multipart
    }
}

/// Picks the upload strategy for a request.
pub fn choose_strategy(is_inline: bool, size: u64, threshold: u64) -> (r: Strategy)
    ensures
        r == strategy_spec(is_inline, size as nat, threshold as nat),
{
    if is_inline || size < threshold || size == 0 {
        Strategy::SinglePut
    } else {
        Strategy::Multipart
    }
}

} // verus!
