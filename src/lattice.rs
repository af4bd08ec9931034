use vstd::prelude::*;
use vstd::arithmetic::div_mod::lemma_fundamental_div_mod_converse;
use crate::error::SimError;

verus! {

/// Number of sites in a block of `k`³ face-centred-cubic unit cells.
pub open spec fn fcc_count(k: int) -> int {
    4 * k * k * k
}

/// Whether `n` particles fill a whole block of fcc unit cells.
pub open spec fn is_fcc_count(n: int) -> bool {
    exists|k: nat| #[trigger] fcc_count(k as int) == n
}

proof fn lemma_fcc_count_increasing(a: int, b: int)
    requires
        0 <= a < b,
    ensures
        fcc_count(a) < fcc_count(b),
{
    assert(a * a <= b * b) by (nonlinear_arith)
        requires 0 <= a < b;
    assert(a * a * a < b * b * b) by (nonlinear_arith)
        requires 0 <= a < b, a * a <= b * b;
    assert(4 * a * a * a < 4 * b * b * b) by (nonlinear_arith)
        requires a * a * a < b * b * b;
}

/// The number of unit cells along one edge of the lattice block that holds
/// `particle_count` particles, or `InvalidParticleCount` when no block does.
pub fn fcc_layers(particle_count: usize) -> (r: Result<usize, SimError>)
    ensures
        r is Ok <==> is_fcc_count(particle_count as int),
        r matches Ok(k) ==> fcc_count(k as int) == particle_count as int,
        r matches Err(e) ==> e == SimError::InvalidParticleCount,
{
    let n = particle_count as u128;
    let mut k: u128 = 0;
    loop
        invariant
            k <= 0x20_0000,
            n == particle_count as u128,
            forall|j: int| 0 <= j < k ==> fcc_count(j) < n,
        decreases 0x20_0000 - k,
    {
        assert(k * k <= 0x400_0000_0000) by (nonlinear_arith)
            requires k <= 0x20_0000;
        assert(k * k * k <= 0x8000_0000_0000_0000) by (nonlinear_arith)
            requires k <= 0x20_0000, k * k <= 0x400_0000_0000;
        let c = k * k * k * 4;
        assert(c == fcc_count(k as int)) by (nonlinear_arith)
            requires c == k * k * k * 4;
        if c >= n {
            if c == n {
                assert(fcc_count(k as nat as int) == particle_count as int);
                return Ok(k as usize);
            }
            assert forall|j: nat| fcc_count(j as int) != particle_count as int by {
                if (j as int) < k {
                } else if (j as int) > k {
                    lemma_fcc_count_increasing(k as int, j as int);
                }
            }
            return Err(SimError::InvalidParticleCount);
        }
        assert(k < 0x20_0000) by {
            if k == 0x20_0000 {
                assert(fcc_count(0x20_0000) == 0x2_0000_0000_0000_0000);
            }
        }
        k = k + 1;
    }
}

/// Lattice coordinates, in units of half a lattice constant, of site `i` of a
/// block of `k`³ fcc unit cells. Sites are grouped in columns of `k`: column
/// `c = i / k` stands at `x = c / 2k`, `y = c % 2k`, and its sites take the
/// `z` in `[0, 2k)` with `x + y + z` even, in increasing order.
pub open spec fn fcc_site(k: int, i: int) -> (usize, usize, usize) {
    let c = i / k;
    let x = c / (2 * k);
    let y = c % (2 * k);
    let z = 2 * (i % k) + (x + y) % 2;
    (x as usize, y as usize, z as usize)
}

/// Every site of a block of `k`³ fcc unit cells lies in `[0, 2k)`³ and has
/// an even coordinate sum.
pub proof fn lemma_fcc_site_in_lattice(k: usize, i: int)
    requires
        k >= 1,
        fcc_count(k as int) <= usize::MAX,
        0 <= i < fcc_count(k as int),
    ensures
        (fcc_site(k as int, i).0 as int) < 2 * k,
        (fcc_site(k as int, i).1 as int) < 2 * k,
        (fcc_site(k as int, i).2 as int) < 2 * k,
        (fcc_site(k as int, i).0 + fcc_site(k as int, i).1 + fcc_site(k as int, i).2) % 2 == 0,
{
    let kk = k as int;
    let c = i / kk;
    let j = i % kk;
    assert(0 <= c < 2 * kk * (2 * kk) && 0 <= j < kk) by (nonlinear_arith)
        requires
            kk >= 1,
            0 <= i < 4 * kk * kk * kk,
            c == i / kk,
            j == i % kk;
    let x = c / (2 * kk);
    let y = c % (2 * kk);
    assert(0 <= x < 2 * kk && 0 <= y < 2 * kk) by (nonlinear_arith)
        requires
            kk >= 1,
            0 <= c < 2 * kk * (2 * kk),
            x == c / (2 * kk),
            y == c % (2 * kk);
    assert(2 * kk <= fcc_count(kk)) by (nonlinear_arith)
        requires kk >= 1;
}

/// Every point of `[0, 2k)`³ with an even coordinate sum is a site of a
/// block of `k`³ fcc unit cells: the one at index `(x·2k + y)·k + z/2`.
pub proof fn lemma_fcc_site_complete(k: usize, x: usize, y: usize, z: usize)
    requires
        k >= 1,
        fcc_count(k as int) <= usize::MAX,
        x < 2 * k,
        y < 2 * k,
        z < 2 * k,
        (x + y + z) % 2 == 0,
    ensures
        0 <= (x * (2 * k) + y) * k + z / 2 < fcc_count(k as int),
        fcc_site(k as int, (x * (2 * k) + y) * k + z / 2) == (x, y, z),
{
    let kk = k as int;
    let c = x * (2 * kk) + y;
    let i = c * kk + z / 2;
    lemma_fundamental_div_mod_converse(i, kk, c, (z / 2) as int);
    lemma_fundamental_div_mod_converse(c, 2 * kk, x as int, y as int);
    assert(0 <= i < fcc_count(kk)) by (nonlinear_arith)
        requires
            kk >= 1,
            i == (x * (2 * kk) + y) * kk + z / 2,
            0 <= x < 2 * kk,
            0 <= y < 2 * kk,
            0 <= z / 2 < kk;
}

/// All sites of a block of `layers`³ fcc unit cells, as integer lattice
/// coordinates in units of half a lattice constant: every `(x, y, z)` in
/// `[0, 2·layers)`³ with `x + y + z` even, ordered by `x`, then `y`, then `z`.
pub fn fcc_sites(layers: usize) -> (r: Vec<(usize, usize, usize)>)
    requires
        fcc_count(layers as int) <= usize::MAX,
    ensures
        r@.len() == fcc_count(layers as int),
        forall|i: int| 0 <= i < r@.len() ==> #[trigger] r@[i] == fcc_site(layers as int, i),
{
    let k = layers;
    let mut r: Vec<(usize, usize, usize)> = Vec::new();
    if k == 0 {
        return r;
    }
    assert(2 * k * (2 * k) * k == fcc_count(k as int)) by (nonlinear_arith);
    assert(4 * k <= fcc_count(k as int)) by (nonlinear_arith)
        requires k >= 1;
    assert(0 * (2 * k) * k == 0) by (nonlinear_arith);
    let two_k: usize = 2 * k;
    let mut x: usize = 0;
    while x < two_k
        invariant
            k >= 1,
            two_k == 2 * k,
            two_k * two_k * k == fcc_count(k as int),
            fcc_count(k as int) <= usize::MAX,
            4 * k <= usize::MAX,
            x <= two_k,
            r@.len() == x * two_k * k,
            forall|i: int| 0 <= i < r@.len() ==> #[trigger] r@[i] == fcc_site(k as int, i),
        decreases two_k - x,
    {
        let mut y: usize = 0;
        while y < two_k
            invariant
                k >= 1,
                two_k == 2 * k,
                two_k * two_k * k == fcc_count(k as int),
                fcc_count(k as int) <= usize::MAX,
                4 * k <= usize::MAX,
                x < two_k,
                y <= two_k,
                r@.len() == (x * two_k + y) * k,
                forall|i: int| 0 <= i < r@.len() ==> #[trigger] r@[i] == fcc_site(k as int, i),
            decreases two_k - y,
        {
            let parity: usize = (x + y) % 2;
            let mut j: usize = 0;
            while j < k
                invariant
                    k >= 1,
                    two_k == 2 * k,
                    two_k * two_k * k == fcc_count(k as int),
                    fcc_count(k as int) <= usize::MAX,
                    4 * k <= usize::MAX,
                    x < two_k,
                    y < two_k,
                    parity == (x + y) % 2,
                    j <= k,
                    r@.len() == (x * two_k + y) * k + j,
                    forall|i: int| 0 <= i < r@.len() ==> #[trigger] r@[i] == fcc_site(k as int, i),
                decreases k - j,
            {
                let ghost i = r@.len() as int;
                let ghost c = x * two_k + y;
                proof {
                    lemma_fundamental_div_mod_converse(i, k as int, c, j as int);
                    lemma_fundamental_div_mod_converse(c, two_k as int, x as int, y as int);
                    assert(i < fcc_count(k as int)) by (nonlinear_arith)
                        requires
                            i == (x * two_k + y) * k + j,
                            x < two_k,
                            y < two_k,
                            j < k,
                            two_k * two_k * k == fcc_count(k as int);
                }
                r.push((x, y, 2 * j + parity));
                assert(r@[i] == fcc_site(k as int, i));
                j = j + 1;
            }
            assert((x * two_k + y) * k + k == (x * two_k + (y + 1)) * k) by (nonlinear_arith);
            y = y + 1;
        }
        assert((x * two_k + two_k) * k == (x + 1) * two_k * k) by (nonlinear_arith);
        x = x + 1;
    }
    r
}

} // verus!
