use vstd::prelude::*;

verus! {

/// Whether `m` is an `n`×`n` matrix.
pub open spec fn is_square<T>(m: Seq<Seq<T>>, n: int) -> bool {
    &&& m.len() == n
    &&& forall|i: int| 0 <= i < n ==> #[trigger] m[i].len() == n
}

/// Whether `m` is symmetric and holds `diagonal` on its diagonal.
pub open spec fn is_symmetric_with_diagonal<T>(m: Seq<Seq<T>>, diagonal: T) -> bool {
    &&& forall|i: int| 0 <= i < m.len() ==> #[trigger] m[i][i] == diagonal
    &&& forall|i: int, j: int| 0 <= i < m.len() && 0 <= j < m.len() ==> #[trigger] m[i][j] == m[j][i]
}

/// The symmetric `n`×`n` matrix of a pairwise quantity: `pair(i, j)` is
/// evaluated once for each unordered pair `i < j` and mirrored to `(j, i)`,
/// and every diagonal entry is `diagonal`, a sentinel that stands for the
/// excluded self-pair.
pub fn pair_matrix<T: Copy, F: Fn(usize, usize) -> T>(n: usize, diagonal: T, pair: F) -> (r: Vec<Vec<T>>)
    requires
        forall|i: usize, j: usize| i < j < n ==> #[trigger] pair.requires((i, j)),
    ensures
        is_square(r@.map_values(|row: Vec<T>| row@), n as int),
        is_symmetric_with_diagonal(r@.map_values(|row: Vec<T>| row@), diagonal),
        forall|i: usize, j: usize| i < j < n ==> #[trigger] pair.ensures((i, j), r@[i as int]@[j as int]),
{
    let mut r: Vec<Vec<T>> = Vec::new();
    let mut i: usize = 0;
    while i < n
        invariant
            i <= n,
            forall|i: usize, j: usize| i < j < n ==> #[trigger] pair.requires((i, j)),
            r@.len() == i,
            forall|a: int| 0 <= a < i ==> #[trigger] r@[a]@.len() == n,
            forall|a: int| 0 <= a < i ==> #[trigger] r@[a]@[a] == diagonal,
            forall|a: int, b: int| 0 <= a < i && 0 <= b < i ==> #[trigger] r@[a]@[b] == r@[b]@[a],
            forall|a: usize, b: usize| a < b < n && a < i ==> #[trigger] pair.ensures((a, b), r@[a as int]@[b as int]),
        decreases n - i,
    {
        let mut row: Vec<T> = Vec::new();
        let mut j: usize = 0;
        while j < n
            invariant
                i < n,
                j <= n,
                forall|i: usize, j: usize| i < j < n ==> #[trigger] pair.requires((i, j)),
                r@.len() == i,
                forall|a: int| 0 <= a < i ==> #[trigger] r@[a]@.len() == n,
                row@.len() == j,
                forall|b: int| 0 <= b < j && b < i ==> #[trigger] row@[b] == r@[b]@[i as int],
                j > i ==> row@[i as int] == diagonal,
                forall|b: usize| i < b < j ==> #[trigger] pair.ensures((i, b), row@[b as int]),
            decreases n - j,
        {
            let v = if j < i {
                r[j][i]
            } else if j == i {
                diagonal
            } else {
                pair(i, j)
            };
            row.push(v);
            j = j + 1;
        }
        r.push(row);
        i = i + 1;
    }
    proof {
        let m = r@.map_values(|row: Vec<T>| row@);
        assert forall|a: int| 0 <= a < n implies #[trigger] m[a].len() == n by {
            assert(m[a] == r@[a]@);
        }
        assert forall|a: int| 0 <= a < m.len() implies #[trigger] m[a][a] == diagonal by {
            assert(m[a] == r@[a]@);
        }
        assert forall|a: int, b: int| 0 <= a < m.len() && 0 <= b < m.len() implies #[trigger] m[a][b] == m[b][a] by {
            assert(m[a] == r@[a]@);
            assert(m[b] == r@[b]@);
        }
    }
    r
}

} // verus!
