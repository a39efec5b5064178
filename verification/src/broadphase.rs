//! Broad-phase collision candidates for the marble simulation: marbles are
//! binned into square grid cells, and only marbles in the same or
//! neighbouring cells are tested against each other.

use vstd::prelude::*;
use std::collections::{HashMap, HashSet};

verus! {

broadcast use vstd::std_specs::hash::group_hash_axioms;

/// Two grid cells touch: they are equal or neighbours, diagonals included.
pub open spec fn cells_adjacent(c: (i32, i32), d: (i32, i32)) -> bool {
    -1 <= c.0 - d.0 <= 1 && -1 <= c.1 - d.1 <= 1
}

/// A candidate pair of marble indices: ordered, distinct, in range, with
/// touching cells.
pub open spec fn is_candidate(cells: Seq<(i32, i32)>, p: (usize, usize)) -> bool {
    p.0 < p.1 < cells.len() && cells_adjacent(cells[p.0 as int], cells[p.1 as int])
}

/// The grid key of cell (`x`, `y`): both coordinates shifted to be
/// non-negative and packed into one 64-bit number.
pub open spec fn cell_key(x: int, y: int) -> int {
    (x + 0x8000_0000) * 0x1_0000_0000 + (y + 0x8000_0000)
}

/// The key under which a pair of marble indices is remembered as seen.
pub open spec fn pair_key(a: usize, b: usize) -> int {
    a * 0x1_0000_0000_0000_0000 + b
}

proof fn lemma_cell_key_injective(x: int, y: int, u: int, v: int)
    requires
        i32::MIN <= x <= i32::MAX,
        i32::MIN <= y <= i32::MAX,
        i32::MIN <= u <= i32::MAX,
        i32::MIN <= v <= i32::MAX,
        cell_key(x, y) == cell_key(u, v),
    ensures
        x == u,
        y == v,
{
    let p = x + 0x8000_0000;
    let q = y + 0x8000_0000;
    let r = u + 0x8000_0000;
    let s = v + 0x8000_0000;
    assert(p == r && q == s) by (nonlinear_arith)
        requires
            0 <= q < 0x1_0000_0000,
            0 <= s < 0x1_0000_0000,
            p * 0x1_0000_0000 + q == r * 0x1_0000_0000 + s,
    ;
}

proof fn lemma_pair_key_injective(a: usize, b: usize, c: usize, d: usize)
    requires
        pair_key(a, b) == pair_key(c, d),
    ensures
        a == c,
        b == d,
{
    assert(a == c && b == d) by (nonlinear_arith)
        requires
            0 <= b < 0x1_0000_0000_0000_0000,
            0 <= d < 0x1_0000_0000_0000_0000,
            a * 0x1_0000_0000_0000_0000 + b == c * 0x1_0000_0000_0000_0000 + d,
    ;
}

fn exec_cell_key(x: i64, y: i64) -> (k: u64)
    requires
        i32::MIN <= x <= i32::MAX,
        i32::MIN <= y <= i32::MAX,
    ensures
        k == cell_key(x as int, y as int),
{
    let p = (x + 0x8000_0000) as u64;
    let q = (y + 0x8000_0000) as u64;
    assert(p * 0x1_0000_0000 + q <= u64::MAX) by (nonlinear_arith)
        requires
            p < 0x1_0000_0000,
            q < 0x1_0000_0000,
    ;
    p * 0x1_0000_0000 + q
}

/// The grid key of marble `i`'s cell.
pub open spec fn key_of(cells: Seq<(i32, i32)>, i: int) -> u64 {
    cell_key(cells[i].0 as int, cells[i].1 as int) as u64
}

proof fn lemma_key_of(cells: Seq<(i32, i32)>, i: int)
    ensures
        key_of(cells, i) as int == cell_key(cells[i].0 as int, cells[i].1 as int),
{
    let p = cells[i].0 + 0x8000_0000;
    let q = cells[i].1 + 0x8000_0000;
    assert(0 <= p * 0x1_0000_0000 + q <= u64::MAX) by (nonlinear_arith)
        requires
            0 <= p < 0x1_0000_0000,
            0 <= q < 0x1_0000_0000,
    ;
}

/// Every marble in a bucket is one of the first `upto` and has the
/// bucket's key.
spec fn grid_sound(grid: Map<u64, Vec<usize>>, cells: Seq<(i32, i32)>, upto: int) -> bool {
    forall|k: u64, t: int|
        grid.contains_key(k) && 0 <= t < grid[k]@.len() ==> #[trigger] grid[k]@[t] < upto
            && key_of(cells, grid[k]@[t] as int) == k
}

/// Marble `j` is in the bucket of its cell's key.
spec fn grid_has(grid: Map<u64, Vec<usize>>, cells: Seq<(i32, i32)>, j: int) -> bool {
    grid.contains_key(key_of(cells, j)) && grid[key_of(cells, j)]@.contains(j as usize)
}

/// Each of the first `upto` marbles is in the bucket of its cell's key.
spec fn grid_complete(grid: Map<u64, Vec<usize>>, cells: Seq<(i32, i32)>, upto: int) -> bool {
    forall|j: int| 0 <= j < upto ==> #[trigger] grid_has(grid, cells, j)
}

/// Bin every marble into the bucket of its cell's key: each bucket holds
/// exactly the marbles of one cell.
fn build_grid(cells: &[(i32, i32)]) -> (grid: HashMap<u64, Vec<usize>>)
    ensures
        grid_sound(grid@, cells@, cells@.len() as int),
        grid_complete(grid@, cells@, cells@.len() as int),
{
    let n = cells.len();
    let mut grid: HashMap<u64, Vec<usize>> = HashMap::new();
    let mut i: usize = 0;
    while i < n
        invariant
            n == cells@.len(),
            i <= n,
            grid_sound(grid@, cells@, i as int),
            grid_complete(grid@, cells@, i as int),
        decreases n - i,
    {
        let c = cells[i];
        let k = exec_cell_key(c.0 as i64, c.1 as i64);
        let ghost before = grid@;
        proof {
            lemma_key_of(cells@, i as int);
        }
        let bucket = match grid.remove(&k) {
            Some(mut v) => {
                assert(before.contains_key(k) && v == before[k]);
                v.push(i);
                v
            },
            None => {
                let mut v: Vec<usize> = Vec::new();
                v.push(i);
                v
            },
        };
        let ghost b = bucket@;
        grid.insert(k, bucket);
        proof {
            assert(grid@ == before.insert(k, bucket));
            assert(b[b.len() - 1] == i);
            assert forall|kk: u64, t: int|
                grid@.contains_key(kk) && 0 <= t < grid@[kk]@.len() implies #[trigger] grid@[kk]@[t]
                < i + 1 && key_of(cells@, grid@[kk]@[t] as int) == kk by {
                if kk == k && before.contains_key(k) && t < before[k]@.len() {
                    assert(grid@[kk]@[t] == before[k]@[t]);
                }
            }
            assert forall|j: int| 0 <= j < i + 1 implies #[trigger] grid_has(grid@, cells@, j) by {
                if j == i {
                    assert(grid@[k]@[b.len() - 1] == i);
                } else {
                    assert(grid_has(before, cells@, j));
                    if key_of(cells@, j) == k {
                        let t = choose|t: int|
                            0 <= t < before[k]@.len() && before[k]@[t] == j as usize;
                        assert(grid@[k]@[t] == j as usize);
                    }
                }
            }
        }
        i = i + 1;
    }
    grid
}

/// Every pair of marbles whose grid cells touch, each pair once as
/// `(lower index, higher index)`. The marbles are binned into a grid keyed
/// by cell; each marble looks up its own and the eight neighbouring cells
/// and pairs with the higher-indexed marbles there, and a set of pairs
/// already listed keeps every pair to one entry. Cell coordinates stay
/// clear of the `i32` extremes, so every neighbouring cell is
/// representable.
pub fn collision_pairs(cells: &[(i32, i32)]) -> (pairs: Vec<(usize, usize)>)
    requires
        forall|i: int|
            0 <= i < cells@.len() ==> i32::MIN < (#[trigger] cells@[i]).0 < i32::MAX && i32::MIN
                < cells@[i].1 < i32::MAX,
    ensures
        forall|k: int| 0 <= k < pairs@.len() ==> is_candidate(cells@, #[trigger] pairs@[k]),
        forall|a: usize, b: usize|
            is_candidate(cells@, (a, b)) ==> #[trigger] pairs@.contains((a, b)),
        pairs@.no_duplicates(),
{
    let n = cells.len();
    let grid = build_grid(cells);
    let mut seen: HashSet<u128> = HashSet::new();
    let mut pairs: Vec<(usize, usize)> = Vec::new();
    let mut a: usize = 0;
    while a < n
        invariant
            n == cells@.len(),
            a <= n,
            forall|i: int|
                0 <= i < cells@.len() ==> i32::MIN < (#[trigger] cells@[i]).0 < i32::MAX && i32::MIN
                    < cells@[i].1 < i32::MAX,
            grid_sound(grid@, cells@, cells@.len() as int),
            grid_complete(grid@, cells@, cells@.len() as int),
            forall|k: int| 0 <= k < pairs@.len() ==> is_candidate(cells@, #[trigger] pairs@[k]),
            forall|k: int|
                0 <= k < pairs@.len() ==> seen@.contains(
                    pair_key(#[trigger] pairs@[k].0, pairs@[k].1) as u128,
                ),
            forall|x: u128|
                #[trigger] seen@.contains(x) ==> exists|k: int|
                    0 <= k < pairs@.len() && pair_key(pairs@[k].0, pairs@[k].1) == x,
            pairs@.no_duplicates(),
            forall|x: usize, y: usize|
                x < a && is_candidate(cells@, (x, y)) ==> #[trigger] pairs@.contains((x, y)),
        decreases n - a,
    {
        let ca = cells[a];
        let mut o: u32 = 0;
        while o < 9
            invariant
                n == cells@.len(),
                a < n,
                o <= 9,
                ca == cells@[a as int],
                forall|i: int|
                    0 <= i < cells@.len() ==> i32::MIN < (#[trigger] cells@[i]).0 < i32::MAX
                        && i32::MIN < cells@[i].1 < i32::MAX,
                grid_sound(grid@, cells@, cells@.len() as int),
                grid_complete(grid@, cells@, cells@.len() as int),
                forall|k: int| 0 <= k < pairs@.len() ==> is_candidate(cells@, #[trigger] pairs@[k]),
                forall|k: int|
                    0 <= k < pairs@.len() ==> seen@.contains(
                        pair_key(#[trigger] pairs@[k].0, pairs@[k].1) as u128,
                    ),
                forall|x: u128|
                    #[trigger] seen@.contains(x) ==> exists|k: int|
                        0 <= k < pairs@.len() && pair_key(pairs@[k].0, pairs@[k].1) == x,
                pairs@.no_duplicates(),
                forall|x: usize, y: usize|
                    (x < a || (x == a && offset_index(cells@[x as int], cells@[y as int]) < o))
                        && is_candidate(cells@, (x, y)) ==> #[trigger] pairs@.contains((x, y)),
            decreases 9 - o,
        {
            let dx: i64 = (o / 3) as i64 - 1;
            let dy: i64 = (o % 3) as i64 - 1;
            let k = exec_cell_key(ca.0 as i64 + dx, ca.1 as i64 + dy);
            match grid.get(&k) {
                Some(bucket) => {
                    let ghost bv = bucket@;
                    assert(grid@.contains_key(k) && grid@[k]@ == bv);
                    assert forall|s: int| 0 <= s < bv.len() implies #[trigger] bv[s] < cells@.len()
                        && key_of(cells@, bv[s] as int) == k by {
                        assert(grid@[k]@[s] == bv[s]);
                    }
                    assert forall|j: int| 0 <= j < cells@.len() && key_of(cells@, j) == k
                        implies #[trigger] bv.contains(j as usize) by {
                        assert(grid_has(grid@, cells@, j));
                    }
                    let mut t: usize = 0;
                    while t < bucket.len()
                        invariant
                            n == cells@.len(),
                            a < n,
                            o < 9,
                            ca == cells@[a as int],
                            dx == o / 3 - 1,
                            dy == o % 3 - 1,
                            bucket@ == bv,
                            t <= bv.len(),
                            forall|s: int|
                                0 <= s < bv.len() ==> #[trigger] bv[s] < cells@.len() && key_of(
                                    cells@,
                                    bv[s] as int,
                                ) == k,
                            forall|j: int|
                                0 <= j < cells@.len() && key_of(cells@, j) == k
                                    ==> #[trigger] bv.contains(j as usize),
                            k as int == cell_key(ca.0 + dx, ca.1 + dy),
                            forall|i: int|
                                0 <= i < cells@.len() ==> i32::MIN < (#[trigger] cells@[i]).0
                                    < i32::MAX && i32::MIN < cells@[i].1 < i32::MAX,
                            forall|kk: int|
                                0 <= kk < pairs@.len() ==> is_candidate(cells@, #[trigger] pairs@[kk]),
                            forall|kk: int|
                                0 <= kk < pairs@.len() ==> seen@.contains(
                                    pair_key(#[trigger] pairs@[kk].0, pairs@[kk].1) as u128,
                                ),
                            forall|x: u128|
                                #[trigger] seen@.contains(x) ==> exists|kk: int|
                                    0 <= kk < pairs@.len() && pair_key(pairs@[kk].0, pairs@[kk].1)
                                        == x,
                            pairs@.no_duplicates(),
                            forall|x: usize, y: usize|
                                (x < a || (x == a && offset_index(cells@[x as int], cells@[y as int])
                                    < o) || (x == a && bv.take(t as int).contains(y)))
                                    && is_candidate(cells@, (x, y)) ==> #[trigger] pairs@.contains(
                                    (x, y),
                                ),
                        decreases bv.len() - t,
                    {
                        let j = bucket[t];
                        let ghost upto = bv.take(t + 1);
                        proof {
                            lemma_key_of(cells@, j as int);
                            let cj = cells@[j as int];
                            lemma_cell_key_injective(
                                cj.0 as int,
                                cj.1 as int,
                                ca.0 + dx,
                                ca.1 + dy,
                            );
                        }
                        if j > a {
                            let pk: u128 = (a as u128) * 0x1_0000_0000_0000_0000 + (j as u128);
                            let ghost old_pairs = pairs@;
                            let ghost old_seen = seen@;
                            if seen.insert(pk) {
                                pairs.push((a, j));
                                proof {
                                    assert forall|kk: int| 0 <= kk < old_pairs.len() implies #[trigger] old_pairs[kk] != (a, j) by {
                                        assert(old_seen.contains(pair_key(old_pairs[kk].0, old_pairs[kk].1) as u128));
                                    }
                                    assert(pairs@[pairs@.len() - 1] == (a, j));
                                    assert forall|x: u128| #[trigger] seen@.contains(x) implies exists|kk: int|
                                        0 <= kk < pairs@.len() && pair_key(pairs@[kk].0, pairs@[kk].1) == x by {
                                        if x != pk {
                                            let kk = choose|kk: int| 0 <= kk < old_pairs.len() && pair_key(old_pairs[kk].0, old_pairs[kk].1) == x;
                                            assert(pairs@[kk] == old_pairs[kk]);
                                        } else {
                                            assert(pair_key(pairs@[old_pairs.len() as int].0, pairs@[old_pairs.len() as int].1) == x);
                                        }
                                    }
                                    assert forall|x: usize, y: usize|
                                        (x < a || (x == a && offset_index(cells@[x as int], cells@[y as int]) < o) || (x == a && bv.take(t + 1).contains(y)))
                                        && is_candidate(cells@, (x, y)) implies #[trigger] pairs@.contains((x, y)) by {
                                        if x == a && y == j {
                                            assert(pairs@[pairs@.len() - 1] == (x, y));
                                        } else {
                                            if x == a && bv.take(t + 1).contains(y) && !(offset_index(cells@[x as int], cells@[y as int]) < o) {
                                                let s = choose|s: int| 0 <= s < upto.len() && upto[s] == y;
                                                if s < t {
                                                    assert(bv.take(t as int)[s] == y);
                                                }
                                            }
                                            assert(old_pairs.contains((x, y)));
                                            let kk = choose|kk: int| 0 <= kk < old_pairs.len() && old_pairs[kk] == (x, y);
                                            assert(pairs@[kk] == (x, y));
                                        }
                                    }
                                }
                            } else {
                                proof {
                                    let kk = choose|kk: int| 0 <= kk < pairs@.len() && pair_key(pairs@[kk].0, pairs@[kk].1) == pk;
                                    lemma_pair_key_injective(pairs@[kk].0, pairs@[kk].1, a, j);
                                    assert forall|x: usize, y: usize|
                                        (x < a || (x == a && offset_index(cells@[x as int], cells@[y as int]) < o) || (x == a && bv.take(t + 1).contains(y)))
                                        && is_candidate(cells@, (x, y)) implies #[trigger] pairs@.contains((x, y)) by {
                                        if x == a && y == j {
                                            assert(pairs@[kk] == (x, y));
                                        } else if x == a && bv.take(t + 1).contains(y) && !(offset_index(cells@[x as int], cells@[y as int]) < o) {
                                            let s = choose|s: int| 0 <= s < upto.len() && upto[s] == y;
                                            if s < t {
                                                assert(bv.take(t as int)[s] == y);
                                            }
                                        }
                                    }
                                }
                            }
                        } else {
                            proof {
                                assert forall|x: usize, y: usize|
                                    (x < a || (x == a && offset_index(cells@[x as int], cells@[y as int]) < o) || (x == a && bv.take(t + 1).contains(y)))
                                    && is_candidate(cells@, (x, y)) implies #[trigger] pairs@.contains((x, y)) by {
                                    if x == a && bv.take(t + 1).contains(y) && !(offset_index(cells@[x as int], cells@[y as int]) < o) {
                                        let s = choose|s: int| 0 <= s < upto.len() && upto[s] == y;
                                        if s < t {
                                            assert(bv.take(t as int)[s] == y);
                                        } else {
                                            assert(y == j);
                                        }
                                    }
                                }
                            }
                        }
                        t = t + 1;
                    }
                    proof {
                        assert(bv.take(bv.len() as int) == bv);
                        assert forall|x: usize, y: usize|
                            (x < a || (x == a && offset_index(cells@[x as int], cells@[y as int]) < o + 1))
                                && is_candidate(cells@, (x, y)) implies #[trigger] pairs@.contains((x, y)) by {
                            if x == a && offset_index(cells@[x as int], cells@[y as int]) == o {
                                lemma_offset_cell(cells@[x as int], cells@[y as int], o);
                                lemma_key_of(cells@, y as int);
                                assert(cells@[y as int].0 == ca.0 + dx);
                                assert(cells@[y as int].1 == ca.1 + dy);
                                assert(key_of(cells@, y as int) as int == k as int);
                                assert(bv.contains((y as int) as usize));
                            }
                        }
                    }
                },
                None => {
                    proof {
                        assert(!grid@.contains_key(k));
                        assert forall|x: usize, y: usize|
                            (x < a || (x == a && offset_index(cells@[x as int], cells@[y as int]) < o + 1))
                                && is_candidate(cells@, (x, y)) implies #[trigger] pairs@.contains((x, y)) by {
                            if x == a && offset_index(cells@[x as int], cells@[y as int]) == o {
                                lemma_offset_cell(cells@[x as int], cells@[y as int], o);
                                lemma_key_of(cells@, y as int);
                                assert(grid_has(grid@, cells@, y as int));
                            }
                        }
                    }
                },
            }
            o = o + 1;
        }
        proof {
            assert forall|x: usize, y: usize|
                x < a + 1 && is_candidate(cells@, (x, y)) implies #[trigger] pairs@.contains((x, y)) by {
                if x == a {
                    lemma_offset_cell(cells@[x as int], cells@[y as int], offset_index(cells@[x as int], cells@[y as int]) as u32);
                }
            }
        }
        a = a + 1;
    }
    pairs
}

/// Which of the nine neighbouring cells of `c` (in row-major order of the
/// offsets -1, 0, 1) the cell `d` is.
pub open spec fn offset_index(c: (i32, i32), d: (i32, i32)) -> int {
    (d.0 - c.0 + 1) * 3 + (d.1 - c.1 + 1)
}

proof fn lemma_offset_cell(c: (i32, i32), d: (i32, i32), o: u32)
    requires
        cells_adjacent(c, d),
        offset_index(c, d) == o,
    ensures
        0 <= o < 9,
        d.0 == c.0 + (o / 3 - 1),
        d.1 == c.1 + (o % 3 - 1),
{
}

} // verus!
