//! Index arithmetic and bookkeeping of the simulation components: where a
//! cell, a face or a degree of freedom sits in a flat array, which cells
//! neighbour a cell, how fixed boundary conditions overwrite a linear system,
//! and how a particle set keeps to its cap.
use vstd::prelude::*;
use vstd::arithmetic::div_mod::lemma_fundamental_div_mod_converse;

verus! {

// ── Staggered grids ──────────────────────────────────────────────────────────

/// The flat index of cell (i, j, k) of a grid `sx` cells wide and `sy` deep,
/// stored x-fastest, then y, then z.
pub open spec fn flat_index(sx: int, sy: int, i: int, j: int, k: int) -> int {
    i + sx * (j + sy * k)
}

/// A cell inside an `sx × sy × sz` grid has an index below the grid's size.
pub proof fn lemma_flat_index_in_grid(sx: int, sy: int, sz: int, i: int, j: int, k: int)
    requires
        0 <= i < sx,
        0 <= j < sy,
        0 <= k < sz,
    ensures
        0 <= flat_index(sx, sy, i, j, k) < sx * sy * sz,
{
    assert(0 <= j + sy * k <= sy * sz - 1) by (nonlinear_arith)
        requires
            0 <= j < sy,
            0 <= k < sz,
    ;
    assert(0 <= i + sx * (j + sy * k) <= sx * (sy * sz) - 1) by (nonlinear_arith)
        requires
            0 <= i < sx,
            0 <= j + sy * k <= sy * sz - 1,
    ;
    assert(sx * (sy * sz) == sx * sy * sz) by (nonlinear_arith);
}

/// The index of cell (i, j, k) of a grid `sx` cells wide and `sy` deep (a
/// pressure cell with the grid's own widths; an x-face with `sx` one larger; a
/// y-face with `sy` one larger; a z-face as a cell).
pub fn grid_index(sx: usize, sy: usize, i: usize, j: usize, k: usize) -> (r: usize)
    requires
        j + sy * k <= usize::MAX,
        flat_index(sx as int, sy as int, i as int, j as int, k as int) <= usize::MAX,
    ensures
        r == flat_index(sx as int, sy as int, i as int, j as int, k as int),
{
    assert(sy * k <= j + sy * k) by (nonlinear_arith)
        requires
            0 <= j,
    ;
    assert(sx * (j + sy * k) <= i + sx * (j + sy * k)) by (nonlinear_arith)
        requires
            0 <= i,
    ;
    i + sx * (j + sy * k)
}

/// The cells next to cell `c` of a grid with `n` cells along each axis, in the
/// order -x, +x, -y, +y, -z, +z, each only where it lies inside the grid.
pub open spec fn neighbours(n: (int, int, int), c: (int, int, int)) -> Seq<(int, int, int)> {
    (if c.0 > 0 {
        seq![(c.0 - 1, c.1, c.2)]
    } else {
        seq![]
    }) + (if c.0 + 1 < n.0 {
        seq![(c.0 + 1, c.1, c.2)]
    } else {
        seq![]
    }) + (if c.1 > 0 {
        seq![(c.0, c.1 - 1, c.2)]
    } else {
        seq![]
    }) + (if c.1 + 1 < n.1 {
        seq![(c.0, c.1 + 1, c.2)]
    } else {
        seq![]
    }) + (if c.2 > 0 {
        seq![(c.0, c.1, c.2 - 1)]
    } else {
        seq![]
    }) + (if c.2 + 1 < n.2 {
        seq![(c.0, c.1, c.2 + 1)]
    } else {
        seq![]
    })
}

/// The flat indices of a sequence of cells of a grid `sx` wide and `sy` deep.
pub open spec fn flat_indices(sx: int, sy: int, cells: Seq<(int, int, int)>) -> Seq<int> {
    cells.map_values(|c: (int, int, int)| flat_index(sx, sy, c.0, c.1, c.2))
}

fn push_cell(
    out: &mut Vec<usize>,
    nx: usize,
    ny: usize,
    nz: usize,
    i: usize,
    j: usize,
    k: usize,
)
    requires
        i < nx,
        j < ny,
        k < nz,
        nx * ny * nz <= usize::MAX,
    ensures
        final(out)@.map_values(|x: usize| x as int) == old(out)@.map_values(|x: usize| x as int).push(
            flat_index(nx as int, ny as int, i as int, j as int, k as int),
        ),
{
    proof {
        lemma_flat_index_in_grid(nx as int, ny as int, nz as int, i as int, j as int, k as int);
        lemma_flat_index_in_grid(1, ny as int, nz as int, 0, j as int, k as int);
        assert(1 * ny * nz <= nx * ny * nz) by (nonlinear_arith)
            requires
                1 <= nx,
        ;
    }
    let x = grid_index(nx, ny, i, j, k);
    out.push(x);
    proof {
        assert(final(out)@.map_values(|x: usize| x as int) =~= old(out)@.map_values(
            |x: usize| x as int,
        ).push(x as int));
    }
}

/// The flat indices of the cells next to cell (i, j, k) of an `nx × ny × nz`
/// grid, in the order -x, +x, -y, +y, -z, +z, each only where it lies inside
/// the grid (the neighbours the pressure solve averages over).
pub fn cell_neighbours(nx: usize, ny: usize, nz: usize, i: usize, j: usize, k: usize) -> (r: Vec<
    usize,
>)
    requires
        i < nx,
        j < ny,
        k < nz,
        nx * ny * nz <= usize::MAX,
    ensures
        r@.map_values(|x: usize| x as int) == flat_indices(
            nx as int,
            ny as int,
            neighbours((nx as int, ny as int, nz as int), (i as int, j as int, k as int)),
        ),
        forall|m: int| 0 <= m < r@.len() ==> #[trigger] r@[m] < nx * ny * nz,
{
    let ghost n = (nx as int, ny as int, nz as int);
    let ghost c = (i as int, j as int, k as int);
    let ghost s0: Seq<(int, int, int)> = if c.0 > 0 {
        seq![(c.0 - 1, c.1, c.2)]
    } else {
        seq![]
    };
    let ghost s1: Seq<(int, int, int)> = if c.0 + 1 < n.0 {
        seq![(c.0 + 1, c.1, c.2)]
    } else {
        seq![]
    };
    let ghost s2: Seq<(int, int, int)> = if c.1 > 0 {
        seq![(c.0, c.1 - 1, c.2)]
    } else {
        seq![]
    };
    let ghost s3: Seq<(int, int, int)> = if c.1 + 1 < n.1 {
        seq![(c.0, c.1 + 1, c.2)]
    } else {
        seq![]
    };
    let ghost s4: Seq<(int, int, int)> = if c.2 > 0 {
        seq![(c.0, c.1, c.2 - 1)]
    } else {
        seq![]
    };
    let ghost s5: Seq<(int, int, int)> = if c.2 + 1 < n.2 {
        seq![(c.0, c.1, c.2 + 1)]
    } else {
        seq![]
    };
    let mut r: Vec<usize> = Vec::new();
    if i > 0 {
        push_cell(&mut r, nx, ny, nz, i - 1, j, k);
    }
    assert(r@.map_values(|x: usize| x as int) =~= flat_indices(nx as int, ny as int, s0));
    if i + 1 < nx {
        push_cell(&mut r, nx, ny, nz, i + 1, j, k);
    }
    assert(r@.map_values(|x: usize| x as int) =~= flat_indices(nx as int, ny as int, s0 + s1));
    if j > 0 {
        push_cell(&mut r, nx, ny, nz, i, j - 1, k);
    }
    assert(r@.map_values(|x: usize| x as int) =~= flat_indices(
        nx as int,
        ny as int,
        s0 + s1 + s2,
    ));
    if j + 1 < ny {
        push_cell(&mut r, nx, ny, nz, i, j + 1, k);
    }
    assert(r@.map_values(|x: usize| x as int) =~= flat_indices(
        nx as int,
        ny as int,
        s0 + s1 + s2 + s3,
    ));
    if k > 0 {
        push_cell(&mut r, nx, ny, nz, i, j, k - 1);
    }
    assert(r@.map_values(|x: usize| x as int) =~= flat_indices(
        nx as int,
        ny as int,
        s0 + s1 + s2 + s3 + s4,
    ));
    if k + 1 < nz {
        push_cell(&mut r, nx, ny, nz, i, j, k + 1);
    }
    assert(r@.map_values(|x: usize| x as int) =~= flat_indices(
        nx as int,
        ny as int,
        s0 + s1 + s2 + s3 + s4 + s5,
    ));
    assert(neighbours(n, c) == s0 + s1 + s2 + s3 + s4 + s5);
    assert forall|m: int| 0 <= m < r@.len() implies #[trigger] r@[m] < nx * ny * nz by {
        let cm = neighbours(n, c)[m];
        assert(r@.map_values(|x: usize| x as int)[m] == r@[m] as int);
        lemma_flat_index_in_grid(nx as int, ny as int, nz as int, cm.0, cm.1, cm.2);
    }
    r
}

// ── Particle sets ────────────────────────────────────────────────────────────

/// Adds `item` unless the set already holds `cap` items or more (no cap:
/// always added); says whether it was added.
pub fn push_capped<T>(items: &mut Vec<T>, cap: Option<usize>, item: T) -> (added: bool)
    ensures
        added == match cap {
            Some(c) => old(items)@.len() < c,
            None => true,
        },
        final(items)@ == if added {
            old(items)@.push(item)
        } else {
            old(items)@
        },
{
    if let Some(c) = cap {
        if items.len() >= c {
            return false;
        }
    }
    items.push(item);
    true
}

// ── Beam assemblies ──────────────────────────────────────────────────────────

/// The degrees of freedom of a beam of `n_elements` elements: a transverse
/// displacement and a rotation at each of its `n_elements + 1` nodes.
pub open spec fn beam_dofs(n_elements: int) -> int {
    2 * (n_elements + 1)
}

/// The number of nodes of a beam of `n_elements` elements.
pub fn node_count(n_elements: usize) -> (r: usize)
    requires
        n_elements < usize::MAX,
    ensures
        r == n_elements + 1,
{
    n_elements + 1
}

/// The number of degrees of freedom of a beam of `n_elements` elements.
pub fn dof_count(n_elements: usize) -> (r: usize)
    requires
        beam_dofs(n_elements as int) <= usize::MAX,
    ensures
        r == beam_dofs(n_elements as int),
{
    2 * node_count(n_elements)
}

/// The global degrees of freedom of element `e`: both of its end nodes'.
pub fn element_dofs(e: usize) -> (r: [usize; 4])
    requires
        2 * e + 3 <= usize::MAX,
    ensures
        r@ == seq![2 * e, 2 * e + 1, 2 * e + 2, 2 * e + 3].map_values(|x: int| x as usize),
{
    let r = [2 * e, 2 * e + 1, 2 * e + 2, 2 * e + 3];
    assert(r@ =~= seq![2 * e, 2 * e + 1, 2 * e + 2, 2 * e + 3].map_values(|x: int| x as usize));
    r
}

/// `d` is one of the constrained degrees of freedom.
pub open spec fn constrained(dofs: Seq<usize>, d: int) -> bool {
    exists|x: int| 0 <= x < dofs.len() && dofs[x] == d
}

/// A row-major `n × n` matrix with fixed boundary conditions applied: the row
/// and the column of each constrained degree of freedom zeroed, its diagonal
/// entry one, every other entry as it was.
pub open spec fn with_bcs<T>(m: Seq<T>, n: int, dofs: Seq<usize>, zero: T, one: T) -> Seq<T> {
    Seq::new(
        m.len(),
        |p: int|
            {
                let i = p / n;
                let j = p % n;
                if constrained(dofs, i) && i == j {
                    one
                } else if constrained(dofs, i) || constrained(dofs, j) {
                    zero
                } else {
                    m[p]
                }
            },
    )
}

/// A load vector with fixed boundary conditions applied: the entry of each
/// constrained degree of freedom zeroed.
pub open spec fn force_with_bcs<T>(f: Seq<T>, dofs: Seq<usize>, zero: T) -> Seq<T> {
    Seq::new(f.len(), |p: int| if constrained(dofs, p) { zero } else { f[p] })
}

/// Entry (i, j) of a row-major `n × n` matrix sits at `i * n + j`.
proof fn lemma_entry(n: int, i: int, j: int)
    requires
        0 <= i < n,
        0 <= j < n,
    ensures
        0 <= i * n + j < n * n,
        (i * n + j) / n == i,
        (i * n + j) % n == j,
{
    assert(0 <= i * n + j < n * n) by (nonlinear_arith)
        requires
            0 <= i < n,
            0 <= j < n,
    ;
    lemma_fundamental_div_mod_converse(i * n + j, n, i, j);
}

/// Every position of an `n × n` matrix is an entry (p / n, p % n) inside it.
proof fn lemma_position(n: int, p: int)
    requires
        0 <= n,
        0 <= p < n * n,
    ensures
        0 <= p / n < n,
        0 <= p % n < n,
        p == (p / n) * n + p % n,
{
    assert(n > 0) by (nonlinear_arith)
        requires
            0 <= n,
            0 <= p < n * n,
    ;
    vstd::arithmetic::div_mod::lemma_fundamental_div_mod(p, n);
    assert(p / n < n) by (nonlinear_arith)
        requires
            0 <= p < n * n,
            n > 0,
            p == n * (p / n) + p % n,
            0 <= p % n < n,
    ;
    assert(0 <= p / n) by (nonlinear_arith)
        requires
            0 <= p,
            n > 0,
            p == n * (p / n) + p % n,
            p % n < n,
    ;
    assert(n * (p / n) == (p / n) * n) by (nonlinear_arith);
}

/// Fixed boundary conditions on a row-major `n × n` matrix (the system of a
/// beam assembly): for each constrained degree of freedom in turn, its row and
/// its column are zeroed and its diagonal entry is set to one.
pub fn apply_bcs<T: Copy>(mat: &mut Vec<T>, n: usize, dofs: &[usize], zero: T, one: T)
    requires
        old(mat)@.len() == n * n,
        forall|x: int| 0 <= x < dofs@.len() ==> #[trigger] dofs@[x] < n,
    ensures
        final(mat)@ == with_bcs(old(mat)@, n as int, dofs@, zero, one),
{
    let ghost m0 = mat@;
    let len = mat.len();
    assert(len == n * n && n * n <= usize::MAX);
    let nd = dofs.len();
    let mut t: usize = 0;
    assert(mat@ =~= with_bcs(m0, n as int, dofs@.take(0), zero, one)) by {
        assert forall|p: int| 0 <= p < mat@.len() implies !constrained(
            dofs@.take(0),
            #[trigger] ((p / (n as int))),
        ) && !constrained(dofs@.take(0), (p % (n as int))) by {}
    }
    while t < nd
        invariant
            nd == dofs@.len(),
            t <= nd,
            m0.len() == n * n,
            n * n <= usize::MAX,
            forall|x: int| 0 <= x < dofs@.len() ==> #[trigger] dofs@[x] < n,
            mat@ == with_bcs(m0, n as int, dofs@.take(t as int), zero, one),
        decreases nd - t,
    {
        let d = dofs[t];
        let ghost before = mat@;
        // The row of `d`.
        let mut j: usize = 0;
        while j < n
            invariant
                j <= n,
                d < n,
                mat@.len() == n * n,
                n * n <= usize::MAX,
                before.len() == n * n,
                forall|p: int|
                    0 <= p < n * n ==> #[trigger] mat@[p] == if (p / (n as int)) == d && (p % (n as int))
                        < j {
                        zero
                    } else {
                        before[p]
                    },
            decreases n - j,
        {
            proof {
                lemma_entry(n as int, d as int, j as int);
            }
            let ghost prev = mat@;
            mat.set(d * n + j, zero);
            proof {
                assert forall|p: int| 0 <= p < n * n implies #[trigger] mat@[p] == if (p / (n as int))
                    == d && (p % (n as int)) < j + 1 {
                    zero
                } else {
                    before[p]
                } by {
                    lemma_position(n as int, p);
                    if p != d * n + j {
                        assert(mat@[p] == prev[p]);
                        if (p / (n as int)) == d && (p % (n as int)) == j {
                            assert(p == d * n + j);
                        }
                    }
                }
            }
            j = j + 1;
        }
        let ghost after_row = mat@;
        // The column of `d`.
        let mut i: usize = 0;
        while i < n
            invariant
                i <= n,
                d < n,
                mat@.len() == n * n,
                n * n <= usize::MAX,
                after_row.len() == n * n,
                forall|p: int|
                    0 <= p < n * n ==> #[trigger] mat@[p] == if (p % (n as int)) == d && (p / (n as int))
                        < i {
                        zero
                    } else {
                        after_row[p]
                    },
            decreases n - i,
        {
            proof {
                lemma_entry(n as int, i as int, d as int);
            }
            let ghost prev = mat@;
            mat.set(i * n + d, zero);
            proof {
                assert forall|p: int| 0 <= p < n * n implies #[trigger] mat@[p] == if (p % (n as int))
                    == d && (p / (n as int)) < i + 1 {
                    zero
                } else {
                    after_row[p]
                } by {
                    lemma_position(n as int, p);
                    if p != i * n + d {
                        assert(mat@[p] == prev[p]);
                        if (p % (n as int)) == d && (p / (n as int)) == i {
                            assert(p == i * n + d);
                        }
                    }
                }
            }
            i = i + 1;
        }
        proof {
            lemma_entry(n as int, d as int, d as int);
        }
        let ghost after_col = mat@;
        mat.set(d * n + d, one);
        proof {
            let prev_dofs = dofs@.take(t as int);
            let next_dofs = dofs@.take(t + 1);
            assert forall|q: int| #[trigger] constrained(next_dofs, q) == (constrained(prev_dofs, q)
                || q == d) by {
                if constrained(next_dofs, q) {
                    let x = choose|x: int| 0 <= x < next_dofs.len() && next_dofs[x] == q;
                    if x < t {
                        assert(prev_dofs[x] == q);
                    }
                }
                if constrained(prev_dofs, q) {
                    let x = choose|x: int| 0 <= x < prev_dofs.len() && prev_dofs[x] == q;
                    assert(next_dofs[x] == q);
                }
                if q == d {
                    assert(next_dofs[t as int] == q);
                }
            }
            assert forall|p: int| 0 <= p < n * n implies #[trigger] mat@[p] == with_bcs(
                m0,
                n as int,
                next_dofs,
                zero,
                one,
            )[p] by {
                lemma_position(n as int, p);
                let pi = (p / (n as int));
                let pj = (p % (n as int));
                assert(constrained(next_dofs, pi) == (constrained(prev_dofs, pi) || pi == d));
                assert(constrained(next_dofs, pj) == (constrained(prev_dofs, pj) || pj == d));
                if p == d * n + d {
                    lemma_entry(n as int, d as int, d as int);
                } else {
                    assert(mat@[p] == after_col[p]);
                    if pi == d && pj == d {
                        assert(p == d * n + d);
                    }
                }
            }
            assert(mat@ =~= with_bcs(m0, n as int, next_dofs, zero, one));
        }
        t = t + 1;
    }
    assert(dofs@.take(nd as int) =~= dofs@);
}

/// Fixed boundary conditions on a load vector: the entry of each constrained
/// degree of freedom is set to zero.
pub fn apply_bcs_force<T: Copy>(f: &mut Vec<T>, dofs: &[usize], zero: T)
    requires
        forall|x: int| 0 <= x < dofs@.len() ==> #[trigger] dofs@[x] < old(f)@.len(),
    ensures
        final(f)@ == force_with_bcs(old(f)@, dofs@, zero),
{
    let ghost f0 = f@;
    let nd = dofs.len();
    let mut t: usize = 0;
    assert(f@ =~= force_with_bcs(f0, dofs@.take(0), zero));
    while t < nd
        invariant
            nd == dofs@.len(),
            t <= nd,
            f@.len() == f0.len(),
            forall|x: int| 0 <= x < dofs@.len() ==> #[trigger] dofs@[x] < f0.len(),
            f@ == force_with_bcs(f0, dofs@.take(t as int), zero),
        decreases nd - t,
    {
        let d = dofs[t];
        f.set(d, zero);
        proof {
            let prev_dofs = dofs@.take(t as int);
            let next_dofs = dofs@.take(t + 1);
            assert forall|q: int| #[trigger] constrained(next_dofs, q) == (constrained(prev_dofs, q)
                || q == d) by {
                if constrained(next_dofs, q) {
                    let x = choose|x: int| 0 <= x < next_dofs.len() && next_dofs[x] == q;
                    if x < t {
                        assert(prev_dofs[x] == q);
                    }
                }
                if constrained(prev_dofs, q) {
                    let x = choose|x: int| 0 <= x < prev_dofs.len() && prev_dofs[x] == q;
                    assert(next_dofs[x] == q);
                }
                if q == d {
                    assert(next_dofs[t as int] == q);
                }
            }
            assert(f@ =~= force_with_bcs(f0, next_dofs, zero));
        }
        t = t + 1;
    }
    assert(dofs@.take(nd as int) =~= dofs@);
}

} // verus!
