//! The order in which emptied category folders are removed: deepest first,
//! so that a folder is tried only after the folders inside it.

use vstd::prelude::*;

verus! {

/// Whether `orden` lists every position `0..n` exactly once.
pub open spec fn es_permutacion(orden: Seq<usize>, n: nat) -> bool {
    &&& orden.len() == n
    &&& forall|a: int| 0 <= a < orden.len() ==> #[trigger] orden[a] < n
    &&& forall|a: int, b: int|
        0 <= a < b < orden.len() ==> #[trigger] orden[a] != #[trigger] orden[b]
}

/// Whether position `x` comes before position `y` when sorting by depth,
/// deepest first, and keeping the original order between equal depths.
pub open spec fn antes(profundidades: Seq<usize>, x: usize, y: usize) -> bool {
    profundidades[x as int] > profundidades[y as int] || (profundidades[x as int]
        == profundidades[y as int] && x < y)
}

/// Whether `orden` is sorted deepest first, equal depths in their original order.
pub open spec fn ordenado_por_profundidad(orden: Seq<usize>, profundidades: Seq<usize>) -> bool {
    forall|a: int, b: int|
        0 <= a < b < orden.len() ==> antes(profundidades, #[trigger] orden[a], #[trigger] orden[b])
}

/// The order in which to remove folders given the depth (number of path
/// components) of each: positions sorted by depth, deepest first, a stable
/// sort (equal depths keep their order).
pub fn orden_de_borrado(profundidades: &Vec<usize>) -> (r: Vec<usize>)
    ensures
        es_permutacion(r@, profundidades@.len()),
        ordenado_por_profundidad(r@, profundidades@),
{
    let n = profundidades.len();
    let mut orden: Vec<usize> = Vec::new();
    let mut i: usize = 0;
    while i < n
        invariant
            n == profundidades@.len(),
            i <= n,
            es_permutacion(orden@, i as nat),
            ordenado_por_profundidad(orden@, profundidades@),
        decreases n - i,
    {
        let d = profundidades[i];
        let len = orden.len();
        let mut p: usize = 0;
        while p < len && profundidades[orden[p]] >= d
            invariant
                len == orden@.len(),
                n == profundidades@.len(),
                i < n,
                d == profundidades@[i as int],
                es_permutacion(orden@, i as nat),
                p <= len,
                forall|a: int| 0 <= a < p ==> profundidades@[#[trigger] orden@[a] as int] >= d,
            decreases len - p,
        {
            p = p + 1;
        }
        proof {
            assert forall|b: int| p <= b < len implies profundidades@[#[trigger] orden@[b] as int] < d by {
                if p < len {
                    assert(profundidades@[orden@[p as int] as int] < d);
                    if b > p {
                        assert(antes(profundidades@, orden@[p as int], orden@[b]));
                    }
                }
            }
        }
        let ghost viejo = orden@;
        orden.insert(p, i);
        proof {
            assert(orden@ == viejo.insert(p as int, i));
            assert forall|a: int, b: int| 0 <= a < b < orden@.len() implies antes(
                profundidades@,
                #[trigger] orden@[a],
                #[trigger] orden@[b],
            ) by {
                if a < p && b < p {
                    assert(orden@[a] == viejo[a] && orden@[b] == viejo[b]);
                } else if a < p && b == p {
                    assert(orden@[a] == viejo[a]);
                } else if a < p {
                    assert(orden@[a] == viejo[a] && orden@[b] == viejo[b - 1]);
                } else if a == p {
                    assert(orden@[b] == viejo[b - 1]);
                } else {
                    assert(orden@[a] == viejo[a - 1] && orden@[b] == viejo[b - 1]);
                }
            }
            assert forall|a: int, b: int| 0 <= a < b < orden@.len() implies #[trigger] orden@[a]
                != #[trigger] orden@[b] by {
                if a < p && b < p {
                    assert(orden@[a] == viejo[a] && orden@[b] == viejo[b]);
                } else if a < p && b == p {
                    assert(orden@[a] == viejo[a]);
                } else if a < p {
                    assert(orden@[a] == viejo[a] && orden@[b] == viejo[b - 1]);
                } else if a == p {
                    assert(orden@[b] == viejo[b - 1]);
                } else {
                    assert(orden@[a] == viejo[a - 1] && orden@[b] == viejo[b - 1]);
                }
            }
            assert forall|a: int| 0 <= a < orden@.len() implies #[trigger] orden@[a] < i + 1 by {
                if a < p {
                    assert(orden@[a] == viejo[a]);
                } else if a > p {
                    assert(orden@[a] == viejo[a - 1]);
                }
            }
        }
        i = i + 1;
    }
    orden
}

/// In an order sorted by depth, a deeper folder always comes before a
/// shallower one: folders inside another are removed before it.
pub proof fn mas_profundo_antes(orden: Seq<usize>, profundidades: Seq<usize>, a: int, b: int)
    requires
        ordenado_por_profundidad(orden, profundidades),
        0 <= a < orden.len(),
        0 <= b < orden.len(),
        profundidades[orden[a] as int] > profundidades[orden[b] as int],
    ensures
        a < b,
{
    if b < a {
        assert(antes(profundidades, orden[b], orden[a]));
    }
}

} // verus!
