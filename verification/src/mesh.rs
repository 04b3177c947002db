//! Índices das malhas da pista.
//!
//! Asfalto, faixas e acostamento são "fitas": pares de vértices (esquerda,
//! direita) por seção, costurados com dois triângulos entre seções vizinhas.
//! As zebras são blocos soltos de quatro vértices cada. Nos dois casos cada
//! quadrilátero vira os mesmos dois triângulos.

use vstd::prelude::*;

verus! {

/// O canto do quadrilátero usado na posição `j` dos seis índices dos seus
/// dois triângulos: `(0, 1, 3)` e `(0, 3, 2)`.
pub open spec fn quad_corner(j: int) -> int {
    if j == 0 || j == 3 {
        0
    } else if j == 1 {
        1
    } else if j == 2 || j == 4 {
        3
    } else {
        2
    }
}

/// Os índices de `count` quadriláteros cujo primeiro vértice avança
/// `stride` a cada quadrilátero.
pub open spec fn quad_index(stride: int, i: int) -> int {
    stride * (i / 6) + quad_corner(i % 6)
}

fn quad_indices(count: usize, stride: u32) -> (indices: Vec<u32>)
    requires
        stride == 2 || stride == 4,
        count * stride + 4 <= u32::MAX,
    ensures
        indices.len() == 6 * count,
        forall|i: int| 0 <= i < indices.len() ==> #[trigger] indices[i] == quad_index(stride as int, i),
{
    let mut indices: Vec<u32> = Vec::new();
    let mut k: usize = 0;
    while k < count
        invariant
            stride == 2 || stride == 4,
            count * stride + 4 <= u32::MAX,
            k <= count,
            indices.len() == 6 * k,
            forall|i: int| 0 <= i < indices.len() ==> #[trigger] indices[i] == quad_index(stride as int, i),
        decreases count - k,
    {
        assert(k * stride + 3 <= count * stride + 4) by (nonlinear_arith)
            requires
                k < count,
                stride >= 0,
        ;
        let base: u32 = (k as u32) * stride;
        assert(base == k * stride) by {
            assert(k <= k * stride) by (nonlinear_arith)
                requires
                    stride >= 1,
            ;
        }
        let ghost before = indices@;
        indices.push(base);
        indices.push(base + 1);
        indices.push(base + 3);
        indices.push(base);
        indices.push(base + 3);
        indices.push(base + 2);
        assert forall|i: int| 0 <= i < indices.len() implies #[trigger] indices[i] == quad_index(
            stride as int,
            i,
        ) by {
            if i >= 6 * k {
                assert(i / 6 == k as int);
                assert(i % 6 == i - 6 * k);
            } else {
                assert(indices[i] == before[i]);
            }
        }
        k = k + 1;
    }
    indices
}

/// Os triângulos de uma fita fechada com `sections` seções; a seção inicial
/// se repete no fim, então há `sections + 1` pares de vértices.
pub fn ribbon_indices(sections: usize) -> (indices: Vec<u32>)
    requires
        sections * 2 + 4 <= u32::MAX,
    ensures
        indices.len() == 6 * sections,
        forall|i: int| 0 <= i < indices.len() ==> #[trigger] indices[i] == quad_index(2, i),
{
    quad_indices(sections, 2)
}

/// Os triângulos de `blocks` blocos soltos de quatro vértices.
pub fn block_indices(blocks: usize) -> (indices: Vec<u32>)
    requires
        blocks * 4 + 4 <= u32::MAX,
    ensures
        indices.len() == 6 * blocks,
        forall|i: int| 0 <= i < indices.len() ==> #[trigger] indices[i] == quad_index(4, i),
{
    quad_indices(blocks, 4)
}

/// Todo índice aponta para um vértice que existe, e nenhum triângulo é
/// degenerado: numa fita de `sections` seções há `2 * (sections + 1)`
/// vértices, e em `blocks` blocos há `4 * blocks`.
pub proof fn lemma_indices_in_range(count: nat, stride: int, i: int)
    requires
        stride == 2 || stride == 4,
        0 <= i < 6 * count,
    ensures
        0 <= quad_index(stride, i),
        stride == 2 ==> quad_index(stride, i) < 2 * (count + 1),
        stride == 4 ==> quad_index(stride, i) < 4 * count,
        i % 3 == 0 ==> {
            &&& quad_index(stride, i) != quad_index(stride, i + 1)
            &&& quad_index(stride, i) != quad_index(stride, i + 2)
            &&& quad_index(stride, i + 1) != quad_index(stride, i + 2)
        },
{
    let q = i / 6;
    assert(0 <= q < count) by {
        assert(i == 6 * q + i % 6);
    }
    assert(stride * q <= stride * (count - 1)) by (nonlinear_arith)
        requires
            q <= count - 1,
            stride >= 0,
    ;
    assert(stride * q >= 0) by (nonlinear_arith)
        requires
            q >= 0,
            stride >= 0,
    ;
    if i % 3 == 0 {
        assert((i + 1) / 6 == q && (i + 2) / 6 == q) by {
            assert(i == 6 * q + i % 6);
        }
        assert((i + 1) % 6 == i % 6 + 1 && (i + 2) % 6 == i % 6 + 2) by {
            assert(i == 6 * q + i % 6);
        }
    }
}

} // verus!
