//! Classificar por contagem: a colocação de cada item é o número de itens
//! que vêm antes dele numa ordem total estrita sobre os índices.

use vstd::prelude::*;
use vstd::set_lib::{lemma_int_range, lemma_map_size, lemma_subset_equality, set_int_range};

verus! {

/// `before` ordena totalmente e estritamente os índices `0..n`.
pub open spec fn strict_total_order(before: spec_fn(int, int) -> bool, n: int) -> bool {
    &&& forall|a: int| 0 <= a < n ==> !#[trigger] before(a, a)
    &&& forall|a: int, b: int, c: int|
        #![trigger before(a, b), before(b, c)]
        0 <= a < n && 0 <= b < n && 0 <= c < n && before(a, b) && before(b, c) ==> before(a, c)
    &&& forall|a: int, b: int|
        #![trigger before(a, b)]
        0 <= a < n && 0 <= b < n && a != b ==> before(a, b) || before(b, a)
}

/// Quantos índices de `0..m` vêm antes de `i`.
pub open spec fn rank(before: spec_fn(int, int) -> bool, i: int, m: int) -> nat
    decreases m,
{
    if m <= 0 {
        0
    } else {
        rank(before, i, m - 1) + if before(m - 1, i) {
            1nat
        } else {
            0nat
        }
    }
}

/// Nenhum índice vem antes de si mesmo, então a contagem fica abaixo de `m`.
pub proof fn lemma_rank_bound(before: spec_fn(int, int) -> bool, n: int, i: int, m: int)
    requires
        strict_total_order(before, n),
        0 <= i < n,
        0 <= m <= n,
    ensures
        rank(before, i, m) + (if i < m {
            1int
        } else {
            0int
        }) <= m,
    decreases m,
{
    if m > 0 {
        lemma_rank_bound(before, n, i, m - 1);
        if m - 1 == i {
            assert(!before(i, i));
        }
    }
}

/// Quem vem antes tem contagem estritamente menor.
pub proof fn lemma_rank_monotone(
    before: spec_fn(int, int) -> bool,
    n: int,
    i: int,
    j: int,
    m: int,
)
    requires
        strict_total_order(before, n),
        0 <= i < n,
        0 <= j < n,
        before(i, j),
        0 <= m <= n,
    ensures
        rank(before, j, m) >= rank(before, i, m) + (if i < m {
            1int
        } else {
            0int
        }),
    decreases m,
{
    if m > 0 {
        lemma_rank_monotone(before, n, i, j, m - 1);
        let k = m - 1;
        if before(k, i) {
            assert(before(k, j));
        }
        if k == i {
            assert(!before(i, i));
        }
    }
}

/// As contagens são distintas, ficam em `0..n` e seguem a ordem.
pub proof fn lemma_ranks_distinct(before: spec_fn(int, int) -> bool, n: int)
    requires
        strict_total_order(before, n),
        n >= 0,
    ensures
        forall|i: int| 0 <= i < n ==> #[trigger] rank(before, i, n) < n,
        forall|i: int, j: int|
            0 <= i < n && 0 <= j < n && before(i, j) ==> #[trigger] rank(before, i, n) < #[trigger] rank(
                before,
                j,
                n,
            ),
        forall|i: int, j: int|
            0 <= i < n && 0 <= j < n && i != j ==> #[trigger] rank(before, i, n) != #[trigger] rank(
                before,
                j,
                n,
            ),
{
    assert forall|i: int| 0 <= i < n implies #[trigger] rank(before, i, n) < n by {
        lemma_rank_bound(before, n, i, n);
    }
    assert forall|i: int, j: int|
        0 <= i < n && 0 <= j < n && before(i, j) implies #[trigger] rank(before, i, n)
        < #[trigger] rank(before, j, n) by {
        lemma_rank_monotone(before, n, i, j, n);
    }
    assert forall|i: int, j: int| 0 <= i < n && 0 <= j < n && i != j implies #[trigger] rank(
        before,
        i,
        n,
    ) != #[trigger] rank(before, j, n) by {
        if before(i, j) {
            lemma_rank_monotone(before, n, i, j, n);
        } else {
            lemma_rank_monotone(before, n, j, i, n);
        }
    }
}

/// Algum índice de `0..n` tem contagem `t`.
pub open spec fn rank_taken(before: spec_fn(int, int) -> bool, n: int, t: int) -> bool {
    exists|i: int| 0 <= i < n && #[trigger] rank(before, i, n) == t
}

/// Toda colocação de `0..n` pertence a exatamente um índice.
pub proof fn lemma_ranks_onto(before: spec_fn(int, int) -> bool, n: int)
    requires
        strict_total_order(before, n),
        n >= 0,
    ensures
        forall|t: int| 0 <= t < n ==> #[trigger] rank_taken(before, n, t),
{
    lemma_ranks_distinct(before, n);
    let domain = set_int_range(0, n);
    let f = |i: int| rank(before, i, n) as int;
    let image = domain.map(f);
    lemma_int_range(0, n);
    assert(vstd::relations::injective_on(f, domain)) by {
        assert forall|a: int, b: int|
            domain.contains(a) && domain.contains(b) && #[trigger] f(a) == #[trigger] f(b) implies a
            == b by {
            if a != b {
                assert(rank(before, a, n) != rank(before, b, n));
            }
        }
    }
    lemma_map_size(domain, image, f);
    assert(image.subset_of(domain)) by {
        assert forall|t: int| image.contains(t) implies domain.contains(t) by {
            let i = choose|i: int| domain.contains(i) && f(i) == t;
            assert(rank(before, i, n) < n);
        }
    }
    lemma_subset_equality(image, domain);
    assert forall|t: int| 0 <= t < n implies #[trigger] rank_taken(before, n, t) by {
        assert(domain.contains(t));
        assert(image.contains(t));
        let i = choose|i: int| domain.contains(i) && f(i) == t;
        assert(rank(before, i, n) == t);
    }
}

} // verus!
