//! A parte inteira do traçado: índices circulares das amostras, a janela de
//! busca do ponto mais próximo, o plano das zebras e o posicionamento do
//! grid e dos adereços.

use vstd::prelude::*;

verus! {

/// Índice circular: `index` trazido para `0..count`.
pub open spec fn wrapped(index: int, count: nat) -> int {
    index % (count as int)
}

/// Traz um índice qualquer, inclusive negativo, para `0..count`.
pub fn wrap_index(count: usize, index: i32) -> (wrapped_index: usize)
    requires
        0 < count <= i32::MAX,
    ensures
        wrapped_index == wrapped(index as int, count as nat),
        wrapped_index < count,
{
    if index >= 0 {
        (index as usize) % count
    } else {
        let magnitude = (-(index as i64)) as usize;
        let m = magnitude % count;
        proof { lemma_negative_mod(magnitude as int, count as int); }
        if m == 0 {
            0
        } else {
            count - m
        }
    }
}

/// `-a mod c` a partir de `a mod c`.
proof fn lemma_negative_mod(a: int, c: int)
    requires
        a >= 0,
        c > 0,
    ensures
        (-a) % c == (if a % c == 0 {
            0
        } else {
            c - a % c
        }),
{
    vstd::arithmetic::div_mod::lemma_fundamental_div_mod(a, c);
    let q = a / c;
    let r = a % c;
    assert(-a == (-q) * c - r) by (nonlinear_arith)
        requires
            a == c * q + r,
    ;
    if r == 0 {
        assert(-a == (-q) * c);
        vstd::arithmetic::div_mod::lemma_mod_multiples_basic(-q, c);
    } else {
        assert(-a == (-q - 1) * c + (c - r)) by (nonlinear_arith)
            requires
                -a == (-q) * c - r,
        ;
        vstd::arithmetic::div_mod::lemma_mod_multiples_vanish(-q - 1, c - r, c);
        vstd::arithmetic::div_mod::lemma_small_mod((c - r) as nat, c as nat);
    }
}

/// Quantas amostras a busca local olha para cada lado da dica.
pub const SEARCH_RADIUS: i32 = 24;

/// As amostras que a busca do ponto mais próximo examina, na ordem.
///
/// Com a dica do quadro anterior a janela cobre bem mais do que um carro
/// anda entre dois quadros; sem ela, o circuito inteiro.
pub open spec fn search_window_of(count: nat, hint: Option<usize>) -> Seq<usize> {
    match hint {
        Some(h) => Seq::new(
            (2 * SEARCH_RADIUS + 1) as nat,
            |k: int| wrapped(h + k - SEARCH_RADIUS, count) as usize,
        ),
        None => Seq::new(count, |k: int| k as usize),
    }
}

pub fn search_window(count: usize, hint: Option<usize>) -> (window: Vec<usize>)
    requires
        0 < count <= i32::MAX,
        hint matches Some(h) ==> h + SEARCH_RADIUS <= i32::MAX,
    ensures
        window@ == search_window_of(count as nat, hint),
        forall|k: int| 0 <= k < window.len() ==> #[trigger] window[k] < count,
{
    let mut window: Vec<usize> = Vec::new();
    match hint {
        Some(h) => {
            let mut offset: i32 = -SEARCH_RADIUS;
            while offset <= SEARCH_RADIUS
                invariant
                    0 < count <= i32::MAX,
                    h + SEARCH_RADIUS <= i32::MAX,
                    -SEARCH_RADIUS <= offset <= SEARCH_RADIUS + 1,
                    window.len() == offset + SEARCH_RADIUS,
                    forall|k: int|
                        0 <= k < window.len() ==> #[trigger] window[k] == wrapped(
                            h + k - SEARCH_RADIUS,
                            count as nat,
                        ) as usize,
                    forall|k: int| 0 <= k < window.len() ==> #[trigger] window[k] < count,
                decreases SEARCH_RADIUS + 1 - offset,
            {
                let index = wrap_index(count, h as i32 + offset);
                window.push(index);
                offset = offset + 1;
            }
            assert(window@ =~= search_window_of(count as nat, hint));
        },
        None => {
            let mut index: usize = 0;
            while index < count
                invariant
                    index <= count,
                    window.len() == index,
                    forall|k: int| 0 <= k < index ==> #[trigger] window[k] == k,
                decreases count - index,
            {
                window.push(index);
                index = index + 1;
            }
            assert(window@ =~= search_window_of(count as nat, hint));
        },
    }
    window
}

/// Um trecho de zebra: amostras `start..end`, vermelho ou branco.
#[derive(Clone, Copy, Debug, PartialEq, Eq)]
pub struct KerbBlock {
    pub start: usize,
    pub end: usize,
    pub red: bool,
}

/// Algum ponto de `start..end` está numa curva.
pub open spec fn any_corner(corner: Seq<bool>, start: int, end: int) -> bool {
    exists|i: int| start <= i < end && #[trigger] corner[i]
}

/// Os blocos de zebra a partir da amostra `step`, com `parity` blocos de
/// curva seguidos já colocados antes dele.
///
/// O circuito é cortado em blocos de `per_block` amostras; cada bloco que
/// toca uma curva recebe zebra, alternando vermelho e branco a partir do
/// vermelho, e um bloco de reta recomeça a alternância.
pub open spec fn kerb_plan_from(corner: Seq<bool>, per_block: nat, step: nat, parity: nat) -> Seq<
    KerbBlock,
>
    decreases corner.len() - step,
{
    if step >= corner.len() || per_block == 0 {
        seq![]
    } else {
        let end = if step + per_block < corner.len() {
            step + per_block
        } else {
            corner.len()
        };
        if any_corner(corner, step as int, end as int) {
            seq![KerbBlock { start: step as usize, end: end as usize, red: parity % 2 == 0 }]
                + kerb_plan_from(corner, per_block, end, parity + 1)
        } else {
            kerb_plan_from(corner, per_block, end, 0)
        }
    }
}

/// Distribui as zebras pelas curvas do circuito.
pub fn kerb_plan(corner: &Vec<bool>, per_block: usize) -> (plan: Vec<KerbBlock>)
    requires
        per_block >= 1,
    ensures
        plan@ == kerb_plan_from(corner@, per_block as nat, 0, 0),
{
    let count = corner.len();
    let mut plan: Vec<KerbBlock> = Vec::new();
    let mut step: usize = 0;
    let mut parity: usize = 0;
    while step < count
        invariant
            count == corner.len(),
            per_block >= 1,
            step <= count,
            parity <= step,
            plan@ + kerb_plan_from(corner@, per_block as nat, step as nat, parity as nat)
                == kerb_plan_from(corner@, per_block as nat, 0, 0),
        decreases count - step,
    {
        let end = if per_block < count - step {
            step + per_block
        } else {
            count
        };
        let mut in_corner = false;
        let mut i = step;
        while i < end
            invariant
                step <= i <= end <= count,
                count == corner.len(),
                in_corner == any_corner(corner@, step as int, i as int),
            decreases end - i,
        {
            if corner[i] {
                in_corner = true;
            }
            i = i + 1;
        }
        let ghost before = plan@;
        if in_corner {
            plan.push(KerbBlock { start: step, end, red: parity % 2 == 0 });
            parity = parity + 1;
            assert(plan@ + kerb_plan_from(corner@, per_block as nat, end as nat, parity as nat)
                =~= before + kerb_plan_from(corner@, per_block as nat, step as nat, (parity - 1) as nat));
        } else {
            parity = 0;
        }
        step = end;
    }
    assert(plan@ + kerb_plan_from(corner@, per_block as nat, step as nat, parity as nat) =~= plan@);
    plan
}

/// As zebras alternam dentro de cada curva e toda curva começa pelo
/// vermelho: um bloco colado no anterior tem a outra cor, e um bloco depois
/// de uma reta é vermelho. Os blocos seguem em ordem, sem se sobrepor, e
/// nenhum passa de `per_block` amostras.
pub proof fn lemma_kerbs_alternate(corner: Seq<bool>, per_block: nat, step: nat, parity: nat)
    requires
        per_block >= 1,
        corner.len() <= usize::MAX,
    ensures
        ({
            let plan = kerb_plan_from(corner, per_block, step, parity);
            &&& plan.len() > 0 ==> plan[0].red == (if plan[0].start == step {
                parity % 2 == 0
            } else {
                true
            })
            &&& forall|i: int|
                0 <= i < plan.len() ==> step <= (#[trigger] plan[i]).start < plan[i].end
                    <= corner.len() && plan[i].end - plan[i].start <= per_block
            &&& forall|i: int|
                0 <= i < plan.len() - 1 ==> (#[trigger] plan[i]).end <= plan[i + 1].start
            &&& forall|i: int|
                0 <= i < plan.len() - 1 ==> (if (#[trigger] plan[i]).end == plan[i + 1].start {
                    plan[i + 1].red != plan[i].red
                } else {
                    plan[i + 1].red
                })
        }),
    decreases corner.len() - step,
{
    if step < corner.len() {
        let end: nat = if step + per_block < corner.len() {
            step + per_block
        } else {
            corner.len()
        };
        if any_corner(corner, step as int, end as int) {
            lemma_kerbs_alternate(corner, per_block, end, parity + 1);
            let rest = kerb_plan_from(corner, per_block, end, parity + 1);
            let plan = kerb_plan_from(corner, per_block, step, parity);
            assert(plan =~= seq![KerbBlock { start: step as usize, end: end as usize, red: parity % 2 == 0 }] + rest);
            assert forall|i: int| 0 <= i < plan.len() - 1 implies (if (#[trigger] plan[i]).end
                == plan[i + 1].start {
                plan[i + 1].red != plan[i].red
            } else {
                plan[i + 1].red
            }) by {
                if i > 0 {
                    assert(plan[i] == rest[i - 1]);
                    assert(plan[i + 1] == rest[i]);
                }
            }
            assert forall|i: int| 0 <= i < plan.len() - 1 implies (#[trigger] plan[i]).end
                <= plan[i + 1].start by {
                if i > 0 {
                    assert(plan[i] == rest[i - 1]);
                    assert(plan[i + 1] == rest[i]);
                }
            }
            assert forall|i: int| 0 <= i < plan.len() implies step <= (#[trigger] plan[i]).start
                < plan[i].end <= corner.len() && plan[i].end - plan[i].start <= per_block by {
                if i > 0 {
                    assert(plan[i] == rest[i - 1]);
                }
            }
        } else {
            lemma_kerbs_alternate(corner, per_block, end, 0);
        }
    }
}

/// Os quadrados da linha de chegada alternam como um tabuleiro.
pub fn start_line_dark(row: usize, column: usize) -> (dark: bool)
    requires
        row + column <= usize::MAX,
    ensures
        dark == ((row + column) % 2 == 0),
{
    (row + column) % 2 == 0
}

/// Lugar no grid: fileira e coluna de cada posição de largada, com o lado
/// da pista (`-1` à esquerda, `1` à direita).
#[derive(Clone, Copy, Debug, PartialEq, Eq)]
pub struct GridPlace {
    pub row: usize,
    pub column: usize,
    pub side: i32,
}

pub fn grid_place(slot: usize) -> (place: GridPlace)
    ensures
        place.row == slot / 2,
        place.column == slot % 2,
        place.side == (if slot % 2 == 0 {
            -1i32
        } else {
            1i32
        }),
{
    let column = slot % 2;
    GridPlace { row: slot / 2, column, side: if column == 0 {
        -1
    } else {
        1
    } }
}

/// Duas posições de largada nunca ocupam o mesmo lugar.
pub proof fn lemma_grid_places_distinct(a: usize, b: usize)
    requires
        a != b,
    ensures
        a / 2 != b / 2 || a % 2 != b % 2,
{
}

/// Posição de uma árvore: variação em milésimos e o lado da pista.
///
/// Uma variação pseudoaleatória estável mantém a floresta irregular sem
/// depender de um gerador com estado.
pub fn tree_placement(index: usize) -> (placement: (u64, i32))
    requires
        index * 2654435761 <= usize::MAX,
    ensures
        placement.0 == (index * 2654435761) % 1000,
        placement.0 < 1000,
        placement.1 == (if index % 2 == 0 {
            -1i32
        } else {
            1i32
        }),
{
    let jitter = ((index * 2654435761) % 1000) as u64;
    (jitter, if index % 2 == 0 {
        -1
    } else {
        1
    })
}

/// Mastros de bandeira ao lado do pórtico: lado e distância da linha, em
/// metros.
pub fn flag_pole_placement(index: usize) -> (placement: (i32, u32))
    requires
        index < 6,
    ensures
        placement.0 == (if index % 2 == 0 {
            -1i32
        } else {
            1i32
        }),
        placement.1 == 12 + (index / 2) * 9,
{
    let side = if index % 2 == 0 {
        -1
    } else {
        1
    };
    (side, 12 + (index as u32 / 2) * 9)
}

/// Arquibancadas da reta: distância da linha, em metros, e lado da pista.
pub fn grandstand_placements() -> (placements: Vec<(i32, i32)>)
    ensures
        placements@ == seq![(-70i32, -1i32), (-22i32, 1i32), (26i32, -1i32)],
{
    vec![(-70, -1), (-22, 1), (26, -1)]
}

} // verus!
