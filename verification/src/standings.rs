//! Classificação ao vivo do pelotão e a ordem da tela de resultados.

use vstd::prelude::*;

use crate::race::{race_distance, race_distance_of, RaceProgress, MAX_TRACK_MM};
use crate::ranking::{lemma_ranks_distinct, lemma_ranks_onto, rank, rank_taken, strict_total_order};

verus! {

/// O que decide a colocação de um carro.
#[derive(Clone, Copy, Debug, PartialEq, Eq)]
pub struct StandingKey {
    /// Instante da bandeirada, para quem já terminou.
    pub finish_time_us: Option<u64>,
    /// Distância percorrida na corrida, em milímetros.
    pub distance_mm: i64,
}

/// `a` está à frente de `b`: quem terminou fica congelado na frente,
/// ordenado pelo tempo; o resto é ordenado pela distância percorrida.
pub open spec fn ahead(a: StandingKey, b: StandingKey) -> bool {
    match (a.finish_time_us, b.finish_time_us) {
        (Some(ta), Some(tb)) => ta < tb,
        (Some(_), None) => true,
        (None, Some(_)) => false,
        (None, None) => a.distance_mm > b.distance_mm,
    }
}

/// A ordem do pelotão entre índices: à frente, ou empatado e listado antes.
pub open spec fn standing_order(keys: Seq<StandingKey>) -> spec_fn(int, int) -> bool {
    |a: int, b: int| ahead(keys[a], keys[b]) || (!ahead(keys[b], keys[a]) && a < b)
}

/// A chave de classificação de um progresso.
pub fn standing_key(progress: &RaceProgress) -> (key: StandingKey)
    ensures
        key.finish_time_us == progress.finish_time_us,
        key.distance_mm == progress.distance_mm,
{
    StandingKey { finish_time_us: progress.finish_time_us, distance_mm: progress.distance_mm }
}

/// Compara duas chaves de classificação.
pub fn is_ahead(a: &StandingKey, b: &StandingKey) -> (result: bool)
    ensures
        result == ahead(*a, *b),
{
    match (a.finish_time_us, b.finish_time_us) {
        (Some(ta), Some(tb)) => ta < tb,
        (Some(_), None) => true,
        (None, Some(_)) => false,
        (None, None) => a.distance_mm > b.distance_mm,
    }
}

/// A ordem do pelotão é uma ordem total estrita.
pub proof fn lemma_standing_order_total(keys: Seq<StandingKey>)
    ensures
        strict_total_order(standing_order(keys), keys.len() as int),
{
    let order = standing_order(keys);
    let n = keys.len() as int;
    assert forall|a: int, b: int, c: int|
        0 <= a < n && 0 <= b < n && 0 <= c < n && #[trigger] order(a, b) && #[trigger] order(
            b,
            c,
        ) implies order(a, c) by {}
    assert forall|a: int, b: int| 0 <= a < n && 0 <= b < n && a != b implies #[trigger] order(
        a,
        b,
    ) || order(b, a) by {}
}

/// Colocação de cada carro, começando em 1.
///
/// Equivale a ordenar o pelotão de forma estável: quem está à frente fica
/// com a colocação menor, e empates mantêm a ordem em que os carros vieram.
pub fn standing_positions(keys: &Vec<StandingKey>) -> (positions: Vec<usize>)
    ensures
        positions.len() == keys.len(),
        forall|i: int|
            0 <= i < keys.len() ==> #[trigger] positions[i] == rank(
                standing_order(keys@),
                i,
                keys.len() as int,
            ) + 1,
        forall|i: int| 0 <= i < keys.len() ==> 1 <= #[trigger] positions[i] <= keys.len(),
        forall|i: int, j: int|
            0 <= i < keys.len() && 0 <= j < keys.len() && i != j ==> #[trigger] positions[i]
                != #[trigger] positions[j],
        forall|i: int, j: int|
            0 <= i < keys.len() && 0 <= j < keys.len() && ahead(keys[i], keys[j])
                ==> #[trigger] positions[i] < #[trigger] positions[j],
{
    let n = keys.len();
    let ghost order = standing_order(keys@);
    proof {
        lemma_standing_order_total(keys@);
        lemma_ranks_distinct(order, n as int);
    }
    let mut positions: Vec<usize> = Vec::new();
    let mut i: usize = 0;
    while i < n
        invariant
            n == keys.len(),
            i <= n,
            positions.len() == i,
            order == standing_order(keys@),
            forall|t: int| 0 <= t < n ==> #[trigger] rank(order, t, n as int) < n,
            forall|k: int| 0 <= k < i ==> #[trigger] positions[k] == rank(order, k, n as int) + 1,
        decreases n - i,
    {
        let mut count: usize = 0;
        let mut k: usize = 0;
        while k < n
            invariant
                n == keys.len(),
                i < n,
                k <= n,
                order == standing_order(keys@),
                count == rank(order, i as int, k as int),
                count <= k,
            decreases n - k,
        {
            let before = is_ahead(&keys[k], &keys[i]) || (!is_ahead(&keys[i], &keys[k]) && k < i);
            if before {
                count = count + 1;
            }
            k = k + 1;
        }
        assert(rank(order, i as int, n as int) < n);
        positions.push(count + 1);
        i = i + 1;
    }
    proof {
        assert forall|a: int, b: int|
            0 <= a < n && 0 <= b < n && ahead(keys[a], keys[b]) implies #[trigger] positions[a]
            < #[trigger] positions[b] by {
            assert(order(a, b));
        }
    }
    positions
}

/// A ordem da tela de resultados: pela colocação, e na mesma colocação
/// pela ordem em que os carros vieram.
pub open spec fn position_order(positions: Seq<usize>) -> spec_fn(int, int) -> bool {
    |a: int, b: int| positions[a] < positions[b] || (positions[a] == positions[b] && a < b)
}

/// Os índices dos carros em ordem de colocação, como uma ordenação estável
/// por colocação faria.
pub fn order_by_position(positions: &Vec<usize>) -> (order: Vec<usize>)
    ensures
        order.len() == positions.len(),
        forall|i: int|
            0 <= i < positions.len() ==> #[trigger] order[rank(
                position_order(positions@),
                i,
                positions.len() as int,
            ) as int] == i,
        forall|s: int| 0 <= s < order.len() ==> #[trigger] order[s] < positions.len(),
        forall|s: int, t: int|
            0 <= s < t < order.len() ==> position_order(positions@)(
                #[trigger] order[s] as int,
                #[trigger] order[t] as int,
            ),
{
    let n = positions.len();
    let ghost before = position_order(positions@);
    assert(strict_total_order(before, n as int));
    proof {
        lemma_ranks_distinct(before, n as int);
        lemma_ranks_onto(before, n as int);
    }
    let mut order: Vec<usize> = Vec::new();
    let mut fill: usize = 0;
    while fill < n
        invariant
            n == positions.len(),
            fill <= n,
            order.len() == fill,
            forall|s: int| 0 <= s < fill ==> #[trigger] order[s] == 0,
        decreases n - fill,
    {
        order.push(0);
        fill = fill + 1;
    }
    let mut i: usize = 0;
    while i < n
        invariant
            n == positions.len(),
            i <= n,
            order.len() == n,
            before == position_order(positions@),
            strict_total_order(before, n as int),
            forall|t: int| 0 <= t < n ==> #[trigger] rank(before, t, n as int) < n,
            forall|a: int, b: int|
                0 <= a < n && 0 <= b < n && a != b ==> #[trigger] rank(before, a, n as int)
                    != #[trigger] rank(before, b, n as int),
            forall|k: int| 0 <= k < i ==> #[trigger] order[rank(before, k, n as int) as int] == k,
            forall|s: int| 0 <= s < n ==> #[trigger] order[s] < n,
        decreases n - i,
    {
        let mut count: usize = 0;
        let mut k: usize = 0;
        while k < n
            invariant
                n == positions.len(),
                i < n,
                k <= n,
                before == position_order(positions@),
                count == rank(before, i as int, k as int),
                count <= k,
            decreases n - k,
        {
            if positions[k] < positions[i] || (positions[k] == positions[i] && k < i) {
                count = count + 1;
            }
            k = k + 1;
        }
        assert(count < n);
        order.set(count, i);
        i = i + 1;
    }
    proof {
        assert forall|s: int, t: int| 0 <= s < t < n implies before(
            #[trigger] order[s] as int,
            #[trigger] order[t] as int,
        ) by {
            assert(rank_taken(before, n as int, s));
            assert(rank_taken(before, n as int, t));
            let a = choose|a: int| 0 <= a < n && #[trigger] rank(before, a, n as int) == s;
            let b = choose|b: int| 0 <= b < n && #[trigger] rank(before, b, n as int) == t;
            assert(order[s] == a);
            assert(order[t] == b);
            if !before(a, b) {
                assert(a != b);
                assert(before(b, a));
            }
        }
    }
    order
}

/// Quem já recebeu a bandeirada fica sempre à frente de quem ainda corre,
/// e entre os que terminaram vale o menor tempo.
pub proof fn lemma_finishers_lead(keys: Seq<StandingKey>, i: int, j: int)
    requires
        0 <= i < keys.len(),
        0 <= j < keys.len(),
        keys[i].finish_time_us is Some,
        keys[j].finish_time_us is None || keys[i].finish_time_us.unwrap()
            < keys[j].finish_time_us.unwrap(),
    ensures
        rank(standing_order(keys), i, keys.len() as int) < rank(
            standing_order(keys),
            j,
            keys.len() as int,
        ),
{
    lemma_standing_order_total(keys);
    lemma_ranks_distinct(standing_order(keys), keys.len() as int);
    assert(standing_order(keys)(i, j));
}

/// Onde um carro foi encontrado no traçado neste quadro.
#[derive(Clone, Copy, Debug, PartialEq, Eq)]
pub struct TrackSpot {
    /// Índice da amostra mais próxima.
    pub index: usize,
    /// Distância desde a linha de chegada, em milímetros.
    pub along_mm: i64,
}

/// As chaves de classificação de todo o pelotão.
pub open spec fn keys_of(cars: Seq<RaceProgress>) -> Seq<StandingKey> {
    Seq::new(
        cars.len(),
        |i: int| StandingKey { finish_time_us: cars[i].finish_time_us, distance_mm: cars[i].distance_mm },
    )
}

/// Recalcula a distância percorrida por cada carro e ordena o pelotão.
///
/// `spots[i]` é a posição do carro `i` no traçado; a dica de busca, a
/// distância e a colocação de cada carro são atualizadas, e o resto do
/// progresso fica como estava.
pub fn update_standings(cars: &mut Vec<RaceProgress>, spots: &Vec<TrackSpot>, length_mm: i64)
    requires
        old(cars).len() == spots.len(),
        0 < length_mm <= MAX_TRACK_MM,
        forall|i: int| 0 <= i < spots.len() ==> 0 <= #[trigger] spots[i].along_mm <= length_mm,
    ensures
        final(cars).len() == old(cars).len(),
        forall|i: int|
            0 <= i < old(cars).len() ==> {
                let before = #[trigger] old(cars)[i];
                let after = final(cars)[i];
                &&& after.track_hint == Some(spots[i].index)
                &&& after.distance_mm == race_distance_of(
                    before.lap,
                    before.started,
                    spots[i].along_mm,
                    length_mm,
                )
                &&& after.position == rank(
                    standing_order(keys_of(final(cars)@)),
                    i,
                    old(cars).len() as int,
                ) + 1
                &&& after == (RaceProgress {
                    track_hint: after.track_hint,
                    distance_mm: after.distance_mm,
                    position: after.position,
                    ..before
                })
            },
{
    let n = cars.len();
    let ghost original = cars@;
    let mut keys: Vec<StandingKey> = Vec::new();
    let mut i: usize = 0;
    while i < n
        invariant
            n == cars.len(),
            n == spots.len(),
            n == original.len(),
            0 < length_mm <= MAX_TRACK_MM,
            forall|k: int| 0 <= k < n ==> 0 <= #[trigger] spots[k].along_mm <= length_mm,
            i <= n,
            keys.len() == i,
            forall|k: int| i <= k < n ==> #[trigger] cars[k] == original[k],
            forall|k: int|
                0 <= k < i ==> {
                    let before = #[trigger] original[k];
                    let after = cars[k];
                    &&& after == (RaceProgress {
                        track_hint: Some(spots[k].index),
                        distance_mm: race_distance_of(
                            before.lap,
                            before.started,
                            spots[k].along_mm,
                            length_mm,
                        ) as i64,
                        ..before
                    })
                    &&& after.distance_mm == race_distance_of(
                        before.lap,
                        before.started,
                        spots[k].along_mm,
                        length_mm,
                    )
                },
            forall|k: int| 0 <= k < i ==> #[trigger] keys[k] == keys_of(cars@)[k],
        decreases n - i,
    {
        let mut car = cars[i];
        let spot = spots[i];
        car.track_hint = Some(spot.index);
        car.distance_mm = race_distance(car.lap, car.started, spot.along_mm, length_mm);
        keys.push(standing_key(&car));
        cars.set(i, car);
        i = i + 1;
    }
    assert(keys@ =~= keys_of(cars@));
    let positions = standing_positions(&keys);
    let ghost placed = cars@;
    let mut j: usize = 0;
    while j < n
        invariant
            n == cars.len(),
            n == positions.len(),
            n == placed.len(),
            j <= n,
            keys@ == keys_of(placed),
            forall|k: int|
                0 <= k < n ==> #[trigger] positions[k] == rank(
                    standing_order(keys@),
                    k,
                    n as int,
                ) + 1,
            forall|k: int| j <= k < n ==> #[trigger] cars[k] == placed[k],
            forall|k: int|
                0 <= k < j ==> #[trigger] cars[k] == (RaceProgress {
                    position: positions[k],
                    ..placed[k]
                }),
        decreases n - j,
    {
        let mut car = cars[j];
        car.position = positions[j];
        cars.set(j, car);
        j = j + 1;
    }
    assert(keys_of(cars@) =~= keys_of(placed));
}

} // verus!
