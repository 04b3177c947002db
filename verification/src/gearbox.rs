//! Câmbio automático e as regras de cada roda do carro.
//!
//! As comparações com pedais e velocidade chegam prontas como booleanos; o
//! que fica aqui são as decisões de marcha.

use vstd::prelude::*;

verus! {

/// Rodas: dianteira esquerda, dianteira direita, traseira esquerda,
/// traseira direita.
pub const WHEEL_COUNT: usize = 4;

/// O que o câmbio enxerga dos pedais e do movimento neste passo.
#[derive(Clone, Copy, Debug, PartialEq, Eq)]
pub struct GearboxInputs {
    /// Acelerador acima do limiar de acionamento.
    pub throttle_on: bool,
    /// Acelerador abaixo do limiar de repouso.
    pub throttle_off: bool,
    /// Freio abaixo do limiar de repouso.
    pub brake_off: bool,
    /// Freio pisado com força.
    pub brake_hard: bool,
    /// O carro está praticamente parado.
    pub stopped: bool,
    /// O carro está quase imóvel, mais parado ainda que `stopped`.
    pub crawling: bool,
    /// O carro já anda para trás.
    pub rolling_back: bool,
    /// O freio de mão está puxado.
    pub handbrake: bool,
}

/// A marcha escolhida pelos pedais, antes da troca por rotação.
///
/// Parado e sem pedal o câmbio fica em ponto morto; insistir no freio engata
/// a ré, e acelerar tira da ré desde que o carro não esteja indo para trás.
pub open spec fn selected_gear(gear: i32, inputs: GearboxInputs) -> int {
    if gear < 0 {
        if inputs.throttle_on && !inputs.rolling_back {
            1
        } else {
            gear as int
        }
    } else if inputs.stopped && inputs.throttle_off && inputs.brake_off {
        0
    } else if gear == 0 && inputs.throttle_on {
        1
    } else if inputs.crawling && !inputs.handbrake && inputs.brake_hard && inputs.throttle_off {
        -1
    } else {
        gear as int
    }
}

pub fn select_gear(gear: i32, inputs: GearboxInputs) -> (selected: i32)
    ensures
        selected == selected_gear(gear, inputs),
{
    if gear < 0 {
        if inputs.throttle_on && !inputs.rolling_back {
            1
        } else {
            gear
        }
    } else if inputs.stopped && inputs.throttle_off && inputs.brake_off {
        0
    } else if gear == 0 && inputs.throttle_on {
        1
    } else if inputs.crawling && !inputs.handbrake && inputs.brake_hard && inputs.throttle_off {
        -1
    } else {
        gear
    }
}

/// Índice da relação usada em cada marcha: a ré usa a primeira, e o ponto
/// morto mede a rotação como se estivesse em primeira.
pub open spec fn ratio_index_of(gear: i32) -> int {
    if gear <= 1 {
        0
    } else {
        gear - 1
    }
}

pub fn ratio_index(gear: i32, top_gear: i32) -> (index: usize)
    requires
        -1 <= gear <= top_gear,
        top_gear >= 1,
    ensures
        index == ratio_index_of(gear),
        index < top_gear,
{
    if gear <= 1 {
        0
    } else {
        (gear - 1) as usize
    }
}

/// A troca por rotação: sobe acima do corte, desce abaixo do mínimo,
/// sempre dentro das marchas à frente.
pub open spec fn shifted_gear(gear: int, top_gear: i32, over_rev: bool, lugging: bool) -> int {
    if gear > 0 {
        if over_rev && gear < top_gear {
            gear + 1
        } else if lugging && gear > 1 {
            gear - 1
        } else {
            gear
        }
    } else {
        gear
    }
}

pub fn shift(gear: i32, top_gear: i32, over_rev: bool, lugging: bool) -> (shifted: i32)
    ensures
        shifted == shifted_gear(gear as int, top_gear, over_rev, lugging),
{
    if gear > 0 {
        if over_rev && gear < top_gear {
            gear + 1
        } else if lugging && gear > 1 {
            gear - 1
        } else {
            gear
        }
    } else {
        gear
    }
}

/// A marcha fica sempre entre a ré e a última, e cada passo do câmbio
/// troca no máximo uma marcha por rotação.
pub proof fn lemma_gear_stays_in_range(
    gear: i32,
    top_gear: i32,
    inputs: GearboxInputs,
    over_rev: bool,
    lugging: bool,
)
    requires
        top_gear >= 1,
        -1 <= gear <= top_gear,
    ensures
        -1 <= selected_gear(gear, inputs) <= top_gear,
        -1 <= shifted_gear(selected_gear(gear, inputs), top_gear, over_rev, lugging) <= top_gear,
        ({
            let s = selected_gear(gear, inputs);
            let t = shifted_gear(s, top_gear, over_rev, lugging);
            s - 1 <= t <= s + 1
        }),
{
}

/// A ré só engata com o carro quase imóvel, o freio pisado e o acelerador
/// solto, e só sai dela acelerando sem estar indo para trás.
pub proof fn lemma_reverse_rules(gear: i32, inputs: GearboxInputs)
    ensures
        gear >= 0 && selected_gear(gear, inputs) < 0 ==> inputs.crawling && inputs.brake_hard
            && inputs.throttle_off && !inputs.handbrake,
        gear < 0 && selected_gear(gear, inputs) >= 0 ==> inputs.throttle_on
            && !inputs.rolling_back,
{
}

/// O câmbio pelos pedais, de qualquer marcha à frente (ponto morto
/// incluído): parado e sem pedal cai em ponto morto; com o carro quase
/// imóvel, o freio pisado com força, o acelerador solto e sem freio de mão
/// engata a ré, seja qual for a marcha; do ponto morto, acelerar engata a
/// primeira; e sem nenhum desses pedidos a marcha não muda.
pub proof fn lemma_pedal_gear_choice(gear: i32, inputs: GearboxInputs)
    requires
        gear >= 0,
        // Os limiares de cada pedal são excludentes.
        !(inputs.throttle_on && inputs.throttle_off),
        !(inputs.brake_off && inputs.brake_hard),
    ensures
        inputs.stopped && inputs.throttle_off && inputs.brake_off ==> selected_gear(gear, inputs)
            == 0,
        inputs.crawling && inputs.brake_hard && inputs.throttle_off && !inputs.handbrake
            ==> selected_gear(gear, inputs) == -1,
        gear == 0 && inputs.throttle_on ==> selected_gear(gear, inputs) == 1,
        !(inputs.stopped && inputs.throttle_off && inputs.brake_off) && !(gear == 0
            && inputs.throttle_on) && !(inputs.crawling && inputs.brake_hard && inputs.throttle_off
            && !inputs.handbrake) ==> selected_gear(gear, inputs) == gear,
        selected_gear(gear, inputs) == -1 || selected_gear(gear, inputs) == 0 || selected_gear(
            gear,
            inputs,
        ) == 1 || selected_gear(gear, inputs) == gear,
{
}

/// Em ré, acelerar sem estar indo para trás engata a primeira; fora isso a
/// ré continua.
pub proof fn lemma_leaving_reverse(gear: i32, inputs: GearboxInputs)
    requires
        gear < 0,
    ensures
        inputs.throttle_on && !inputs.rolling_back ==> selected_gear(gear, inputs) == 1,
        !(inputs.throttle_on && !inputs.rolling_back) ==> selected_gear(gear, inputs) == gear,
{
}

/// A troca por rotação: à frente, passar do corte sobe uma marcha se ainda
/// houver outra; cair abaixo do mínimo desce uma, nunca abaixo da primeira;
/// em ponto morto e em ré a rotação não troca marcha.
pub proof fn lemma_shift_by_rpm(gear: int, top_gear: i32, over_rev: bool, lugging: bool)
    ensures
        gear > 0 && over_rev && gear < top_gear ==> shifted_gear(gear, top_gear, over_rev, lugging)
            == gear + 1,
        gear > 1 && lugging && !(over_rev && gear < top_gear) ==> shifted_gear(
            gear,
            top_gear,
            over_rev,
            lugging,
        ) == gear - 1,
        gear > 0 && !over_rev && !lugging ==> shifted_gear(gear, top_gear, over_rev, lugging)
            == gear,
        gear == 1 && !(over_rev && gear < top_gear) ==> shifted_gear(
            gear,
            top_gear,
            over_rev,
            lugging,
        ) == 1,
        gear <= 0 ==> shifted_gear(gear, top_gear, over_rev, lugging) == gear,
{
}

/// Como a marcha atual traciona.
#[derive(Clone, Copy, Debug, PartialEq, Eq, Structural)]
pub enum DriveMode {
    Neutral,
    Forward,
    /// Em ré o próprio pedal do freio acelera para trás.
    Reverse,
}

pub fn drive_mode(gear: i32) -> (mode: DriveMode)
    ensures
        mode == (if gear < 0 {
            DriveMode::Reverse
        } else if gear == 0 {
            DriveMode::Neutral
        } else {
            DriveMode::Forward
        }),
{
    if gear < 0 {
        DriveMode::Reverse
    } else if gear == 0 {
        DriveMode::Neutral
    } else {
        DriveMode::Forward
    }
}

/// Rodas de índice 0 e 1 são as dianteiras.
pub fn is_front(index: usize) -> (front: bool)
    ensures
        front == (index < 2),
{
    index < 2
}

/// O eixo de uma roda: 0 na frente, 1 atrás.
pub fn axle(index: usize) -> (axle: usize)
    ensures
        axle == (if index < 2 {
            0usize
        } else {
            1usize
        }),
{
    if index < 2 {
        0
    } else {
        1
    }
}

/// Lado da barra estabilizadora: a roda esquerda (índice par) recebe a
/// força com sinal positivo, a direita com sinal negativo.
pub fn roll_sign(index: usize) -> (sign: i32)
    ensures
        sign == (if index % 2 == 0 {
            1i32
        } else {
            -1i32
        }),
{
    if index % 2 == 0 {
        1
    } else {
        -1
    }
}

/// Qual aderência de base um pneu usa.
#[derive(Clone, Copy, Debug, PartialEq, Eq, Structural)]
pub enum GripKind {
    Front,
    Rear,
    /// Traseira com o freio de mão puxado.
    Handbrake,
}

pub fn grip_kind(front: bool, handbrake: bool) -> (kind: GripKind)
    ensures
        kind == (if front {
            GripKind::Front
        } else if handbrake {
            GripKind::Handbrake
        } else {
            GripKind::Rear
        }),
{
    if front {
        GripKind::Front
    } else if handbrake {
        GripKind::Handbrake
    } else {
        GripKind::Rear
    }
}

/// O freio de mão só trava o eixo traseiro; o resto freia pelo pedal.
pub fn brakes_by_handbrake(front: bool, handbrake: bool) -> (by_handbrake: bool)
    ensures
        by_handbrake == (handbrake && !front),
{
    handbrake && !front
}

/// Quantas rodas tocam o chão.
pub fn wheels_on_ground(grounded: &Vec<bool>) -> (count: u32)
    requires
        grounded.len() <= u32::MAX,
    ensures
        count == grounded@.filter(|g: bool| g).len(),
{
    let mut count: u32 = 0;
    let mut i: usize = 0;
    while i < grounded.len()
        invariant
            i <= grounded.len(),
            grounded.len() <= u32::MAX,
            count == grounded@.take(i as int).filter(|g: bool| g).len(),
            count <= i,
        decreases grounded.len() - i,
    {
        proof {
            assert(grounded@.take(i as int + 1).drop_last() =~= grounded@.take(i as int));
            grounded@.take(i as int + 1).lemma_filter_len_push(|g: bool| g, grounded@[i as int]);
            assert(grounded@.take(i as int).push(grounded@[i as int]) =~= grounded@.take(i as int + 1));
            grounded@.take(i as int).lemma_filter_len_push(|g: bool| g, grounded@[i as int]);
        }
        if grounded[i] {
            count = count + 1;
        }
        i = i + 1;
    }
    assert(grounded@.take(grounded.len() as int) =~= grounded@);
    count
}

} // verus!
