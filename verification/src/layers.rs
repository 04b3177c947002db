//! Camadas de colisão do jogo, como máscaras de bits.
//!
//! Cada camada ocupa um bit, na ordem das variantes; o primeiro bit é a
//! camada padrão do motor de física. Um corpo tem as camadas a que pertence
//! (`memberships`) e as camadas com que colide (`filters`).

use vstd::prelude::*;

verus! {

/// Camadas de colisão do jogo.
#[derive(Clone, Copy, Debug, PartialEq, Eq, Structural)]
pub enum GameLayer {
    Default,
    /// Asfalto, escapes e o terreno — tudo em que as rodas podem apoiar.
    Ground,
    /// Chassi dos carros.
    Car,
    /// Guard-rails e obstáculos sólidos.
    Barrier,
    /// Sensores de checkpoint.
    Trigger,
}

/// O bit de cada camada.
pub open spec fn layer_bit(layer: GameLayer) -> u32 {
    match layer {
        GameLayer::Default => 1,
        GameLayer::Ground => 2,
        GameLayer::Car => 4,
        GameLayer::Barrier => 8,
        GameLayer::Trigger => 16,
    }
}

impl GameLayer {
    pub fn bit(self) -> (bit: u32)
        ensures
            bit == layer_bit(self),
    {
        match self {
            GameLayer::Default => 1,
            GameLayer::Ground => 2,
            GameLayer::Car => 4,
            GameLayer::Barrier => 8,
            GameLayer::Trigger => 16,
        }
    }

    /// Superfícies em que as rodas apoiam: só o carro as toca.
    pub fn ground() -> (layers: LayerMasks)
        ensures
            layers == ground_layers(),
    {
        LayerMasks { memberships: 2, filters: 4 }
    }

    /// Guard-rails e obstáculos: só o carro os toca.
    pub fn barrier() -> (layers: LayerMasks)
        ensures
            layers == barrier_layers(),
    {
        LayerMasks { memberships: 8, filters: 4 }
    }

    /// O chassi colide com o chão, as barreiras, os outros carros e os
    /// portais.
    pub fn car() -> (layers: LayerMasks)
        ensures
            layers == car_layers(),
    {
        LayerMasks { memberships: 4, filters: 2 | 8 | 4 | 16 }
    }

    /// Sensores de checkpoint: só detectam carros.
    pub fn trigger() -> (layers: LayerMasks)
        ensures
            layers == trigger_layers(),
    {
        LayerMasks { memberships: 16, filters: 4 }
    }
}

/// Camadas de um corpo.
#[derive(Clone, Copy, Debug, PartialEq, Eq)]
pub struct LayerMasks {
    pub memberships: u32,
    pub filters: u32,
}

pub open spec fn ground_layers() -> LayerMasks {
    LayerMasks { memberships: layer_bit(GameLayer::Ground), filters: layer_bit(GameLayer::Car) }
}

pub open spec fn barrier_layers() -> LayerMasks {
    LayerMasks { memberships: layer_bit(GameLayer::Barrier), filters: layer_bit(GameLayer::Car) }
}

pub open spec fn car_layers() -> LayerMasks {
    LayerMasks {
        memberships: layer_bit(GameLayer::Car),
        filters: layer_bit(GameLayer::Ground) | layer_bit(GameLayer::Barrier) | layer_bit(
            GameLayer::Car,
        ) | layer_bit(GameLayer::Trigger),
    }
}

pub open spec fn trigger_layers() -> LayerMasks {
    LayerMasks { memberships: layer_bit(GameLayer::Trigger), filters: layer_bit(GameLayer::Car) }
}

/// Dois corpos interagem quando cada um pertence a alguma camada filtrada
/// pelo outro.
pub open spec fn interacts(a: LayerMasks, b: LayerMasks) -> bool {
    a.memberships & b.filters != 0 && b.memberships & a.filters != 0
}

/// A interação não depende de quem é o primeiro.
pub proof fn lemma_interaction_symmetric(a: LayerMasks, b: LayerMasks)
    ensures
        interacts(a, b) == interacts(b, a),
{
    let (am, af, bm, bf) = (a.memberships, a.filters, b.memberships, b.filters);
    assert(am & bf == bf & am) by (bit_vector);
    assert(bm & af == af & bm) by (bit_vector);
}

/// O carro toca o chão, as barreiras, os outros carros e os portais; fora
/// do carro, nada toca nada: o cenário estático e os sensores nunca
/// interagem entre si.
pub proof fn lemma_who_collides()
    ensures
        interacts(car_layers(), ground_layers()),
        interacts(car_layers(), barrier_layers()),
        interacts(car_layers(), car_layers()),
        interacts(car_layers(), trigger_layers()),
        !interacts(ground_layers(), ground_layers()),
        !interacts(ground_layers(), barrier_layers()),
        !interacts(ground_layers(), trigger_layers()),
        !interacts(barrier_layers(), barrier_layers()),
        !interacts(barrier_layers(), trigger_layers()),
        !interacts(trigger_layers(), trigger_layers()),
{
    assert(4u32 & 30u32 != 0) by (bit_vector);
    assert(2u32 & 4u32 == 0) by (bit_vector);
    assert(8u32 & 4u32 == 0) by (bit_vector);
    assert(16u32 & 4u32 == 0) by (bit_vector);
    assert(2u32 & 30u32 != 0) by (bit_vector);
    assert(8u32 & 30u32 != 0) by (bit_vector);
    assert(16u32 & 30u32 != 0) by (bit_vector);
    assert(4u32 & 4u32 != 0) by (bit_vector);
    assert(2u32 | 8u32 | 4u32 | 16u32 == 30u32) by (bit_vector);
}

} // verus!
