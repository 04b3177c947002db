//! Quem larga onde, como cada carro se chama e o resgate de carros presos.

use vstd::prelude::*;

use crate::text::{push_zero_padded, zero_padded};

verus! {

/// Identifica um carro dentro da corrida.
#[derive(Clone, Debug)]
pub struct CarIdentity {
    pub name: String,
    /// Posição de largada, contada a partir da pole.
    pub grid_slot: usize,
    pub is_player: bool,
}

/// O nome de um adversário: `CPU 01`, `CPU 02`, ...
pub open spec fn opponent_name_text(slot: usize) -> Seq<char> {
    "CPU "@ + zero_padded((slot + 1) as nat, 2)
}

pub fn opponent_name(slot: usize) -> (name: String)
    requires
        slot < usize::MAX,
    ensures
        name@ == opponent_name_text(slot),
{
    let mut name = String::from_str("CPU ");
    push_zero_padded(&mut name, slot as u64 + 1, 2);
    name
}

/// O nome do carro do jogador.
pub open spec fn player_name_text() -> Seq<char> {
    "Você"@
}

/// O grid inteiro: os adversários nas primeiras posições e o jogador em
/// último, para ter algo a fazer nas primeiras voltas.
pub fn grid_entries(opponents: u32) -> (entries: Vec<CarIdentity>)
    ensures
        entries.len() == opponents + 1,
        forall|slot: int| 0 <= slot < entries.len() ==> #[trigger] entries[slot].grid_slot == slot,
        forall|slot: int|
            0 <= slot < entries.len() ==> (#[trigger] entries[slot].is_player <==> slot
                == opponents),
        forall|slot: int|
            0 <= slot < opponents ==> #[trigger] entries[slot].name@ == opponent_name_text(
                slot as usize,
            ),
        entries[opponents as int].name@ == player_name_text(),
{
    let total = opponents as usize;
    let mut entries: Vec<CarIdentity> = Vec::new();
    let mut slot: usize = 0;
    while slot < total
        invariant
            total == opponents,
            slot <= total,
            entries.len() == slot,
            forall|k: int| 0 <= k < slot ==> #[trigger] entries[k].grid_slot == k,
            forall|k: int| 0 <= k < slot ==> !(#[trigger] entries[k].is_player),
            forall|k: int| 0 <= k < slot ==> #[trigger] entries[k].name@ == opponent_name_text(
                k as usize,
            ),
        decreases total - slot,
    {
        entries.push(CarIdentity { name: opponent_name(slot), grid_slot: slot, is_player: false });
        slot = slot + 1;
    }
    entries.push(CarIdentity { name: String::from_str("Você"), grid_slot: total, is_player: true });
    entries
}

/// Quantas pinturas diferentes os adversários usam.
pub const PAINT_COUNT: usize = 6;

/// A pintura de cada adversário, escolhida por índice.
pub fn paint_index(slot: usize) -> (index: usize)
    ensures
        index == slot % PAINT_COUNT,
        index < PAINT_COUNT,
{
    slot % PAINT_COUNT
}

/// Por quanto tempo um carro pode ficar em apuros antes de ser resgatado.
pub const RESCUE_AFTER_US: u64 = 3_000_000;

/// O resultado de um quadro do cronômetro de resgate.
#[derive(Clone, Copy, Debug, PartialEq, Eq)]
pub struct RescueStep {
    /// O cronômetro depois deste quadro.
    pub timer_us: u64,
    /// O carro deve voltar para o traçado agora.
    pub rescue: bool,
}

/// O cronômetro de um carro em apuros: soma o tempo enquanto o problema
/// persiste e zera quando ele passa.
pub open spec fn rescue_step_of(timer: Option<u64>, in_trouble: bool, dt_us: u64) -> RescueStep {
    match timer {
        None => RescueStep { timer_us: 0, rescue: false },
        Some(t) => {
            let elapsed: u64 = if in_trouble {
                if t + dt_us > u64::MAX {
                    u64::MAX
                } else {
                    (t + dt_us) as u64
                }
            } else {
                0
            };
            if elapsed > RESCUE_AFTER_US {
                RescueStep { timer_us: 0, rescue: true }
            } else {
                RescueStep { timer_us: elapsed, rescue: false }
            }
        },
    }
}

/// Um quadro do resgate automático. Um carro ainda sem cronômetro ganha um
/// zerado; com mais de três segundos seguidos em apuros ele é resgatado e o
/// cronômetro recomeça.
pub fn rescue_step(timer: Option<u64>, in_trouble: bool, dt_us: u64) -> (step: RescueStep)
    ensures
        step == rescue_step_of(timer, in_trouble, dt_us),
{
    match timer {
        None => RescueStep { timer_us: 0, rescue: false },
        Some(t) => {
            let elapsed = if in_trouble {
                t.saturating_add(dt_us)
            } else {
                0
            };
            if elapsed > RESCUE_AFTER_US {
                RescueStep { timer_us: 0, rescue: true }
            } else {
                RescueStep { timer_us: elapsed, rescue: false }
            }
        },
    }
}

/// Só é resgatado quem está em apuros há mais de três segundos, e sair dos
/// apuros zera a contagem.
pub proof fn lemma_rescue_needs_three_seconds(timer: Option<u64>, in_trouble: bool, dt_us: u64)
    ensures
        rescue_step_of(timer, in_trouble, dt_us).rescue ==> in_trouble && timer is Some
            && timer.unwrap() + dt_us > RESCUE_AFTER_US,
        !in_trouble ==> rescue_step_of(timer, in_trouble, dt_us) == (RescueStep {
            timer_us: 0,
            rescue: false,
        }),
        rescue_step_of(timer, in_trouble, dt_us).timer_us <= RESCUE_AFTER_US,
{
}

} // verus!
