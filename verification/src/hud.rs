//! Os textos do painel de corrida, da tela de resultados e do menu.

use vstd::prelude::*;

use crate::race::{span, RaceClock, RaceConfig, RaceProgress, SECOND_US};
use crate::states::{mode_label_of, CameraMode, RacePhase};
use crate::text::{decimal, format_lap_time, lap_time_text, optional_time_text, push_decimal};

verus! {

/// A marcha como aparece no painel: `R`, `N` ou o número.
pub open spec fn gear_label_text(gear: i32) -> Seq<char> {
    if gear < 0 {
        "R"@
    } else if gear == 0 {
        "N"@
    } else {
        decimal(gear as nat)
    }
}

pub fn gear_label(gear: i32) -> (label: String)
    ensures
        label@ == gear_label_text(gear),
{
    if gear < 0 {
        String::from_str("R")
    } else if gear == 0 {
        String::from_str("N")
    } else {
        let mut label = String::new();
        push_decimal(&mut label, gear as u64);
        label
    }
}

/// Aviso quando o carro está fora do chão ou de través.
pub open spec fn grip_status_text(grounded: bool, drifting: bool) -> Seq<char> {
    if !grounded {
        "NO AR"@
    } else if drifting {
        "DERRAPANDO"@
    } else {
        ""@
    }
}

pub fn grip_status(grounded: bool, drifting: bool) -> (status: String)
    ensures
        status@ == grip_status_text(grounded, drifting),
{
    if !grounded {
        String::from_str("NO AR")
    } else if drifting {
        String::from_str("DERRAPANDO")
    } else {
        String::from_str("")
    }
}

/// A volta em curso, sem passar do total: `volta / total`.
pub open spec fn lap_label_text(lap: u32, total_laps: u32) -> Seq<char> {
    let current = if lap + 1 <= total_laps {
        lap + 1
    } else {
        total_laps as int
    };
    decimal(current as nat) + " / "@ + decimal(total_laps as nat)
}

pub fn lap_label(lap: u32, total_laps: u32) -> (label: String)
    requires
        lap < u32::MAX,
    ensures
        label@ == lap_label_text(lap, total_laps),
{
    let current = if lap + 1 <= total_laps {
        lap + 1
    } else {
        total_laps
    };
    let mut label = String::new();
    push_decimal(&mut label, current as u64);
    label.append(" / ");
    push_decimal(&mut label, total_laps as u64);
    label
}

/// A colocação do jogador entre os inscritos: `posição / inscritos`.
pub open spec fn position_label_text(position: usize, entrants: usize) -> Seq<char> {
    decimal(position as nat) + " / "@ + decimal(entrants as nat)
}

pub fn position_label(position: usize, entrants: usize) -> (label: String)
    ensures
        label@ == position_label_text(position, entrants),
{
    let mut label = String::new();
    push_decimal(&mut label, position as u64);
    label.append(" / ");
    push_decimal(&mut label, entrants as u64);
    label
}

/// O texto de volta e colocação do jogador no canto do painel.
pub fn standings_labels(config: &RaceConfig, progress: &RaceProgress) -> (labels: (String, String))
    requires
        progress.lap < u32::MAX,
    ensures
        labels.0@ == lap_label_text(progress.lap, config.total_laps),
        labels.1@ == position_label_text(progress.position, config.entrants),
{
    (lap_label(progress.lap, config.total_laps), position_label(progress.position, config.entrants))
}

/// Tempo da volta em curso: só corre depois da largada e até a bandeirada.
pub open spec fn current_lap_of(progress: RaceProgress, clock: RaceClock) -> u64 {
    if progress.started && !progress.finished {
        span(progress.lap_start_us, clock.elapsed_us)
    } else {
        0
    }
}

pub fn current_lap_time(progress: &RaceProgress, clock: &RaceClock) -> (time_us: u64)
    ensures
        time_us == current_lap_of(*progress, *clock),
{
    if progress.started && !progress.finished {
        clock.elapsed_us.saturating_sub(progress.lap_start_us)
    } else {
        0
    }
}

/// Os três tempos do painel: volta atual, última volta e recorde.
pub fn times_labels(progress: &RaceProgress, clock: &RaceClock, best_lap_us: Option<u64>) -> (labels:
    (String, String, String))
    ensures
        labels.0@ == lap_time_text(current_lap_of(*progress, *clock) as nat),
        labels.1@ == optional_time_text(progress.last_lap_us),
        labels.2@ == optional_time_text(best_lap_us),
{
    (
        format_lap_time(current_lap_time(progress, clock)),
        crate::text::format_optional_time(progress.last_lap_us),
        crate::text::format_optional_time(best_lap_us),
    )
}

/// Cor do letreiro central.
#[derive(Clone, Copy, Debug, PartialEq, Eq, Structural)]
pub enum BannerTone {
    Danger,
    Success,
    /// O texto some e a cor fica como estava.
    Unchanged,
}

/// Por quanto tempo o "VAI!" continua no ar depois da largada.
pub const GO_BANNER_US: u64 = 1_200_000;

/// O letreiro central: semáforo na contagem e "VAI!" logo após a largada.
pub open spec fn banner_of(phase: RacePhase, clock: RaceClock) -> (Seq<char>, BannerTone) {
    match phase {
        RacePhase::Countdown => match crate::race::countdown_number_of(clock.countdown_us as nat) {
            Some(number) => if number > 1 {
                (decimal((number - 1) as nat), BannerTone::Danger)
            } else {
                ("VAI!"@, BannerTone::Success)
            },
            None => ("VAI!"@, BannerTone::Success),
        },
        RacePhase::Green => if clock.elapsed_us < GO_BANNER_US {
            ("VAI!"@, BannerTone::Success)
        } else {
            (""@, BannerTone::Unchanged)
        },
        _ => (""@, BannerTone::Unchanged),
    }
}

pub fn countdown_banner(phase: RacePhase, clock: &RaceClock) -> (banner: (String, BannerTone))
    ensures
        banner.0@ == banner_of(phase, *clock).0,
        banner.1 == banner_of(phase, *clock).1,
{
    match phase {
        RacePhase::Countdown => match clock.countdown_number() {
            Some(number) => {
                if number > 1 {
                    let mut text = String::new();
                    push_decimal(&mut text, (number - 1) as u64);
                    (text, BannerTone::Danger)
                } else {
                    (String::from_str("VAI!"), BannerTone::Success)
                }
            },
            None => (String::from_str("VAI!"), BannerTone::Success),
        },
        RacePhase::Green => {
            if clock.elapsed_us < GO_BANNER_US {
                (String::from_str("VAI!"), BannerTone::Success)
            } else {
                (String::from_str(""), BannerTone::Unchanged)
            }
        },
        _ => (String::from_str(""), BannerTone::Unchanged),
    }
}

/// Durante a contagem o semáforo mostra 3, 2, 1 e então "VAI!".
pub proof fn lemma_countdown_shows_three_two_one(clock: RaceClock)
    requires
        0 < clock.countdown_us <= crate::race::COUNTDOWN_US,
    ensures
        ({
            let shown = banner_of(RacePhase::Countdown, clock).0;
            ||| shown == decimal(3)
            ||| shown == decimal(2)
            ||| shown == decimal(1)
            ||| shown == "VAI!"@
        }),
{
    let n = crate::race::ceil_div(clock.countdown_us as nat, SECOND_US as nat);
    assert(1 <= n <= 4);
}

/// O nome do modo de câmera, para o topo da tela.
pub open spec fn camera_label_text(mode: CameraMode) -> Seq<char> {
    "Câmera: "@ + mode_label_of(mode)
}

pub fn camera_label(mode: CameraMode) -> (label: String)
    ensures
        label@ == camera_label_text(mode),
{
    let mut label = String::from_str("Câmera: ");
    label.append(mode.label());
    label
}

/// A linha de recorde do menu principal.
pub open spec fn best_lap_caption_text(best_lap_us: Option<u64>) -> Seq<char> {
    match best_lap_us {
        Some(us) => "Melhor volta: "@ + lap_time_text(us as nat),
        None => "Nenhuma volta registrada ainda"@,
    }
}

pub fn best_lap_caption(best_lap_us: Option<u64>) -> (caption: String)
    ensures
        caption@ == best_lap_caption_text(best_lap_us),
{
    match best_lap_us {
        Some(us) => {
            let mut caption = String::from_str("Melhor volta: ");
            let time = format_lap_time(us);
            caption.append(time.as_str());
            caption
        },
        None => String::from_str("Nenhuma volta registrada ainda"),
    }
}

} // verus!
