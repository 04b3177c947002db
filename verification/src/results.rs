//! Os textos da tela de resultados.

use vstd::prelude::*;

use crate::race::RaceProgress;
use crate::text::{decimal, format_lap_time, lap_time_text, optional_time_text, push_decimal};

verus! {

/// O título: vitória, a colocação do jogador, ou só o fim da corrida.
pub open spec fn results_title_text(player_position: Option<usize>) -> Seq<char> {
    match player_position {
        Some(position) => if position == 1 {
            "VITÓRIA!"@
        } else {
            decimal(position as nat) + "º lugar"@
        },
        None => "Fim de corrida"@,
    }
}

pub fn results_title(player_position: Option<usize>) -> (title: String)
    ensures
        title@ == results_title_text(player_position),
{
    match player_position {
        Some(position) => {
            if position == 1 {
                String::from_str("VITÓRIA!")
            } else {
                let mut title = String::new();
                push_decimal(&mut title, position as u64);
                title.append("º lugar");
                title
            }
        },
        None => String::from_str("Fim de corrida"),
    }
}

/// "1 volta" ou "n voltas".
pub open spec fn laps_caption_text(total_laps: u32) -> Seq<char> {
    if total_laps == 1 {
        "1 volta"@
    } else {
        decimal(total_laps as nat) + " voltas"@
    }
}

pub fn laps_caption(total_laps: u32) -> (caption: String)
    ensures
        caption@ == laps_caption_text(total_laps),
{
    if total_laps == 1 {
        String::from_str("1 volta")
    } else {
        let mut caption = String::new();
        push_decimal(&mut caption, total_laps as u64);
        caption.append(" voltas");
        caption
    }
}

/// Tempo final; quem ainda não cruzou a linha aparece com a volta em que
/// está.
pub open spec fn finish_column_text(progress: RaceProgress) -> Seq<char> {
    match progress.finish_time_us {
        Some(us) => lap_time_text(us as nat),
        None => "volta "@ + decimal((progress.lap + 1) as nat),
    }
}

pub fn finish_column(progress: &RaceProgress) -> (text: String)
    requires
        progress.finish_time_us is None ==> progress.lap < u32::MAX,
    ensures
        text@ == finish_column_text(*progress),
{
    match progress.finish_time_us {
        Some(us) => format_lap_time(us),
        None => {
            let mut text = String::from_str("volta ");
            push_decimal(&mut text, progress.lap as u64 + 1);
            text
        },
    }
}

/// Colocação e nome do piloto: `2º  CPU 03`.
pub open spec fn standing_name_text(position: usize, name: Seq<char>) -> Seq<char> {
    decimal(position as nat) + "º  "@ + name
}

pub fn standing_name(position: usize, name: &str) -> (text: String)
    ensures
        text@ == standing_name_text(position, name@),
{
    let mut text = String::new();
    push_decimal(&mut text, position as u64);
    text.append("º  ");
    text.append(name);
    text
}

/// Quanto o piloto ganhou ou perdeu em relação ao grid.
pub open spec fn grid_column_text(grid_slot: usize) -> Seq<char> {
    "largou em "@ + decimal((grid_slot + 1) as nat) + "º"@
}

pub fn grid_column(grid_slot: usize) -> (text: String)
    requires
        grid_slot < usize::MAX,
    ensures
        text@ == grid_column_text(grid_slot),
{
    let mut text = String::from_str("largou em ");
    push_decimal(&mut text, grid_slot as u64 + 1);
    text.append("º");
    text
}

/// A melhor volta de um piloto na corrida, ou `--`.
pub fn best_column(progress: &RaceProgress) -> (text: String)
    ensures
        text@ == optional_time_text(progress.best_lap_us),
{
    crate::text::format_optional_time(progress.best_lap_us)
}

} // verus!
