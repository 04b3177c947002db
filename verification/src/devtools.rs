//! Ferramentas de desenvolvimento: o contador de FPS, os gizmos, as
//! capturas de tela e o ajuste do motion blur pelo teclado.

use vstd::prelude::*;

use crate::text::{push_zero_padded, zero_padded};

verus! {

/// O que o contador de FPS mostra.
#[derive(Clone, Copy, Debug, PartialEq, Eq)]
pub struct FpsOverlay {
    /// O contador está ligado (a opção do jogador).
    pub show: bool,
    /// O gráfico de frame time está ligado.
    pub graph: bool,
    /// O texto usa a cor de alerta.
    pub alert: bool,
    /// Tamanho da fonte, em pixels.
    pub font_px: u32,
}

/// Teclas de função pressionadas neste quadro.
#[derive(Clone, Copy, Debug, PartialEq, Eq)]
pub struct OverlayKeys {
    pub f2: bool,
    pub f3: bool,
    pub f4: bool,
    pub f5: bool,
    pub f6: bool,
}

/// Menor e maior fonte do contador.
pub const MIN_FONT_PX: u32 = 10;

pub const MAX_FONT_PX: u32 = 48;

/// Um toque nas teclas de função.
///
/// `F3` inverte a opção e leva o gráfico junto; `F4` só mexe no gráfico com
/// o contador ligado; `F5` e `F6` mudam a fonte em dois pixels, entre 10 e
/// 48; `F2` alterna a cor.
pub open spec fn overlay_after_keys(overlay: FpsOverlay, keys: OverlayKeys) -> FpsOverlay {
    let show = if keys.f3 {
        !overlay.show
    } else {
        overlay.show
    };
    let graph = if keys.f3 {
        show
    } else {
        overlay.graph
    };
    let graph = if keys.f4 && show {
        !graph
    } else {
        graph
    };
    let font = if keys.f6 {
        if overlay.font_px + 2 < MAX_FONT_PX {
            (overlay.font_px + 2) as u32
        } else {
            MAX_FONT_PX
        }
    } else if keys.f5 {
        if overlay.font_px >= MIN_FONT_PX + 2 {
            (overlay.font_px - 2) as u32
        } else {
            MIN_FONT_PX
        }
    } else {
        overlay.font_px
    };
    FpsOverlay {
        show,
        graph,
        alert: if keys.f2 {
            !overlay.alert
        } else {
            overlay.alert
        },
        font_px: font,
    }
}

pub fn control_overlay(overlay: FpsOverlay, keys: OverlayKeys) -> (next: FpsOverlay)
    requires
        overlay.font_px <= u32::MAX - 2,
    ensures
        next == overlay_after_keys(overlay, keys),
{
    let mut next = overlay;
    if keys.f3 {
        next.show = !next.show;
        next.graph = next.show;
    }
    if keys.f4 && next.show {
        next.graph = !next.graph;
    }
    let mut font = overlay.font_px;
    if keys.f5 {
        font = if overlay.font_px >= MIN_FONT_PX + 2 {
            overlay.font_px - 2
        } else {
            MIN_FONT_PX
        };
    }
    if keys.f6 {
        font = if overlay.font_px + 2 < MAX_FONT_PX {
            overlay.font_px + 2
        } else {
            MAX_FONT_PX
        };
    }
    next.font_px = font;
    if keys.f2 {
        next.alert = !next.alert;
    }
    next
}

/// Reflete a opção do jogador no contador: desligado, o gráfico também
/// some.
pub fn apply_show_fps(overlay: FpsOverlay, show: bool) -> (next: FpsOverlay)
    ensures
        next.show == show,
        next.graph == (overlay.graph && show),
        next.alert == overlay.alert,
        next.font_px == overlay.font_px,
{
    FpsOverlay { show, graph: overlay.graph && show, ..overlay }
}

/// Com o contador desligado o gráfico nunca fica no ar.
pub proof fn lemma_graph_needs_overlay(overlay: FpsOverlay, keys: OverlayKeys)
    requires
        overlay.graph ==> overlay.show,
    ensures
        overlay_after_keys(overlay, keys).graph ==> overlay_after_keys(overlay, keys).show,
{
}

/// O que cada tecla faz ao contador, qualquer que seja o estado: `F3`
/// inverte a opção e, sem `F4`, o gráfico acompanha a opção; `F4` inverte o
/// gráfico com o contador ligado e o deixa como está com ele desligado; `F2`
/// inverte a cor; `F5` e `F6` andam dois pixels sem sair de 10 a 48, com
/// `F6` valendo sobre `F5`; sem tecla de fonte a fonte não muda.
pub proof fn lemma_overlay_keys(overlay: FpsOverlay, keys: OverlayKeys)
    ensures
        ({
            let next = overlay_after_keys(overlay, keys);
            &&& next.show == (overlay.show != keys.f3)
            &&& keys.f4 && !keys.f3 && overlay.show ==> next.graph == !overlay.graph
            &&& keys.f4 && !keys.f3 && !overlay.show ==> next.graph == overlay.graph
            &&& !keys.f4 && !keys.f3 ==> next.graph == overlay.graph
            &&& keys.f3 && !keys.f4 ==> next.graph == next.show
            &&& keys.f3 && keys.f4 ==> !next.graph
            &&& next.alert == (overlay.alert != keys.f2)
            &&& !keys.f5 && !keys.f6 ==> next.font_px == overlay.font_px
            &&& keys.f6 && overlay.font_px + 2 <= MAX_FONT_PX ==> next.font_px == overlay.font_px + 2
            &&& keys.f6 && overlay.font_px + 2 > MAX_FONT_PX ==> next.font_px == MAX_FONT_PX
            &&& keys.f5 && !keys.f6 && overlay.font_px >= MIN_FONT_PX + 2 ==> next.font_px
                == overlay.font_px - 2
            &&& keys.f5 && !keys.f6 && overlay.font_px < MIN_FONT_PX + 2 ==> next.font_px
                == MIN_FONT_PX
        }),
{
}

/// Ajuste das amostras do motion blur pelas teclas `3` e `4`, entre 0 e 32.
pub open spec fn blur_samples_after(samples: u32, fewer: bool, more: bool) -> u32 {
    let a: int = if fewer && samples > 0 {
        samples - 1
    } else {
        samples as int
    };
    let b = if more {
        a + 1
    } else {
        a
    };
    if b > 32 {
        32
    } else {
        b as u32
    }
}

pub fn adjust_blur_samples(samples: u32, fewer: bool, more: bool) -> (next: u32)
    requires
        more ==> samples < u32::MAX || (fewer && samples > 0),
    ensures
        next == blur_samples_after(samples, fewer, more),
        next <= 32,
{
    let mut next = samples;
    if fewer {
        next = next.saturating_sub(1);
    }
    if more {
        next = next + 1;
    }
    if next > 32 {
        32
    } else {
        next
    }
}

/// `3` tira uma amostra sem passar de zero, `4` põe uma sem passar de 32,
/// e sem tecla nada muda dentro da faixa.
pub proof fn lemma_blur_sample_keys(samples: u32, fewer: bool, more: bool)
    requires
        samples <= 32,
    ensures
        fewer && !more && samples > 0 ==> blur_samples_after(samples, fewer, more) == samples - 1,
        fewer && !more && samples == 0 ==> blur_samples_after(samples, fewer, more) == 0,
        more && !fewer && samples < 32 ==> blur_samples_after(samples, fewer, more) == samples + 1,
        more && !fewer && samples == 32 ==> blur_samples_after(samples, fewer, more) == 32,
        !fewer && !more ==> blur_samples_after(samples, fewer, more) == samples,
{
}

/// Os gizmos de depuração: colisores do motor de física e o traçado.
#[derive(Clone, Copy, Debug, PartialEq, Eq)]
pub struct Gizmos {
    pub physics: bool,
    pub track: bool,
}

/// `F7` alterna os colisores, `F8` o traçado.
pub fn toggle_gizmos(gizmos: Gizmos, f7: bool, f8: bool) -> (next: Gizmos)
    ensures
        next.physics == (gizmos.physics != f7),
        next.track == (gizmos.track != f8),
{
    Gizmos {
        physics: if f7 {
            !gizmos.physics
        } else {
            gizmos.physics
        },
        track: if f8 {
            !gizmos.track
        } else {
            gizmos.track
        },
    }
}

/// Caminho da captura de tela número `counter`.
pub open spec fn screenshot_path_text(counter: u32) -> Seq<char> {
    "screenshots/racing-car-"@ + zero_padded(counter as nat, 3) + ".png"@
}

pub fn screenshot_path(counter: u32) -> (path: String)
    ensures
        path@ == screenshot_path_text(counter),
{
    let mut path = String::from_str("screenshots/racing-car-");
    push_zero_padded(&mut path, counter as u64, 3);
    path.append(".png");
    path
}

} // verus!
