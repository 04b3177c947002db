//! Configurações do jogador e recordes acumulados entre sessões.

use vstd::prelude::*;

verus! {

/// Qualidade gráfica.
#[derive(Clone, Copy, Debug, PartialEq, Eq, Structural)]
pub enum DisplayQuality {
    Low,
    Medium,
    High,
}

/// Amostras e ângulo de obturador (em centésimos) do motion blur.
#[derive(Clone, Copy, Debug, PartialEq, Eq)]
pub struct MotionBlurPreset {
    pub samples: u32,
    pub shutter_percent: u32,
}

impl Default for DisplayQuality {
    fn default() -> (quality: DisplayQuality)
        ensures
            quality == DisplayQuality::Medium,
    {
        DisplayQuality::Medium
    }
}

impl DisplayQuality {
    /// Amostras e ângulo de obturador do motion blur para cada preset.
    pub fn motion_blur(self) -> (preset: MotionBlurPreset)
        ensures
            preset == (match self {
                DisplayQuality::Low => MotionBlurPreset { samples: 1, shutter_percent: 20 },
                DisplayQuality::Medium => MotionBlurPreset { samples: 4, shutter_percent: 50 },
                DisplayQuality::High => MotionBlurPreset { samples: 8, shutter_percent: 75 },
            }),
    {
        match self {
            DisplayQuality::Low => MotionBlurPreset { samples: 1, shutter_percent: 20 },
            DisplayQuality::Medium => MotionBlurPreset { samples: 4, shutter_percent: 50 },
            DisplayQuality::High => MotionBlurPreset { samples: 8, shutter_percent: 75 },
        }
    }

    /// Quantidade de adereços decorativos espalhados pelo circuito, em
    /// porcentagem da densidade máxima.
    pub fn scenery_density_percent(self) -> (percent: u32)
        ensures
            percent == (match self {
                DisplayQuality::Low => 35u32,
                DisplayQuality::Medium => 70u32,
                DisplayQuality::High => 100u32,
            }),
    {
        match self {
            DisplayQuality::Low => 35,
            DisplayQuality::Medium => 70,
            DisplayQuality::High => 100,
        }
    }

    pub fn shadows_enabled(self) -> (enabled: bool)
        ensures
            enabled == (self != DisplayQuality::Low),
    {
        match self {
            DisplayQuality::Low => false,
            _ => true,
        }
    }
}

/// Exibição do contador de FPS.
#[derive(Clone, Copy, Debug, PartialEq, Eq, Structural)]
pub struct ShowFps(pub bool);

impl Default for ShowFps {
    fn default() -> (show: ShowFps)
        ensures
            show.0,
    {
        ShowFps(true)
    }
}

/// Sensibilidade da direção em cinco passos, do mais suave ao mais direto.
#[derive(Clone, Copy, Debug, PartialEq, Eq, Structural)]
pub struct SteerSensitivity(pub u32);

/// O passo efetivo: valores acima do máximo valem como o máximo.
pub open spec fn steer_step(value: u32) -> u32 {
    if value < SteerSensitivity::MAX {
        value
    } else {
        SteerSensitivity::MAX
    }
}

/// O rótulo de cada passo de sensibilidade.
pub open spec fn steer_label_of(step: u32) -> Seq<char> {
    if step == 0 {
        "Mínima"@
    } else if step == 1 {
        "Baixa"@
    } else if step == 2 {
        "Padrão"@
    } else if step == 3 {
        "Alta"@
    } else {
        "Máxima"@
    }
}

impl SteerSensitivity {
    pub const MAX: u32 = 4;

    /// Multiplicador aplicado ao comando de direção, em porcentagem: de 60%
    /// a 140%.
    pub fn multiplier_percent(self) -> (percent: u32)
        ensures
            percent == 60 + 20 * steer_step(self.0),
    {
        let step = if self.0 < Self::MAX {
            self.0
        } else {
            Self::MAX
        };
        60 + step * 20
    }

    pub fn label(self) -> (label: &'static str)
        ensures
            label@ == steer_label_of(steer_step(self.0)),
    {
        let step = if self.0 < Self::MAX {
            self.0
        } else {
            Self::MAX
        };
        match step {
            0 => {
                proof { reveal_strlit("Mínima"); }
                "Mínima"
            },
            1 => {
                proof { reveal_strlit("Baixa"); }
                "Baixa"
            },
            2 => {
                proof { reveal_strlit("Padrão"); }
                "Padrão"
            },
            3 => {
                proof { reveal_strlit("Alta"); }
                "Alta"
            },
            _ => {
                proof { reveal_strlit("Máxima"); }
                "Máxima"
            },
        }
    }
}

impl Default for SteerSensitivity {
    fn default() -> (sensitivity: SteerSensitivity)
        ensures
            sensitivity.0 == 2,
    {
        SteerSensitivity(2)
    }
}

/// Acima do máximo, a sensibilidade se comporta como o máximo.
pub proof fn lemma_sensitivity_saturates(value: u32)
    requires
        value >= SteerSensitivity::MAX,
    ensures
        steer_step(value) == steer_step(SteerSensitivity::MAX),
        steer_label_of(steer_step(value)) == steer_label_of(steer_step(SteerSensitivity::MAX)),
{
}

/// Os cinco passos do menu valem por si: o passo `v` até o máximo é o
/// próprio `v`, o multiplicador sobe exatamente 20 pontos por passo, de 60%
/// a 140%, e dois passos diferentes nunca têm o mesmo rótulo.
pub proof fn lemma_steering_steps(v: u32, w: u32)
    requires
        v <= SteerSensitivity::MAX,
        w <= SteerSensitivity::MAX,
    ensures
        steer_step(v) == v,
        60 + 20 * steer_step(0) == 60,
        60 + 20 * steer_step(SteerSensitivity::MAX) == 140,
        v < SteerSensitivity::MAX ==> 60 + 20 * steer_step((v + 1) as u32) == 60 + 20 * steer_step(v)
            + 20,
        v != w ==> steer_label_of(steer_step(v)) != steer_label_of(steer_step(w)),
        steer_label_of(steer_step(0)) == "Mínima"@,
        steer_label_of(steer_step(1)) == "Baixa"@,
        steer_label_of(steer_step(2)) == "Padrão"@,
        steer_label_of(steer_step(3)) == "Alta"@,
        steer_label_of(steer_step(4)) == "Máxima"@,
{
    reveal_strlit("Mínima");
    reveal_strlit("Baixa");
    reveal_strlit("Padrão");
    reveal_strlit("Alta");
    reveal_strlit("Máxima");
    if v != w {
        let lv = steer_label_of(steer_step(v));
        let lw = steer_label_of(steer_step(w));
        assert(lv.len() != lw.len() || lv[0] != lw[0] || lv[1] != lw[1]);
    }
}

/// Volume mestre em passos de 0 a 9, como no menu.
#[derive(Clone, Copy, Debug, PartialEq, Eq, Structural)]
pub struct Volume(pub u32);

impl Volume {
    pub const MAX: u32 = 9;
}

impl Default for Volume {
    fn default() -> (volume: Volume)
        ensures
            volume.0 == 6,
    {
        Volume(6)
    }
}

/// Número de voltas da corrida.
#[derive(Clone, Copy, Debug, PartialEq, Eq, Structural)]
pub struct LapCount(pub u32);

impl Default for LapCount {
    fn default() -> (laps: LapCount)
        ensures
            laps.0 == 3,
    {
        LapCount(3)
    }
}

/// Quantidade de adversários controlados pela IA.
#[derive(Clone, Copy, Debug, PartialEq, Eq, Structural)]
pub struct OpponentCount(pub u32);

impl Default for OpponentCount {
    fn default() -> (opponents: OpponentCount)
        ensures
            opponents.0 == 5,
    {
        OpponentCount(5)
    }
}

/// Recordes acumulados entre sessões.
#[derive(Clone, Copy, Debug, PartialEq, Eq)]
pub struct Records {
    /// Melhor volta, em microssegundos.
    pub best_lap_us: Option<u64>,
    pub races_finished: u32,
}

impl Default for Records {
    fn default() -> (records: Records)
        ensures
            records.best_lap_us is None,
            records.races_finished == 0,
    {
        Records { best_lap_us: None, races_finished: 0 }
    }
}

impl Records {
    /// Registra uma volta do jogador, promovendo-a a recorde se for a melhor.
    pub fn record_lap(&mut self, lap_us: u64)
        ensures
            final(self).best_lap_us == Some(
                match old(self).best_lap_us {
                    Some(best) => if lap_us < best {
                        lap_us
                    } else {
                        best
                    },
                    None => lap_us,
                },
            ),
            final(self).races_finished == old(self).races_finished,
    {
        let improved = match self.best_lap_us {
            Some(best) => lap_us < best,
            None => true,
        };
        if improved {
            self.best_lap_us = Some(lap_us);
        }
    }

    /// Conta uma corrida concluída.
    pub fn count_finished_race(&mut self)
        requires
            old(self).races_finished < u32::MAX,
        ensures
            final(self).races_finished == old(self).races_finished + 1,
            final(self).best_lap_us == old(self).best_lap_us,
    {
        self.races_finished = self.races_finished + 1;
    }
}

/// O recorde nunca piora e nunca fica acima da volta registrada.
pub proof fn lemma_record_never_worsens(before: Records, after: Records, lap_us: u64)
    requires
        after.best_lap_us == Some(
            match before.best_lap_us {
                Some(best) => if lap_us < best {
                    lap_us
                } else {
                    best
                },
                None => lap_us,
            },
        ),
    ensures
        after.best_lap_us.unwrap() <= lap_us,
        before.best_lap_us matches Some(best) ==> after.best_lap_us.unwrap() <= best,
{
}

/// O que aconteceu com um recurso de configuração neste quadro.
#[derive(Clone, Copy, Debug, PartialEq, Eq)]
pub struct ChangeFlags {
    pub changed: bool,
    pub added: bool,
}

/// Há algo a gravar: alguma configuração mudou, e não é o primeiro quadro,
/// em que todas acabaram de ser inseridas.
pub open spec fn persist_needed(flags: Seq<ChangeFlags>) -> bool {
    &&& exists|i: int| 0 <= i < flags.len() && (#[trigger] flags[i]).changed
    &&& !(forall|i: int| 0 <= i < flags.len() ==> (#[trigger] flags[i]).added)
}

/// Decide se o perfil deve ser gravado neste quadro.
pub fn settings_changed(flags: &Vec<ChangeFlags>) -> (persist: bool)
    ensures
        persist == persist_needed(flags@),
{
    let mut touched = false;
    let mut fresh = true;
    let mut i: usize = 0;
    while i < flags.len()
        invariant
            i <= flags.len(),
            touched == exists|k: int| 0 <= k < i && (#[trigger] flags@[k]).changed,
            fresh == forall|k: int| 0 <= k < i ==> (#[trigger] flags@[k]).added,
        decreases flags.len() - i,
    {
        touched = touched || flags[i].changed;
        fresh = fresh && flags[i].added;
        i = i + 1;
    }
    touched && !fresh
}

/// Valores que o menu oferece para o número de voltas.
pub fn lap_options() -> (options: Vec<u32>)
    ensures
        options@ == seq![1u32, 2, 3, 5, 8],
{
    vec![1, 2, 3, 5, 8]
}

/// Valores que o menu oferece para o número de adversários.
pub fn opponent_options() -> (options: Vec<u32>)
    ensures
        options@ == seq![0u32, 3, 5, 7, 9],
{
    vec![0, 3, 5, 7, 9]
}

/// Os passos de `0` a `max`, em ordem.
pub fn steps_up_to(max: u32) -> (steps: Vec<u32>)
    requires
        max < u32::MAX,
    ensures
        steps.len() == max + 1,
        forall|i: int| 0 <= i <= max ==> #[trigger] steps[i] == i,
{
    let mut steps: Vec<u32> = Vec::new();
    let mut step: u32 = 0;
    while step <= max
        invariant
            max < u32::MAX,
            step <= max + 1,
            steps.len() == step,
            forall|i: int| 0 <= i < step ==> #[trigger] steps[i] == i,
        decreases max + 1 - step,
    {
        steps.push(step);
        step = step + 1;
    }
    steps
}

} // verus!
