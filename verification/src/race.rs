//! Fluxo da corrida: contagem regressiva, cronômetro, checkpoints e voltas.
//!
//! Os tempos são inteiros em microssegundos, contados a partir da largada.

use vstd::prelude::*;

verus! {

/// Quantidade de portais distribuídos pelo circuito. O de índice 0 é a
/// linha de chegada.
pub const CHECKPOINT_COUNT: usize = 16;

/// Duração da contagem regressiva antes da largada: quatro segundos.
pub const COUNTDOWN_US: u64 = 4_000_000;

/// Um segundo, em microssegundos.
pub const SECOND_US: u64 = 1_000_000;

/// Parâmetros fixos da corrida em andamento.
#[derive(Clone, Copy, Debug, PartialEq, Eq)]
pub struct RaceConfig {
    pub total_laps: u32,
    pub entrants: usize,
}

impl RaceConfig {
    /// Configuração montada ao entrar na corrida.
    pub fn new(total_laps: u32, entrants: usize) -> (config: RaceConfig)
        ensures
            config.total_laps == total_laps,
            config.entrants == entrants,
    {
        RaceConfig { total_laps, entrants }
    }

    /// Soma os carros que receberam progresso depois da largada.
    pub fn add_entrants(&mut self, added: usize)
        requires
            old(self).entrants + added <= usize::MAX,
        ensures
            final(self).entrants == old(self).entrants + added,
            final(self).total_laps == old(self).total_laps,
    {
        if added > 0 {
            self.entrants = self.entrants + added;
        }
    }
}

/// Cronômetro da corrida, contado a partir da largada.
#[derive(Clone, Copy, Debug, PartialEq, Eq)]
pub struct RaceClock {
    pub elapsed_us: u64,
    /// Tempo restante de contagem regressiva; zero depois da largada.
    pub countdown_us: u64,
}

/// Divisão arredondada para cima.
pub open spec fn ceil_div(a: nat, b: nat) -> nat {
    if a % b == 0 {
        a / b
    } else {
        a / b + 1
    }
}

/// O número do semáforo para um tempo restante, limitado ao maior `u32`.
pub open spec fn countdown_number_of(countdown_us: nat) -> Option<u32> {
    if countdown_us == 0 {
        None
    } else {
        let n = ceil_div(countdown_us, SECOND_US as nat);
        Some(
            if n > u32::MAX {
                u32::MAX
            } else {
                n as u32
            },
        )
    }
}

impl Default for RaceClock {
    fn default() -> (clock: RaceClock)
        ensures
            clock.elapsed_us == 0,
            clock.countdown_us == 0,
    {
        RaceClock { elapsed_us: 0, countdown_us: 0 }
    }
}

impl RaceClock {
    /// O cronômetro zerado com a contagem regressiva cheia.
    pub fn starting() -> (clock: RaceClock)
        ensures
            clock.elapsed_us == 0,
            clock.countdown_us == COUNTDOWN_US,
    {
        RaceClock { elapsed_us: 0, countdown_us: COUNTDOWN_US }
    }

    /// Número mostrado no semáforo, ou `None` quando já é "VAI!".
    pub fn countdown_number(&self) -> (number: Option<u32>)
        ensures
            number == countdown_number_of(self.countdown_us as nat),
    {
        if self.countdown_us == 0 {
            None
        } else {
            let whole = self.countdown_us / SECOND_US;
            let n = if self.countdown_us % SECOND_US == 0 {
                whole
            } else {
                whole + 1
            };
            if n > u32::MAX as u64 {
                Some(u32::MAX)
            } else {
                Some(n as u32)
            }
        }
    }

    /// Desconta um quadro da contagem; devolve `true` quando ela chega ao fim
    /// e a corrida é liberada.
    pub fn tick_countdown(&mut self, dt_us: u64) -> (green: bool)
        ensures
            green == (dt_us >= old(self).countdown_us),
            final(self).countdown_us == (if green {
                0
            } else {
                old(self).countdown_us - dt_us
            }),
            final(self).elapsed_us == old(self).elapsed_us,
    {
        if dt_us >= self.countdown_us {
            self.countdown_us = 0;
            true
        } else {
            self.countdown_us = self.countdown_us - dt_us;
            false
        }
    }

    /// Avança o cronômetro da corrida em um quadro.
    pub fn advance(&mut self, dt_us: u64)
        ensures
            final(self).elapsed_us == (if old(self).elapsed_us + dt_us > u64::MAX {
                u64::MAX as int
            } else {
                old(self).elapsed_us + dt_us
            }),
            final(self).countdown_us == old(self).countdown_us,
    {
        self.elapsed_us = self.elapsed_us.saturating_add(dt_us);
    }
}

/// Um portal de checkpoint.
#[derive(Clone, Copy, Debug, PartialEq, Eq)]
pub struct Checkpoint {
    pub index: usize,
}

/// Progresso de um carro na corrida.
#[derive(Clone, Copy, Debug, PartialEq, Eq)]
pub struct RaceProgress {
    pub lap: u32,
    /// Próximo checkpoint que precisa ser cruzado.
    pub next_checkpoint: usize,
    /// A volta só começa a contar quando o carro cruza a linha pela 1ª vez.
    pub started: bool,
    pub lap_start_us: u64,
    pub last_lap_us: Option<u64>,
    pub best_lap_us: Option<u64>,
    pub finished: bool,
    pub finish_time_us: Option<u64>,
    /// Colocação atual, começando em 1.
    pub position: usize,
    /// Distância total percorrida, em milímetros, usada para ordenar o pelotão.
    pub distance_mm: i64,
    /// Índice da amostra mais próxima, para acelerar a busca no traçado.
    pub track_hint: Option<usize>,
}

impl Default for RaceProgress {
    fn default() -> (progress: RaceProgress)
        ensures
            progress == RaceProgress::initial(),
    {
        RaceProgress {
            lap: 0,
            next_checkpoint: 0,
            started: false,
            lap_start_us: 0,
            last_lap_us: None,
            best_lap_us: None,
            finished: false,
            finish_time_us: None,
            position: 1,
            distance_mm: 0,
            track_hint: None,
        }
    }
}

/// Quanto tempo passou de `from` a `to`, sem ficar negativo.
pub open spec fn span(from: u64, to: u64) -> u64 {
    if from <= to {
        (to - from) as u64
    } else {
        0
    }
}

/// A menor de duas voltas, se já houver uma melhor.
pub open spec fn best_of(best: Option<u64>, lap: u64) -> u64 {
    match best {
        Some(b) => if b <= lap {
            b
        } else {
            lap
        },
        None => lap,
    }
}

/// Próximo portal depois de `index`, dando a volta no circuito.
pub open spec fn following(index: usize) -> usize {
    ((index + 1) % (CHECKPOINT_COUNT as int)) as usize
}

/// O que um cruzamento de portal produz para quem está de fora.
#[derive(Clone, Copy, Debug, PartialEq, Eq)]
pub struct CrossingOutcome {
    /// Tempo da volta que acabou de fechar.
    pub lap_time_us: Option<u64>,
    /// A corrida deste carro terminou neste cruzamento.
    pub finished: bool,
}

impl RaceProgress {
    /// Progresso de um carro que acabou de entrar no grid.
    pub open spec fn initial() -> RaceProgress {
        RaceProgress {
            lap: 0,
            next_checkpoint: 0,
            started: false,
            lap_start_us: 0,
            last_lap_us: None,
            best_lap_us: None,
            finished: false,
            finish_time_us: None,
            position: 1,
            distance_mm: 0,
            track_hint: None,
        }
    }

    /// O cruzamento conta: o carro ainda corre e o portal é o esperado.
    pub open spec fn accepts(self, checkpoint: usize) -> bool {
        !self.finished && checkpoint == self.next_checkpoint
    }

    /// O cruzamento fecha uma volta: é a linha, na ordem, depois da largada.
    pub open spec fn completes_lap(self, checkpoint: usize) -> bool {
        self.accepts(checkpoint) && checkpoint == 0 && self.started
    }

    /// O progresso depois de cruzar o portal `checkpoint` no instante `now`.
    pub open spec fn after_crossing(
        self,
        checkpoint: usize,
        now: u64,
        total_laps: u32,
    ) -> RaceProgress {
        if !self.accepts(checkpoint) {
            self
        } else if checkpoint == 0 {
            if self.started {
                let lap_time = span(self.lap_start_us, now);
                let lap = (self.lap + 1) as u32;
                let finished = lap >= total_laps;
                RaceProgress {
                    lap,
                    next_checkpoint: following(checkpoint),
                    lap_start_us: now,
                    last_lap_us: Some(lap_time),
                    best_lap_us: Some(best_of(self.best_lap_us, lap_time)),
                    finished,
                    finish_time_us: if finished {
                        Some(now)
                    } else {
                        self.finish_time_us
                    },
                    ..self
                }
            } else {
                RaceProgress {
                    started: true,
                    lap_start_us: now,
                    next_checkpoint: following(checkpoint),
                    ..self
                }
            }
        } else {
            RaceProgress { next_checkpoint: following(checkpoint), ..self }
        }
    }

    /// O que o cruzamento anuncia: a volta fechada e se a corrida acabou.
    pub open spec fn crossing_outcome(
        self,
        checkpoint: usize,
        now: u64,
        total_laps: u32,
    ) -> CrossingOutcome {
        if self.completes_lap(checkpoint) {
            CrossingOutcome {
                lap_time_us: Some(span(self.lap_start_us, now)),
                finished: self.lap + 1 >= total_laps,
            }
        } else {
            CrossingOutcome { lap_time_us: None, finished: false }
        }
    }

    /// Coerência interna do progresso numa corrida de `total_laps` voltas.
    pub open spec fn well_formed(self, total_laps: u32) -> bool {
        &&& self.next_checkpoint < CHECKPOINT_COUNT
        &&& self.finished <==> self.finish_time_us is Some
        &&& !self.started ==> self.lap == 0 && !self.finished
        &&& !self.finished ==> self.lap == 0 || self.lap < total_laps
        &&& self.finished ==> self.lap >= total_laps && self.lap > 0
        &&& self.last_lap_us is Some <==> self.lap > 0
        &&& self.best_lap_us is Some <==> self.lap > 0
        &&& (self.best_lap_us matches Some(best) ==> self.last_lap_us matches Some(last)
            && best <= last)
    }

    /// Se cruzar o portal `checkpoint` agora fecharia uma volta.
    pub fn closes_lap(&self, checkpoint: usize) -> (closes: bool)
        ensures
            closes == self.completes_lap(checkpoint),
    {
        !self.finished && checkpoint == self.next_checkpoint && checkpoint == 0 && self.started
    }

    /// Registra a passagem do carro por um portal.
    ///
    /// Portais fora de ordem não contam; a volta só fecha na linha de
    /// chegada, depois de a largada ter sido dada, e quem já terminou fica
    /// congelado.
    pub fn cross(&mut self, checkpoint: usize, now: u64, total_laps: u32) -> (outcome:
        CrossingOutcome)
        requires
            old(self).completes_lap(checkpoint) ==> old(self).lap < u32::MAX,
        ensures
            *final(self) == old(self).after_crossing(checkpoint, now, total_laps),
            outcome == old(self).crossing_outcome(checkpoint, now, total_laps),
    {
        if self.finished || checkpoint != self.next_checkpoint {
            return CrossingOutcome { lap_time_us: None, finished: false };
        }
        let mut outcome = CrossingOutcome { lap_time_us: None, finished: false };
        if checkpoint == 0 {
            if self.started {
                let lap_time = now.saturating_sub(self.lap_start_us);
                self.lap = self.lap + 1;
                self.last_lap_us = Some(lap_time);
                self.best_lap_us = Some(
                    match self.best_lap_us {
                        Some(best) => if best <= lap_time {
                            best
                        } else {
                            lap_time
                        },
                        None => lap_time,
                    },
                );
                outcome.lap_time_us = Some(lap_time);
                if self.lap >= total_laps {
                    self.finished = true;
                    self.finish_time_us = Some(now);
                    outcome.finished = true;
                }
            } else {
                self.started = true;
            }
            self.lap_start_us = now;
        }
        // `(i + 1) % n` e `(i % n + 1) % n` coincidem, e a segunda forma
        // não transborda.
        self.next_checkpoint = (checkpoint % CHECKPOINT_COUNT + 1) % CHECKPOINT_COUNT;
        outcome
    }
}

/// Um carro recém-chegado ao grid está coerente com qualquer corrida.
pub proof fn lemma_initial_well_formed(total_laps: u32)
    ensures
        RaceProgress::initial().well_formed(total_laps),
{
}

/// Todo cruzamento preserva a coerência do progresso; a volta nunca
/// transborda num progresso coerente.
pub proof fn lemma_crossing_keeps_well_formed(
    progress: RaceProgress,
    checkpoint: usize,
    now: u64,
    total_laps: u32,
)
    requires
        progress.well_formed(total_laps),
    ensures
        progress.completes_lap(checkpoint) ==> progress.lap < u32::MAX,
        progress.after_crossing(checkpoint, now, total_laps).well_formed(total_laps),
{
}

/// Um portal fora de ordem, ou qualquer portal depois da bandeirada, não
/// muda nada.
pub proof fn lemma_out_of_order_ignored(
    progress: RaceProgress,
    checkpoint: usize,
    now: u64,
    total_laps: u32,
)
    requires
        progress.finished || checkpoint != progress.next_checkpoint,
    ensures
        progress.after_crossing(checkpoint, now, total_laps) == progress,
        progress.crossing_outcome(checkpoint, now, total_laps).lap_time_us is None,
{
}

/// A volta só aumenta ao cruzar a linha na ordem, depois da largada, e
/// aumenta de exatamente um.
pub proof fn lemma_lap_only_at_the_line(
    progress: RaceProgress,
    checkpoint: usize,
    now: u64,
    total_laps: u32,
)
    requires
        progress.well_formed(total_laps),
    ensures
        progress.completes_lap(checkpoint) ==> progress.after_crossing(
            checkpoint,
            now,
            total_laps,
        ).lap == progress.lap + 1,
        !progress.completes_lap(checkpoint) ==> progress.after_crossing(
            checkpoint,
            now,
            total_laps,
        ).lap == progress.lap,
{
}

/// A melhor volta nunca piora: é a menor entre a anterior e a recém-fechada.
pub proof fn lemma_best_lap_is_minimum(
    progress: RaceProgress,
    checkpoint: usize,
    now: u64,
    total_laps: u32,
)
    requires
        progress.completes_lap(checkpoint),
    ensures
        ({
            let after = progress.after_crossing(checkpoint, now, total_laps);
            &&& after.best_lap_us is Some
            &&& after.best_lap_us.unwrap() <= span(progress.lap_start_us, now)
            &&& progress.best_lap_us matches Some(old_best) ==> after.best_lap_us.unwrap()
                <= old_best
        }),
{
}

/// O progresso depois de uma sequência de cruzamentos `(portal, instante)`.
pub open spec fn replay(
    progress: RaceProgress,
    crossings: Seq<(usize, u64)>,
    total_laps: u32,
) -> RaceProgress
    decreases crossings.len(),
{
    if crossings.len() == 0 {
        progress
    } else {
        replay(
            progress.after_crossing(crossings[0].0, crossings[0].1, total_laps),
            crossings.drop_first(),
            total_laps,
        )
    }
}

/// Os portais `from..16` em ordem, seguidos da linha de chegada.
pub open spec fn circuit_from(from: nat, times: Seq<u64>) -> Seq<(usize, u64)> {
    Seq::new(
        (CHECKPOINT_COUNT - from + 1) as nat,
        |i: int|
            (
                if from + i < CHECKPOINT_COUNT {
                    (from + i) as usize
                } else {
                    0usize
                },
                times[i],
            ),
    )
}

/// Cortar caminho não conta volta: enquanto o portal `skipped` não for
/// cruzado, o carro que já passou da linha não volta a ela.
pub proof fn lemma_cutting_never_counts(
    progress: RaceProgress,
    crossings: Seq<(usize, u64)>,
    skipped: usize,
    total_laps: u32,
)
    requires
        1 <= progress.next_checkpoint <= skipped < CHECKPOINT_COUNT,
        forall|i: int| 0 <= i < crossings.len() ==> (#[trigger] crossings[i]).0 != skipped,
    ensures
        replay(progress, crossings, total_laps).lap == progress.lap,
        1 <= replay(progress, crossings, total_laps).next_checkpoint <= skipped,
        replay(progress, crossings, total_laps).finished == progress.finished,
    decreases crossings.len(),
{
    if crossings.len() > 0 {
        let next = progress.after_crossing(crossings[0].0, crossings[0].1, total_laps);
        assert(crossings[0].0 != skipped);
        let rest = crossings.drop_first();
        assert forall|i: int| 0 <= i < rest.len() implies (#[trigger] rest[i]).0 != skipped by {
            assert(rest[i] == crossings[i + 1]);
        }
        lemma_cutting_never_counts(next, rest, skipped, total_laps);
    }
}

/// Uma volta inteira em ordem, da saída da linha até voltar a ela, conta
/// exatamente uma volta.
pub proof fn lemma_full_circuit_counts_one_lap(
    progress: RaceProgress,
    from: nat,
    times: Seq<u64>,
    total_laps: u32,
)
    requires
        1 <= from <= CHECKPOINT_COUNT,
        progress.next_checkpoint == from % (CHECKPOINT_COUNT as nat),
        progress.started,
        !progress.finished,
        progress.lap < u32::MAX,
        times.len() == CHECKPOINT_COUNT - from + 1,
    ensures
        replay(progress, circuit_from(from, times), total_laps).lap == progress.lap + 1,
        replay(progress, circuit_from(from, times), total_laps).next_checkpoint == 1,
    decreases CHECKPOINT_COUNT - from,
{
    let crossings = circuit_from(from, times);
    if from == CHECKPOINT_COUNT {
        let after = progress.after_crossing(0, times[0], total_laps);
        assert(crossings[0] == (0usize, times[0]));
        assert(crossings.drop_first().len() == 0);
        assert(replay(after, crossings.drop_first(), total_laps) == after);
    } else {
        let next = progress.after_crossing(from as usize, times[0], total_laps);
        assert(crossings[0] == (from as usize, times[0]));
        assert(next.next_checkpoint == (from + 1) % (CHECKPOINT_COUNT as nat));
        assert(crossings.drop_first() =~= circuit_from(from + 1, times.drop_first()));
        lemma_full_circuit_counts_one_lap(next, from + 1, times.drop_first(), total_laps);
    }
}

/// Descobre qual lado de uma colisão é o portal e qual é o carro.
///
/// `first` e `second` são os portais (se houver) por trás de cada colisor;
/// `first_body` e `second_body` são os corpos rígidos de cada lado. Se o
/// primeiro colisor é um portal, o carro é o segundo corpo, e vice-versa.
pub fn pair(
    first: Option<Checkpoint>,
    second: Option<Checkpoint>,
    first_body: Option<u64>,
    second_body: Option<u64>,
) -> (found: Option<(Checkpoint, u64)>)
    ensures
        found == (match first {
            Some(checkpoint) => match second_body {
                Some(body) => Some((checkpoint, body)),
                None => None,
            },
            None => match second {
                Some(checkpoint) => match first_body {
                    Some(body) => Some((checkpoint, body)),
                    None => None,
                },
                None => None,
            },
        }),
{
    if let Some(checkpoint) = first {
        return match second_body {
            Some(body) => Some((checkpoint, body)),
            None => None,
        };
    }
    if let Some(checkpoint) = second {
        return match first_body {
            Some(body) => Some((checkpoint, body)),
            None => None,
        };
    }
    None
}

/// Maior comprimento de circuito, em milímetros, para o qual a distância
/// acumulada de qualquer volta cabe num `i64`.
pub const MAX_TRACK_MM: i64 = 0x7fff_ffff;

/// Distância percorrida na corrida. Antes da primeira passagem pela linha
/// o carro está atrás dela, daí a distância negativa.
pub open spec fn race_distance_of(lap: u32, started: bool, along_mm: i64, length_mm: i64) -> int {
    lap * length_mm + if started {
        along_mm as int
    } else {
        along_mm - length_mm
    }
}

/// Distância total percorrida por um carro a partir da volta e da posição
/// dele ao longo do traçado.
pub fn race_distance(lap: u32, started: bool, along_mm: i64, length_mm: i64) -> (distance: i64)
    requires
        0 < length_mm <= MAX_TRACK_MM,
        0 <= along_mm <= length_mm,
    ensures
        distance == race_distance_of(lap, started, along_mm, length_mm),
{
    let lap_distance = if started {
        along_mm
    } else {
        along_mm - length_mm
    };
    assert(lap * length_mm <= 0xffff_ffff * 0x7fff_ffff) by (nonlinear_arith)
        requires
            lap <= 0xffff_ffff,
            0 < length_mm <= 0x7fff_ffff,
    ;
    assert(lap * length_mm >= 0) by (nonlinear_arith)
        requires
            lap >= 0,
            length_mm > 0,
    ;
    (lap as i64) * length_mm + lap_distance
}

} // verus!
