//! Estados do jogo e as transições que os botões e teclas disparam.

use vstd::prelude::*;

verus! {

/// Estado principal da aplicação.
#[derive(Clone, Copy, Debug, PartialEq, Eq, Hash, Structural)]
pub enum GameState {
    Splash,
    Menu,
    Racing,
}

impl Default for GameState {
    fn default() -> (state: GameState)
        ensures
            state == GameState::Splash,
    {
        GameState::Splash
    }
}

/// Fase interna da corrida. Só é diferente de `Inactive` dentro de
/// [`GameState::Racing`].
#[derive(Clone, Copy, Debug, PartialEq, Eq, Hash, Structural)]
pub enum RacePhase {
    Inactive,
    /// Carros parados no grid enquanto os semáforos apagam.
    Countdown,
    /// Corrida liberada.
    Green,
    /// Jogador cruzou a última volta; a tela de resultados está no ar.
    Finished,
}

impl Default for RacePhase {
    fn default() -> (phase: RacePhase)
        ensures
            phase == RacePhase::Inactive,
    {
        RacePhase::Inactive
    }
}

/// Tela ativa dentro do menu.
#[derive(Clone, Copy, Debug, PartialEq, Eq, Hash, Structural)]
pub enum MenuState {
    Main,
    Settings,
    SettingsDisplay,
    SettingsAudio,
    SettingsRace,
    SettingsSteering,
    Controls,
    Credits,
    /// Nenhuma tela de menu no ar (durante a corrida).
    Disabled,
}

impl Default for MenuState {
    fn default() -> (state: MenuState)
        ensures
            state == MenuState::Disabled,
    {
        MenuState::Disabled
    }
}

/// Botões de navegação do menu.
#[derive(Clone, Copy, Debug, PartialEq, Eq, Structural)]
pub enum MenuAction {
    Race,
    Settings,
    Display,
    Audio,
    RaceRules,
    Steering,
    Controls,
    Credits,
    BackToMain,
    BackToSettings,
    Quit,
}

/// O que um botão do menu pede: trocar de estado, de tela, ou sair.
#[derive(Clone, Copy, Debug, PartialEq, Eq)]
pub struct MenuEffect {
    pub game: Option<GameState>,
    pub menu: Option<MenuState>,
    pub quit: bool,
}

/// A tela para a qual cada botão leva.
pub open spec fn menu_target(action: MenuAction) -> Option<MenuState> {
    match action {
        MenuAction::Race => Some(MenuState::Disabled),
        MenuAction::Settings => Some(MenuState::Settings),
        MenuAction::Display => Some(MenuState::SettingsDisplay),
        MenuAction::Audio => Some(MenuState::SettingsAudio),
        MenuAction::RaceRules => Some(MenuState::SettingsRace),
        MenuAction::Steering => Some(MenuState::SettingsSteering),
        MenuAction::Controls => Some(MenuState::Controls),
        MenuAction::Credits => Some(MenuState::Credits),
        MenuAction::BackToMain => Some(MenuState::Main),
        MenuAction::BackToSettings => Some(MenuState::Settings),
        MenuAction::Quit => None,
    }
}

/// O efeito de um botão pressionado.
pub fn menu_effect(action: MenuAction) -> (effect: MenuEffect)
    ensures
        effect.menu == menu_target(action),
        effect.game == (if action == MenuAction::Race {
            Some(GameState::Racing)
        } else {
            None
        }),
        effect.quit == (action == MenuAction::Quit),
{
    match action {
        MenuAction::Race => MenuEffect {
            game: Some(GameState::Racing),
            menu: Some(MenuState::Disabled),
            quit: false,
        },
        MenuAction::Settings => MenuEffect { game: None, menu: Some(MenuState::Settings), quit: false },
        MenuAction::Display => MenuEffect {
            game: None,
            menu: Some(MenuState::SettingsDisplay),
            quit: false,
        },
        MenuAction::Audio => MenuEffect {
            game: None,
            menu: Some(MenuState::SettingsAudio),
            quit: false,
        },
        MenuAction::RaceRules => MenuEffect {
            game: None,
            menu: Some(MenuState::SettingsRace),
            quit: false,
        },
        MenuAction::Steering => MenuEffect {
            game: None,
            menu: Some(MenuState::SettingsSteering),
            quit: false,
        },
        MenuAction::Controls => MenuEffect { game: None, menu: Some(MenuState::Controls), quit: false },
        MenuAction::Credits => MenuEffect { game: None, menu: Some(MenuState::Credits), quit: false },
        MenuAction::BackToMain => MenuEffect { game: None, menu: Some(MenuState::Main), quit: false },
        MenuAction::BackToSettings => MenuEffect {
            game: None,
            menu: Some(MenuState::Settings),
            quit: false,
        },
        MenuAction::Quit => MenuEffect { game: None, menu: None, quit: true },
    }
}

/// A tela que contém o botão "Voltar" de cada tela.
pub open spec fn parent_screen(screen: MenuState) -> Option<MenuState> {
    match screen {
        MenuState::Settings | MenuState::Controls | MenuState::Credits => Some(MenuState::Main),
        MenuState::SettingsDisplay | MenuState::SettingsAudio | MenuState::SettingsRace
        | MenuState::SettingsSteering => Some(MenuState::Settings),
        _ => None,
    }
}

/// O botão que abre cada tela a partir da tela-mãe.
pub open spec fn opening_action(screen: MenuState) -> Option<MenuAction> {
    match screen {
        MenuState::Settings => Some(MenuAction::Settings),
        MenuState::Controls => Some(MenuAction::Controls),
        MenuState::Credits => Some(MenuAction::Credits),
        MenuState::SettingsDisplay => Some(MenuAction::Display),
        MenuState::SettingsAudio => Some(MenuAction::Audio),
        MenuState::SettingsRace => Some(MenuAction::RaceRules),
        MenuState::SettingsSteering => Some(MenuAction::Steering),
        _ => None,
    }
}

/// O botão "Voltar" de cada tela.
pub open spec fn back_action(screen: MenuState) -> Option<MenuAction> {
    match parent_screen(screen) {
        Some(MenuState::Main) => Some(MenuAction::BackToMain),
        Some(MenuState::Settings) => Some(MenuAction::BackToSettings),
        _ => None,
    }
}

/// Abrir uma tela e voltar dela leva de novo à tela de onde se saiu.
pub proof fn lemma_back_returns_to_parent(screen: MenuState)
    requires
        opening_action(screen) is Some,
    ensures
        menu_target(opening_action(screen).unwrap()) == Some(screen),
        back_action(screen) is Some,
        menu_target(back_action(screen).unwrap()) == parent_screen(screen),
{
}

/// Estado de um botão sob o cursor.
#[derive(Clone, Copy, Debug, PartialEq, Eq, Structural)]
pub enum Pointer {
    Pressed,
    Hovered,
    Idle,
}

/// Cor de fundo de um botão.
#[derive(Clone, Copy, Debug, PartialEq, Eq, Structural)]
pub enum ButtonShade {
    Pressed,
    AccentDeep,
    Hover,
    Selected,
    Idle,
}

/// A cor de um botão conforme o cursor e se ele é a opção escolhida.
pub fn button_shade(pointer: Pointer, selected: bool) -> (shade: ButtonShade)
    ensures
        shade == (match pointer {
            Pointer::Pressed => ButtonShade::Pressed,
            Pointer::Hovered => if selected {
                ButtonShade::AccentDeep
            } else {
                ButtonShade::Hover
            },
            Pointer::Idle => if selected {
                ButtonShade::Selected
            } else {
                ButtonShade::Idle
            },
        }),
{
    match (pointer, selected) {
        (Pointer::Pressed, _) => ButtonShade::Pressed,
        (Pointer::Hovered, true) => ButtonShade::AccentDeep,
        (Pointer::Hovered, false) => ButtonShade::Hover,
        (Pointer::Idle, true) => ButtonShade::Selected,
        (Pointer::Idle, false) => ButtonShade::Idle,
    }
}

/// Um botão de opção só aplica o valor quando é pressionado e o valor é
/// outro.
pub fn applies_choice(pointer: Pointer, differs: bool) -> (apply: bool)
    ensures
        apply == (pointer == Pointer::Pressed && differs),
{
    match pointer {
        Pointer::Pressed => differs,
        _ => false,
    }
}

/// Botões da tela de resultados.
#[derive(Clone, Copy, Debug, PartialEq, Eq, Structural)]
pub enum ResultsAction {
    Restart,
    BackToMenu,
}

/// Para onde vão o jogo e a corrida quando se sai de uma corrida.
#[derive(Clone, Copy, Debug, PartialEq, Eq)]
pub struct LeaveRace {
    pub game: GameState,
    pub phase: RacePhase,
    /// Uma nova corrida deve começar assim que o menu assumir.
    pub restart: bool,
}

/// Nos dois casos a corrida é desmontada; correr de novo apenas deixa um
/// pedido que o menu reaproveita no quadro seguinte.
pub fn results_effect(action: ResultsAction) -> (effect: LeaveRace)
    ensures
        effect.game == GameState::Menu,
        effect.phase == RacePhase::Inactive,
        effect.restart == (action == ResultsAction::Restart),
{
    LeaveRace {
        game: GameState::Menu,
        phase: RacePhase::Inactive,
        restart: match action {
            ResultsAction::Restart => true,
            ResultsAction::BackToMenu => false,
        },
    }
}

/// `Esc` abandona a corrida e volta ao menu, exceto com os resultados no ar.
pub fn escape_effect(game: GameState, phase: RacePhase) -> (effect: Option<LeaveRace>)
    ensures
        effect == (if game == GameState::Racing && phase != RacePhase::Finished {
            Some(LeaveRace { game: GameState::Menu, phase: RacePhase::Inactive, restart: false })
        } else {
            None
        }),
{
    match (game, phase) {
        (GameState::Racing, RacePhase::Finished) => None,
        (GameState::Racing, _) => Some(
            LeaveRace { game: GameState::Menu, phase: RacePhase::Inactive, restart: false },
        ),
        _ => None,
    }
}

/// No grid os carros ficam travados no freio até a largada: os comandos só
/// valem com a corrida liberada.
pub fn inputs_locked(phase: RacePhase) -> (locked: bool)
    ensures
        locked == (phase != RacePhase::Green),
{
    match phase {
        RacePhase::Green => false,
        _ => true,
    }
}

/// Modo da câmera de corrida.
#[derive(Clone, Copy, Debug, PartialEq, Eq, Structural)]
pub enum CameraMode {
    Chase,
    Cockpit,
    /// Torre fixa na beira da pista, como uma câmera de transmissão.
    Broadcast,
}

impl Default for CameraMode {
    fn default() -> (mode: CameraMode)
        ensures
            mode == CameraMode::Chase,
    {
        CameraMode::Chase
    }
}

/// O modo seguinte no ciclo da tecla `C`.
pub open spec fn next_mode(mode: CameraMode) -> CameraMode {
    match mode {
        CameraMode::Chase => CameraMode::Cockpit,
        CameraMode::Cockpit => CameraMode::Broadcast,
        CameraMode::Broadcast => CameraMode::Chase,
    }
}

/// O nome de cada modo de câmera.
pub open spec fn mode_label_of(mode: CameraMode) -> Seq<char> {
    match mode {
        CameraMode::Chase => "Perseguição"@,
        CameraMode::Cockpit => "Cockpit"@,
        CameraMode::Broadcast => "Transmissão"@,
    }
}

/// O quão rápido a câmera alcança o alvo, por segundo.
pub open spec fn stiffness_of(mode: CameraMode, green: bool) -> u32 {
    match mode {
        CameraMode::Cockpit => 60,
        CameraMode::Broadcast => 1000,
        CameraMode::Chase => if green {
            9
        } else {
            4
        },
    }
}

impl CameraMode {
    pub fn next(self) -> (mode: CameraMode)
        ensures
            mode == next_mode(self),
    {
        match self {
            CameraMode::Chase => CameraMode::Cockpit,
            CameraMode::Cockpit => CameraMode::Broadcast,
            CameraMode::Broadcast => CameraMode::Chase,
        }
    }

    pub fn label(self) -> (label: &'static str)
        ensures
            label@ == mode_label_of(self),
    {
        match self {
            CameraMode::Chase => {
                proof { reveal_strlit("Perseguição"); }
                "Perseguição"
            },
            CameraMode::Cockpit => {
                proof { reveal_strlit("Cockpit"); }
                "Cockpit"
            },
            CameraMode::Broadcast => {
                proof { reveal_strlit("Transmissão"); }
                "Transmissão"
            },
        }
    }

    /// Rigidez da suavização exponencial: no cockpit a câmera é rígida, a
    /// transmissão corta de uma torre para outra e a perseguição só fica
    /// firme com a corrida liberada.
    pub fn stiffness(self, green: bool) -> (stiffness: u32)
        ensures
            stiffness == stiffness_of(self, green),
    {
        match self {
            CameraMode::Cockpit => 60,
            CameraMode::Broadcast => 1000,
            CameraMode::Chase => if green {
                9
            } else {
                4
            },
        }
    }
}

/// Três toques em `C` voltam ao modo inicial, passando por todos.
pub proof fn lemma_camera_cycle(mode: CameraMode)
    ensures
        next_mode(next_mode(next_mode(mode))) == mode,
        next_mode(mode) != mode,
        next_mode(next_mode(mode)) != mode,
{
}

/// Cada modo de câmera tem o seu nome, e nenhum outro modo usa o mesmo:
/// perseguição, cockpit e transmissão.
pub proof fn lemma_camera_labels(a: CameraMode, b: CameraMode)
    ensures
        mode_label_of(a) == mode_label_of(b) ==> a == b,
        mode_label_of(CameraMode::Chase) == "Perseguição"@,
        mode_label_of(CameraMode::Cockpit) == "Cockpit"@,
        mode_label_of(CameraMode::Broadcast) == "Transmissão"@,
{
    reveal_strlit("Perseguição");
    reveal_strlit("Cockpit");
    reveal_strlit("Transmissão");
    if mode_label_of(a) == mode_label_of(b) && a != b {
        let la = mode_label_of(a);
        let lb = mode_label_of(b);
        assert(la.len() != lb.len() || la[0] != lb[0]);
    }
}

/// A torre de transmissão mais próxima alterna de lado a cada uma: as de
/// número par ficam à direita (`1`), as ímpares à esquerda (`-1`).
pub fn broadcast_side(post: i32) -> (side: i32)
    ensures
        side == (if post % 2 == 0 {
            1i32
        } else {
            -1i32
        }),
{
    if post % 2 == 0 {
        1
    } else {
        -1
    }
}

} // verus!
