//! The heads-up display: the message line, the start button, the score
//! label, and the two timers that clear the "Get Ready" and "Game Over"
//! messages.

use vstd::prelude::*;
use vstd::string::StringExecFns;
use crate::decimal::{decimal, score_text};

verus! {

/// The messages that the display shows.
#[derive(Clone, Copy, Debug, PartialEq, Eq, Structural)]
pub enum HudMessage {
    /// "Dodge the Creeps!"
    Title,
    /// "Get Ready"
    GetReady,
    /// "Game Over"
    GameOver,
}

impl HudMessage {
    /// The text of the message.
    pub open spec fn spec_text(self) -> Seq<char> {
        match self {
            HudMessage::Title => seq![
                'D', 'o', 'd', 'g', 'e', ' ', 't', 'h', 'e', ' ', 'C', 'r', 'e', 'e', 'p', 's', '!',
            ],
            HudMessage::GetReady => seq!['G', 'e', 't', ' ', 'R', 'e', 'a', 'd', 'y'],
            HudMessage::GameOver => seq!['G', 'a', 'm', 'e', ' ', 'O', 'v', 'e', 'r'],
        }
    }

    /// The text of the message.
    pub fn text(&self) -> (t: String)
        ensures
            t@ == self.spec_text(),
    {
        proof {
            reveal_strlit("Dodge the Creeps!");
            reveal_strlit("Get Ready");
            reveal_strlit("Game Over");
        }
        match self {
            HudMessage::Title => String::from_str("Dodge the Creeps!"),
            HudMessage::GetReady => String::from_str("Get Ready"),
            HudMessage::GameOver => String::from_str("Game Over"),
        }
    }
}

/// The display's timers.
#[derive(Clone, Copy, Debug, PartialEq, Eq, Structural)]
pub enum HudTimer {
    /// "GetReadyTimer": its timeout hides the "Get Ready" message.
    GetReady,
    /// "GameOverTimer": its timeout brings the title back.
    GameOver,
}

impl HudTimer {
    /// The name of the timer's node.
    pub open spec fn spec_node_name(self) -> Seq<char> {
        match self {
            HudTimer::GetReady => seq![
                'G', 'e', 't', 'R', 'e', 'a', 'd', 'y', 'T', 'i', 'm', 'e', 'r',
            ],
            HudTimer::GameOver => seq![
                'G', 'a', 'm', 'e', 'O', 'v', 'e', 'r', 'T', 'i', 'm', 'e', 'r',
            ],
        }
    }

    /// The name of the timer's node: "GetReadyTimer" or "GameOverTimer".
    pub fn node_name(&self) -> (name: String)
        ensures
            name@ == self.spec_node_name(),
    {
        proof {
            reveal_strlit("GetReadyTimer");
            reveal_strlit("GameOverTimer");
        }
        match self {
            HudTimer::GetReady => String::from_str("GetReadyTimer"),
            HudTimer::GameOver => String::from_str("GameOverTimer"),
        }
    }
}

/// The steps that the display's handlers ask of its nodes.
#[derive(Clone, Copy, Debug, PartialEq, Eq, Structural)]
pub enum HudAction {
    /// Set the text of the "Message" label.
    SetMessage(HudMessage),
    /// Show the "Message" label.
    ShowMessage,
    /// Hide the "Message" label.
    HideMessage,
    /// Show the "StartButton".
    ShowStartButton,
    /// Hide the "StartButton".
    HideStartButton,
    /// Start (or restart) a timer.
    StartTimer(HudTimer),
    /// Emit the "start_game" signal.
    EmitStartGame,
}

/// What the display shows and runs, as far as its handlers decide it.
pub struct HudView {
    /// The message's text; `None` while no handler has set it.
    pub message: Option<HudMessage>,
    pub message_visible: bool,
    pub start_button_visible: bool,
    pub get_ready_timer_started: bool,
    pub game_over_timer_started: bool,
    /// How many "start_game" signals were emitted.
    pub start_game_signals: nat,
}

/// The display after one step.
pub open spec fn hud_step(v: HudView, a: HudAction) -> HudView {
    match a {
        HudAction::SetMessage(m) => HudView { message: Some(m), ..v },
        HudAction::ShowMessage => HudView { message_visible: true, ..v },
        HudAction::HideMessage => HudView { message_visible: false, ..v },
        HudAction::ShowStartButton => HudView { start_button_visible: true, ..v },
        HudAction::HideStartButton => HudView { start_button_visible: false, ..v },
        HudAction::StartTimer(HudTimer::GetReady) => HudView { get_ready_timer_started: true, ..v },
        HudAction::StartTimer(HudTimer::GameOver) => HudView { game_over_timer_started: true, ..v },
        HudAction::EmitStartGame => HudView { start_game_signals: v.start_game_signals + 1, ..v },
    }
}

/// The display after a sequence of steps, in order.
pub open spec fn hud_apply(v: HudView, acts: Seq<HudAction>) -> HudView
    decreases acts.len(),
{
    if acts.len() == 0 {
        v
    } else {
        hud_apply(hud_step(v, acts[0]), acts.drop_first())
    }
}

/// The steps when the "Get Ready" timer runs out: hide the message.
pub open spec fn get_ready_timeout_actions() -> Seq<HudAction> {
    seq![HudAction::HideMessage]
}

/// The steps when the "Game Over" timer runs out: the title, shown, and the
/// start button.
pub open spec fn game_over_timeout_actions() -> Seq<HudAction> {
    seq![
        HudAction::SetMessage(HudMessage::Title),
        HudAction::ShowMessage,
        HudAction::ShowStartButton,
    ]
}

/// The steps when the start button is pressed: "Get Ready", its timer, the
/// button hidden, and "start_game" emitted.
pub open spec fn start_pressed_actions() -> Seq<HudAction> {
    seq![
        HudAction::SetMessage(HudMessage::GetReady),
        HudAction::StartTimer(HudTimer::GetReady),
        HudAction::HideStartButton,
        HudAction::EmitStartGame,
    ]
}

/// The steps that announce the end of a game: "Game Over", shown, and its timer.
pub open spec fn game_over_actions() -> Seq<HudAction> {
    seq![
        HudAction::SetMessage(HudMessage::GameOver),
        HudAction::ShowMessage,
        HudAction::StartTimer(HudTimer::GameOver),
    ]
}

/// The heads-up display; all its state lives in its nodes.
#[derive(Clone, Copy, Debug)]
pub struct Hud;

impl Hud {
    /// A new display.
    pub fn new() -> Hud {
        Hud
    }

    /// The "Get Ready" timer ran out.
    pub fn on_get_ready_timeout(&self) -> (acts: Vec<HudAction>)
        ensures
            acts@ == get_ready_timeout_actions(),
    {
        let mut acts: Vec<HudAction> = Vec::new();
        acts.push(HudAction::HideMessage);
        assert(acts@ =~= get_ready_timeout_actions());
        acts
    }

    /// The "Game Over" timer ran out.
    pub fn on_game_over_timeout(&self) -> (acts: Vec<HudAction>)
        ensures
            acts@ == game_over_timeout_actions(),
    {
        let mut acts: Vec<HudAction> = Vec::new();
        acts.push(HudAction::SetMessage(HudMessage::Title));
        acts.push(HudAction::ShowMessage);
        acts.push(HudAction::ShowStartButton);
        assert(acts@ =~= game_over_timeout_actions());
        acts
    }

    /// The start button was pressed.
    pub fn on_start_button_pressed(&self) -> (acts: Vec<HudAction>)
        ensures
            acts@ == start_pressed_actions(),
    {
        let mut acts: Vec<HudAction> = Vec::new();
        acts.push(HudAction::SetMessage(HudMessage::GetReady));
        acts.push(HudAction::StartTimer(HudTimer::GetReady));
        acts.push(HudAction::HideStartButton);
        acts.push(HudAction::EmitStartGame);
        assert(acts@ =~= start_pressed_actions());
        acts
    }

    /// Announces the end of a game.
    pub fn show_game_over(&self) -> (acts: Vec<HudAction>)
        ensures
            acts@ == game_over_actions(),
    {
        let mut acts: Vec<HudAction> = Vec::new();
        acts.push(HudAction::SetMessage(HudMessage::GameOver));
        acts.push(HudAction::ShowMessage);
        acts.push(HudAction::StartTimer(HudTimer::GameOver));
        assert(acts@ =~= game_over_actions());
        acts
    }

    /// The text that the score label shows for a score: its decimal digits,
    /// with a minus sign when it is negative.
    pub fn score_update(&self, score: i32) -> (text: String)
        ensures
            text@ == decimal(score as int),
    {
        score_text(score)
    }
}

/// After a game-over announcement and the timeout of its timer, whatever
/// the display showed before, it shows the title and the start button.
pub proof fn lemma_game_over_then_title(v: HudView)
    ensures
        ({
            let after_announce = hud_apply(v, game_over_actions());
            let w = hud_apply(after_announce, game_over_timeout_actions());
            &&& after_announce.message == Some(HudMessage::GameOver)
            &&& after_announce.message_visible
            &&& after_announce.game_over_timer_started
            &&& w.message == Some(HudMessage::Title)
            &&& w.message_visible
            &&& w.start_button_visible
            &&& w.start_game_signals == v.start_game_signals
        }),
{
    reveal_with_fuel(hud_apply, 5);
}

/// Pressing start and letting the "Get Ready" timer run out leaves the
/// display with no message and no start button, and emits "start_game"
/// exactly once.
pub proof fn lemma_start_then_clear(v: HudView)
    ensures
        ({
            let after_press = hud_apply(v, start_pressed_actions());
            let w = hud_apply(after_press, get_ready_timeout_actions());
            &&& after_press.message == Some(HudMessage::GetReady)
            &&& after_press.get_ready_timer_started
            &&& !w.message_visible
            &&& !w.start_button_visible
            &&& w.start_game_signals == v.start_game_signals + 1
        }),
{
    reveal_with_fuel(hud_apply, 5);
}

/// Only the start button emits "start_game", and it does so exactly once
/// per press; announcing a game over and the two timeouts emit nothing and
/// never bring the start button back except at the game-over timeout.
pub proof fn lemma_only_start_button_starts()
    ensures
        start_pressed_actions().contains(HudAction::EmitStartGame),
        forall|i: int, j: int|
            0 <= i < start_pressed_actions().len() && 0 <= j < start_pressed_actions().len()
                && #[trigger] start_pressed_actions()[i] == HudAction::EmitStartGame
                && #[trigger] start_pressed_actions()[j] == HudAction::EmitStartGame ==> i == j,
        !game_over_actions().contains(HudAction::EmitStartGame),
        !game_over_timeout_actions().contains(HudAction::EmitStartGame),
        !get_ready_timeout_actions().contains(HudAction::EmitStartGame),
        !game_over_actions().contains(HudAction::ShowStartButton),
        !get_ready_timeout_actions().contains(HudAction::ShowStartButton),
        !start_pressed_actions().contains(HudAction::ShowStartButton),
{
    assert(start_pressed_actions()[3] == HudAction::EmitStartGame);
    let g = game_over_actions();
    let t = game_over_timeout_actions();
    let r = get_ready_timeout_actions();
    let p = start_pressed_actions();
    if g.contains(HudAction::EmitStartGame) {
        let i = choose|i: int| 0 <= i < g.len() && g[i] == HudAction::EmitStartGame;
        assert(false);
    }
    if t.contains(HudAction::EmitStartGame) {
        let i = choose|i: int| 0 <= i < t.len() && t[i] == HudAction::EmitStartGame;
        assert(false);
    }
    if r.contains(HudAction::EmitStartGame) {
        let i = choose|i: int| 0 <= i < r.len() && r[i] == HudAction::EmitStartGame;
        assert(false);
    }
    if g.contains(HudAction::ShowStartButton) {
        let i = choose|i: int| 0 <= i < g.len() && g[i] == HudAction::ShowStartButton;
        assert(false);
    }
    if r.contains(HudAction::ShowStartButton) {
        let i = choose|i: int| 0 <= i < r.len() && r[i] == HudAction::ShowStartButton;
        assert(false);
    }
    if p.contains(HudAction::ShowStartButton) {
        let i = choose|i: int| 0 <= i < p.len() && p[i] == HudAction::ShowStartButton;
        assert(false);
    }
}

} // verus!
