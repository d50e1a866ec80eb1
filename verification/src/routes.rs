//! The signal wiring that the main scene sets up when it is readied: which
//! node's signal reaches which handler.

use vstd::prelude::*;
use vstd::string::StringExecFns;
use crate::main_scene::GameTimer;

verus! {

/// The nodes that take part in the wiring.
#[derive(Clone, Copy, Debug, PartialEq, Eq, Structural)]
pub enum SceneNode {
    /// The main scene itself.
    Main,
    /// The "Player" node.
    Player,
    /// One of the main scene's timers.
    Timer(GameTimer),
    /// The "Hud" node.
    Hud,
}

/// The signals that are wired.
#[derive(Clone, Copy, Debug, PartialEq, Eq, Structural)]
pub enum GameSignal {
    Hit,
    Timeout,
    StartGame,
    ScoreUpdate,
    ShowGameOver,
}

/// The handlers that signals reach.
#[derive(Clone, Copy, Debug, PartialEq, Eq, Structural)]
pub enum Handler {
    GameOver,
    StartDelayTimeout,
    ScoreIncrement,
    SpawnTimerTimeout,
    NewGame,
    HudScoreUpdate,
    HudShowGameOver,
}

/// One connection: `signal` of `source` calls `method` on `target`.
#[derive(Clone, Copy, Debug, PartialEq, Eq, Structural)]
pub struct SignalRoute {
    pub source: SceneNode,
    pub signal: GameSignal,
    pub target: SceneNode,
    pub method: Handler,
}

impl GameSignal {
    /// The signal's name.
    pub open spec fn spec_name(self) -> Seq<char> {
        match self {
            GameSignal::Hit => seq!['h', 'i', 't'],
            GameSignal::Timeout => seq!['t', 'i', 'm', 'e', 'o', 'u', 't'],
            GameSignal::StartGame => seq!['s', 't', 'a', 'r', 't', '_', 'g', 'a', 'm', 'e'],
            GameSignal::ScoreUpdate => seq![
                's', 'c', 'o', 'r', 'e', '_', 'u', 'p', 'd', 'a', 't', 'e',
            ],
            GameSignal::ShowGameOver => seq![
                's', 'h', 'o', 'w', '_', 'g', 'a', 'm', 'e', '_', 'o', 'v', 'e', 'r',
            ],
        }
    }

    /// The signal's name.
    pub fn name(&self) -> (n: String)
        ensures
            n@ == self.spec_name(),
    {
        proof {
            reveal_strlit("hit");
            reveal_strlit("timeout");
            reveal_strlit("start_game");
            reveal_strlit("score_update");
            reveal_strlit("show_game_over");
        }
        match self {
            GameSignal::Hit => String::from_str("hit"),
            GameSignal::Timeout => String::from_str("timeout"),
            GameSignal::StartGame => String::from_str("start_game"),
            GameSignal::ScoreUpdate => String::from_str("score_update"),
            GameSignal::ShowGameOver => String::from_str("show_game_over"),
        }
    }
}

impl Handler {
    /// The name of the handler's method.
    pub open spec fn spec_name(self) -> Seq<char> {
        match self {
            Handler::GameOver => seq!['g', 'a', 'm', 'e', '_', 'o', 'v', 'e', 'r'],
            Handler::StartDelayTimeout => seq![
                '_', 'o', 'n', '_', 's', 't', 'a', 'r', 't', '_', 'd', 'e', 'l', 'a', 'y', '_', 't',
                'i', 'm', 'e', 'o', 'u', 't',
            ],
            Handler::ScoreIncrement => seq![
                '_', 'o', 'n', '_', 's', 'c', 'o', 'r', 'e', '_', 'i', 'n', 'c', 'r', 'e', 'm', 'e',
                'n', 't',
            ],
            Handler::SpawnTimerTimeout => seq![
                '_', 'o', 'n', '_', 's', 'p', 'a', 'w', 'n', '_', 't', 'i', 'm', 'e', 'r', '_', 't',
                'i', 'm', 'e', 'o', 'u', 't',
            ],
            Handler::NewGame => seq!['n', 'e', 'w', '_', 'g', 'a', 'm', 'e'],
            Handler::HudScoreUpdate => seq![
                's', 'c', 'o', 'r', 'e', '_', 'u', 'p', 'd', 'a', 't', 'e',
            ],
            Handler::HudShowGameOver => seq![
                's', 'h', 'o', 'w', '_', 'g', 'a', 'm', 'e', '_', 'o', 'v', 'e', 'r',
            ],
        }
    }

    /// The name of the handler's method.
    pub fn name(&self) -> (n: String)
        ensures
            n@ == self.spec_name(),
    {
        proof {
            reveal_strlit("game_over");
            reveal_strlit("_on_start_delay_timeout");
            reveal_strlit("_on_score_increment");
            reveal_strlit("_on_spawn_timer_timeout");
            reveal_strlit("new_game");
            reveal_strlit("score_update");
            reveal_strlit("show_game_over");
        }
        match self {
            Handler::GameOver => String::from_str("game_over"),
            Handler::StartDelayTimeout => String::from_str("_on_start_delay_timeout"),
            Handler::ScoreIncrement => String::from_str("_on_score_increment"),
            Handler::SpawnTimerTimeout => String::from_str("_on_spawn_timer_timeout"),
            Handler::NewGame => String::from_str("new_game"),
            Handler::HudScoreUpdate => String::from_str("score_update"),
            Handler::HudShowGameOver => String::from_str("show_game_over"),
        }
    }
}

/// The handler that a timer's timeout reaches.
pub open spec fn timer_handler(t: GameTimer) -> Handler {
    match t {
        GameTimer::Spawn => Handler::SpawnTimerTimeout,
        GameTimer::Score => Handler::ScoreIncrement,
        GameTimer::StartDelay => Handler::StartDelayTimeout,
    }
}

/// The wiring, in the order it is made: the player's hit ends the game,
/// each timer's timeout reaches its handler, the display's start button
/// starts a new game, and the main scene's score and game-over
/// announcements reach the display.
pub open spec fn signal_routes_spec() -> Seq<SignalRoute> {
    seq![
        SignalRoute {
            source: SceneNode::Player,
            signal: GameSignal::Hit,
            target: SceneNode::Main,
            method: Handler::GameOver,
        },
        SignalRoute {
            source: SceneNode::Timer(GameTimer::StartDelay),
            signal: GameSignal::Timeout,
            target: SceneNode::Main,
            method: Handler::StartDelayTimeout,
        },
        SignalRoute {
            source: SceneNode::Timer(GameTimer::Score),
            signal: GameSignal::Timeout,
            target: SceneNode::Main,
            method: Handler::ScoreIncrement,
        },
        SignalRoute {
            source: SceneNode::Timer(GameTimer::Spawn),
            signal: GameSignal::Timeout,
            target: SceneNode::Main,
            method: Handler::SpawnTimerTimeout,
        },
        SignalRoute {
            source: SceneNode::Hud,
            signal: GameSignal::StartGame,
            target: SceneNode::Main,
            method: Handler::NewGame,
        },
        SignalRoute {
            source: SceneNode::Main,
            signal: GameSignal::ScoreUpdate,
            target: SceneNode::Hud,
            method: Handler::HudScoreUpdate,
        },
        SignalRoute {
            source: SceneNode::Main,
            signal: GameSignal::ShowGameOver,
            target: SceneNode::Hud,
            method: Handler::HudShowGameOver,
        },
    ]
}

/// The wiring that the main scene makes when it is readied.
pub fn signal_routes() -> (routes: Vec<SignalRoute>)
    ensures
        routes@ == signal_routes_spec(),
{
    let mut routes: Vec<SignalRoute> = Vec::new();
    routes.push(
        SignalRoute {
            source: SceneNode::Player,
            signal: GameSignal::Hit,
            target: SceneNode::Main,
            method: Handler::GameOver,
        },
    );
    routes.push(
        SignalRoute {
            source: SceneNode::Timer(GameTimer::StartDelay),
            signal: GameSignal::Timeout,
            target: SceneNode::Main,
            method: Handler::StartDelayTimeout,
        },
    );
    routes.push(
        SignalRoute {
            source: SceneNode::Timer(GameTimer::Score),
            signal: GameSignal::Timeout,
            target: SceneNode::Main,
            method: Handler::ScoreIncrement,
        },
    );
    routes.push(
        SignalRoute {
            source: SceneNode::Timer(GameTimer::Spawn),
            signal: GameSignal::Timeout,
            target: SceneNode::Main,
            method: Handler::SpawnTimerTimeout,
        },
    );
    routes.push(
        SignalRoute {
            source: SceneNode::Hud,
            signal: GameSignal::StartGame,
            target: SceneNode::Main,
            method: Handler::NewGame,
        },
    );
    routes.push(
        SignalRoute {
            source: SceneNode::Main,
            signal: GameSignal::ScoreUpdate,
            target: SceneNode::Hud,
            method: Handler::HudScoreUpdate,
        },
    );
    routes.push(
        SignalRoute {
            source: SceneNode::Main,
            signal: GameSignal::ShowGameOver,
            target: SceneNode::Hud,
            method: Handler::HudShowGameOver,
        },
    );
    assert(routes@ =~= signal_routes_spec());
    routes
}

/// Each timer's timeout is wired exactly once, to the main scene's handler
/// for that timer; and each signal that the main scene emits reaches the
/// display's method of the same name.
pub proof fn lemma_routes_reach_handlers()
    ensures
        forall|t: GameTimer|
            #![trigger timer_handler(t)]
            exists|i: int|
                0 <= i < signal_routes_spec().len() && #[trigger] signal_routes_spec()[i]
                    == (SignalRoute {
                    source: SceneNode::Timer(t),
                    signal: GameSignal::Timeout,
                    target: SceneNode::Main,
                    method: timer_handler(t),
                }),
        forall|i: int, j: int|
            0 <= i < signal_routes_spec().len() && 0 <= j < signal_routes_spec().len()
                && signal_routes_spec()[i].source == signal_routes_spec()[j].source
                && signal_routes_spec()[i].signal == signal_routes_spec()[j].signal ==> i == j,
        forall|i: int|
            0 <= i < signal_routes_spec().len() && (#[trigger] signal_routes_spec()[i]).source
                == SceneNode::Main ==> signal_routes_spec()[i].target == SceneNode::Hud
                && signal_routes_spec()[i].method.spec_name()
                == signal_routes_spec()[i].signal.spec_name(),
{
    let r = signal_routes_spec();
    assert forall|t: GameTimer|
        #![trigger timer_handler(t)]
        exists|i: int|
            0 <= i < signal_routes_spec().len() && #[trigger] signal_routes_spec()[i]
                == (SignalRoute {
                source: SceneNode::Timer(t),
                signal: GameSignal::Timeout,
                target: SceneNode::Main,
                method: timer_handler(t),
            }) by {
        match t {
            GameTimer::StartDelay => assert(r[1] == r[1]),
            GameTimer::Score => assert(r[2] == r[2]),
            GameTimer::Spawn => assert(r[3] == r[3]),
        }
    }
}

/// The node whose method a handler is: the main scene's handlers belong to
/// the main scene, the display's to the display.
pub open spec fn handler_owner(h: Handler) -> SceneNode {
    match h {
        Handler::GameOver => SceneNode::Main,
        Handler::StartDelayTimeout => SceneNode::Main,
        Handler::ScoreIncrement => SceneNode::Main,
        Handler::SpawnTimerTimeout => SceneNode::Main,
        Handler::NewGame => SceneNode::Main,
        Handler::HudScoreUpdate => SceneNode::Hud,
        Handler::HudShowGameOver => SceneNode::Hud,
    }
}

/// Every connection calls a method on the node that has it, and never on
/// the node that emits the signal; pressing the display's start button
/// starts a new game on the main scene, and a hit of the player ends the
/// game on the main scene.
pub proof fn lemma_routes_reach_owners()
    ensures
        forall|i: int|
            0 <= i < signal_routes_spec().len() ==> (#[trigger] signal_routes_spec()[i]).target
                == handler_owner(signal_routes_spec()[i].method)
                && signal_routes_spec()[i].source != signal_routes_spec()[i].target,
        signal_routes_spec().contains(
            SignalRoute {
                source: SceneNode::Hud,
                signal: GameSignal::StartGame,
                target: SceneNode::Main,
                method: Handler::NewGame,
            },
        ),
        signal_routes_spec().contains(
            SignalRoute {
                source: SceneNode::Player,
                signal: GameSignal::Hit,
                target: SceneNode::Main,
                method: Handler::GameOver,
            },
        ),
{
    let r = signal_routes_spec();
    assert(r[4] == r[4]);
    assert(r[0] == r[0]);
}

} // verus!
