//! The main scene: it builds the game's nodes, wires their signals, and
//! runs a round: a new game resets the score and starts the player, a delay
//! later the spawn and score timers run, each score tick adds a point, and
//! a hit of the player ends the round.

use vstd::prelude::*;
use vstd::string::StringExecFns;

verus! {

/// The main scene's timers.
#[derive(Clone, Copy, Debug, PartialEq, Eq, Structural)]
pub enum GameTimer {
    /// "SpawnTimer": each timeout spawns a mob.
    Spawn,
    /// "ScoreTimer": each timeout adds a point.
    Score,
    /// "StartDelay": a one-shot delay between a new game and the first spawn.
    StartDelay,
}

impl GameTimer {
    /// Whether the timer fires once per start.
    pub open spec fn spec_one_shot(self) -> bool {
        self == GameTimer::StartDelay
    }

    /// Whether the timer fires once per start: only the start delay does.
    pub fn one_shot(&self) -> (b: bool)
        ensures
            b == self.spec_one_shot(),
    {
        match self {
            GameTimer::StartDelay => true,
            _ => false,
        }
    }

    /// The name of the timer's node.
    pub open spec fn spec_node_name(self) -> Seq<char> {
        match self {
            GameTimer::Spawn => seq!['S', 'p', 'a', 'w', 'n', 'T', 'i', 'm', 'e', 'r'],
            GameTimer::Score => seq!['S', 'c', 'o', 'r', 'e', 'T', 'i', 'm', 'e', 'r'],
            GameTimer::StartDelay => seq!['S', 't', 'a', 'r', 't', 'D', 'e', 'l', 'a', 'y'],
        }
    }

    /// The name of the timer's node: "SpawnTimer", "ScoreTimer" or "StartDelay".
    pub fn node_name(&self) -> (name: String)
        ensures
            name@ == self.spec_node_name(),
    {
        proof {
            reveal_strlit("SpawnTimer");
            reveal_strlit("ScoreTimer");
            reveal_strlit("StartDelay");
        }
        match self {
            GameTimer::Spawn => String::from_str("SpawnTimer"),
            GameTimer::Score => String::from_str("ScoreTimer"),
            GameTimer::StartDelay => String::from_str("StartDelay"),
        }
    }
}

/// The steps that the main scene's handlers ask of the scene tree.
#[derive(Clone, Copy, Debug, PartialEq, Eq, Structural)]
pub enum GameAction {
    /// Free every node of the "mobs" group.
    ClearMobs,
    /// Set the display's score label to the decimal text of this score.
    ShowScore(i32),
    /// Give the background a random hue (saturation 0.75, value 0.2).
    RandomizeBackground,
    /// Play the background music from its start.
    PlayMusic,
    /// Stop the background music.
    StopMusic,
    /// Start the player at the start position.
    StartPlayer,
    /// Start (or restart) a timer.
    StartTimer(GameTimer),
    /// Stop a timer.
    StopTimer(GameTimer),
    /// Emit "score_update" with this score.
    EmitScoreUpdate(i32),
    /// Emit "show_game_over".
    EmitShowGameOver,
    /// Quit the game.
    Quit,
}

/// The nodes that the main scene adds when it is readied, in order.
#[derive(Clone, Copy, Debug, PartialEq, Eq, Structural)]
pub enum SetupStep {
    /// A timer node, one-shot where the timer is.
    AddTimer(GameTimer),
    /// The rectangle path along the screen's edges ("MobPath") with its
    /// looping, rotating follower ("MobSpawnLocation").
    AddMobPath,
    /// The "Background" color rectangle.
    AddBackground,
    /// An instance of the display's scene.
    AddHud,
    /// Warn that no music is registered.
    WarnNoMusic,
    /// Warn that the registered music is not found.
    WarnMusicMissing,
    /// A "Background Music" player that holds the registered music.
    AddMusic,
    /// An instance of the player's scene.
    AddPlayer,
}

/// The scenes that the main scene loads by path.
#[derive(Clone, Copy, Debug, PartialEq, Eq, Structural)]
pub enum SceneResource {
    Player,
    Mob,
    Hud,
}

/// The main scene's state: the paths of the scenes and music it was given,
/// the score, and which of its timers and music run.
pub struct MainScene {
    player: String,
    mob: String,
    hud: String,
    background_music: Option<String>,
    score: i32,
    spawn_timer_running: bool,
    score_timer_running: bool,
    start_delay_running: bool,
    music_playing: bool,
}

/// The abstract state of the main scene.
pub struct SceneView {
    pub player: Seq<char>,
    pub mob: Seq<char>,
    pub hud: Seq<char>,
    pub music: Option<Seq<char>>,
    pub score: int,
    pub spawn_timer_running: bool,
    pub score_timer_running: bool,
    pub start_delay_running: bool,
    pub music_playing: bool,
}

impl View for MainScene {
    type V = SceneView;

    closed spec fn view(&self) -> SceneView {
        SceneView {
            player: self.player@,
            mob: self.mob@,
            hud: self.hud@,
            music: match self.background_music {
                Some(m) => Some(m@),
                None => None,
            },
            score: self.score as int,
            spawn_timer_running: self.spawn_timer_running,
            score_timer_running: self.score_timer_running,
            start_delay_running: self.start_delay_running,
            music_playing: self.music_playing,
        }
    }
}

/// The state after a new game: score zero, the start delay running, the
/// music playing where there is music.
pub open spec fn new_game_view(v: SceneView) -> SceneView {
    SceneView { score: 0, start_delay_running: true, music_playing: v.music is Some, ..v }
}

/// The steps of a new game: clear the mobs, show score 0, a random
/// background, the music where there is music, the player started, and the
/// start delay.
pub open spec fn new_game_actions(v: SceneView) -> Seq<GameAction> {
    seq![GameAction::ClearMobs, GameAction::ShowScore(0), GameAction::RandomizeBackground] + (
    if v.music is Some {
        seq![GameAction::PlayMusic]
    } else {
        Seq::empty()
    }) + seq![GameAction::StartPlayer, GameAction::StartTimer(GameTimer::StartDelay)]
}

/// The state after a score tick: one point more.
pub open spec fn score_tick_view(v: SceneView) -> SceneView {
    SceneView { score: v.score + 1, ..v }
}

/// The steps of a score tick: announce the new score, and give the
/// background a random hue when the new score is a multiple of ten.
pub open spec fn score_tick_actions(v: SceneView) -> Seq<GameAction> {
    seq![GameAction::EmitScoreUpdate((v.score + 1) as i32)] + (if (v.score + 1) % 10 == 0 {
        seq![GameAction::RandomizeBackground]
    } else {
        Seq::empty()
    })
}

/// The state after the start delay: spawn and score timers running, the
/// one-shot delay over.
pub open spec fn start_delay_timeout_view(v: SceneView) -> SceneView {
    SceneView {
        spawn_timer_running: true,
        score_timer_running: true,
        start_delay_running: false,
        ..v
    }
}

/// The steps when the start delay runs out: start spawning and scoring.
pub open spec fn start_delay_timeout_actions() -> Seq<GameAction> {
    seq![GameAction::StartTimer(GameTimer::Spawn), GameAction::StartTimer(GameTimer::Score)]
}

/// The state after a game over: spawn and score timers stopped, no music.
pub open spec fn game_over_view(v: SceneView) -> SceneView {
    SceneView {
        spawn_timer_running: false,
        score_timer_running: false,
        music_playing: false,
        ..v
    }
}

/// The steps of a game over: stop spawning and scoring, announce it, and
/// stop the music where there is music.
pub open spec fn game_over_actions(v: SceneView) -> Seq<GameAction> {
    seq![
        GameAction::StopTimer(GameTimer::Spawn),
        GameAction::StopTimer(GameTimer::Score),
        GameAction::EmitShowGameOver,
    ] + (if v.music is Some {
        seq![GameAction::StopMusic]
    } else {
        Seq::empty()
    })
}

/// The nodes that the main scene adds, given whether its music is found:
/// the three timers, the mob path, the background, the display, then the
/// music or a warning, then the player.
pub open spec fn setup_steps_spec(music: Option<Seq<char>>, music_found: bool) -> Seq<SetupStep> {
    seq![
        SetupStep::AddTimer(GameTimer::Spawn),
        SetupStep::AddTimer(GameTimer::Score),
        SetupStep::AddTimer(GameTimer::StartDelay),
        SetupStep::AddMobPath,
        SetupStep::AddBackground,
        SetupStep::AddHud,
    ] + seq![
        if music is None {
            SetupStep::WarnNoMusic
        } else if !music_found {
            SetupStep::WarnMusicMissing
        } else {
            SetupStep::AddMusic
        },
    ] + seq![SetupStep::AddPlayer]
}

/// Whether the scene is in a state that its handlers keep: the spawn and
/// score timers run together, and music plays only where there is music.
pub open spec fn scene_consistent(v: SceneView) -> bool {
    &&& v.spawn_timer_running == v.score_timer_running
    &&& v.music_playing ==> v.music is Some
    &&& 0 <= v.score
}

/// The text of a load error of a scene: not defined, or failed to load.
pub open spec fn load_error_text(kind: SceneResource, exists: bool) -> Seq<char> {
    match kind {
        SceneResource::Player => if exists {
            seq![
                'F', 'a', 'i', 'l', 'e', 'd', ' ', 't', 'o', ' ', 'l', 'o', 'a', 'd', ' ', 'P', 'l',
                'a', 'y', 'e', 'r', ' ', 'r', 'e', 's', 'o', 'u', 'r', 'c', 'e',
            ]
        } else {
            seq![
                'P', 'l', 'a', 'y', 'e', 'r', ' ', 's', 'o', 'u', 'r', 'c', 'e', ' ', 'n', 'o', 't',
                ' ', 'd', 'e', 'f', 'i', 'n', 'e', 'd',
            ]
        },
        SceneResource::Mob => if exists {
            seq![
                'F', 'a', 'i', 'l', 'e', 'd', ' ', 't', 'o', ' ', 'l', 'o', 'a', 'd', ' ', 'M', 'o',
                'b', ' ', 'r', 'e', 's', 'o', 'u', 'r', 'c', 'e',
            ]
        } else {
            seq![
                'M', 'o', 'b', ' ', 's', 'o', 'u', 'r', 'c', 'e', ' ', 'n', 'o', 't', ' ', 'd', 'e',
                'f', 'i', 'n', 'e', 'd',
            ]
        },
        SceneResource::Hud => if exists {
            seq![
                'F', 'a', 'i', 'l', 'e', 'd', ' ', 't', 'o', ' ', 'l', 'o', 'a', 'd', ' ', 'H', 'u',
                'd', ' ', 'r', 'e', 's', 'o', 'u', 'r', 'c', 'e',
            ]
        } else {
            seq![
                'H', 'u', 'd', ' ', 'r', 'e', 's', 'o', 'u', 'r', 'c', 'e', ' ', 'n', 'o', 't', ' ',
                'v', 'a', 'l', 'i', 'd',
            ]
        },
    }
}

/// The text when a loaded scene cannot be instanced.
pub open spec fn not_attached_text() -> Seq<char> {
    seq![
        'R', 'e', 's', 'o', 'u', 'r', 'c', 'e', 's', ' ', 'n', 'o', 't', ' ', 'a', 't', 't', 'a',
        'c', 'h', 'e', 'd',
    ]
}

/// The warning when no music is registered.
pub open spec fn no_music_text() -> Seq<char> {
    seq![
        'N', 'o', ' ', 'm', 'u', 's', 'i', 'c', ' ', 'r', 'e', 'g', 'i', 's', 't', 'e', 'r', 'e',
        'd',
    ]
}

/// The start of the warning when the registered music is not found; the
/// path follows it.
pub open spec fn music_missing_prefix() -> Seq<char> {
    seq![
        'm', 'u', 's', 'i', 'c', ' ', 's', 'o', 'u', 'r', 'c', 'e', ' ', 'n', 'o', 't', ' ', 'f',
        'o', 'u', 'n', 'd', ' ', 'a', 't', ':', '\n', '\t',
    ]
}

/// Whether a scene loaded by path can be used: it must exist and load.
/// `loaded` says whether loading it gave a resource; it is only looked at
/// where the scene exists.
pub fn check_scene_load(kind: SceneResource, exists: bool, loaded: bool) -> (r: Result<(), String>)
    ensures
        r is Ok <==> exists && loaded,
        r matches Err(m) ==> m@ == load_error_text(kind, exists),
{
    proof {
        reveal_strlit("Failed to load Player resource");
        reveal_strlit("Player source not defined");
        reveal_strlit("Failed to load Mob resource");
        reveal_strlit("Mob source not defined");
        reveal_strlit("Failed to load Hud resource");
        reveal_strlit("Hud resource not valid");
    }
    if exists && loaded {
        return Ok(());
    }
    let text = match kind {
        SceneResource::Player => if exists {
            "Failed to load Player resource"
        } else {
            "Player source not defined"
        },
        SceneResource::Mob => if exists {
            "Failed to load Mob resource"
        } else {
            "Mob source not defined"
        },
        SceneResource::Hud => if exists {
            "Failed to load Hud resource"
        } else {
            "Hud resource not valid"
        },
    };
    Err(String::from_str(text))
}

/// Whether a loaded scene can be instanced; the error names the cause.
pub fn check_instantiable(can_instance: bool) -> (r: Result<(), String>)
    ensures
        r is Ok <==> can_instance,
        r matches Err(m) ==> m@ == not_attached_text(),
{
    proof {
        reveal_strlit("Resources not attached");
    }
    if can_instance {
        Ok(())
    } else {
        Err(String::from_str("Resources not attached"))
    }
}

/// The warning when no music is registered: "No music registered".
pub fn no_music_message() -> (text: String)
    ensures
        text@ == no_music_text(),
{
    proof {
        reveal_strlit("No music registered");
    }
    String::from_str("No music registered")
}

/// The warning when the music at `path` is not found.
pub fn music_missing_message(path: &String) -> (text: String)
    ensures
        text@ == music_missing_prefix() + path@,
{
    proof {
        reveal_strlit("music source not found at:\n\t");
    }
    let text = String::from_str("music source not found at:\n\t");
    text.concat(path.as_str())
}

/// The state after `k` score ticks.
pub open spec fn after_ticks(v: SceneView, k: nat) -> SceneView
    decreases k,
{
    if k == 0 {
        v
    } else {
        score_tick_view(after_ticks(v, (k - 1) as nat))
    }
}

/// Every handler keeps the scene consistent: the spawn and score timers
/// run together, music plays only where there is music, and the score is
/// never negative.
pub proof fn lemma_handlers_keep_consistency(v: SceneView, path: Seq<char>)
    requires
        scene_consistent(v),
    ensures
        scene_consistent(new_game_view(v)),
        scene_consistent(score_tick_view(v)),
        scene_consistent(start_delay_timeout_view(v)),
        scene_consistent(game_over_view(v)),
        scene_consistent(SceneView { music: Some(path), ..v }),
        scene_consistent(SceneView { player: path, ..v }),
        scene_consistent(SceneView { mob: path, ..v }),
        scene_consistent(SceneView { hud: path, ..v }),
{
}

/// A score tick changes the background exactly when the new score is a
/// multiple of ten, and always announces the new score first.
pub proof fn lemma_tick_background(v: SceneView)
    ensures
        score_tick_actions(v).contains(GameAction::RandomizeBackground) <==> (v.score + 1) % 10
            == 0,
        score_tick_actions(v)[0] == GameAction::EmitScoreUpdate((v.score + 1) as i32),
{
    let acts = score_tick_actions(v);
    if (v.score + 1) % 10 == 0 {
        assert(acts[1] == GameAction::RandomizeBackground);
    } else {
        assert(acts =~= seq![GameAction::EmitScoreUpdate((v.score + 1) as i32)]);
        if acts.contains(GameAction::RandomizeBackground) {
            let i = choose|i: int| 0 <= i < acts.len() && acts[i] == GameAction::RandomizeBackground;
            assert(i == 0);
        }
    }
}

/// After a new game, the score counts the score ticks since: after `k`
/// ticks it is `k`, and the timers and music are as the new game left them.
pub proof fn lemma_score_counts_ticks(v: SceneView, k: nat)
    ensures
        after_ticks(new_game_view(v), k).score == k,
        after_ticks(new_game_view(v), k) == (SceneView { score: k as int, ..new_game_view(v) }),
    decreases k,
{
    if k > 0 {
        lemma_score_counts_ticks(v, (k - 1) as nat);
    }
}

/// The `k`-th score tick after a new game announces the score `k`.
pub proof fn lemma_tick_announces_count(v: SceneView, k: nat)
    requires
        1 <= k <= i32::MAX,
    ensures
        score_tick_actions(after_ticks(new_game_view(v), (k - 1) as nat))[0]
            == GameAction::EmitScoreUpdate(k as i32),
{
    lemma_score_counts_ticks(v, (k - 1) as nat);
}

/// A round: a new game resets the score and starts the delay; when the
/// delay runs out, spawning and scoring run; a game over stops them and
/// the music, and keeps the score that was reached.
pub proof fn lemma_round(v: SceneView, k: nat)
    ensures
        ({
            let started = new_game_view(v);
            let running = start_delay_timeout_view(started);
            let played = after_ticks(running, k);
            let over = game_over_view(played);
            &&& started.score == 0
            &&& started.start_delay_running
            &&& running.spawn_timer_running && running.score_timer_running
            &&& !running.start_delay_running
            &&& played.score == k
            &&& !over.spawn_timer_running && !over.score_timer_running
            &&& !over.music_playing
            &&& over.score == k
        }),
{
    let running = start_delay_timeout_view(new_game_view(v));
    lemma_ticks_keep_timers(running, k);
}

/// Score ticks change nothing but the score, which they raise by one each.
pub proof fn lemma_ticks_keep_timers(v: SceneView, k: nat)
    ensures
        after_ticks(v, k) == (SceneView { score: v.score + k, ..v }),
    decreases k,
{
    if k > 0 {
        lemma_ticks_keep_timers(v, (k - 1) as nat);
    }
}

/// Whether `x` stands exactly once in `s`.
pub open spec fn occurs_once<T>(s: Seq<T>, x: T) -> bool {
    exists|i: int|
        0 <= i < s.len() && #[trigger] s[i] == x && forall|j: int|
            0 <= j < s.len() && #[trigger] s[j] == x ==> j == i
}

/// The steps of a new game, written out for each case of the music.
proof fn lemma_new_game_shape(v: SceneView)
    ensures
        v.music is Some ==> new_game_actions(v) == seq![
            GameAction::ClearMobs,
            GameAction::ShowScore(0),
            GameAction::RandomizeBackground,
            GameAction::PlayMusic,
            GameAction::StartPlayer,
            GameAction::StartTimer(GameTimer::StartDelay),
        ],
        v.music is None ==> new_game_actions(v) == seq![
            GameAction::ClearMobs,
            GameAction::ShowScore(0),
            GameAction::RandomizeBackground,
            GameAction::StartPlayer,
            GameAction::StartTimer(GameTimer::StartDelay),
        ],
{
    if v.music is Some {
        assert(new_game_actions(v) =~= seq![
            GameAction::ClearMobs,
            GameAction::ShowScore(0),
            GameAction::RandomizeBackground,
            GameAction::PlayMusic,
            GameAction::StartPlayer,
            GameAction::StartTimer(GameTimer::StartDelay),
        ]);
    } else {
        assert(new_game_actions(v) =~= seq![
            GameAction::ClearMobs,
            GameAction::ShowScore(0),
            GameAction::RandomizeBackground,
            GameAction::StartPlayer,
            GameAction::StartTimer(GameTimer::StartDelay),
        ]);
    }
}

/// A new game resets the score to 0 and sets the score label exactly once,
/// to that new score.
pub proof fn lemma_new_game_shows_new_score(v: SceneView)
    ensures
        new_game_view(v).score == 0,
        forall|i: int|
            0 <= i < new_game_actions(v).len() ==> (#[trigger] new_game_actions(v)[i] matches GameAction::ShowScore(n)
                ==> n == new_game_view(v).score),
        occurs_once(new_game_actions(v), GameAction::ShowScore(0)),
{
    lemma_new_game_shape(v);
    assert(new_game_actions(v)[1] == GameAction::ShowScore(0));
}

/// A new game clears the mobs, recolors the background, starts the player
/// and starts the start delay, each exactly once, and plays the music
/// exactly when there is music.
pub proof fn lemma_new_game_steps(v: SceneView)
    ensures
        occurs_once(new_game_actions(v), GameAction::ClearMobs),
        occurs_once(new_game_actions(v), GameAction::RandomizeBackground),
        occurs_once(new_game_actions(v), GameAction::StartPlayer),
        occurs_once(new_game_actions(v), GameAction::StartTimer(GameTimer::StartDelay)),
        new_game_actions(v).contains(GameAction::PlayMusic) <==> v.music is Some,
{
    lemma_new_game_shape(v);
    let acts = new_game_actions(v);
    assert(acts[0] == GameAction::ClearMobs);
    assert(acts[2] == GameAction::RandomizeBackground);
    if v.music is Some {
        assert(acts[3] == GameAction::PlayMusic);
        assert(acts[4] == GameAction::StartPlayer);
        assert(acts[5] == GameAction::StartTimer(GameTimer::StartDelay));
    } else {
        assert(acts[3] == GameAction::StartPlayer);
        assert(acts[4] == GameAction::StartTimer(GameTimer::StartDelay));
        if acts.contains(GameAction::PlayMusic) {
            let i = choose|i: int| 0 <= i < acts.len() && acts[i] == GameAction::PlayMusic;
            assert(false);
        }
    }
}

/// A new game asks for nothing but its own steps: no timer is stopped, no
/// score announced, no music stopped; the spawn and score timers are left
/// as they were and the start delay runs.
pub proof fn lemma_new_game_nothing_else(v: SceneView)
    ensures
        forall|i: int|
            0 <= i < new_game_actions(v).len() ==> {
                let a = #[trigger] new_game_actions(v)[i];
                a == GameAction::ClearMobs || a == GameAction::ShowScore(0) || a
                    == GameAction::RandomizeBackground || a == GameAction::PlayMusic || a
                    == GameAction::StartPlayer || a == GameAction::StartTimer(GameTimer::StartDelay)
            },
        new_game_view(v).start_delay_running,
        new_game_view(v).spawn_timer_running == v.spawn_timer_running,
        new_game_view(v).score_timer_running == v.score_timer_running,
{
    lemma_new_game_shape(v);
}

/// A score tick announces the new score exactly once, recolors the
/// background exactly when the new score is a multiple of ten, and asks for
/// nothing else: the music, the timers and the player are left alone.
pub proof fn lemma_score_tick_only_announces(v: SceneView)
    ensures
        score_tick_view(v).score == v.score + 1,
        occurs_once(score_tick_actions(v), GameAction::EmitScoreUpdate(score_tick_view(v).score as i32)),
        forall|i: int|
            0 <= i < score_tick_actions(v).len() ==> {
                let a = #[trigger] score_tick_actions(v)[i];
                a == GameAction::EmitScoreUpdate((v.score + 1) as i32) || a
                    == GameAction::RandomizeBackground
            },
        score_tick_actions(v).contains(GameAction::RandomizeBackground) <==> (v.score + 1) % 10
            == 0,
        score_tick_view(v).music_playing == v.music_playing,
        score_tick_view(v).spawn_timer_running == v.spawn_timer_running,
        score_tick_view(v).score_timer_running == v.score_timer_running,
        score_tick_view(v).start_delay_running == v.start_delay_running,
{
    let acts = score_tick_actions(v);
    let e = GameAction::EmitScoreUpdate((v.score + 1) as i32);
    if (v.score + 1) % 10 == 0 {
        assert(acts =~= seq![e, GameAction::RandomizeBackground]);
    } else {
        assert(acts =~= seq![e]);
    }
    assert(acts[0] == e);
    lemma_tick_background(v);
}

/// A game over stops the spawn timer and the score timer and announces the
/// game over, each exactly once, whatever the state; it stops the music
/// exactly when there is music, and asks for nothing else. Afterwards
/// neither timer runs, no music plays, and the score reached is kept.
pub proof fn lemma_game_over_stops_round(v: SceneView)
    ensures
        occurs_once(game_over_actions(v), GameAction::StopTimer(GameTimer::Spawn)),
        occurs_once(game_over_actions(v), GameAction::StopTimer(GameTimer::Score)),
        occurs_once(game_over_actions(v), GameAction::EmitShowGameOver),
        game_over_actions(v).contains(GameAction::StopMusic) <==> v.music is Some,
        forall|i: int|
            0 <= i < game_over_actions(v).len() ==> {
                let a = #[trigger] game_over_actions(v)[i];
                a == GameAction::StopTimer(GameTimer::Spawn) || a == GameAction::StopTimer(
                    GameTimer::Score,
                ) || a == GameAction::EmitShowGameOver || a == GameAction::StopMusic
            },
        !game_over_view(v).spawn_timer_running,
        !game_over_view(v).score_timer_running,
        !game_over_view(v).music_playing,
        game_over_view(v).score == v.score,
{
    let acts = game_over_actions(v);
    if v.music is Some {
        assert(acts =~= seq![
            GameAction::StopTimer(GameTimer::Spawn),
            GameAction::StopTimer(GameTimer::Score),
            GameAction::EmitShowGameOver,
            GameAction::StopMusic,
        ]);
        assert(acts[3] == GameAction::StopMusic);
    } else {
        assert(acts =~= seq![
            GameAction::StopTimer(GameTimer::Spawn),
            GameAction::StopTimer(GameTimer::Score),
            GameAction::EmitShowGameOver,
        ]);
        if acts.contains(GameAction::StopMusic) {
            let i = choose|i: int| 0 <= i < acts.len() && acts[i] == GameAction::StopMusic;
            assert(false);
        }
    }
    assert(acts[0] == GameAction::StopTimer(GameTimer::Spawn));
    assert(acts[1] == GameAction::StopTimer(GameTimer::Score));
    assert(acts[2] == GameAction::EmitShowGameOver);
}

/// When the start delay runs out, the spawn and score timers are started,
/// each exactly once, and nothing else is asked; afterwards both run and
/// the delay is over.
pub proof fn lemma_start_delay_starts_round(v: SceneView)
    ensures
        occurs_once(start_delay_timeout_actions(), GameAction::StartTimer(GameTimer::Spawn)),
        occurs_once(start_delay_timeout_actions(), GameAction::StartTimer(GameTimer::Score)),
        start_delay_timeout_actions().len() == 2,
        start_delay_timeout_view(v).spawn_timer_running,
        start_delay_timeout_view(v).score_timer_running,
        !start_delay_timeout_view(v).start_delay_running,
        start_delay_timeout_view(v).score == v.score,
{
    let acts = start_delay_timeout_actions();
    assert(acts[0] == GameAction::StartTimer(GameTimer::Spawn));
    assert(acts[1] == GameAction::StartTimer(GameTimer::Score));
}

/// The setup steps, written out.
proof fn lemma_setup_shape(music: Option<Seq<char>>, music_found: bool)
    ensures
        setup_steps_spec(music, music_found) == seq![
            SetupStep::AddTimer(GameTimer::Spawn),
            SetupStep::AddTimer(GameTimer::Score),
            SetupStep::AddTimer(GameTimer::StartDelay),
            SetupStep::AddMobPath,
            SetupStep::AddBackground,
            SetupStep::AddHud,
            if music is None {
                SetupStep::WarnNoMusic
            } else if !music_found {
                SetupStep::WarnMusicMissing
            } else {
                SetupStep::AddMusic
            },
            SetupStep::AddPlayer,
        ],
{
    assert(setup_steps_spec(music, music_found) =~= seq![
        SetupStep::AddTimer(GameTimer::Spawn),
        SetupStep::AddTimer(GameTimer::Score),
        SetupStep::AddTimer(GameTimer::StartDelay),
        SetupStep::AddMobPath,
        SetupStep::AddBackground,
        SetupStep::AddHud,
        if music is None {
            SetupStep::WarnNoMusic
        } else if !music_found {
            SetupStep::WarnMusicMissing
        } else {
            SetupStep::AddMusic
        },
        SetupStep::AddPlayer,
    ]);
}

/// The setup step that deals with the music.
pub open spec fn music_setup_step(music: Option<Seq<char>>, music_found: bool) -> SetupStep {
    if music is None {
        SetupStep::WarnNoMusic
    } else if !music_found {
        SetupStep::WarnMusicMissing
    } else {
        SetupStep::AddMusic
    }
}

/// A step that `x` is not equal to stands once in `s` where it stands at
/// `i` and nowhere else.
proof fn lemma_once_at<T>(s: Seq<T>, x: T, i: int)
    requires
        0 <= i < s.len(),
        s[i] == x,
        forall|j: int| 0 <= j < s.len() && j != i ==> s[j] != x,
    ensures
        occurs_once(s, x),
{
}

/// Whatever the music and whether it is found, the setup adds each of the
/// three timers exactly once.
pub proof fn lemma_setup_adds_each_timer_once(music: Option<Seq<char>>, music_found: bool)
    ensures
        occurs_once(setup_steps_spec(music, music_found), SetupStep::AddTimer(GameTimer::Spawn)),
        occurs_once(setup_steps_spec(music, music_found), SetupStep::AddTimer(GameTimer::Score)),
        occurs_once(
            setup_steps_spec(music, music_found),
            SetupStep::AddTimer(GameTimer::StartDelay),
        ),
{
    lemma_setup_shape(music, music_found);
    let s = setup_steps_spec(music, music_found);
    let m = music_setup_step(music, music_found);
    assert(s =~= seq![
        SetupStep::AddTimer(GameTimer::Spawn),
        SetupStep::AddTimer(GameTimer::Score),
        SetupStep::AddTimer(GameTimer::StartDelay),
        SetupStep::AddMobPath,
        SetupStep::AddBackground,
        SetupStep::AddHud,
        m,
        SetupStep::AddPlayer,
    ]);
    lemma_once_at(s, SetupStep::AddTimer(GameTimer::Spawn), 0);
    lemma_once_at(s, SetupStep::AddTimer(GameTimer::Score), 1);
    lemma_once_at(s, SetupStep::AddTimer(GameTimer::StartDelay), 2);
}

/// Whatever the music and whether it is found, the setup adds the mob
/// path, the background, the display and the player exactly once each,
/// the player last.
pub proof fn lemma_setup_adds_each_node_once(music: Option<Seq<char>>, music_found: bool)
    ensures
        occurs_once(setup_steps_spec(music, music_found), SetupStep::AddMobPath),
        occurs_once(setup_steps_spec(music, music_found), SetupStep::AddBackground),
        occurs_once(setup_steps_spec(music, music_found), SetupStep::AddHud),
        occurs_once(setup_steps_spec(music, music_found), SetupStep::AddPlayer),
        setup_steps_spec(music, music_found).last() == SetupStep::AddPlayer,
{
    lemma_setup_shape(music, music_found);
    let s = setup_steps_spec(music, music_found);
    let m = music_setup_step(music, music_found);
    assert(s =~= seq![
        SetupStep::AddTimer(GameTimer::Spawn),
        SetupStep::AddTimer(GameTimer::Score),
        SetupStep::AddTimer(GameTimer::StartDelay),
        SetupStep::AddMobPath,
        SetupStep::AddBackground,
        SetupStep::AddHud,
        m,
        SetupStep::AddPlayer,
    ]);
    lemma_once_at(s, SetupStep::AddMobPath, 3);
    lemma_once_at(s, SetupStep::AddBackground, 4);
    lemma_once_at(s, SetupStep::AddHud, 5);
    lemma_once_at(s, SetupStep::AddPlayer, 7);
}

/// The music step of the setup: with no music, exactly one "no music"
/// warning; with music that is not found, exactly one "not found" warning;
/// with music that is found, the music player is added exactly once; and
/// never more than one of the three.
pub proof fn lemma_setup_music_step(music: Option<Seq<char>>, music_found: bool)
    ensures
        music is None ==> occurs_once(setup_steps_spec(music, music_found), SetupStep::WarnNoMusic),
        music is Some && !music_found ==> occurs_once(
            setup_steps_spec(music, music_found),
            SetupStep::WarnMusicMissing,
        ),
        music is Some && music_found ==> occurs_once(
            setup_steps_spec(music, music_found),
            SetupStep::AddMusic,
        ),
        setup_steps_spec(music, music_found).contains(SetupStep::AddMusic) <==> (music is Some
            && music_found),
        setup_steps_spec(music, music_found).contains(SetupStep::WarnNoMusic) <==> music is None,
        setup_steps_spec(music, music_found).contains(SetupStep::WarnMusicMissing) <==> (music is Some
            && !music_found),
        setup_steps_spec(music, music_found).len() == 8,
{
    lemma_setup_shape(music, music_found);
    let s = setup_steps_spec(music, music_found);
    assert(s[6] == s[6]);
    if s.contains(SetupStep::AddMusic) {
        let i = choose|i: int| 0 <= i < s.len() && s[i] == SetupStep::AddMusic;
        assert(i == 6);
    }
    if s.contains(SetupStep::WarnNoMusic) {
        let i = choose|i: int| 0 <= i < s.len() && s[i] == SetupStep::WarnNoMusic;
        assert(i == 6);
    }
    if s.contains(SetupStep::WarnMusicMissing) {
        let i = choose|i: int| 0 <= i < s.len() && s[i] == SetupStep::WarnMusicMissing;
        assert(i == 6);
    }
}

impl MainScene {
    /// A new main scene: no paths, no music, score zero, nothing running.
    pub fn new() -> (s: MainScene)
        ensures
            s@.player == Seq::<char>::empty(),
            s@.mob == Seq::<char>::empty(),
            s@.hud == Seq::<char>::empty(),
            s@.music is None,
            s@.score == 0,
            !s@.spawn_timer_running,
            !s@.score_timer_running,
            !s@.start_delay_running,
            !s@.music_playing,
            scene_consistent(s@),
    {
        MainScene {
            player: String::new(),
            mob: String::new(),
            hud: String::new(),
            background_music: None,
            score: 0,
            spawn_timer_running: false,
            score_timer_running: false,
            start_delay_running: false,
            music_playing: false,
        }
    }

    /// The path of the player's scene.
    pub fn player_path(&self) -> (p: &String)
        ensures
            p@ == self@.player,
    {
        &self.player
    }

    /// The path of the mobs' scene.
    pub fn mob_path(&self) -> (p: &String)
        ensures
            p@ == self@.mob,
    {
        &self.mob
    }

    /// The path of the display's scene.
    pub fn hud_path(&self) -> (p: &String)
        ensures
            p@ == self@.hud,
    {
        &self.hud
    }

    /// The path of the background music, if any.
    pub fn music_path(&self) -> (p: Option<&String>)
        ensures
            p is Some <==> self@.music is Some,
            p matches Some(m) ==> self@.music == Some(m@),
    {
        match &self.background_music {
            Some(m) => Some(m),
            None => None,
        }
    }

    /// The current score.
    pub fn score(&self) -> (s: i32)
        ensures
            s == self@.score,
    {
        self.score
    }

    /// Records the path of the player's scene.
    pub fn set_player_ref(&mut self, path: String)
        ensures
            final(self)@ == (SceneView { player: path@, ..old(self)@ }),
    {
        self.player = path;
    }

    /// Records the path of the mobs' scene.
    pub fn set_mob_ref(&mut self, path: String)
        ensures
            final(self)@ == (SceneView { mob: path@, ..old(self)@ }),
    {
        self.mob = path;
    }

    /// Records the path of the display's scene.
    pub fn set_hud_res(&mut self, path: String)
        ensures
            final(self)@ == (SceneView { hud: path@, ..old(self)@ }),
    {
        self.hud = path;
    }

    /// Records the path of the background music.
    pub fn set_music(&mut self, path: String)
        ensures
            final(self)@ == (SceneView { music: Some(path@), ..old(self)@ }),
    {
        self.background_music = Some(path);
    }

    /// The nodes to add when the scene is readied, given whether the
    /// registered music is found. The player's and the mobs' scenes must
    /// be set.
    pub fn setup_steps(&self, music_found: bool) -> (steps: Vec<SetupStep>)
        requires
            self@.player.len() > 0,
            self@.mob.len() > 0,
        ensures
            steps@ == setup_steps_spec(self@.music, music_found),
    {
        let mut steps: Vec<SetupStep> = Vec::new();
        steps.push(SetupStep::AddTimer(GameTimer::Spawn));
        steps.push(SetupStep::AddTimer(GameTimer::Score));
        steps.push(SetupStep::AddTimer(GameTimer::StartDelay));
        steps.push(SetupStep::AddMobPath);
        steps.push(SetupStep::AddBackground);
        steps.push(SetupStep::AddHud);
        match &self.background_music {
            None => steps.push(SetupStep::WarnNoMusic),
            Some(_) => {
                if !music_found {
                    steps.push(SetupStep::WarnMusicMissing);
                } else {
                    steps.push(SetupStep::AddMusic);
                }
            },
        }
        steps.push(SetupStep::AddPlayer);
        assert(steps@ =~= setup_steps_spec(self@.music, music_found));
        steps
    }

    /// The player was hit: the round ends.
    pub fn game_over(&mut self) -> (acts: Vec<GameAction>)
        ensures
            final(self)@ == game_over_view(old(self)@),
            acts@ == game_over_actions(old(self)@),
    {
        let mut acts: Vec<GameAction> = Vec::new();
        acts.push(GameAction::StopTimer(GameTimer::Spawn));
        acts.push(GameAction::StopTimer(GameTimer::Score));
        acts.push(GameAction::EmitShowGameOver);
        if self.background_music.is_some() {
            acts.push(GameAction::StopMusic);
        }
        self.spawn_timer_running = false;
        self.score_timer_running = false;
        self.music_playing = false;
        assert(acts@ =~= game_over_actions(old(self)@));
        acts
    }

    /// A new round begins.
    pub fn new_game(&mut self) -> (acts: Vec<GameAction>)
        ensures
            final(self)@ == new_game_view(old(self)@),
            acts@ == new_game_actions(old(self)@),
    {
        let mut acts: Vec<GameAction> = Vec::new();
        acts.push(GameAction::ClearMobs);
        self.score = 0;
        acts.push(GameAction::ShowScore(self.score));
        acts.push(GameAction::RandomizeBackground);
        let has_music = self.background_music.is_some();
        if has_music {
            acts.push(GameAction::PlayMusic);
        }
        acts.push(GameAction::StartPlayer);
        acts.push(GameAction::StartTimer(GameTimer::StartDelay));
        self.music_playing = has_music;
        self.start_delay_running = true;
        assert(acts@ =~= new_game_actions(old(self)@));
        acts
    }

    /// The score timer fired: one point more. The score must be below the
    /// largest `i32`.
    pub fn on_score_increment(&mut self) -> (acts: Vec<GameAction>)
        requires
            old(self)@.score < i32::MAX,
        ensures
            final(self)@ == score_tick_view(old(self)@),
            acts@ == score_tick_actions(old(self)@),
    {
        self.score = self.score + 1;
        let mut acts: Vec<GameAction> = Vec::new();
        acts.push(GameAction::EmitScoreUpdate(self.score));
        if self.score % 10 == 0 {
            acts.push(GameAction::RandomizeBackground);
        }
        assert(acts@ =~= score_tick_actions(old(self)@));
        acts
    }

    /// The start delay ran out: mobs spawn and points count from now on.
    pub fn on_start_delay_timeout(&mut self) -> (acts: Vec<GameAction>)
        ensures
            final(self)@ == start_delay_timeout_view(old(self)@),
            acts@ == start_delay_timeout_actions(),
    {
        let mut acts: Vec<GameAction> = Vec::new();
        acts.push(GameAction::StartTimer(GameTimer::Spawn));
        acts.push(GameAction::StartTimer(GameTimer::Score));
        self.spawn_timer_running = true;
        self.score_timer_running = true;
        self.start_delay_running = false;
        assert(acts@ =~= start_delay_timeout_actions());
        acts
    }

    /// An input event: the "exit_game" action quits, anything else does nothing.
    pub fn input(&self, exit_pressed: bool) -> (acts: Vec<GameAction>)
        ensures
            exit_pressed ==> acts@ == seq![GameAction::Quit],
            !exit_pressed ==> acts@.len() == 0,
    {
        let mut acts: Vec<GameAction> = Vec::new();
        if exit_pressed {
            acts.push(GameAction::Quit);
        }
        assert(exit_pressed ==> acts@ =~= seq![GameAction::Quit]);
        acts
    }
}

} // verus!
