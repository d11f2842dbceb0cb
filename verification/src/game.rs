//! The state of a session, how a session begins, and what the keys do.

use rand::rngs::ThreadRng;
use vstd::prelude::*;
use crate::alien::Alien;
use crate::arena::Arena;
use crate::asteroid::{is_spawn_point, Asteroid, AsteroidSize, ASTEROID_BIG_RADIUS};
use crate::collision::{rocks_wf, shots_wf};
use crate::particle::Particle;
use crate::projectile::Projectile;
use crate::score::Score;
use crate::ship::Ship;
use crate::sounds::{Sound, SoundEvent, Sounds};

verus! {

/// A session starts with this many asteroids.
pub const STARTING_ASTEROIDS: usize = 4;

/// With fewer asteroids than this, one is added in every frame.
pub const ASTEROID_FLOOR: usize = 4;

/// With fewer asteroids than this, one is added whenever the time between
/// two of them has passed.
pub const ASTEROID_CEILING: usize = 10;

/// The time between two asteroids that are added, in milliseconds.
pub const ASTEROID_RESPAWN_MS: u64 = 8_000;

/// The time between two rolls for an alien, in milliseconds.
pub const ALIEN_SPAWN_COOLDOWN_MS: u64 = 10_000;

/// A roll for an alien comes out with a chance of one in this.
pub const ALIEN_SPAWN_ROLLS: u32 = 10;

/// Where a session stands.
#[derive(Clone, Copy, Debug, PartialEq, Eq, Structural)]
pub enum SessionState {
    Running,
    Paused,
    GameOver,
}

/// The keys that the game knows; every other key is `Other`.
#[derive(Clone, Copy, Debug, PartialEq, Eq, Structural)]
pub enum Key {
    Up,
    Left,
    Right,
    Space,
    Escape,
    Q,
    R,
    Other,
}

/// The keys that are held down.
#[derive(Clone, Copy, Debug, PartialEq, Eq, Structural)]
pub struct HeldKeys {
    pub up: bool,
    pub left: bool,
    pub right: bool,
    pub space: bool,
}

/// What the host is to do after a key has gone down.
#[derive(Clone, Copy, Debug, PartialEq, Eq, Structural)]
pub enum KeyOutcome {
    /// Nothing.
    Handled,
    /// Keep the session's score if it is a new high score, then leave.
    Quit(u64),
    /// Keep the old session's score if it is a new high score; a new
    /// session has begun.
    Restarted(u64),
}

pub struct Game {
    pub arena: Arena,
    pub ship: Ship,
    pub asteroids: Vec<Asteroid>,
    pub player_projectiles: Vec<Projectile>,
    pub alien_projectiles: Vec<Projectile>,
    pub particles: Vec<Particle>,
    pub alien: Option<Alien>,
    pub score: Score,
    pub input_set: HeldKeys,
    pub last_update: u64,
    pub last_asteroid_instant: u64,
    pub last_alien_spawn_check_instant: u64,
    pub spawn_alien: bool,
    pub sounds: Sounds,
    pub state: SessionState,
}

/// What a key that goes down sets off.
#[derive(Clone, Copy, Debug, PartialEq, Eq, Structural)]
pub enum KeyAction {
    Thrust,
    Fire,
    Pause,
    Quit,
    Restart,
    Nothing,
}

/// What `key` sets off when it goes down. The ship's keys act only while
/// the session runs, and the fire key only when it was not held already;
/// the pause key acts unless the session is over; the quit key acts while
/// it is paused or over, and the restart key once it is over.
pub open spec fn key_action(state: SessionState, held: HeldKeys, key: Key) -> KeyAction {
    if key == Key::Up && state == SessionState::Running {
        KeyAction::Thrust
    } else if key == Key::Space && !held.space && state == SessionState::Running {
        KeyAction::Fire
    } else if state != SessionState::GameOver && key == Key::Escape {
        KeyAction::Pause
    } else if key == Key::Q && state != SessionState::Running {
        KeyAction::Quit
    } else if key == Key::R && state == SessionState::GameOver {
        KeyAction::Restart
    } else {
        KeyAction::Nothing
    }
}

/// Every particle of the sequence is well formed.
pub open spec fn dust_wf(dust: Seq<Particle>) -> bool {
    forall|i: int| 0 <= i < dust.len() ==> (#[trigger] dust[i]).wf()
}

/// None of the asteroids is destroyed.
pub open spec fn all_intact(rocks: Seq<Asteroid>) -> bool {
    forall|i: int| 0 <= i < rocks.len() ==> !(#[trigger] rocks[i]).destroyed
}

/// None of the projectiles is expired.
pub open spec fn all_flying(shots: Seq<Projectile>) -> bool {
    forall|i: int| 0 <= i < shots.len() ==> !(#[trigger] shots[i]).expired
}

/// None of the particles is expired.
pub open spec fn all_glowing(dust: Seq<Particle>) -> bool {
    forall|i: int| 0 <= i < dust.len() ==> !(#[trigger] dust[i]).expired
}

/// Every asteroid is a big one that has just appeared beside the arena.
pub open spec fn all_arriving(rocks: Seq<Asteroid>, arena: Arena) -> bool {
    forall|i: int| 0 <= i < rocks.len() ==> is_arriving(#[trigger] rocks[i], arena)
}

/// The asteroid is a big one that has just appeared beside the arena.
pub open spec fn is_arriving(rock: Asteroid, arena: Arena) -> bool {
    &&& rock.wf()
    &&& rock.size == AsteroidSize::BIG
    &&& !rock.destroyed
    &&& is_spawn_point(arena, ASTEROID_BIG_RADIUS as int, rock.position)
}

/// The keys that are held once `key` has gone down.
pub open spec fn held_after_down(held: HeldKeys, key: Key) -> HeldKeys {
    match key {
        Key::Up => HeldKeys { up: true, ..held },
        Key::Left => HeldKeys { left: true, ..held },
        Key::Right => HeldKeys { right: true, ..held },
        Key::Space => HeldKeys { space: true, ..held },
        _ => held,
    }
}

/// The keys that are held once `key` has come up.
pub open spec fn held_after_up(held: HeldKeys, key: Key) -> HeldKeys {
    match key {
        Key::Up => HeldKeys { up: false, ..held },
        Key::Left => HeldKeys { left: false, ..held },
        Key::Right => HeldKeys { right: false, ..held },
        Key::Space => HeldKeys { space: false, ..held },
        _ => held,
    }
}

/// Where the session stands after the pause key: a running session is
/// paused, a paused one runs again, and one that is over stays over.
pub open spec fn toggled(state: SessionState) -> SessionState {
    match state {
        SessionState::Running => SessionState::Paused,
        SessionState::Paused => SessionState::Running,
        SessionState::GameOver => SessionState::GameOver,
    }
}

/// The pause key pressed twice leaves the session where it stood.
pub proof fn lemma_pause_twice(state: SessionState)
    ensures
        toggled(toggled(state)) == state,
{
}

/// Whether every asteroid is well formed.
pub fn all_rocks_valid(asteroids: &Vec<Asteroid>) -> (valid: bool)
    ensures
        valid == rocks_wf(asteroids@),
{
    let mut i: usize = 0;
    while i < asteroids.len()
        invariant
            0 <= i <= asteroids@.len(),
            forall|k: int| 0 <= k < i ==> (#[trigger] asteroids@[k]).wf(),
        decreases asteroids@.len() - i,
    {
        if !asteroids[i].is_valid() {
            return false;
        }
        i = i + 1;
    }
    true
}

/// Whether every projectile is well formed.
pub fn all_shots_valid(projectiles: &Vec<Projectile>) -> (valid: bool)
    ensures
        valid == shots_wf(projectiles@),
{
    let mut i: usize = 0;
    while i < projectiles.len()
        invariant
            0 <= i <= projectiles@.len(),
            forall|k: int| 0 <= k < i ==> (#[trigger] projectiles@[k]).wf(),
        decreases projectiles@.len() - i,
    {
        if !projectiles[i].is_valid() {
            return false;
        }
        i = i + 1;
    }
    true
}

/// Whether every particle is well formed.
pub fn all_dust_valid(particles: &Vec<Particle>) -> (valid: bool)
    ensures
        valid == dust_wf(particles@),
{
    let mut i: usize = 0;
    while i < particles.len()
        invariant
            0 <= i <= particles@.len(),
            forall|k: int| 0 <= k < i ==> (#[trigger] particles@[k]).wf(),
        decreases particles@.len() - i,
    {
        if !particles[i].is_valid() {
            return false;
        }
        i = i + 1;
    }
    true
}

impl Game {
    pub open spec fn wf(self) -> bool {
        &&& self.arena.wf()
        &&& self.ship.wf()
        &&& rocks_wf(self.asteroids@)
        &&& shots_wf(self.player_projectiles@)
        &&& shots_wf(self.alien_projectiles@)
        &&& dust_wf(self.particles@)
        &&& (self.alien matches Some(a) ==> a.wf())
    }

    /// The session has just begun at `now`: the ship stands in the middle,
    /// the first asteroids have appeared beside the arena, and there is
    /// nothing else.
    pub open spec fn is_new_session(self, arena: Arena, now: u64) -> bool {
        &&& self.arena == arena
        &&& self.ship == Ship::launched(arena, now)
        &&& self.asteroids@.len() == STARTING_ASTEROIDS
        &&& all_arriving(self.asteroids@, arena)
        &&& self.player_projectiles@.len() == 0
        &&& self.alien_projectiles@.len() == 0
        &&& self.particles@.len() == 0
        &&& self.alien is None
        &&& self.score.score == 0
        &&& self.input_set == (HeldKeys { up: false, left: false, right: false, space: false })
        &&& self.last_update == now
        &&& self.last_asteroid_instant == now
        &&& self.last_alien_spawn_check_instant == now
        &&& !self.spawn_alien
        &&& self.sounds.events@.len() == 0
        &&& !self.sounds.thrust_playing
        &&& !self.sounds.alien_music_playing
        &&& !self.sounds.alien_warning_playing
        &&& self.state == SessionState::Running
    }

    /// Whether the game is well formed: its arena and everything in it.
    pub fn is_valid(&self) -> (valid: bool)
        ensures
            valid == self.wf(),
    {
        let alien_fits: bool = match &self.alien {
            Some(alien) => alien.is_valid(),
            None => true,
        };
        self.arena.is_valid() && self.ship.is_valid() && alien_fits && all_rocks_valid(
            &self.asteroids,
        ) && all_shots_valid(&self.player_projectiles) && all_shots_valid(&self.alien_projectiles)
            && all_dust_valid(&self.particles)
    }

    /// The asteroids with which a session starts.
    pub fn initialize_asteroids(rng: &mut ThreadRng, arena: &Arena) -> (asteroids: Vec<Asteroid>)
        requires
            arena.wf(),
        ensures
            asteroids@.len() == STARTING_ASTEROIDS,
            all_arriving(asteroids@, *arena),
            rocks_wf(asteroids@),
    {
        let mut asteroids: Vec<Asteroid> = Vec::new();
        let mut made: usize = 0;
        while made < STARTING_ASTEROIDS
            invariant
                0 <= made <= STARTING_ASTEROIDS,
                asteroids@.len() == made,
                arena.wf(),
                all_arriving(asteroids@, *arena),
            decreases STARTING_ASTEROIDS - made,
        {
            let asteroid: Asteroid = Asteroid::new(rng, arena);
            asteroids.push(asteroid);
            made = made + 1;
        }
        asteroids
    }

    /// A session that begins at `now` in `arena`.
    pub fn new(rng: &mut ThreadRng, arena: Arena, now: u64) -> (game: Game)
        requires
            arena.wf(),
        ensures
            game.is_new_session(arena, now),
            game.wf(),
    {
        Game {
            arena,
            ship: Ship::new(&arena, now),
            asteroids: Game::initialize_asteroids(rng, &arena),
            player_projectiles: Vec::new(),
            alien_projectiles: Vec::new(),
            particles: Vec::new(),
            alien: None,
            score: Score::new(),
            input_set: HeldKeys { up: false, left: false, right: false, space: false },
            last_update: now,
            last_asteroid_instant: now,
            last_alien_spawn_check_instant: now,
            spawn_alien: false,
            sounds: Sounds::new(),
            state: SessionState::Running,
        }
    }

    /// Begins a new session at `now` in the same arena.
    pub fn handle_reset(&mut self, rng: &mut ThreadRng, now: u64)
        requires
            old(self).arena.wf(),
        ensures
            final(self).is_new_session(old(self).arena, now),
            final(self).wf(),
    {
        self.ship = Ship::new(&self.arena, now);
        self.asteroids = Game::initialize_asteroids(rng, &self.arena);
        self.player_projectiles = Vec::new();
        self.alien_projectiles = Vec::new();
        self.particles = Vec::new();
        self.alien = None;
        self.score = Score::new();
        self.input_set = HeldKeys { up: false, left: false, right: false, space: false };
        self.last_update = now;
        self.last_asteroid_instant = now;
        self.last_alien_spawn_check_instant = now;
        self.spawn_alien = false;
        self.sounds = Sounds::new();
        self.state = SessionState::Running;
    }

    /// What `key` sets off when it goes down now.
    pub fn action_for(&self, key: Key) -> (action: KeyAction)
        ensures
            action == key_action(self.state, self.input_set, key),
    {
        if key == Key::Up && self.state == SessionState::Running {
            KeyAction::Thrust
        } else if key == Key::Space && !self.input_set.space && self.state
            == SessionState::Running {
            KeyAction::Fire
        } else if self.state != SessionState::GameOver && key == Key::Escape {
            KeyAction::Pause
        } else if key == Key::Q && self.state != SessionState::Running {
            KeyAction::Quit
        } else if key == Key::R && self.state == SessionState::GameOver {
            KeyAction::Restart
        } else {
            KeyAction::Nothing
        }
    }

    /// Notes that `key` is held. The pause, quit and restart keys are not
    /// noted, nor is a key that the game does not know.
    pub fn hold_key(&mut self, key: Key)
        ensures
            *final(self) == (Game {
                input_set: held_after_down(old(self).input_set, key),
                ..*old(self)
            }),
    {
        match key {
            Key::Up => {
                self.input_set.up = true;
            },
            Key::Left => {
                self.input_set.left = true;
            },
            Key::Right => {
                self.input_set.right = true;
            },
            Key::Space => {
                self.input_set.space = true;
            },
            _ => {},
        }
    }

    /// A key has gone down.
    pub fn key_down_event(&mut self, key: Key, rng: &mut ThreadRng, now: u64) -> (outcome:
        KeyOutcome)
        requires
            old(self).wf(),
        ensures
            final(self).wf(),
            match key_action(old(self).state, old(self).input_set, key) {
                KeyAction::Thrust => {
                    &&& outcome == KeyOutcome::Handled
                    &&& *final(self) == (Game {
                        ship: Ship { thrusting: true, ..old(self).ship },
                        input_set: held_after_down(old(self).input_set, key),
                        sounds: final(self).sounds,
                        ..*old(self)
                    })
                    &&& final(self).sounds.thrust_playing
                    &&& final(self).sounds.alien_music_playing == old(
                        self,
                    ).sounds.alien_music_playing
                    &&& final(self).sounds.alien_warning_playing == old(
                        self,
                    ).sounds.alien_warning_playing
                    &&& final(self).sounds.events@ == if old(self).sounds.thrust_playing {
                        old(self).sounds.events@
                    } else {
                        old(self).sounds.events@.push(SoundEvent::PlayRepeating(Sound::ShipThrust))
                    }
                },
                KeyAction::Fire => {
                    &&& outcome == KeyOutcome::Handled
                    &&& *final(self) == (Game {
                        player_projectiles: final(self).player_projectiles,
                        input_set: held_after_down(old(self).input_set, key),
                        sounds: final(self).sounds,
                        ..*old(self)
                    })
                    &&& final(self).player_projectiles@ == old(self).player_projectiles@.push(
                        Projectile::fired(old(self).ship.position, old(self).ship.forward),
                    )
                    &&& final(self).sounds.queued_one(
                        old(self).sounds,
                        SoundEvent::PlayDetached(Sound::PlayerShoot),
                    )
                },
                KeyAction::Pause => {
                    &&& outcome == KeyOutcome::Handled
                    &&& *final(self) == (Game { state: toggled(old(self).state), ..*old(self) })
                },
                KeyAction::Quit => {
                    &&& outcome == KeyOutcome::Quit(old(self).score.score)
                    &&& *final(self) == *old(self)
                },
                KeyAction::Restart => {
                    &&& outcome == KeyOutcome::Restarted(old(self).score.score)
                    &&& final(self).is_new_session(old(self).arena, now)
                },
                KeyAction::Nothing => {
                    &&& outcome == KeyOutcome::Handled
                    &&& *final(self) == (Game {
                        input_set: held_after_down(old(self).input_set, key),
                        ..*old(self)
                    })
                },
            },
    {
        let mut outcome: KeyOutcome = KeyOutcome::Handled;
        match self.action_for(key) {
            KeyAction::Thrust => {
                self.ship.thrusting = true;
                self.sounds.play_thrust_sound();
            },
            KeyAction::Fire => {
                let player_projectile: Projectile = self.ship.shoot();
                self.player_projectiles.push(player_projectile);
                self.sounds.play_player_shoot_sound();
            },
            KeyAction::Pause => {
                self.state = match self.state {
                    SessionState::Running => SessionState::Paused,
                    SessionState::Paused => SessionState::Running,
                    SessionState::GameOver => SessionState::GameOver,
                };
            },
            KeyAction::Quit => {
                outcome = KeyOutcome::Quit(self.score.value());
            },
            KeyAction::Restart => {
                outcome = KeyOutcome::Restarted(self.score.value());
                self.handle_reset(rng, now);
            },
            KeyAction::Nothing => {},
        }
        self.hold_key(key);
        outcome
    }

    /// A key has come up. Thrust ends with its key.
    pub fn key_up_event(&mut self, key: Key)
        ensures
            old(self).wf() ==> final(self).wf(),
            key != Key::Up ==> *final(self) == (Game {
                input_set: held_after_up(old(self).input_set, key),
                ..*old(self)
            }),
            key == Key::Up ==> {
                &&& *final(self) == (Game {
                    ship: Ship { thrusting: false, ..old(self).ship },
                    input_set: held_after_up(old(self).input_set, key),
                    sounds: final(self).sounds,
                    ..*old(self)
                })
                &&& !final(self).sounds.thrust_playing
                &&& final(self).sounds.alien_music_playing == old(self).sounds.alien_music_playing
                &&& final(self).sounds.alien_warning_playing == old(
                    self,
                ).sounds.alien_warning_playing
                &&& final(self).sounds.events@ == if old(self).sounds.thrust_playing {
                    old(self).sounds.events@.push(SoundEvent::Stop(Sound::ShipThrust))
                } else {
                    old(self).sounds.events@
                }
            },
    {
        match key {
            Key::Up => {
                self.input_set.up = false;
                self.ship.thrusting = false;
                self.sounds.stop_thrust_sound();
            },
            Key::Left => {
                self.input_set.left = false;
            },
            Key::Right => {
                self.input_set.right = false;
            },
            Key::Space => {
                self.input_set.space = false;
            },
            _ => {},
        }
    }
}

} // verus!
