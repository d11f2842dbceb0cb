//! What the game asks of the sound player. The library plays nothing: it
//! queues events for the host, and keeps track of the sounds that play on
//! until they are stopped, so that none is stopped that does not play.

use vstd::prelude::*;
use crate::asteroid::AsteroidSize;

verus! {

#[derive(Clone, Copy, Debug, PartialEq, Eq, Structural)]
pub enum Sound {
    PlayerShoot,
    ShipThrust,
    BigExplosion,
    MediumExplosion,
    SmallExplosion,
    AlienMusic,
    AlienWarning,
    AlienShoot,
    AlienHit,
    AlienExplosion,
    ShipCollision,
    ShipHit,
}

/// What the host is to do with a sound.
#[derive(Clone, Copy, Debug, PartialEq, Eq, Structural)]
pub enum SoundEvent {
    /// Play it once, beside whatever else plays.
    PlayDetached(Sound),
    /// Play it once; it can be stopped.
    Play(Sound),
    /// Play it over and over until it is stopped.
    PlayRepeating(Sound),
    Stop(Sound),
}

#[derive(Debug)]
pub struct Sounds {
    pub thrust_playing: bool,
    pub alien_music_playing: bool,
    pub alien_warning_playing: bool,
    /// The events that the host has not taken yet, oldest first.
    pub events: Vec<SoundEvent>,
}

/// The sound of an asteroid of `size` breaking.
pub open spec fn explosion_of(size: AsteroidSize) -> Sound {
    match size {
        AsteroidSize::BIG => Sound::BigExplosion,
        AsteroidSize::MEDIUM => Sound::MediumExplosion,
        AsteroidSize::SMALL => Sound::SmallExplosion,
    }
}

impl Sounds {
    /// The sound plays on until it is stopped or has run out.
    pub open spec fn playing(self, sound: Sound) -> bool {
        match sound {
            Sound::ShipThrust => self.thrust_playing,
            Sound::AlienMusic => self.alien_music_playing,
            Sound::AlienWarning => self.alien_warning_playing,
            _ => false,
        }
    }

    /// The same sounds play on here as in `before`.
    pub open spec fn same_playing(self, before: Sounds) -> bool {
        &&& self.thrust_playing == before.thrust_playing
        &&& self.alien_music_playing == before.alien_music_playing
        &&& self.alien_warning_playing == before.alien_warning_playing
    }

    /// One event has been queued since `before`, and nothing else changed.
    pub open spec fn queued_one(self, before: Sounds, event: SoundEvent) -> bool {
        &&& self.events@ == before.events@.push(event)
        &&& self.same_playing(before)
    }

    /// Nothing has changed since `before`.
    pub open spec fn unchanged(self, before: Sounds) -> bool {
        &&& self.events@ == before.events@
        &&& self.same_playing(before)
    }

    pub fn new() -> (sounds: Sounds)
        ensures
            sounds.events@.len() == 0,
            !sounds.thrust_playing,
            !sounds.alien_music_playing,
            !sounds.alien_warning_playing,
    {
        Sounds {
            thrust_playing: false,
            alien_music_playing: false,
            alien_warning_playing: false,
            events: Vec::new(),
        }
    }

    /// Hands the queued events to the host, oldest first, and empties the
    /// queue.
    pub fn take_events(&mut self) -> (events: Vec<SoundEvent>)
        ensures
            events@ == old(self).events@,
            final(self).events@.len() == 0,
            final(self).same_playing(*old(self)),
    {
        let mut events: Vec<SoundEvent> = Vec::new();
        events.append(&mut self.events);
        events
    }

    /// The host reports that a sound has run out by itself.
    pub fn sound_finished(&mut self, sound: Sound)
        ensures
            final(self).events@ == old(self).events@,
            !final(self).playing(sound),
            forall|other: Sound|
                other != sound ==> final(self).playing(other) == old(self).playing(other),
    {
        match sound {
            Sound::ShipThrust => {
                self.thrust_playing = false;
            },
            Sound::AlienMusic => {
                self.alien_music_playing = false;
            },
            Sound::AlienWarning => {
                self.alien_warning_playing = false;
            },
            _ => {},
        }
        assert forall|other: Sound| other != sound implies self.playing(other) == old(
            self,
        ).playing(other) by {}
    }

    pub fn play_player_shoot_sound(&mut self)
        ensures
            final(self).queued_one(*old(self), SoundEvent::PlayDetached(Sound::PlayerShoot)),
    {
        self.events.push(SoundEvent::PlayDetached(Sound::PlayerShoot));
    }

    /// Starts the thrust sound unless it already plays.
    pub fn play_thrust_sound(&mut self)
        ensures
            final(self).thrust_playing,
            final(self).alien_music_playing == old(self).alien_music_playing,
            final(self).alien_warning_playing == old(self).alien_warning_playing,
            old(self).thrust_playing ==> final(self).events@ == old(self).events@,
            !old(self).thrust_playing ==> final(self).events@ == old(self).events@.push(
                SoundEvent::PlayRepeating(Sound::ShipThrust),
            ),
    {
        if !self.thrust_playing {
            self.events.push(SoundEvent::PlayRepeating(Sound::ShipThrust));
            self.thrust_playing = true;
        }
    }

    /// Stops the thrust sound if it plays.
    pub fn stop_thrust_sound(&mut self)
        ensures
            !final(self).thrust_playing,
            final(self).alien_music_playing == old(self).alien_music_playing,
            final(self).alien_warning_playing == old(self).alien_warning_playing,
            !old(self).thrust_playing ==> final(self).events@ == old(self).events@,
            old(self).thrust_playing ==> final(self).events@ == old(self).events@.push(
                SoundEvent::Stop(Sound::ShipThrust),
            ),
    {
        if self.thrust_playing {
            self.events.push(SoundEvent::Stop(Sound::ShipThrust));
            self.thrust_playing = false;
        }
    }

    /// The sound of an asteroid of `size` breaking.
    pub fn explosion_for(size: &AsteroidSize) -> (sound: Sound)
        ensures
            sound == explosion_of(*size),
    {
        match size {
            AsteroidSize::BIG => Sound::BigExplosion,
            AsteroidSize::MEDIUM => Sound::MediumExplosion,
            _ => Sound::SmallExplosion,
        }
    }

    pub fn play_asteroid_break_sound(&mut self, size: &AsteroidSize)
        ensures
            final(self).queued_one(*old(self), SoundEvent::PlayDetached(explosion_of(*size))),
    {
        self.events.push(SoundEvent::PlayDetached(Sounds::explosion_for(size)));
    }

    pub fn play_alien_music(&mut self)
        ensures
            final(self).events@ == old(self).events@.push(SoundEvent::Play(Sound::AlienMusic)),
            final(self).alien_music_playing,
            final(self).thrust_playing == old(self).thrust_playing,
            final(self).alien_warning_playing == old(self).alien_warning_playing,
    {
        self.events.push(SoundEvent::Play(Sound::AlienMusic));
        self.alien_music_playing = true;
    }

    /// Stops the alien's music if it plays.
    pub fn stop_alien_music(&mut self)
        ensures
            !final(self).alien_music_playing,
            final(self).thrust_playing == old(self).thrust_playing,
            final(self).alien_warning_playing == old(self).alien_warning_playing,
            !old(self).alien_music_playing ==> final(self).events@ == old(self).events@,
            old(self).alien_music_playing ==> final(self).events@ == old(self).events@.push(
                SoundEvent::Stop(Sound::AlienMusic),
            ),
    {
        if self.alien_music_playing {
            self.events.push(SoundEvent::Stop(Sound::AlienMusic));
            self.alien_music_playing = false;
        }
    }

    pub fn play_alien_warning_sound(&mut self)
        ensures
            final(self).events@ == old(self).events@.push(SoundEvent::Play(Sound::AlienWarning)),
            final(self).alien_warning_playing,
            final(self).thrust_playing == old(self).thrust_playing,
            final(self).alien_music_playing == old(self).alien_music_playing,
    {
        self.events.push(SoundEvent::Play(Sound::AlienWarning));
        self.alien_warning_playing = true;
    }

    /// Stops the alien's warning if it plays.
    pub fn stop_alien_warning_sound(&mut self)
        ensures
            !final(self).alien_warning_playing,
            final(self).thrust_playing == old(self).thrust_playing,
            final(self).alien_music_playing == old(self).alien_music_playing,
            !old(self).alien_warning_playing ==> final(self).events@ == old(self).events@,
            old(self).alien_warning_playing ==> final(self).events@ == old(self).events@.push(
                SoundEvent::Stop(Sound::AlienWarning),
            ),
    {
        if self.alien_warning_playing {
            self.events.push(SoundEvent::Stop(Sound::AlienWarning));
            self.alien_warning_playing = false;
        }
    }

    pub fn play_alien_shoot_sound(&mut self)
        ensures
            final(self).queued_one(*old(self), SoundEvent::PlayDetached(Sound::AlienShoot)),
    {
        self.events.push(SoundEvent::PlayDetached(Sound::AlienShoot));
    }

    pub fn play_alien_hit_sound(&mut self)
        ensures
            final(self).queued_one(*old(self), SoundEvent::PlayDetached(Sound::AlienHit)),
    {
        self.events.push(SoundEvent::PlayDetached(Sound::AlienHit));
    }

    pub fn play_alien_explosion_sound(&mut self)
        ensures
            final(self).queued_one(*old(self), SoundEvent::PlayDetached(Sound::AlienExplosion)),
    {
        self.events.push(SoundEvent::PlayDetached(Sound::AlienExplosion));
    }

    pub fn play_ship_collision_sound(&mut self)
        ensures
            final(self).queued_one(*old(self), SoundEvent::PlayDetached(Sound::ShipCollision)),
    {
        self.events.push(SoundEvent::PlayDetached(Sound::ShipCollision));
    }

    pub fn play_ship_hit_sound(&mut self)
        ensures
            final(self).queued_one(*old(self), SoundEvent::PlayDetached(Sound::ShipHit)),
    {
        self.events.push(SoundEvent::PlayDetached(Sound::ShipHit));
    }
}

} // verus!
