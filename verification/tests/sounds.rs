use asteroids::asteroid::AsteroidSize;
use asteroids::sounds::{Sound, SoundEvent, Sounds};

#[test]
fn new_sounds_are_silent() {
    let sounds = Sounds::new();
    assert!(sounds.events.is_empty());
    assert!(!sounds.thrust_playing);
    assert!(!sounds.alien_music_playing);
    assert!(!sounds.alien_warning_playing);
}

#[test]
fn one_shot_sounds_are_queued_in_order() {
    let mut sounds = Sounds::new();
    sounds.play_player_shoot_sound();
    sounds.play_asteroid_break_sound(&AsteroidSize::BIG);
    sounds.play_asteroid_break_sound(&AsteroidSize::MEDIUM);
    sounds.play_asteroid_break_sound(&AsteroidSize::SMALL);
    sounds.play_alien_shoot_sound();
    sounds.play_alien_hit_sound();
    sounds.play_alien_explosion_sound();
    sounds.play_ship_collision_sound();
    sounds.play_ship_hit_sound();
    assert_eq!(
        sounds.events,
        vec![
            SoundEvent::PlayDetached(Sound::PlayerShoot),
            SoundEvent::PlayDetached(Sound::BigExplosion),
            SoundEvent::PlayDetached(Sound::MediumExplosion),
            SoundEvent::PlayDetached(Sound::SmallExplosion),
            SoundEvent::PlayDetached(Sound::AlienShoot),
            SoundEvent::PlayDetached(Sound::AlienHit),
            SoundEvent::PlayDetached(Sound::AlienExplosion),
            SoundEvent::PlayDetached(Sound::ShipCollision),
            SoundEvent::PlayDetached(Sound::ShipHit),
        ]
    );
    assert!(!sounds.thrust_playing);
}

#[test]
fn thrust_starts_once_and_stops_once() {
    let mut sounds = Sounds::new();
    sounds.stop_thrust_sound();
    assert!(sounds.events.is_empty());
    sounds.play_thrust_sound();
    sounds.play_thrust_sound();
    assert_eq!(sounds.events, vec![SoundEvent::PlayRepeating(Sound::ShipThrust)]);
    assert!(sounds.thrust_playing);
    sounds.stop_thrust_sound();
    sounds.stop_thrust_sound();
    assert_eq!(
        sounds.events,
        vec![SoundEvent::PlayRepeating(Sound::ShipThrust), SoundEvent::Stop(Sound::ShipThrust)]
    );
    assert!(!sounds.thrust_playing);
}

#[test]
fn the_aliens_sounds_are_stopped_only_while_they_play() {
    let mut sounds = Sounds::new();
    sounds.stop_alien_music();
    sounds.stop_alien_warning_sound();
    assert!(sounds.events.is_empty());
    sounds.play_alien_music();
    sounds.play_alien_warning_sound();
    assert!(sounds.alien_music_playing && sounds.alien_warning_playing);
    sounds.stop_alien_music();
    sounds.stop_alien_music();
    sounds.stop_alien_warning_sound();
    sounds.stop_alien_warning_sound();
    assert_eq!(
        sounds.events,
        vec![
            SoundEvent::Play(Sound::AlienMusic),
            SoundEvent::Play(Sound::AlienWarning),
            SoundEvent::Stop(Sound::AlienMusic),
            SoundEvent::Stop(Sound::AlienWarning),
        ]
    );
    assert!(!sounds.alien_music_playing && !sounds.alien_warning_playing);
}

#[test]
fn a_sound_that_ran_out_is_not_stopped() {
    let mut sounds = Sounds::new();
    sounds.play_alien_music();
    sounds.play_alien_warning_sound();
    sounds.sound_finished(Sound::AlienMusic);
    assert!(!sounds.alien_music_playing);
    assert!(sounds.alien_warning_playing);
    sounds.stop_alien_music();
    assert_eq!(sounds.events.len(), 2);
    sounds.sound_finished(Sound::PlayerShoot);
    assert!(sounds.alien_warning_playing);
    sounds.play_thrust_sound();
    sounds.sound_finished(Sound::ShipThrust);
    assert!(!sounds.thrust_playing);
    sounds.sound_finished(Sound::AlienWarning);
    assert!(!sounds.alien_warning_playing);
}

#[test]
fn taking_the_events_empties_the_queue() {
    let mut sounds = Sounds::new();
    sounds.play_thrust_sound();
    sounds.play_player_shoot_sound();
    let events = sounds.take_events();
    assert_eq!(
        events,
        vec![
            SoundEvent::PlayRepeating(Sound::ShipThrust),
            SoundEvent::PlayDetached(Sound::PlayerShoot),
        ]
    );
    assert!(sounds.events.is_empty());
    assert!(sounds.thrust_playing);
    assert!(sounds.take_events().is_empty());
}

#[test]
fn each_size_has_its_explosion() {
    assert_eq!(Sounds::explosion_for(&AsteroidSize::BIG), Sound::BigExplosion);
    assert_eq!(Sounds::explosion_for(&AsteroidSize::MEDIUM), Sound::MediumExplosion);
    assert_eq!(Sounds::explosion_for(&AsteroidSize::SMALL), Sound::SmallExplosion);
}
