use clockwork_mage::action::Action;
use clockwork_mage::player::Player;
use clockwork_mage::time::Clock;
use clockwork_mage::time::Timestamp;

#[test]
fn starts_unlocked() {
    let clock = Clock::new();
    assert!(!Player::new().locked(Action::Hit, clock.now()));
}

#[test]
fn starts_unlocked_for_every_action() {
    let player = Player::new();
    for action in [Action::Hit, Action::Recharge] {
        assert!(!player.locked(action, Timestamp(0)));
        assert!(!player.locked(action, Timestamp(4321)));
    }
}

#[test]
fn starts_locked_after_gcd() {
    let clock = Clock::new();
    let mut player = Player::new();
    player.begin(Action::Hit, clock.now());
    assert!(player.locked(Action::Hit, clock.now()));
}

#[test]
fn unlock_timer() {
    let mut clock = Clock::new();
    let mut player = Player::new();
    player.begin(Action::Hit, clock.now());
    for _ in 0..Action::Hit.recast_time().0 - 1 {
        clock.tick();
        player.perform(clock.now());
    }
    assert!(player.locked(Action::Hit, clock.now()));
    clock.tick();
    player.perform(clock.now());
    assert!(!player.locked(Action::Hit, clock.now()));
}

#[test]
fn mp_deducted_on_finish() {
    let mut clock = Clock::new();
    let mut player = Player::new();
    player.begin(Action::Hit, clock.now());
    assert_eq!(player.mp(), 10000);
    for _ in 0..Action::Hit.cast_time().0 - 1 {
        clock.tick();
        player.perform(clock.now());
        assert_eq!(player.mp(), 10000);
    }
    clock.tick();
    player.perform(clock.now());
    assert_eq!(player.mp(), 9000);
}

#[test]
fn perform_reports_the_resolved_action() {
    let mut player = Player::new();
    player.begin(Action::Hit, Timestamp(0));
    assert_eq!(player.perform(Timestamp(149)), None);
    assert_eq!(player.perform(Timestamp(150)), Some(Action::Hit));
    // The cast is cleared: resolving again reports nothing.
    assert_eq!(player.perform(Timestamp(150)), None);
    assert_eq!(player.mp(), 9000);
}

#[test]
fn recharge_restores_mp() {
    let mut player = Player::new();
    player.begin(Action::Recharge, Timestamp(0));
    assert_eq!(player.perform(Timestamp(250)), Some(Action::Recharge));
    assert_eq!(player.mp(), 12000);
}
