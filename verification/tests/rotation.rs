use clockwork_mage::action::Action;
use clockwork_mage::player::Player;
use clockwork_mage::rotation::EagerHit;
use clockwork_mage::rotation::Empty;
use clockwork_mage::rotation::Repeat;
use clockwork_mage::time::Clock;
use clockwork_mage::time::Timestamp;

#[test]
fn empty() {
    let clock = Clock::new();
    let player = Player::new();
    assert_eq!(Empty {}.action(&player, clock.now()), None);
}

#[test]
fn repeat() {
    let clock = Clock::new();
    let player = Player::new();
    let mut rotation = Repeat::new(vec![Action::Hit, Action::Hit, Action::Recharge]);
    assert_eq!(rotation.action(&player, clock.now()), Some(Action::Hit));
    assert_eq!(rotation.action(&player, clock.now()), Some(Action::Hit));
    assert_eq!(rotation.action(&player, clock.now()), Some(Action::Recharge));
    assert_eq!(rotation.action(&player, clock.now()), Some(Action::Hit));
}

#[test]
fn repeat_takes_locks_into_account() {
    let clock = Clock::new();
    let mut player = Player::new();
    player.begin(Action::Hit, clock.now());
    let mut rotation = Repeat::new(vec![Action::Hit]);
    assert_eq!(rotation.action(&player, clock.now()), None);
}

#[test]
fn repeat_waits_without_skipping() {
    let mut player = Player::new();
    player.begin(Action::Hit, Timestamp(0));
    let mut rotation = Repeat::new(vec![Action::Recharge, Action::Hit]);
    // The player stays locked until tick 250; the cursor must hold on
    // `Recharge`, answering nothing each time, and advance only once.
    assert_eq!(rotation.action(&player, Timestamp(0)), None);
    assert_eq!(rotation.action(&player, Timestamp(100)), None);
    assert_eq!(rotation.action(&player, Timestamp(249)), None);
    assert_eq!(rotation.action(&player, Timestamp(250)), Some(Action::Recharge));
    assert_eq!(rotation.action(&player, Timestamp(250)), Some(Action::Hit));
}

#[test]
fn eager_hit_prefers_hit_when_affordable() {
    let player = Player::new();
    assert_eq!(EagerHit {}.action(&player, Timestamp(0)), Some(Action::Hit));
}

#[test]
fn eager_hit_falls_back_to_recharge() {
    let mut player = Player::new();
    player.mp = 500;
    assert_eq!(EagerHit {}.action(&player, Timestamp(0)), Some(Action::Recharge));
}

#[test]
fn eager_hit_respects_locks() {
    let mut player = Player::new();
    player.begin(Action::Hit, Timestamp(0));
    assert_eq!(EagerHit {}.action(&player, Timestamp(10)), None);
}
