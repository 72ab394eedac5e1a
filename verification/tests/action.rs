use clockwork_mage::action::Action;
use clockwork_mage::time::Duration;

#[test]
fn catalog_constants() {
    assert_eq!(Action::Hit.cast_time(), Duration(150));
    assert_eq!(Action::Recharge.cast_time(), Duration(250));
    assert_eq!(Action::Hit.recast_time(), Duration(250));
    assert_eq!(Action::Recharge.recast_time(), Duration(250));
    assert_eq!(Action::Hit.animation_time(), Duration(50));
    assert_eq!(Action::Recharge.animation_time(), Duration(50));
    assert_eq!(Action::Hit.mp_cost(), 1000);
    assert_eq!(Action::Recharge.mp_cost(), -2000);
    assert!(!Action::Hit.is_ogcd());
    assert!(!Action::Recharge.is_ogcd());
}
