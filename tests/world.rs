use nbody_sim::world::{BodyClass, WorldConfig};

#[test]
fn default_world_has_three_massive_and_one_light_body() {
    let config = WorldConfig::new();
    assert_eq!(config.massive_bodies, 3);
    assert_eq!(
        config.body_classes(),
        vec![BodyClass::Massive, BodyClass::Massive, BodyClass::Massive, BodyClass::Light]
    );
}

#[test]
fn world_without_massive_bodies_has_only_the_light_one() {
    let config = WorldConfig { massive_bodies: 0 };
    assert_eq!(config.body_classes(), vec![BodyClass::Light]);
}
