use ur_redis_driver::URDFParameters;

/// With no prefix configured, every frame name the driver publishes is the URDF link name
/// unchanged.
#[test]
fn no_prefix_is_the_identity() {
    let params = URDFParameters::default();
    assert_eq!(params.tf_prefix, "");
    for link in [
        "base_link",
        "base_link_inertia",
        "shoulder_link",
        "upper_arm_link",
        "forearm_link",
        "wrist_1_link",
        "wrist_2_link",
        "wrist_3_link",
        "flange",
        "ft_frame",
        "tool0",
        "shoulder_link_visual",
    ] {
        assert_eq!(params.frame(link), link, "'{link}' must survive unchanged");
    }
}

/// The prefix carries its own separator, so it is a plain concatenation - no underscore is
/// inserted and none is assumed.
#[test]
fn a_prefix_is_concatenated_verbatim() {
    let mut params = URDFParameters::default();
    params.tf_prefix = "r2_".to_string();
    assert_eq!(params.frame("base_link"), "r2_base_link");
    assert_eq!(params.frame("tool0"), "r2_tool0");
    // The `_visual` suffix is already part of the name by the time it gets here, so the prefix
    // lands on the outside where the marker namespace expects it.
    assert_eq!(params.frame("shoulder_link_visual"), "r2_shoulder_link_visual");
}
