use warp_server::discovery::DiscoveryConfig;
use warp_server::settings::{
    default_profile_picture, mark_avatar, production_settings, AVATAR_SIZE, THUMBNAIL_SIZE,
};

#[test]
fn production_settings_follow_the_flags() {
    let s = production_settings(DiscoveryConfig::Disabled, false, "1.2.3");
    assert!(matches!(s.discovery, DiscoveryConfig::Disabled));
    assert!(s.disable_quic);
    assert!(!s.use_bootstrap_nodes);
    assert!(s.save_phrase && s.port_mapping && s.emit_online_event && s.share_platform && s.update_events);
    assert_eq!(s.agent_version, "uplink/1.2.3");
    assert_eq!(s.thumbnail_size, (500, 500));
    assert_eq!(THUMBNAIL_SIZE, 500);

    let s = production_settings(DiscoveryConfig::Dht, true, "");
    assert!(!s.disable_quic);
    assert_eq!(s.agent_version, "uplink/");
}

#[test]
fn marker_is_appended() {
    assert_eq!(mark_avatar(vec![1, 2]), vec![1, 2, 11, 0, 23]);
    assert_eq!(mark_avatar(Vec::new()), vec![11, 0, 23]);
}

#[test]
fn default_picture_is_the_marked_identicon() {
    let did = "did:key:z6MkhaXgBZDvotDkL5257faiztiGiC2QtKLGpbnnEGta2doK";
    let picture = default_profile_picture(did).unwrap();
    let mut expected = plot_icon::generate_png(did.as_bytes(), AVATAR_SIZE).unwrap();
    expected.extend([11, 0, 23]);
    assert_eq!(picture, expected);
    assert_eq!(&picture[..8], &[137, 80, 78, 71, 13, 10, 26, 10]);
    assert_eq!(AVATAR_SIZE, 512);
}
