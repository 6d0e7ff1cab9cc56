use jobworkerp_conductor::notification::{parse_usize, NotificationChannels, NotificationConfig, NotificationRepositoryFactory};

#[test]
fn test_channel_name_generation() {
    let repo = NotificationChannels::new("test_prefix".to_string());
    assert_eq!(repo.get_channel_name("created"), "test_prefix:created");
    assert_eq!(repo.get_channel_name("updated"), "test_prefix:updated");
    assert_eq!(repo.get_unified_channel_name(), "test_prefix:all");
}

#[test]
fn test_default_prefix_creation() {
    let repo = NotificationChannels::new_with_default_prefix();
    assert_eq!(repo.get_unified_channel_name(), "conductor_config:all");
}

fn env(t: Option<&str>, p: Option<&str>, u: Option<&str>, b: Option<&str>) -> Result<NotificationConfig, String> {
    let s = |x: Option<&str>| x.map(|v| v.to_string());
    NotificationRepositoryFactory::config_by_env(s(t), s(p), s(u), s(b))
}

#[test]
fn notification_transport_from_environment() {
    assert!(matches!(env(None, None, None, None), Ok(NotificationConfig::Channel { buffer_size: 1000 })));
    assert!(matches!(env(Some("channel"), None, None, Some("64")), Ok(NotificationConfig::Channel { buffer_size: 64 })));
    assert!(matches!(env(None, None, None, Some("lots")), Ok(NotificationConfig::Channel { buffer_size: 1000 })));
    match env(Some("ReDiS"), None, Some("redis://localhost"), None) {
        Ok(NotificationConfig::Redis { channel_prefix, redis_url }) => {
            assert_eq!(channel_prefix, "conductor_config");
            assert_eq!(redis_url, "redis://localhost");
        }
        _ => panic!("expected redis"),
    }
    assert_eq!(
        env(Some("redis"), Some("p"), None, None).err(),
        Some("REDIS_URL environment variable is required for Redis notification".to_string())
    );
    assert!(matches!(NotificationConfig::default(), NotificationConfig::Channel { buffer_size: 1000 }));
}

#[test]
fn parse_usize_follows_std() {
    for s in ["0", "+7", "0042", "18446744073709551615", "18446744073709551616", "-1", "", "+", " 1", "1_000"] {
        assert_eq!(parse_usize(s), s.parse::<usize>().ok(), "{s:?}");
    }
}
