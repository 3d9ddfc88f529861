use topgg::bot::support_server_url;
use topgg::util::normalize_optional_string;
use topgg::{Bot, Socials, User, Voter};

fn sample_bot() -> Bot {
    Bot {
        id: 264811613708746752,
        username: "Luca".to_string(),
        discriminator: "1375".to_string(),
        prefix: "?".to_string(),
        short_description: "A bot".to_string(),
        long_description: None,
        tags: vec!["music".to_string()],
        website: None,
        github: None,
        owners: vec![661200758510977084],
        guilds: Vec::new(),
        banner_url: None,
        approved_at: 1_580_000_000_000,
        is_certified: false,
        shards: vec![100, 200],
        votes: 12,
        monthly_votes: 3,
        support: None,
        avatar: None,
        invite: None,
        shard_count: None,
        vanity: None,
    }
}

#[test]
fn bot_invite_defaults_to_the_authorization_url() {
    let bot = sample_bot();
    assert_eq!(
        bot.invite(),
        "https://discord.com/oauth2/authorize?scope=bot&client_id=264811613708746752"
    );
    let mut custom = sample_bot();
    custom.invite = Some("https://example.test/invite".to_string());
    assert_eq!(custom.invite(), "https://example.test/invite");
}

#[test]
fn bot_url_prefers_the_vanity_name() {
    let bot = sample_bot();
    assert_eq!(bot.url(), "https://top.gg/bot/264811613708746752");
    let mut vain = sample_bot();
    vain.vanity = Some("luca".to_string());
    assert_eq!(vain.url(), "https://top.gg/bot/luca");
}

#[test]
fn bot_shard_count_falls_back_to_the_breakdown() {
    let bot = sample_bot();
    assert_eq!(bot.shard_count(), 2);
    let mut explicit = sample_bot();
    explicit.shard_count = Some(9);
    assert_eq!(explicit.shard_count(), 9);
}

#[test]
fn bot_created_at_decodes_the_id() {
    let bot = sample_bot();
    assert_eq!(bot.created_at(), (264811613708746752u64 >> 22) + 1_420_070_400_000);
}

#[test]
fn bot_avatar_uses_the_default_when_unset() {
    let bot = sample_bot();
    assert!(bot.avatar().starts_with("https://cdn.discordapp.com/embed/avatars/"));
}

#[test]
fn support_server_url_wraps_the_code() {
    assert_eq!(support_server_url("abc"), "https://discord.com/invite/abc");
}

#[test]
fn user_getters_decode_the_id() {
    let user = User {
        id: 1 << 22,
        username: "someone".to_string(),
        bio: None,
        banner: None,
        socials: Some(Socials {
            github: None,
            instagram: None,
            reddit: None,
            twitter: None,
            youtube: None,
        }),
        is_supporter: false,
        is_certified_dev: false,
        is_moderator: false,
        is_web_moderator: false,
        is_admin: false,
        avatar: Some("h".to_string()),
    };
    assert_eq!(user.created_at(), 1_420_070_400_001);
    assert_eq!(user.avatar(), format!("https://cdn.discordapp.com/avatars/{}/h.png?size=1024", 1u64 << 22));
}

#[test]
fn voter_getters_decode_the_id() {
    let voter = Voter { id: 5 << 22, username: "v".to_string(), avatar: None };
    assert_eq!(voter.created_at(), 5 + 1_420_070_400_000);
    assert_eq!(voter.avatar(), "https://cdn.discordapp.com/embed/avatars/0.png");
}

#[test]
fn optional_strings_are_normalised() {
    assert_eq!(normalize_optional_string(None), None);
    assert_eq!(normalize_optional_string(Some(String::new())), None);
    assert_eq!(normalize_optional_string(Some("x".to_string())), Some("x".to_string()));
}
