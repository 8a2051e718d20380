use natebot::events::{lottery_decide, reaction_count_bounds, reaction_decide, reaction_start};
use chrono::NaiveDateTime;
use natebot::database::Picture;
use natebot::events::{lottery_post, lottery_start, LotteryStart};
use natebot::bot::{BotInit, BotStatus, InitAction, InitEvent, InitStage};
use natebot::database::BotSettings;
use natebot::bot::BotError;
use natebot::dice::dice_usage_reply;
use natebot::events::{
    choose_reactions, draw_hits, is_reaction_target, lottery_message, one_in, voice_state_update,
    VoiceUpdate, REACTION_COUNT_MAX, REACTION_COUNT_MIN,
};
use natebot::lavalink::{
    added_playlist_message, added_track_message, is_logged_op, joined_message,
    now_playing_message, track_query, TrackQuery,
};
use natebot::moderation::{
    channel_id_from_name, purge_reply, purge_report, select_purge, PurgeCandidate,
    SPAM_CHANNEL_NAME,
};
use natebot::roles::{
    in_roles_channel, new_role_guild_check, new_role_precheck, post_role_guild_check,
    role_message, wrong_channel_reply,
};

#[test]
fn lottery() {
    assert!(one_in(1));
    assert!(draw_hits(0));
    assert!(!draw_hits(1));
    assert!(!draw_hits(999));
    assert_eq!(lottery_message(42, 1000), "<@42> won the lottery with 1/1000 odds!");
}

#[test]
fn reactions() {
    assert!(is_reaction_target(&vec![1, 2, 3], 2));
    assert!(!is_reaction_target(&vec![1, 2, 3], 4));
    assert!(!is_reaction_target(&vec![], 4));
    for emojis in [0usize, 3, 5, 12, 40] {
        let picks = choose_reactions(emojis);
        assert!(picks.len() >= emojis.min(REACTION_COUNT_MIN));
        assert!(picks.len() <= emojis.min(REACTION_COUNT_MAX));
        let mut seen = picks.clone();
        seen.sort();
        seen.dedup();
        assert_eq!(seen.len(), picks.len());
        assert!(picks.iter().all(|&p| p < emojis));
    }
    assert_eq!(choose_reactions(3).len(), 3);
}

#[test]
fn voice_states() {
    assert!(matches!(voice_state_update(None, Some(1), 1, None), Ok(VoiceUpdate::Ignore)));
    assert!(matches!(voice_state_update(Some(Some(9)), None, 1, None), Ok(VoiceUpdate::Ignore)));
    assert!(matches!(voice_state_update(Some(Some(9)), Some(2), 1, None), Ok(VoiceUpdate::Ignore)));
    assert!(matches!(voice_state_update(Some(Some(9)), Some(1), 1, Some(5)), Ok(VoiceUpdate::BotMoved)));
    assert!(matches!(voice_state_update(Some(Some(9)), Some(1), 1, None), Ok(VoiceUpdate::LeaveCall { guild_id: 9 })));
    assert!(matches!(voice_state_update(Some(None), Some(1), 1, None), Err(BotError::InvalidGuild)));
}

#[test]
fn purging() {
    let msgs = vec![
        PurgeCandidate { id: 1, days: 0, content: "Hello WORLD".to_string() },
        PurgeCandidate { id: 2, days: -13, content: "world peace".to_string() },
        PurgeCandidate { id: 3, days: -14, content: "old world".to_string() },
        PurgeCandidate { id: 4, days: -1, content: "nothing here".to_string() },
    ];
    assert_eq!(select_purge(&msgs, "World"), vec![1, 2]);
    assert_eq!(select_purge(&msgs, "xyz"), Vec::<u64>::new());
    assert_eq!(
        purge_report("nate", 2, "World", "general"),
        "User 'nate' purged 2 message(s) containing \"World\" from channel 'general'"
    );
    assert_eq!(purge_reply(2), "2 message(s) purged");
    let channels = vec![(5, "general".to_string()), (6, "botspam".to_string()), (7, "botspam".to_string())];
    assert_eq!(channel_id_from_name(&channels, SPAM_CHANNEL_NAME), Some(6));
    assert_eq!(channel_id_from_name(&channels, "nope"), None);
}

#[test]
fn role_commands() {
    assert_eq!(wrong_channel_reply("roles"), "Command can only be used in #roles channel");
    assert!(in_roles_channel(Some("roles"), "roles"));
    assert!(!in_roles_channel(Some("general"), "roles"));
    assert!(!in_roles_channel(None, "roles"));
    assert_eq!(new_role_precheck(false, "x", "roles"), Some("Command can only be used in #roles channel".to_string()));
    assert_eq!(new_role_precheck(true, "@everyone", "roles"), Some("Invalid role name: '@everyone'".to_string()));
    assert_eq!(new_role_precheck(true, "<@1>", "roles"), Some("Invalid role name: '<@1>'".to_string()));
    assert_eq!(new_role_precheck(true, "gamers", "roles"), None);
    assert_eq!(new_role_guild_check(false, false, "gamers"), Some("Could not find guild".to_string()));
    assert_eq!(new_role_guild_check(true, true, "gamers"), Some("Role 'gamers' already exists".to_string()));
    assert_eq!(new_role_guild_check(true, false, "gamers"), None);
    assert_eq!(post_role_guild_check(true, false, "gamers"), Some("Could not find role 'gamers' in current guild".to_string()));
    assert_eq!(post_role_guild_check(true, true, "gamers"), None);
    assert_eq!(role_message("👍", "gamers"), "React to this message with 👍 to be added to role 'gamers'");
}

#[test]
fn lavalink_messages() {
    assert!(matches!(track_query("https://x/y".to_string()), TrackQuery::Link(ref t) if t == "https://x/y"));
    assert!(matches!(track_query("htt".to_string()), TrackQuery::YoutubeSearch(ref t) if t == "htt"));
    assert!(matches!(track_query("never gonna".to_string()), TrackQuery::YoutubeSearch(_)));
    assert_eq!(added_track_message("A", "T", Some("u")), "Added to queue: [A - T](<u>)");
    assert_eq!(added_track_message("A", "T", None), "Added to queue: A - T");
    assert_eq!(added_playlist_message("Mix"), "Added playlist to queue: Mix");
    assert_eq!(now_playing_message("A", "T", Some("u"), "5"), "Now playing: [A - T](<u>) | Requested by <@!5>");
    assert_eq!(now_playing_message("A", "T", None, "5"), "Now playing: A - T | Requested by <@!5>");
    assert_eq!(joined_message(77), "Joined <#77>");
    assert!(is_logged_op(Some("event")));
    assert!(is_logged_op(Some("playerUpdate")));
    assert!(!is_logged_op(Some("stats")));
    assert!(!is_logged_op(None));
}

#[test]
fn dice_usage() {
    assert_eq!(dice_usage_reply(), "Argument must be in form XdY (1d6, 2d20, etc.) where 1 <= X <= 50, Y >= 1");
}

#[test]
fn lottery_steps() {
    assert!(matches!(lottery_start(true, 1, Some(5)), LotteryStart::Ignore));
    assert!(matches!(lottery_start(false, 1, None), LotteryStart::Ignore));
    assert!(matches!(
        lottery_start(false, 1, Some(5)),
        LotteryStart::FetchPicture { ref guild_id, is_nsfw: Some(false) } if guild_id == "5"
    ));
    assert!(lottery_post(None, 1, 10).is_none());
    let pic = Picture {
        name: "cat".to_string(),
        guild_id: "5".to_string(),
        url: "https://img/cat.png".to_string(),
        added_by_user: "1".to_string(),
        is_nsfw: false,
        created_at: NaiveDateTime::default(),
    };
    let post = lottery_post(Some(pic), 42, 10).unwrap();
    assert_eq!(post.title, "Congratulations!");
    assert_eq!(post.image_url, "https://img/cat.png");
    assert_eq!(post.content, "<@42> won the lottery with 1/10 odds!");
}

#[test]
fn bot_start_up_steps() {
    assert!(matches!(BotInit::start(None), Err(BotError::InvalidApplicationID)));
    let (init, action) = BotInit::start(Some(77)).ok().unwrap();
    assert!(matches!(action, InitAction::LookupSettings { ref application_id } if application_id == "77"));
    let (init, action) = init.step(InitEvent::Found(None));
    assert!(matches!(action, InitAction::FetchName));
    let (init, action) = init.step(InitEvent::Named("NateBot".to_string()));
    match action {
        InitAction::Store(s) => {
            assert_eq!(s.application_id, "77");
            assert_eq!(s.name, "NateBot");
            assert_eq!(s.status, "online");
            assert_eq!(s.activity, None);
        }
        _ => panic!("expected a store"),
    }
    let (done, action) = init.step(InitEvent::Stored(None));
    assert!(matches!(action, InitAction::Warn));
    assert!(matches!(done.stage, InitStage::Finished));

    let (init, _) = BotInit::start(Some(77)).ok().unwrap();
    let stored = BotSettings {
        application_id: "77".to_string(),
        name: "NateBot".to_string(),
        status: "idle".to_string(),
        activity: Some("testing".to_string()),
    };
    let (_, action) = init.step(InitEvent::Found(Some(stored)));
    match action {
        InitAction::ShowPresence(p) => {
            assert_eq!(p.status, BotStatus::Idle);
            assert_eq!(p.activity.as_deref(), Some("testing"));
        }
        _ => panic!("expected a presence"),
    }
}

#[test]
fn lottery_and_reaction_decisions() {
    assert!(matches!(lottery_decide(true, true, Some(5)), LotteryStart::Ignore));
    assert!(matches!(lottery_decide(false, false, Some(5)), LotteryStart::Ignore));
    assert!(matches!(lottery_decide(false, true, None), LotteryStart::Ignore));
    assert!(matches!(
        lottery_decide(false, true, Some(5)),
        LotteryStart::FetchPicture { ref guild_id, is_nsfw: Some(false) } if guild_id == "5"
    ));
    assert_eq!(reaction_decide(true, true, Some(9)), Some(9));
    assert_eq!(reaction_decide(false, true, Some(9)), None);
    assert_eq!(reaction_decide(true, false, Some(9)), None);
    assert_eq!(reaction_decide(true, true, None), None);
    assert_eq!(reaction_start(&vec![3], 3, 1, Some(9)), Some(9));
    assert_eq!(reaction_start(&vec![3], 4, 1, Some(9)), None);
    assert_eq!(reaction_start(&vec![3], 3, 1, None), None);
    assert_eq!(reaction_count_bounds(3), (3, 3));
    assert_eq!(reaction_count_bounds(12), (5, 12));
    assert_eq!(reaction_count_bounds(40), (5, 20));
}
