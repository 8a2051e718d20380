use chrono::NaiveDateTime;
use natebot::bot::PatchGame;
use natebot::database::{DbError, PatchNotesSub};
use natebot::subscriptions::{
    missing_patch_reply, webhook_name, SubAction, SubEvent, SubFlow, SubStage, UnsubAction,
    UnsubEvent, UnsubFlow, UnsubStage,
};

fn stored_sub() -> PatchNotesSub {
    PatchNotesSub {
        target_game: "Deadlock".to_string(),
        guild_id: "10".to_string(),
        channel_id: "20".to_string(),
        webhook_id: 30,
        webhook_token: "secret".to_string(),
        created_at: NaiveDateTime::default(),
    }
}

#[test]
fn patch_replies() {
    assert_eq!(missing_patch_reply(PatchGame::Deadlock), "Could not find patch notes for game: Deadlock");
    assert_eq!(webhook_name("NateBot", PatchGame::Deadlock), "NateBot Patch Notes - Deadlock");
}

#[test]
fn subscribe_a_channel() {
    let flow = SubFlow::new(PatchGame::Deadlock, "NateBot".to_string());
    let (flow, action) = flow.step(SubEvent::ChannelFound { guild_id: 10, channel_id: 20 });
    match action {
        SubAction::LookupSub { target_game, guild_id, channel_id } => {
            assert_eq!((target_game.as_str(), guild_id.as_str(), channel_id.as_str()), ("Deadlock", "10", "20"));
        }
        _ => panic!("expected a lookup"),
    }
    let (flow, action) = flow.step(SubEvent::SubLookedUp { exists: false });
    match action {
        SubAction::CreateWebhook { name } => assert_eq!(name, "NateBot Patch Notes - Deadlock"),
        _ => panic!("expected a webhook"),
    }
    let (flow, action) = flow.step(SubEvent::WebhookCreated { webhook_id: 30, token: Some("secret".to_string()) });
    match action {
        SubAction::Save(sub) => {
            assert_eq!(sub.target_game, "Deadlock");
            assert_eq!(sub.guild_id, "10");
            assert_eq!(sub.channel_id, "20");
            assert_eq!(sub.webhook_id, 30);
            assert_eq!(sub.webhook_token, "secret");
        }
        _ => panic!("expected a save"),
    }
    assert!(matches!(flow.stage, SubStage::Saving));
    let (flow, action) = flow.step(SubEvent::Saved);
    match action {
        SubAction::Reply { text, delete_webhook } => {
            assert_eq!(text, "This channel will now receive patch notifications for: **Deadlock**");
            assert!(!delete_webhook);
        }
        _ => panic!("expected a reply"),
    }
    assert!(matches!(flow.stage, SubStage::Finished));
}

#[test]
fn subscribe_refusals() {
    let (_, a) = SubFlow::new(PatchGame::Deadlock, "B".to_string()).step(SubEvent::ChannelMissing);
    assert!(matches!(a, SubAction::Reply { ref text, delete_webhook: false } if text == "Could not find current channel"));

    let f = SubFlow::new(PatchGame::Deadlock, "B".to_string());
    assert!(!f.expects(&SubEvent::Saved));
    let (f, _) = f.step(SubEvent::ChannelFound { guild_id: 1, channel_id: 2 });
    let (_, a) = f.step(SubEvent::SubLookedUp { exists: true });
    assert!(matches!(a, SubAction::Reply { ref text, delete_webhook: false } if text == "This channel is already subscribed for: **Deadlock**"));

    let f = SubFlow::new(PatchGame::Deadlock, "B".to_string());
    let (f, _) = f.step(SubEvent::ChannelFound { guild_id: 1, channel_id: 2 });
    let (f, _) = f.step(SubEvent::SubLookedUp { exists: false });
    let (_, a) = f.step(SubEvent::WebhookCreated { webhook_id: 5, token: None });
    assert!(matches!(a, SubAction::Reply { ref text, delete_webhook: true } if text == "Unable to create patch notes webhook"));
}

#[test]
fn unsubscribe_a_channel() {
    let flow = UnsubFlow::new(PatchGame::Deadlock);
    let (flow, action) = flow.step(UnsubEvent::ChannelFound { guild_id: 10, channel_id: 20 });
    assert!(matches!(action, UnsubAction::LookupSub { ref guild_id, ref channel_id, .. } if guild_id == "10" && channel_id == "20"));
    let (flow, action) = flow.step(UnsubEvent::SubLookedUp(Some(Ok(stored_sub()))));
    assert!(matches!(action, UnsubAction::RemoveWebhook { webhook_id: 30, ref webhook_token } if webhook_token == "secret"));
    let (flow, action) = flow.step(UnsubEvent::WebhookRemoved);
    match action {
        UnsubAction::RemoveSub { target_game, guild_id, channel_id } => {
            assert_eq!((target_game.as_str(), guild_id.as_str(), channel_id.as_str()), ("Deadlock", "10", "20"));
        }
        _ => panic!("expected a removal"),
    }
    let (flow, action) = flow.step(UnsubEvent::SubRemoved);
    assert!(matches!(action, UnsubAction::Reply(ref t) if t == "This channel will no longer receive notifications for: **Deadlock**"));
    assert!(matches!(flow.stage, UnsubStage::Finished));
}

#[test]
fn unsubscribe_refusals() {
    let (_, a) = UnsubFlow::new(PatchGame::Deadlock).step(UnsubEvent::ChannelMissing);
    assert!(matches!(a, UnsubAction::Reply(ref t) if t == "Could not find current channel"));
    for found in [None, Some(Err(DbError::ParseInt("x".to_string())))] {
        let f = UnsubFlow::new(PatchGame::Deadlock);
        let (f, _) = f.step(UnsubEvent::ChannelFound { guild_id: 1, channel_id: 2 });
        let (_, a) = f.step(UnsubEvent::SubLookedUp(found));
        assert!(matches!(a, UnsubAction::Reply(ref t) if t == "This channel is not subscribed for: **Deadlock**"));
    }
}
