use chrono::NaiveDateTime;
use natebot::bot::{
    activity_reply, may_remove_picture, mention_user, new_bot_settings, picture_list_message,
    presence_from_settings, status_reply, BotStatus, PatchGame,
};
use natebot::database::{
    sub_from_lookup, subs_from_rows, webhook_id_text, BotSettings, CreatePatchNotesSub, DbError,
    PatchNotesSub, PatchNotesSubRow,
};

fn row(webhook_id: &str) -> PatchNotesSubRow {
    PatchNotesSubRow {
        target_game: "deadlock".to_string(),
        guild_id: "1".to_string(),
        channel_id: "2".to_string(),
        webhook_id: webhook_id.to_string(),
        webhook_token: "tok".to_string(),
        created_at: NaiveDateTime::default(),
    }
}

#[test]
fn subscription_rows() {
    let sub = PatchNotesSub::try_from(row("18446744073709551615")).ok().unwrap();
    assert_eq!(sub.webhook_id, u64::MAX);
    assert_eq!(sub.target_game, "deadlock");
    assert_eq!(sub.webhook_token, "tok");
    match PatchNotesSub::try_from(row("12a")) {
        Err(DbError::ParseInt(t)) => assert_eq!(t, "12a"),
        _ => panic!("expected a parse error"),
    }
    assert!(PatchNotesSub::try_from(row("18446744073709551616")).is_err());
    let subs = subs_from_rows(vec![row("5"), row(""), row("6"), row(" 7")]);
    assert_eq!(subs.iter().map(|s| s.webhook_id).collect::<Vec<_>>(), vec![5, 6]);
    assert!(sub_from_lookup(None).is_none());
    assert!(matches!(sub_from_lookup(Some(row("x"))), Some(Err(_))));
}

#[test]
fn subscription_webhook_id_roundtrip() {
    let create = CreatePatchNotesSub {
        target_game: "deadlock".to_string(),
        guild_id: "1".to_string(),
        channel_id: "2".to_string(),
        webhook_id: 1234567890123,
        webhook_token: "tok".to_string(),
    };
    let text = webhook_id_text(&create);
    assert_eq!(text, "1234567890123");
    let sub = PatchNotesSub::try_from(row(&text)).ok().unwrap();
    assert_eq!(sub.webhook_id, create.webhook_id);
}

#[test]
fn statuses() {
    for (s, name) in [
        (BotStatus::DoNotDisturb, "dnd"),
        (BotStatus::Idle, "idle"),
        (BotStatus::Invisible, "invisible"),
        (BotStatus::Offline, "offline"),
        (BotStatus::Online, "online"),
    ] {
        assert_eq!(s.name(), name);
        assert_eq!(BotStatus::from_str(name), s);
    }
    assert_eq!(BotStatus::from_str("busy"), BotStatus::Online);
    assert_eq!(BotStatus::from_str("DND"), BotStatus::Online);
    assert_eq!(PatchGame::Deadlock.title(), "Deadlock");
}

#[test]
fn presence_and_settings() {
    let s = BotSettings {
        application_id: "9".to_string(),
        name: "bot".to_string(),
        status: "idle".to_string(),
        activity: Some("playing".to_string()),
    };
    let p = presence_from_settings(&s);
    assert_eq!(p.status, BotStatus::Idle);
    assert_eq!(p.activity.as_deref(), Some("playing"));
    let n = new_bot_settings("9".to_string(), "bot".to_string());
    assert_eq!(n.status, "online");
    assert!(n.activity.is_none());
}

#[test]
fn replies() {
    assert_eq!(activity_reply(true, Some("chess")), "Bot activity updated to: \"chess\"");
    assert_eq!(activity_reply(true, None), "Bot activity cleared");
    assert_eq!(activity_reply(false, Some("chess")), "Unable to update bot activity");
    assert_eq!(status_reply(true, BotStatus::DoNotDisturb), "Bot status updated to: dnd");
    assert_eq!(status_reply(false, BotStatus::Idle), "Unable to update bot status");
    assert_eq!(mention_user(42), "<@42>");
}

#[test]
fn pictures() {
    assert!(may_remove_picture(42, "42", None));
    assert!(may_remove_picture(42, "43", Some(true)));
    assert!(!may_remove_picture(42, "43", Some(false)));
    assert!(!may_remove_picture(42, "43", None));
    assert!(!may_remove_picture(42, "042", None));
    assert_eq!(picture_list_message(&vec![]), "No pictures found.");
    assert_eq!(
        picture_list_message(&vec!["cat".to_string(), "dog".to_string()]),
        "Available pictures: cat, dog"
    );
}
