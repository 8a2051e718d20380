use natebot::bot::BotError;
use natebot::music::{
    channel_to_join, get_source, is_valid_url, skip_outcome, sound_plan, source_from_host,
    stop_reply, video_plan, PlayAction, PlayEvent, PlayFlow, PlayStage, SoundPlan, SoundSource,
    VideoPlan, MAX_SOUND_SECONDS, PLAY_PENDING_TEXT,
};

fn reply(action: PlayAction) -> (String, bool) {
    match action {
        PlayAction::Reply { text, failed } => (text, failed),
        _ => panic!("expected a reply"),
    }
}

#[test]
fn sources_by_host() {
    assert_eq!(get_source("https://soundcloud.com/artist/track"), Some(SoundSource::Soundcloud));
    assert_eq!(get_source("https://youtube.com/watch?v=abc"), Some(SoundSource::Youtube));
    assert_eq!(get_source("https://www.youtube.com/watch?v=abc"), Some(SoundSource::Other));
    assert_eq!(get_source("https://example.org/a.mp3"), Some(SoundSource::Other));
    assert_eq!(get_source("never gonna give you up"), None);
    assert_eq!(get_source("mailto:someone@example.org"), None);
    assert_eq!(source_from_host(Some(Some("soundcloud.com".to_string()))), Some(SoundSource::Soundcloud));
    assert_eq!(source_from_host(Some(None)), None);
    assert_eq!(source_from_host(None), None);
}

#[test]
fn valid_urls() {
    assert!(is_valid_url("https://example.org"));
    assert!(is_valid_url("mailto:someone@example.org"));
    assert!(!is_valid_url("just some words"));
    assert!(!is_valid_url(""));
}

#[test]
fn sound_and_video_plans() {
    match sound_plan("  https://soundcloud.com/a/b  ") {
        SoundPlan::Download(u) => assert_eq!(u, "https://soundcloud.com/a/b"),
        _ => panic!("expected a download"),
    }
    assert!(matches!(sound_plan("https://youtube.com/watch?v=x"), SoundPlan::Nothing));
    match sound_plan(" lofi beats ") {
        SoundPlan::Search(q) => assert_eq!(q, "lofi beats"),
        _ => panic!("expected a search"),
    }
    match video_plan(" https://youtu.be/abc ") {
        VideoPlan::Url(u) => assert_eq!(u, "https://youtu.be/abc"),
        _ => panic!("expected a url"),
    }
    match video_plan("\tcat video\n") {
        VideoPlan::Search(q) => assert_eq!(q, "cat video"),
        _ => panic!("expected a search"),
    }
}

#[test]
fn play_queues_a_sound() {
    assert_eq!(PLAY_PENDING_TEXT, "Attempting to queue sound...");
    let flow = PlayFlow::new(" song ".to_string(), true, 3);
    assert!(matches!(flow.stage, PlayStage::FetchingDetails));
    let (flow, action) = flow.step(PlayEvent::DetailsFound {
        num_seconds: MAX_SOUND_SECONDS,
        source_url: "https://a/b".to_string(),
    });
    assert!(matches!(action, PlayAction::JoinVoice));
    assert!(flow.expects(&PlayEvent::Joined));
    assert!(!flow.expects(&PlayEvent::CallMissing));
    let (flow, action) = flow.step(PlayEvent::Joined);
    assert!(matches!(action, PlayAction::FindCall { stop_first: true }));
    let (flow, action) = flow.step(PlayEvent::CallFound { queue_len: 2 });
    assert!(matches!(action, PlayAction::Enqueue));
    let (flow, action) = flow.step(PlayEvent::Enqueued { queue_len: 3 });
    assert_eq!(reply(action), ("Added to queue (3): https://a/b".to_string(), false));
    assert!(matches!(flow.stage, PlayStage::Finished));
    assert!(!flow.expects(&PlayEvent::Joined));
}

#[test]
fn play_first_sound_plays() {
    let flow = PlayFlow::new("x".to_string(), false, 1);
    let (flow, _) = flow.step(PlayEvent::DetailsFound { num_seconds: 5, source_url: "u".to_string() });
    let (flow, action) = flow.step(PlayEvent::Joined);
    assert!(matches!(action, PlayAction::FindCall { stop_first: false }));
    let (flow, _) = flow.step(PlayEvent::CallFound { queue_len: 0 });
    let (_, action) = flow.step(PlayEvent::Enqueued { queue_len: 1 });
    assert_eq!(reply(action), ("Playing sound: u".to_string(), false));
}

#[test]
fn play_refusals() {
    let f = PlayFlow::new(" my song ".to_string(), false, 2);
    let (_, a) = f.step(PlayEvent::DetailsFailed);
    assert_eq!(reply(a), ("Error occurred while getting video details for \" my song \".".to_string(), true));

    let f = PlayFlow::new("x".to_string(), false, 2);
    let (_, a) = f.step(PlayEvent::DetailsFound { num_seconds: 7201, source_url: "u".to_string() });
    assert_eq!(reply(a), ("Cannot queue sounds longer than 2 hours.".to_string(), false));

    let f = PlayFlow::new("x".to_string(), false, 2);
    let (f, _) = f.step(PlayEvent::DetailsFound { num_seconds: 1, source_url: "u".to_string() });
    let (_, a) = f.step(PlayEvent::JoinFailed { not_in_voice: true });
    assert_eq!(reply(a), ("User is not currently in a voice channel.".to_string(), false));

    let f = PlayFlow::new("x".to_string(), false, 2);
    let (f, _) = f.step(PlayEvent::DetailsFound { num_seconds: 1, source_url: "u".to_string() });
    let (_, a) = f.step(PlayEvent::JoinFailed { not_in_voice: false });
    assert_eq!(reply(a), ("Bot could not join voice channel.".to_string(), true));

    let f = PlayFlow::new("x".to_string(), false, 2);
    let (f, _) = f.step(PlayEvent::DetailsFound { num_seconds: 1, source_url: "u".to_string() });
    let (f, _) = f.step(PlayEvent::Joined);
    let (_, a) = f.step(PlayEvent::CallMissing);
    assert_eq!(reply(a), ("Could not find current voice channel.".to_string(), false));

    let f = PlayFlow::new("x".to_string(), false, 2);
    let (f, _) = f.step(PlayEvent::DetailsFound { num_seconds: 1, source_url: "u".to_string() });
    let (f, _) = f.step(PlayEvent::Joined);
    let (_, a) = f.step(PlayEvent::CallFailed);
    assert_eq!(reply(a), ("Bot could not join voice channel.".to_string(), true));

    let f = PlayFlow::new("x".to_string(), false, 2);
    let (f, _) = f.step(PlayEvent::DetailsFound { num_seconds: 1, source_url: "u".to_string() });
    let (f, _) = f.step(PlayEvent::Joined);
    let (_, a) = f.step(PlayEvent::CallFound { queue_len: 2 });
    assert_eq!(reply(a), ("Maximum sounds (2) already in queue.".to_string(), false));
}

#[test]
fn skip_and_stop_replies() {
    assert_eq!(skip_outcome(1), ("Skipping sound, queue empty.".to_string(), true));
    assert_eq!(skip_outcome(4), ("Skipping sound, 3 in queue.".to_string(), false));
    assert_eq!(stop_reply(0), "Playback stopped, clearing 0 sound in queue.");
    assert_eq!(stop_reply(1), "Playback stopped, clearing 1 sound in queue.");
    assert_eq!(stop_reply(2), "Playback stopped, clearing 2 sounds in queue.");
}

#[test]
fn joining_voice() {
    assert!(matches!(channel_to_join(None, false, true, Some(3)), Err(BotError::InvalidGuild)));
    assert!(matches!(channel_to_join(Some(1), true, false, None), Ok(None)));
    assert!(matches!(channel_to_join(Some(1), false, false, Some(3)), Err(BotError::InvalidGuild)));
    assert!(matches!(channel_to_join(Some(1), false, true, None), Err(BotError::InvalidVoiceChannel)));
    assert!(matches!(channel_to_join(Some(1), false, true, Some(3)), Ok(Some(3))));
}
