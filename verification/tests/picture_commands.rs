use natebot::pictures::{guild_key, picture_list_reply};
use chrono::NaiveDateTime;
use natebot::database::Picture;
use natebot::pictures::{
    missing_picture_reply, PicAddAction, PicAddEvent, PicAddFlow, PicRemoveAction,
    PicRemoveEvent, PicRemoveFlow, LIST_FAILED_TEXT, NO_RANDOM_TEXT,
};

fn picture(added_by: &str) -> Picture {
    Picture {
        name: "cat".to_string(),
        guild_id: "7".to_string(),
        url: "https://img/cat.png".to_string(),
        added_by_user: added_by.to_string(),
        is_nsfw: false,
        created_at: NaiveDateTime::default(),
    }
}

fn text_of_add(a: PicAddAction) -> String {
    match a {
        PicAddAction::Reply(t) => t,
        _ => panic!("expected a reply"),
    }
}

fn text_of_remove(a: PicRemoveAction) -> String {
    match a {
        PicRemoveAction::Reply(t) => t,
        _ => panic!("expected a reply"),
    }
}

#[test]
fn picture_replies() {
    assert_eq!(missing_picture_reply("dog"), "Could not find picture 'dog'.");
    assert_eq!(LIST_FAILED_TEXT, "An error occurred while fetching pictures.");
    assert_eq!(NO_RANDOM_TEXT, "Could not find random picture.");
}

#[test]
fn add_a_picture() {
    let (_, a) = PicAddFlow::start(None, "cat".to_string(), "u".to_string(), false, 1);
    assert_eq!(text_of_add(a), "Could not find current guild.");

    let (f, a) = PicAddFlow::start(Some(7), "cat".to_string(), "https://img/cat.png".to_string(), true, 42);
    assert!(matches!(a, PicAddAction::Lookup { ref name, ref guild_id } if name == "cat" && guild_id == "7"));
    let (f, a) = f.step(PicAddEvent::LookedUp { exists: false });
    match a {
        PicAddAction::Insert(p) => {
            assert_eq!(p.name, "cat");
            assert_eq!(p.guild_id, "7");
            assert_eq!(p.url, "https://img/cat.png");
            assert_eq!(p.added_by_user, "42");
            assert!(p.is_nsfw);
        }
        _ => panic!("expected an insert"),
    }
    let (_, a) = f.step(PicAddEvent::Inserted { ok: true });
    assert_eq!(text_of_add(a), "Picture 'cat' successfully added.");

    let (f, _) = PicAddFlow::start(Some(7), "cat".to_string(), "u".to_string(), false, 42);
    let (_, a) = f.step(PicAddEvent::LookedUp { exists: true });
    assert_eq!(text_of_add(a), "Picture 'cat' already exists.");

    let (f, _) = PicAddFlow::start(Some(7), "cat".to_string(), "u".to_string(), false, 42);
    let (f, _) = f.step(PicAddEvent::LookedUp { exists: false });
    let (_, a) = f.step(PicAddEvent::Inserted { ok: false });
    assert_eq!(text_of_add(a), "An error occurred while adding picture 'cat'.");
}

#[test]
fn remove_a_picture() {
    let (_, a) = PicRemoveFlow::start(None, "cat".to_string());
    assert_eq!(text_of_remove(a), "Could not find current guild.");

    let (f, _) = PicRemoveFlow::start(Some(7), "cat".to_string());
    let (_, a) = f.step(PicRemoveEvent::LookedUp(None));
    assert_eq!(text_of_remove(a), "Picture 'cat' not found.");

    let (f, _) = PicRemoveFlow::start(Some(7), "cat".to_string());
    let (f, a) = f.step(PicRemoveEvent::LookedUp(Some(picture("42"))));
    assert!(matches!(a, PicRemoveAction::FetchMember));
    let (_, a) = f.step(PicRemoveEvent::MemberFound(None));
    assert_eq!(text_of_remove(a), "Guild member not found.");

    // The author may remove the picture.
    let (f, _) = PicRemoveFlow::start(Some(7), "cat".to_string());
    let (f, _) = f.step(PicRemoveEvent::LookedUp(Some(picture("42"))));
    let (f, a) = f.step(PicRemoveEvent::MemberFound(Some((42, None))));
    assert!(matches!(a, PicRemoveAction::Remove { ref name, ref guild_id } if name == "cat" && guild_id == "7"));
    let (_, a) = f.step(PicRemoveEvent::Removed { ok: true });
    assert_eq!(text_of_remove(a), "Picture 'cat' successfully removed.");

    // An administrator may too; anyone else may not.
    let (f, _) = PicRemoveFlow::start(Some(7), "cat".to_string());
    let (f, _) = f.step(PicRemoveEvent::LookedUp(Some(picture("42"))));
    let (f, a) = f.step(PicRemoveEvent::MemberFound(Some((9, Some(true)))));
    assert!(matches!(a, PicRemoveAction::Remove { .. }));
    let (_, a) = f.step(PicRemoveEvent::Removed { ok: false });
    assert_eq!(text_of_remove(a), "An error occurred while removing picture 'cat'.");

    let (f, _) = PicRemoveFlow::start(Some(7), "cat".to_string());
    let (f, _) = f.step(PicRemoveEvent::LookedUp(Some(picture("42"))));
    let (_, a) = f.step(PicRemoveEvent::MemberFound(Some((9, Some(false)))));
    assert_eq!(
        text_of_remove(a),
        "Cannot remove 'cat'. Pictures can only be removed by admins or the user that added them."
    );
    let (f, _) = PicRemoveFlow::start(Some(7), "cat".to_string());
    let (f, _) = f.step(PicRemoveEvent::LookedUp(Some(picture("42"))));
    assert!(!f.expects(&PicRemoveEvent::Removed { ok: true }));
    let (_, a) = f.step(PicRemoveEvent::MemberFound(Some((420, None))));
    assert!(matches!(a, PicRemoveAction::Reply(_)));
}

#[test]
fn picture_guild_and_list_replies() {
    assert_eq!(guild_key(Some(42)), Ok("42".to_string()));
    assert_eq!(guild_key(None), Err("Could not find current guild.".to_string()));
    assert_eq!(picture_list_reply(None), "An error occurred while fetching pictures.");
    assert_eq!(picture_list_reply(Some(vec![])), "No pictures found.");
    assert_eq!(
        picture_list_reply(Some(vec!["cat".to_string(), "dog".to_string()])),
        "Available pictures: cat, dog"
    );
}
