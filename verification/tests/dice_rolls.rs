use natebot::bot::BotError;
use natebot::dice::{
    dice_reply, format_dice_roll, format_simple_roll, parse_dice_string, simple_roll_message,
    DiceRoll, EMBED_COLOR,
};

#[test]
fn parse_good_dice() {
    let v1 = String::from("1d6");
    assert!(matches!(
        parse_dice_string(&v1),
        Ok(DiceRoll { count: 1, sides: 6 })
    ));

    let v2 = String::from("2d20");
    assert!(matches!(
        parse_dice_string(&v2),
        Ok(DiceRoll {
            count: 2,
            sides: 20
        })
    ));

    let v3 = String::from("50d1000");
    assert!(matches!(
        parse_dice_string(&v3),
        Ok(DiceRoll {
            count: 50,
            sides: 1000
        })
    ));
}

#[test]
fn parse_bad_dice() {
    let v1 = String::from("16");
    assert!(matches!(parse_dice_string(&v1), Err(BotError::CommandArgParse)));

    let v2 = String::from("");
    assert!(matches!(parse_dice_string(&v2), Err(BotError::CommandArgParse)));

    let v3 = String::from("60d1000");
    assert!(matches!(parse_dice_string(&v3), Err(BotError::CommandArgParse)));

    let v4 = String::from("1d100000000000");
    assert!(matches!(parse_dice_string(&v4), Err(BotError::CommandArgParse)));

    let v5 = String::from("-10d40");
    assert!(matches!(parse_dice_string(&v5), Err(BotError::CommandArgParse)));
}

#[test]
fn dice_edge_cases() {
    assert!(matches!(parse_dice_string("0d0"), Err(BotError::CommandArgParse)));
    assert!(matches!(parse_dice_string("1d0"), Err(BotError::CommandArgParse)));
    assert!(matches!(parse_dice_string("0d6"), Err(BotError::CommandArgParse)));
    assert!(matches!(parse_dice_string("50d1"), Ok(DiceRoll { count: 50, sides: 1 })));
    assert!(matches!(parse_dice_string("007d4294967295"), Ok(DiceRoll { count: 7, sides: 4294967295 })));
    assert!(parse_dice_string("1d4294967296").is_err());
    assert!(parse_dice_string("51d2").is_err());
    assert!(parse_dice_string("d6").is_err());
    assert!(parse_dice_string("2d").is_err());
    assert!(parse_dice_string("2d6d").is_err());
    assert!(parse_dice_string("+2d6").is_err());
    assert!(parse_dice_string(" 2d6").is_err());
    assert!(parse_dice_string("2D6").is_err());
    assert!(parse_dice_string("２d6").is_err());
}

#[test]
fn simple_roll_text() {
    assert_eq!(simple_roll_message("<@7>", 42, 100), "<@7> rolls a 42 (1-100)");
    assert_eq!(format_simple_roll("<@7>", 1), "<@7> rolls a 1 (1-1)");
    assert_eq!(format_simple_roll("<@7>", 0), "<@7> rolls a 1 (1-0)");
    let s = format_simple_roll("me", 6);
    let n: u32 = s
        .strip_prefix("me rolls a ")
        .and_then(|r| r.strip_suffix(" (1-6)"))
        .unwrap()
        .parse()
        .unwrap();
    assert!((1..=6).contains(&n));
}

#[test]
fn dice_reply_text() {
    let roll = DiceRoll { count: 3, sides: 6 };
    let reply = dice_reply("<@1>", &roll, &vec![1, 6, 3]);
    assert_eq!(reply.content, "<@1> :game_die: **10**");
    assert_eq!(reply.description, "**Result**: 3d6 -> [1, 6, 3]\n**Total**: 10");
    assert_eq!(reply.color, EMBED_COLOR);
    let none = dice_reply("x", &DiceRoll { count: 0, sides: 6 }, &vec![]);
    assert_eq!(none.description, "**Result**: 0d6 -> []\n**Total**: 0");
}

#[test]
fn dice_roll_is_within_sides() {
    let roll = DiceRoll { count: 4, sides: 1 };
    let reply = format_dice_roll("u", &roll).unwrap();
    assert_eq!(reply.content, "u :game_die: **4**");
    assert_eq!(reply.description, "**Result**: 4d1 -> [1, 1, 1, 1]\n**Total**: 4");
}

#[test]
fn dice_totals_past_u32_are_refused() {
    // Two dice of u32::MAX sides each can only fit a u32 if both come up small.
    let big = DiceRoll { count: 2, sides: u32::MAX };
    match format_dice_roll("u", &big) {
        Some(reply) => {
            let total: u64 = reply.content.strip_prefix("u :game_die: **").unwrap().strip_suffix("**").unwrap().parse().unwrap();
            assert!(total <= u32::MAX as u64);
        }
        None => {}
    }
    let safe = DiceRoll { count: 50, sides: 1000 };
    assert!(format_dice_roll("u", &safe).is_some());
}
