use natebot::database::PatchNotes;
use natebot::embed::{
    create_patch_embed, format_embed_description, summarize_markdown, summary_fits_check,
    try_create_patch_embed, try_format_embed_description,
};

#[test]
fn lines_are_trimmed_and_blank_ones_dropped() {
    assert_eq!(summarize_markdown("  Line one \n\n \t\n line two\r\n"), "Line one\nline two");
    assert_eq!(summarize_markdown(""), "");
    assert_eq!(summarize_markdown("\n\n"), "");
}

#[test]
fn at_most_eight_lines() {
    let nine: Vec<String> = (1..=9).map(|i| format!("l{i}")).collect();
    assert_eq!(
        summarize_markdown(&nine.join("\n")),
        "l1\nl2\nl3\nl4\nl5\nl6\nl7\nl8\n..."
    );
    let eight: Vec<String> = (1..=8).map(|i| format!("l{i}")).collect();
    assert_eq!(summarize_markdown(&eight.join("\n")), eight.join("\n"));
}

#[test]
fn stops_after_the_line_reaching_500_bytes() {
    let long = "a".repeat(300);
    let text = format!("{long}\n{long}\nthird");
    assert_eq!(summarize_markdown(&text), format!("{long}\n{long}\n..."));
    let exact = "b".repeat(500);
    assert_eq!(summarize_markdown(&format!("{exact}\nnext")), format!("{exact}\n..."));
    // bytes, not characters, are counted: 250 two-byte characters reach 500
    let wide = "é".repeat(250);
    assert_eq!(summarize_markdown(&format!("{wide}\nnext")), format!("{wide}\n..."));
    assert_eq!(summarize_markdown(&format!("{}\nnext", "é".repeat(249))), format!("{}\nnext", "é".repeat(249)));
}

#[test]
fn cut_to_4096_bytes() {
    let huge = "a".repeat(5000);
    assert_eq!(summarize_markdown(&huge), "a".repeat(4096));
    let split = format!("{}é", "a".repeat(4095));
    assert!(!summary_fits_check(&split));
    let fits = format!("{}é", "a".repeat(4094));
    assert!(summary_fits_check(&fits));
    assert_eq!(summarize_markdown(&fits), fits);
}

#[test]
fn html_becomes_markdown() {
    assert_eq!(format_embed_description("<h1>Hello</h1>"), "# Hello");
    assert_eq!(try_format_embed_description("<p>a</p><p>b</p>"), Some("a\nb".to_string()));
    let split = format!("<p>{}é</p>", "a".repeat(4095));
    assert_eq!(try_format_embed_description(&split), None);
}

fn notes(content: &str, thumbnail: Option<&str>) -> PatchNotes {
    PatchNotes {
        target_game: "deadlock".to_string(),
        link: "https://example.com/patch".to_string(),
        title: "Patch 1".to_string(),
        content: content.to_string(),
        game_title: "Deadlock".to_string(),
        steam_app_id: Some("1422450".to_string()),
        thumbnail_url: thumbnail.map(|t| t.to_string()),
    }
}

#[test]
fn patch_embed_fields() {
    let e = create_patch_embed(&notes("<h1>Hello</h1>", Some("https://example.com/t.png")));
    assert_eq!(e.title, "Patch 1");
    assert_eq!(e.url, "https://example.com/patch");
    assert_eq!(e.author, "Deadlock");
    assert_eq!(e.description, "# Hello");
    assert_eq!(e.thumbnail.as_deref(), Some("https://example.com/t.png"));
    let e = try_create_patch_embed(&notes("<p>x</p>", None)).unwrap();
    assert_eq!(e.thumbnail, None);
    assert_eq!(e.description, "x");
    let split = format!("<p>{}é</p>", "a".repeat(4095));
    assert!(try_create_patch_embed(&notes(&split, None)).is_none());
}
