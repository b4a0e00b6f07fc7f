use cndk8::markdown::{
    entity_text, is_url_entity, link_bot_notes, link_bot_urls, link_bot_markdown, link_targets, photo_file_path,
    photo_markdown, process_media_text, EntityKind, MediaText, MessageEntity,
};
use cndk8::title::title_or_error_text;

#[test]
fn test_media_text() {
    let media_text = MediaText {
        text: "https://www.theregister.com/2024/12/30/att_verizon_confirm_salt_typhoon_breach/"
            .to_string(),
        entities: vec![MessageEntity {
            kind: EntityKind::Url,
            offset: 0,
            length: 79,
        }],
    };

    assert_eq!(
        media_text.text,
        "https://www.theregister.com/2024/12/30/att_verizon_confirm_salt_typhoon_breach/"
    );
    assert_eq!(media_text.entities.len(), 1);
    assert_eq!(media_text.entities[0].kind, EntityKind::Url);
    assert_eq!(media_text.entities[0].offset, 0);
    assert_eq!(media_text.entities[0].length, 79);
}

#[test]
fn test_media_text_with_multiple_entities() {
    let media_text = MediaText {
        text: "Check this out: https://example.com and https://anotherexample.com".to_string(),
        entities: vec![
            MessageEntity {
                kind: EntityKind::Url,
                offset: 16,
                length: 19,
            },
            MessageEntity {
                kind: EntityKind::Url,
                offset: 40,
                length: 22,
            },
        ],
    };

    assert_eq!(media_text.entities.len(), 2);
    assert_eq!(media_text.entities[0].kind, EntityKind::Url);
    assert_eq!(media_text.entities[0].offset, 16);
    assert_eq!(media_text.entities[0].length, 19);
    assert_eq!(media_text.entities[1].kind, EntityKind::Url);
    assert_eq!(media_text.entities[1].offset, 40);
    assert_eq!(media_text.entities[1].length, 22);

    let titles = vec![String::new(), String::new()];
    let simple_markdown = process_media_text(&media_text, &titles);
    assert_eq!(
        simple_markdown,
        "- Check this out: https://example.com and https://anotherexample.com\n",
        "text format is not as expected"
    );
}

fn five_whys() -> MediaText {
    MediaText {
        text: "Five whys (or 5 whys) is an iterative interrogative technique used to explore the cause-and-effect relationships underlying a particular problem.[1] The primary goal of the technique is to determine the root cause of a defect or problem by repeating the question \"why?\" five times, each time directing the current \"why\" to the answer of the previous \"why\". The method asserts that the answer to the fifth \"why\" asked in this manner should reveal the root cause of the problem.[2]".to_string(),
        entities: [
            MessageEntity {
                kind: EntityKind::Bold,
                offset: 28,
                length: 33,
            },
            MessageEntity {
                kind: EntityKind::TextLink {
                    url: "https://helpfulprofessor.com/cause-and-effect-examples/".to_string(),
                },
                offset: 82,
                length: 16,
            },
            MessageEntity {
                kind: EntityKind::TextLink {
                    url: "https://en.wikipedia.org/wiki/Five_whys".to_string(),
                },
                offset: 315,
                length: 3,
            },
            MessageEntity {
                kind: EntityKind::Italic,
                offset: 406,
                length: 3,
            },
        ]
        .to_vec(),
    }
}

#[test]
fn test_media_text_with_many_entities() {
    let media_text = five_whys();
    assert_eq!(media_text.entities.len(), 4);
    // The pages cannot be fetched here: both links get the title for a failed fetch.
    let titles: Vec<String> = link_targets(&media_text)
        .into_iter()
        .map(|t| match t {
            Some(_) => title_or_error_text::<()>(Err(())),
            None => String::new(),
        })
        .collect();
    let markdown = process_media_text(&media_text, &titles);
    let expected = format!(
        "- {}\n  - cause-and-effect [error in url](https://helpfulprofessor.com/cause-and-effect-examples/)\n  - why [error in url](https://en.wikipedia.org/wiki/Five_whys)\n",
        media_text.text
    );
    assert_eq!(markdown, expected);
}

#[test]
fn link_targets_follow_entities() {
    let targets = link_targets(&five_whys());
    assert_eq!(
        targets,
        vec![
            None,
            Some("https://helpfulprofessor.com/cause-and-effect-examples/".to_string()),
            Some("https://en.wikipedia.org/wiki/Five_whys".to_string()),
            None
        ]
    );
}

#[test]
fn text_link_titles_are_trimmed() {
    let media_text = MediaText {
        text: "see docs".to_string(),
        entities: vec![MessageEntity {
            kind: EntityKind::TextLink { url: "https://docs.rs/".to_string() },
            offset: 4,
            length: 4,
        }],
    };
    let md = process_media_text(&media_text, &vec!["  Docs.rs \n".to_string()]);
    assert_eq!(md, "- see docs\n  - docs [Docs.rs](https://docs.rs/)\n");
}

#[test]
fn entity_slices_are_bytes() {
    // "é" takes two bytes: the link covers bytes 3..7 ("ab" after "é ").
    let media_text = MediaText {
        text: "é abc".to_string(),
        entities: vec![MessageEntity {
            kind: EntityKind::TextLink { url: "https://a.b/".to_string() },
            offset: 3,
            length: 2,
        }],
    };
    let md = process_media_text(&media_text, &vec!["T".to_string()]);
    assert_eq!(md, "- é abc\n  - ab [T](https://a.b/)\n");
    assert_eq!(entity_text(&media_text.text, &media_text.entities[0]), "ab");
}

#[test]
fn link_bot_single_notes() {
    let text = "Check this out: https://example.com and more";
    let e = MessageEntity { kind: EntityKind::Url, offset: 16, length: 19 };
    assert!(is_url_entity(&e));
    assert_eq!(
        link_bot_markdown(text, &e, " Example Domain "),
        "- Check this out:  [Example Domain](https://example.com)\n"
    );
    let whole = "https://example.com";
    let e = MessageEntity { kind: EntityKind::Url, offset: 0, length: 19 };
    assert_eq!(
        link_bot_markdown(whole, &e, "Example Domain"),
        "- [Example Domain](https://example.com)\n"
    );
    assert!(!is_url_entity(&MessageEntity { kind: EntityKind::Bold, offset: 0, length: 1 }));
}

#[test]
fn photo_paths() {
    assert_eq!(photo_file_path("photos/file_12.jpg"), "./tmp/tg/file_12.jpg");
    assert_eq!(photo_file_path("file.jpg"), "./tmp/tg/file.jpg");
    assert_eq!(photo_file_path("a/b/"), "./tmp/tg/");
    assert_eq!(photo_file_path(""), "./tmp/tg/");
    assert_eq!(
        photo_markdown("./tmp/tg/x.jpg"),
        "- ![./tmp/tg/x.jpg](./tmp/tg/x.jpg)\n"
    );
}

#[test]
fn link_bot_notes_one_per_url_in_order() {
    let content = MediaText {
        text: "Check this out: https://example.com and https://anotherexample.com".to_string(),
        entities: vec![
            MessageEntity { kind: EntityKind::Url, offset: 16, length: 19 },
            MessageEntity { kind: EntityKind::Bold, offset: 0, length: 5 },
            MessageEntity { kind: EntityKind::Url, offset: 40, length: 26 },
        ],
    };
    assert_eq!(
        link_bot_urls(&content),
        vec![
            Some("https://example.com".to_string()),
            None,
            Some("https://anotherexample.com".to_string())
        ]
    );
    let titles = vec![" Example ".to_string(), String::new(), "error in url".to_string()];
    assert_eq!(
        link_bot_notes(&content, &titles),
        vec![
            "- Check this out:  [Example](https://example.com)\n".to_string(),
            "- Check this out: https://example.com and  [error in url](https://anotherexample.com)\n"
                .to_string(),
        ]
    );
    let plain = MediaText { text: "no links".to_string(), entities: vec![] };
    assert!(link_bot_notes(&plain, &vec![]).is_empty());
}
