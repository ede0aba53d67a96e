use slack_lib::builder::BuildError;
use slack_lib::composition::{
    Confirmation, ConfirmationStyle, Filter, FilterInclusions, Markdown, MarkdownOptionItem,
    OptionGroup, OptionItem, OverflowOptionItem, PlainText, PlainTextOptionItem, Text,
};
use slack_lib::json::render_json;
use slack_lib::value::{render_all, Render, Value};

fn option(text: &str, value: &str) -> PlainTextOptionItem {
    PlainTextOptionItem::builder().text(text.into()).value(value).build().unwrap()
}

#[test]
fn plain_text_with_only_text_has_two_keys() {
    let text = PlainText::builder().text("This is some plain text").build().unwrap();
    assert_eq!(
        render_json(&text),
        r#"{"type":"plain_text","text":"This is some plain text"}"#
    );
    match text.render() {
        Value::Object(fields) => {
            let keys: Vec<&str> = fields.iter().map(|f| f.0.as_str()).collect();
            assert_eq!(keys, vec!["type", "text"]);
        }
        _ => panic!("a span renders as an object"),
    }
}

#[test]
fn plain_text_from_bare_text_matches_builder() {
    let built = PlainText::builder().text("This is some plain text").build().unwrap();
    let coerced: PlainText = "This is some plain text".into();
    assert_eq!(render_json(&built), render_json(&coerced));
    assert_eq!(
        render_json(&PlainText::from_text("abc")),
        r#"{"type":"plain_text","text":"abc"}"#
    );
}

#[test]
fn plain_text_with_emoji_flag() {
    let text = PlainText::builder().text("hi").emoji(true).build().unwrap();
    assert_eq!(render_json(&text), r#"{"type":"plain_text","text":"hi","emoji":true}"#);
}

#[test]
fn markdown_renders_and_coerces() {
    let built = Markdown::builder().text("*Some* _formatted_ ~text~").build().unwrap();
    let coerced: Markdown = "*Some* _formatted_ ~text~".into();
    let expected = r#"{"type":"mrkdwn","text":"*Some* _formatted_ ~text~"}"#;
    assert_eq!(render_json(&built), expected);
    assert_eq!(render_json(&coerced), expected);
    let verbatim = Markdown::builder().text("x").verbatim(false).build().unwrap();
    assert_eq!(render_json(&verbatim), r#"{"type":"mrkdwn","text":"x","verbatim":false}"#);
}

#[test]
fn text_alternative_renders_the_span_itself() {
    let plain = PlainText::from_text("a");
    let expected = render_json(&plain);
    let wrapped: Text = plain.into();
    assert_eq!(render_json(&wrapped), expected);
    let md: Text = Markdown::from_text("*b*").into();
    assert_eq!(render_json(&md), r#"{"type":"mrkdwn","text":"*b*"}"#);
}

#[test]
fn missing_text_is_reported() {
    let r = PlainText::builder().emoji(true).build();
    assert!(matches!(
        r,
        Err(BuildError::MissingRequiredField { leaf: "PlainText", field: "text" })
    ));
}

#[test]
fn confirmation_without_style() {
    let confirm = Confirmation::builder()
        .title("Are you sure?".into())
        .text(Markdown::builder().text("Wouldn't you prefer a good game of _chess_?").build().unwrap().into())
        .confirm("Do it".into())
        .deny("Stop, I've changed my mind!".into())
        .build()
        .unwrap();
    assert_eq!(
        render_json(&confirm),
        r#"{"title":{"type":"plain_text","text":"Are you sure?"},"text":{"type":"mrkdwn","text":"Wouldn't you prefer a good game of _chess_?"},"confirm":{"type":"plain_text","text":"Do it"},"deny":{"type":"plain_text","text":"Stop, I've changed my mind!"}}"#
    );
}

#[test]
fn confirmation_with_style() {
    let confirm = Confirmation::builder()
        .title("t".into())
        .text(PlainText::from_text("x").into())
        .confirm("y".into())
        .deny("n".into())
        .style(ConfirmationStyle::Danger)
        .build()
        .unwrap();
    assert!(render_json(&confirm).ends_with(r#","style":"Danger"}"#));
}

#[test]
fn confirmation_missing_deny() {
    let r = Confirmation::builder()
        .title("t".into())
        .text(PlainText::from_text("x").into())
        .confirm("y".into())
        .build();
    assert!(matches!(
        r,
        Err(BuildError::MissingRequiredField { leaf: "Confirmation", field: "deny" })
    ));
    let r = Confirmation::builder().build();
    assert!(matches!(
        r,
        Err(BuildError::MissingRequiredField { leaf: "Confirmation", field: "title" })
    ));
}

#[test]
fn plain_text_option_item() {
    let option = option("Maru", "maru");
    assert_eq!(
        render_json(&option),
        r#"{"text":{"type":"plain_text","text":"Maru"},"value":"maru"}"#
    );
    let described = PlainTextOptionItem::builder()
        .text("Maru".into())
        .value("maru")
        .description("a cat".into())
        .build()
        .unwrap();
    assert_eq!(
        render_json(&described),
        r#"{"text":{"type":"plain_text","text":"Maru"},"value":"maru","description":{"type":"plain_text","text":"a cat"}}"#
    );
}

#[test]
fn markdown_option_item() {
    let option = MarkdownOptionItem::builder().text("Maru".into()).value("maru").build().unwrap();
    assert_eq!(
        render_json(&option),
        r#"{"text":{"type":"mrkdwn","text":"Maru"},"value":"maru"}"#
    );
    let item: OptionItem = option.into();
    assert_eq!(
        render_json(&item),
        r#"{"text":{"type":"mrkdwn","text":"Maru"},"value":"maru"}"#
    );
}

#[test]
fn overflow_option_item_with_url() {
    let option = OverflowOptionItem::builder()
        .text("Maru".into())
        .value("maru")
        .url("https://example.com")
        .build()
        .unwrap();
    assert_eq!(
        render_json(&option),
        r#"{"text":{"type":"plain_text","text":"Maru"},"value":"maru","url":"https://example.com"}"#
    );
}

#[test]
fn option_items_missing_value() {
    let r = OverflowOptionItem::builder().text("Maru".into()).build();
    assert!(matches!(
        r,
        Err(BuildError::MissingRequiredField { leaf: "OverflowOptionItem", field: "value" })
    ));
}

#[test]
fn option_groups_keep_order() {
    let groups = vec![
        OptionGroup::builder()
            .label("Group 1".into())
            .options(vec![
                option("*this is plain_text text*", "value-0"),
                option("*this is plain_text text*", "value-1"),
                option("*this is plain_text text*", "value-2"),
            ])
            .build()
            .unwrap(),
        OptionGroup::builder()
            .label("Group 2".into())
            .options(vec![option("*this is plain_text text*", "value-3")])
            .build()
            .unwrap(),
    ];
    let item = |v: &str| {
        format!(r#"{{"text":{{"type":"plain_text","text":"*this is plain_text text*"}},"value":"{}"}}"#, v)
    };
    let expected = format!(
        r#"[{{"label":{{"type":"plain_text","text":"Group 1"}},"options":[{},{},{}]}},{{"label":{{"type":"plain_text","text":"Group 2"}},"options":[{}]}}]"#,
        item("value-0"),
        item("value-1"),
        item("value-2"),
        item("value-3")
    );
    assert_eq!(render_all(&groups).to_json(), expected);
}

#[test]
fn filter_renders_set_attributes_only() {
    let filter = Filter::builder()
        .inclusions(vec![FilterInclusions::Public, FilterInclusions::MPIM])
        .exclude_bot_users(true)
        .build()
        .unwrap();
    assert_eq!(
        render_json(&filter),
        r#"{"include":["public","mpim"],"exclude_bot_users":true}"#
    );
    let all = Filter::builder()
        .inclusions(vec![FilterInclusions::IM, FilterInclusions::Private])
        .exclude_external_shared_channels(false)
        .build()
        .unwrap();
    assert_eq!(
        render_json(&all),
        r#"{"include":["im","private"],"exclude_external_shared_channels":false}"#
    );
    assert_eq!(render_json(&Filter::builder().build().unwrap()), "{}");
}

#[test]
fn text_values_are_escaped() {
    let text = PlainText::from_text("say \"hi\"\\\n\t\u{1}é");
    assert_eq!(
        render_json(&text),
        "{\"type\":\"plain_text\",\"text\":\"say \\\"hi\\\"\\\\\\n\\t\\u0001é\"}"
    );
}
