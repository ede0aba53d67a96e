use slack_lib::builder::BuildError;
use slack_lib::composition::{
    Confirmation, Filter, FilterInclusions, OptionGroup, OptionItem, OverflowOptionItem,
    PlainText, PlainTextOptionItem,
};
use slack_lib::elements::{
    ActionElements, Button, ButtonStyle, ChannelsSelect, Checkboxes, ContextElements,
    ConversationsSelect, Datepicker, ExternalSelect, Image, InputElements, MultiChannelsSelect,
    MultiConversationsSelect, MultiExternalSelect, MultiStaticSelect, MultiUsersSelect, Overflow,
    PlainTextInput, RadioButtons, SectionElements, StaticSelect, UsersSelect,
};
use slack_lib::json::render_json;

fn option(text: &str, value: &str) -> PlainTextOptionItem {
    PlainTextOptionItem::builder().text(text.into()).value(value).build().unwrap()
}

fn option_json(text: &str, value: &str) -> String {
    format!(r#"{{"text":{{"type":"plain_text","text":"{}"}},"value":"{}"}}"#, text, value)
}

const ITEM: &str = "*this is plain_text text*";

#[test]
fn button_with_value() {
    let button = Button::builder()
        .text("Click Me".into())
        .value("click_me_123")
        .action_id("button")
        .build()
        .unwrap();
    assert_eq!(
        render_json(&button),
        r#"{"type":"button","text":{"type":"plain_text","text":"Click Me"},"action_id":"button","value":"click_me_123"}"#
    );
}

#[test]
fn button_styles() {
    let base = || Button::builder().text("Save".into()).value("click_me_123").action_id("button");
    let primary = base().style(ButtonStyle::Primary).build().unwrap();
    assert_eq!(
        render_json(&primary),
        r#"{"type":"button","text":{"type":"plain_text","text":"Save"},"action_id":"button","value":"click_me_123","style":"primary"}"#
    );
    let danger = base().style(ButtonStyle::Danger).build().unwrap();
    assert!(render_json(&danger).contains(r#""style":"danger""#));
    let default = base().style(ButtonStyle::Default).build().unwrap();
    let unset = base().build().unwrap();
    assert_eq!(render_json(&default), render_json(&unset));
    assert!(!render_json(&default).contains("style"));
    let styled_default = base().style(ButtonStyle::default()).build().unwrap();
    assert_eq!(render_json(&styled_default), render_json(&unset));
}

#[test]
fn should_skip_only_absent_and_default() {
    assert!(ButtonStyle::should_skip(&None));
    assert!(ButtonStyle::should_skip(&Some(ButtonStyle::Default)));
    assert!(!ButtonStyle::should_skip(&Some(ButtonStyle::Primary)));
    assert!(!ButtonStyle::should_skip(&Some(ButtonStyle::Danger)));
}

#[test]
fn link_button() {
    let button = Button::builder()
        .text("Link Button".into())
        .action_id("button")
        .url("https://api.slack.com/block-kit")
        .build()
        .unwrap();
    assert_eq!(
        render_json(&button),
        r#"{"type":"button","text":{"type":"plain_text","text":"Link Button"},"action_id":"button","url":"https://api.slack.com/block-kit"}"#
    );
}

#[test]
fn button_missing_action_id() {
    let r = Button::builder().text("Click Me".into()).build();
    assert!(matches!(
        r,
        Err(BuildError::MissingRequiredField { leaf: "Button", field: "action_id" })
    ));
    let r = Button::builder().action_id("b").build();
    assert!(matches!(r, Err(BuildError::MissingRequiredField { leaf: "Button", field: "text" })));
}

#[test]
fn button_conversions_render_the_button() {
    let make = || Button::builder().text("Go".into()).action_id("go").build().unwrap();
    let own = render_json(&make());
    let section: SectionElements = make().into();
    let action: ActionElements = make().into();
    assert_eq!(render_json(&section), own);
    assert_eq!(render_json(&action), own);
}

#[test]
fn button_with_confirmation() {
    let confirm = Confirmation::builder()
        .title("Sure?".into())
        .text(PlainText::from_text("Really").into())
        .confirm("Yes".into())
        .deny("No".into())
        .build()
        .unwrap();
    let button = Button::builder()
        .text("Go".into())
        .action_id("go")
        .confirm(confirm)
        .build()
        .unwrap();
    assert!(render_json(&button).ends_with(
        r#""confirm":{"title":{"type":"plain_text","text":"Sure?"},"text":{"type":"plain_text","text":"Really"},"confirm":{"type":"plain_text","text":"Yes"},"deny":{"type":"plain_text","text":"No"}}}"#
    ));
}

#[test]
fn checkboxes() {
    let checkboxes = Checkboxes::builder()
        .action_id("this_is_an_action_id")
        .options(vec![option("Checkbox 1", "A1").into(), option("Checkbox 2", "A2").into()])
        .initial_options(vec![option("Checkbox 1", "A1").into()])
        .build()
        .unwrap();
    assert_eq!(
        render_json(&checkboxes),
        format!(
            r#"{{"type":"checkboxes","action_id":"this_is_an_action_id","options":[{},{}],"initial_options":[{}]}}"#,
            option_json("Checkbox 1", "A1"),
            option_json("Checkbox 2", "A2"),
            option_json("Checkbox 1", "A1")
        )
    );
}

#[test]
fn checkboxes_missing_options() {
    let r = Checkboxes::builder().action_id("a").build();
    assert!(matches!(
        r,
        Err(BuildError::MissingRequiredField { leaf: "Checkboxes", field: "options" })
    ));
}

#[test]
fn datepicker() {
    let datepicker = Datepicker::builder()
        .action_id("datepicker123")
        .initial_date("1990-04-28")
        .placeholder("Select a date".into())
        .build()
        .unwrap();
    assert_eq!(
        render_json(&datepicker),
        r#"{"type":"datepicker","action_id":"datepicker123","placeholder":{"type":"plain_text","text":"Select a date"},"initial_date":"1990-04-28"}"#
    );
    let bare = Datepicker::builder().action_id("d").build().unwrap();
    assert_eq!(render_json(&bare), r#"{"type":"datepicker","action_id":"d"}"#);
}

#[test]
fn image_element_and_its_conversions() {
    let make = || {
        Image::builder()
            .image_url("http://placekitten.com/700/500")
            .alt_text("Multiple cute kittens")
            .build()
            .unwrap()
    };
    let expected = r#"{"type":"image","image_url":"http://placekitten.com/700/500","alt_text":"Multiple cute kittens"}"#;
    assert_eq!(render_json(&make()), expected);
    let section: SectionElements = make().into();
    let context: ContextElements = make().into();
    assert_eq!(render_json(&section), expected);
    assert_eq!(render_json(&context), expected);
    let text = ContextElements::Text(PlainText::from_text("t").into());
    assert_eq!(render_json(&text), r#"{"type":"plain_text","text":"t"}"#);
}

#[test]
fn multi_static_select() {
    let select = MultiStaticSelect::builder()
        .action_id("text1234")
        .placeholder("Select items".into())
        .options(vec![option(ITEM, "value-0"), option(ITEM, "value-1"), option(ITEM, "value-2")])
        .build()
        .unwrap();
    assert_eq!(
        render_json(&select),
        format!(
            r#"{{"type":"multi_static_select","placeholder":{{"type":"plain_text","text":"Select items"}},"action_id":"text1234","options":[{},{},{}]}}"#,
            option_json(ITEM, "value-0"),
            option_json(ITEM, "value-1"),
            option_json(ITEM, "value-2")
        )
    );
}

#[test]
fn multi_static_select_with_groups_and_limit() {
    let select = MultiStaticSelect::builder()
        .action_id("a")
        .placeholder("p".into())
        .option_groups(vec![OptionGroup::builder()
            .label("g".into())
            .options(vec![option("x", "1")])
            .build()
            .unwrap()])
        .max_selected_items(2)
        .build()
        .unwrap();
    assert_eq!(
        render_json(&select),
        format!(
            r#"{{"type":"multi_static_select","placeholder":{{"type":"plain_text","text":"p"}},"action_id":"a","option_groups":[{{"label":{{"type":"plain_text","text":"g"}},"options":[{}]}}],"max_selected_items":2}}"#,
            option_json("x", "1")
        )
    );
}

#[test]
fn multi_external_select() {
    let select = MultiExternalSelect::builder()
        .action_id("text1234")
        .placeholder("Select items".into())
        .min_query_length(3)
        .build()
        .unwrap();
    assert_eq!(
        render_json(&select),
        r#"{"type":"multi_external_select","placeholder":{"type":"plain_text","text":"Select items"},"action_id":"text1234","min_query_length":3}"#
    );
}

#[test]
fn multi_users_select() {
    let select = MultiUsersSelect::builder()
        .action_id("text1234")
        .placeholder("Select users".into())
        .build()
        .unwrap();
    assert_eq!(
        render_json(&select),
        r#"{"type":"multi_users_select","placeholder":{"type":"plain_text","text":"Select users"},"action_id":"text1234"}"#
    );
    let with_users = MultiUsersSelect::builder()
        .action_id("a")
        .placeholder("p".into())
        .initial_users(vec!["U2".to_string(), "U1".to_string()])
        .build()
        .unwrap();
    assert!(render_json(&with_users).ends_with(r#""initial_users":["U2","U1"]}"#));
}

#[test]
fn multi_conversations_select() {
    let select = MultiConversationsSelect::builder()
        .action_id("text1234")
        .placeholder("Select conversations".into())
        .build()
        .unwrap();
    assert_eq!(
        render_json(&select),
        r#"{"type":"multi_conversations_select","placeholder":{"type":"plain_text","text":"Select conversations"},"action_id":"text1234"}"#
    );
    let filtered = MultiConversationsSelect::builder()
        .action_id("a")
        .placeholder("p".into())
        .default_to_current_conversation(true)
        .filter(Filter::builder().inclusions(vec![FilterInclusions::IM]).build().unwrap())
        .build()
        .unwrap();
    assert!(render_json(&filtered)
        .ends_with(r#""default_to_current_conversation":true,"filter":{"include":["im"]}}"#));
}

#[test]
fn multi_channels_select() {
    let select = MultiChannelsSelect::builder()
        .action_id("text1234")
        .placeholder("Select channels".into())
        .build()
        .unwrap();
    assert_eq!(
        render_json(&select),
        r#"{"type":"multi_channels_select","placeholder":{"type":"plain_text","text":"Select channels"},"action_id":"text1234"}"#
    );
}

#[test]
fn overflow() {
    let item = |v: &str| {
        OverflowOptionItem::builder().text(ITEM.into()).value(v).build().unwrap()
    };
    let select = Overflow::builder()
        .action_id("overflow")
        .options(vec![item("value-0"), item("value-1"), item("value-2"), item("value-3"), item("value-4")])
        .build()
        .unwrap();
    assert_eq!(
        render_json(&select),
        format!(
            r#"{{"type":"overflow","action_id":"overflow","options":[{},{},{},{},{}]}}"#,
            option_json(ITEM, "value-0"),
            option_json(ITEM, "value-1"),
            option_json(ITEM, "value-2"),
            option_json(ITEM, "value-3"),
            option_json(ITEM, "value-4")
        )
    );
}

#[test]
fn plain_text_input() {
    let input = PlainTextInput::builder()
        .action_id("plain_input")
        .placeholder("Enter some plain text".into())
        .build()
        .unwrap();
    assert_eq!(
        render_json(&input),
        r#"{"type":"plain_text_input","action_id":"plain_input","placeholder":{"type":"plain_text","text":"Enter some plain text"}}"#
    );
    let bounded = PlainTextInput::builder()
        .action_id("a")
        .initial_value("v")
        .multiline(true)
        .min_length(-2147483648)
        .max_length(2147483647)
        .build()
        .unwrap();
    assert_eq!(
        render_json(&bounded),
        r#"{"type":"plain_text_input","action_id":"a","initial_value":"v","multiline":true,"min_length":-2147483648,"max_length":2147483647}"#
    );
}

#[test]
fn radio_buttons() {
    let input = RadioButtons::builder()
        .initial_option(option("Radio 1", "A1").into())
        .options(vec![option("Radio 1", "A1").into(), option("Radio 2", "A2").into()])
        .action_id("this_is_an_action_id")
        .build()
        .unwrap();
    assert_eq!(
        render_json(&input),
        format!(
            r#"{{"type":"radio_buttons","action_id":"this_is_an_action_id","options":[{},{}],"initial_option":{}}}"#,
            option_json("Radio 1", "A1"),
            option_json("Radio 2", "A2"),
            option_json("Radio 1", "A1")
        )
    );
}

#[test]
fn radio_buttons_require_initial_option() {
    let options: Vec<OptionItem> = vec![option("Radio 1", "A1").into()];
    let r = RadioButtons::builder().action_id("a").options(options).build();
    assert!(matches!(
        r,
        Err(BuildError::MissingRequiredField { leaf: "RadioButtons", field: "initial_option" })
    ));
}

#[test]
fn static_select() {
    let select = StaticSelect::builder()
        .action_id("text1234")
        .placeholder("Select an item".into())
        .options(vec![option(ITEM, "value-0"), option(ITEM, "value-1"), option(ITEM, "value-2")])
        .build()
        .unwrap();
    assert_eq!(
        render_json(&select),
        format!(
            r#"{{"type":"static_select","placeholder":{{"type":"plain_text","text":"Select an item"}},"action_id":"text1234","options":[{},{},{}]}}"#,
            option_json(ITEM, "value-0"),
            option_json(ITEM, "value-1"),
            option_json(ITEM, "value-2")
        )
    );
}

#[test]
fn external_select() {
    let select = ExternalSelect::builder()
        .action_id("text1234")
        .placeholder("Select an item".into())
        .min_query_length(3)
        .build()
        .unwrap();
    assert_eq!(
        render_json(&select),
        r#"{"type":"external_select","placeholder":{"type":"plain_text","text":"Select an item"},"action_id":"text1234","min_query_length":3}"#
    );
}

#[test]
fn users_select() {
    let select = UsersSelect::builder()
        .action_id("text1234")
        .placeholder("Select an item".into())
        .build()
        .unwrap();
    assert_eq!(
        render_json(&select),
        r#"{"type":"users_select","placeholder":{"type":"plain_text","text":"Select an item"},"action_id":"text1234"}"#
    );
    let r = UsersSelect::builder().action_id("a").build();
    assert!(matches!(
        r,
        Err(BuildError::MissingRequiredField { leaf: "UsersSelect", field: "placeholder" })
    ));
}

#[test]
fn conversations_select() {
    let select = ConversationsSelect::builder()
        .action_id("text1234")
        .placeholder("Select an item".into())
        .build()
        .unwrap();
    assert_eq!(
        render_json(&select),
        r#"{"type":"conversations_select","placeholder":{"type":"plain_text","text":"Select an item"},"action_id":"text1234"}"#
    );
}

#[test]
fn channels_select() {
    let make = || {
        ChannelsSelect::builder()
            .action_id("text1234")
            .placeholder("Select an item".into())
            .build()
            .unwrap()
    };
    let expected = r#"{"type":"channels_select","placeholder":{"type":"plain_text","text":"Select an item"},"action_id":"text1234"}"#;
    assert_eq!(render_json(&make()), expected);
    let s: SectionElements = make().into();
    let a: ActionElements = make().into();
    let i: InputElements = make().into();
    assert_eq!(render_json(&s), expected);
    assert_eq!(render_json(&a), expected);
    assert_eq!(render_json(&i), expected);
}
