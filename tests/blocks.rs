use slack_lib::blocks::{
    Actions, Context, Divider, Header, HomeTabBlock, Image, Input, MessageBlock, ModalBlock,
    Section,
};
use slack_lib::builder::BuildError;
use slack_lib::composition::{Markdown, PlainText, Text};
use slack_lib::elements::{self, ActionElements, Button, ContextElements, PlainTextInput};
use slack_lib::json::render_json;
use slack_lib::value::render_all;

fn button(id: &str) -> Button {
    Button::builder().text(id.into()).action_id(id).build().unwrap()
}

#[test]
fn discriminated_blocks_in_one_array() {
    let blocks: Vec<MessageBlock> = vec![
        Divider::builder().build().unwrap().into(),
        Header::builder().text("Title".into()).build().unwrap().into(),
    ];
    assert_eq!(
        render_all(&blocks).to_json(),
        r#"[{"type":"divider"},{"type":"header","text":{"type":"plain_text","text":"Title"}}]"#
    );
}

#[test]
fn block_render_is_the_same_through_each_alternative() {
    let make = || Divider::builder().block_id("d1").build().unwrap();
    let m: MessageBlock = make().into();
    let mo: ModalBlock = make().into();
    let h: HomeTabBlock = make().into();
    let expected = r#"{"type":"divider","block_id":"d1"}"#;
    assert_eq!(render_json(&m), expected);
    assert_eq!(render_json(&mo), expected);
    assert_eq!(render_json(&h), expected);
    assert_eq!(render_json(&make()), r#"{"block_id":"d1"}"#);
}

#[test]
fn actions_keep_element_order() {
    let elements: Vec<ActionElements> = vec![button("c").into(), button("a").into(), button("b").into()];
    let block: MessageBlock = Actions::builder().elements(elements).build().unwrap().into();
    let json = render_json(&block);
    assert!(json.starts_with(r#"{"type":"actions","elements":[{"type":"button","text":{"type":"plain_text","text":"c"}"#));
    let c = json.find(r#""action_id":"c""#).unwrap();
    let a = json.find(r#""action_id":"a""#).unwrap();
    let b = json.find(r#""action_id":"b""#).unwrap();
    assert!(c < a && a < b);
}

#[test]
fn actions_missing_elements() {
    let r = Actions::builder().block_id("x").build();
    assert!(matches!(
        r,
        Err(BuildError::MissingRequiredField { leaf: "Actions", field: "elements" })
    ));
}

#[test]
fn context_block() {
    let image = elements::Image::builder().image_url("u").alt_text("a").build().unwrap();
    let elements: Vec<ContextElements> =
        vec![image.into(), ContextElements::Text(Markdown::from_text("*m*").into())];
    let block: HomeTabBlock = Context::builder().elements(elements).build().unwrap().into();
    assert_eq!(
        render_json(&block),
        r#"{"type":"context","elements":[{"type":"image","image_url":"u","alt_text":"a"},{"type":"mrkdwn","text":"*m*"}]}"#
    );
}

#[test]
fn image_block() {
    let block: MessageBlock = Image::builder()
        .image_url("http://x/y.png")
        .alt_text("y")
        .title("A title".into())
        .build()
        .unwrap()
        .into();
    assert_eq!(
        render_json(&block),
        r#"{"type":"image","image_url":"http://x/y.png","alt_text":"y","title":{"type":"plain_text","text":"A title"}}"#
    );
    let r = Image::builder().image_url("u").build();
    assert!(matches!(r, Err(BuildError::MissingRequiredField { leaf: "Image", field: "alt_text" })));
}

#[test]
fn input_block() {
    let element = PlainTextInput::builder().action_id("in").build().unwrap();
    let block: ModalBlock = Input::builder()
        .label("Name".into())
        .element(element.into())
        .hint("Your name".into())
        .optional(true)
        .build()
        .unwrap()
        .into();
    assert_eq!(
        render_json(&block),
        r#"{"type":"input","label":{"type":"plain_text","text":"Name"},"element":{"type":"plain_text_input","action_id":"in"},"hint":{"type":"plain_text","text":"Your name"},"optional":true}"#
    );
    let r = Input::builder().label("Name".into()).build();
    assert!(matches!(r, Err(BuildError::MissingRequiredField { leaf: "Input", field: "element" })));
}

#[test]
fn section_block_with_fields_and_accessory() {
    let fields: Vec<Text> = vec![PlainText::from_text("one").into(), Markdown::from_text("*two*").into()];
    let block: MessageBlock = Section::builder()
        .block_id("s")
        .text(Markdown::from_text("hello").into())
        .fields(fields)
        .accessory(button("go").into())
        .build()
        .unwrap()
        .into();
    assert_eq!(
        render_json(&block),
        r#"{"type":"section","block_id":"s","text":{"type":"mrkdwn","text":"hello"},"fields":[{"type":"plain_text","text":"one"},{"type":"mrkdwn","text":"*two*"}],"accessory":{"type":"button","text":{"type":"plain_text","text":"go"},"action_id":"go"}}"#
    );
}

#[test]
fn section_with_only_text_has_no_other_keys() {
    let block: ModalBlock = Section::builder()
        .text(PlainText::from_text("t").into())
        .build()
        .unwrap()
        .into();
    assert_eq!(
        render_json(&block),
        r#"{"type":"section","text":{"type":"plain_text","text":"t"}}"#
    );
}
