use vstd::prelude::*;
use vstd::std_specs::convert::{FromSpec, FromSpecImpl};
use crate::builder::{BuildError, LeafBuilder};
use crate::value::{
    keys, models, opt_bool, opt_model, opt_models, opt_str, push_field, push_opt,
    push_opt_bool_field, push_opt_component, push_opt_components, push_opt_str_field,
    push_str_field, push_tag, render_all, Json, Render, Value,
};

verus! {

/// The colour scheme of a confirmation dialog's confirm button.
#[derive(Clone, Copy, Debug, PartialEq, Eq)]
pub enum ConfirmationStyle {
    Primary,
    Danger,
}

impl Render for ConfirmationStyle {
    open spec fn model(&self) -> Json {
        match self {
            ConfirmationStyle::Primary => Json::Str("Primary"@),
            ConfirmationStyle::Danger => Json::Str("Danger"@),
        }
    }

    fn render(&self) -> (r: Value) {
        match self {
            ConfirmationStyle::Primary => Value::Str("Primary".to_owned()),
            ConfirmationStyle::Danger => Value::Str("Danger".to_owned()),
        }
    }
}

/// A kind of conversation that a [`Filter`] may offer.
#[derive(Clone, Copy, Debug, PartialEq, Eq)]
pub enum FilterInclusions {
    IM,
    MPIM,
    Private,
    Public,
}

impl Render for FilterInclusions {
    open spec fn model(&self) -> Json {
        match self {
            FilterInclusions::IM => Json::Str("im"@),
            FilterInclusions::MPIM => Json::Str("mpim"@),
            FilterInclusions::Private => Json::Str("private"@),
            FilterInclusions::Public => Json::Str("public"@),
        }
    }

    fn render(&self) -> (r: Value) {
        match self {
            FilterInclusions::IM => Value::Str("im".to_owned()),
            FilterInclusions::MPIM => Value::Str("mpim".to_owned()),
            FilterInclusions::Private => Value::Str("private".to_owned()),
            FilterInclusions::Public => Value::Str("public".to_owned()),
        }
    }
}

/// What a plain span of `text` with no other attribute renders to.
pub open spec fn plain_text_of(text: Seq<char>) -> Json {
    Json::Object(
        Seq::<(Seq<char>, Json)>::empty().push(("type"@, Json::Str("plain_text"@))).push(
            ("text"@, Json::Str(text)),
        ),
    )
}

/// What a marked-up span of `text` with no other attribute renders to.
pub open spec fn markdown_of(text: Seq<char>) -> Json {
    Json::Object(
        Seq::<(Seq<char>, Json)>::empty().push(("type"@, Json::Str("mrkdwn"@))).push(
            ("text"@, Json::Str(text)),
        ),
    )
}

impl PlainText {
    /// Bare text taken as a plain span: the span's default form.
    pub fn from_text(text: &str) -> (r: PlainText)
        ensures
            r.model() == plain_text_of(text@),
    {
        let r = PlainText { text: text.to_owned(), emoji: None };
        r
    }
}

impl Markdown {
    /// Bare text taken as a marked-up span: the span's default form.
    pub fn from_text(text: &str) -> (r: Markdown)
        ensures
            r.model() == markdown_of(text@),
    {
        let r = Markdown { text: text.to_owned(), verbatim: None };
        r
    }
}

impl PlainTextBuilder {
    /// Bare text where a plain span is expected renders as the span built from
    /// that text alone.
    pub proof fn lemma_coercion_matches_builder(self, text: &str)
        requires
            self.text matches Some(t) && t@ == text@,
            self.emoji is None,
        ensures
            self.built_model() == plain_text_of(text@),
    {
    }
}

impl MarkdownBuilder {
    /// Bare text where a marked-up span is expected renders as the span built
    /// from that text alone.
    pub proof fn lemma_coercion_matches_builder(self, text: &str)
        requires
            self.text matches Some(t) && t@ == text@,
            self.verbatim is None,
        ensures
            self.built_model() == markdown_of(text@),
    {
    }
}

/// Bare text where a span is expected becomes the span's default form: its
/// discriminator and the text, with no other key.
impl From<&str> for PlainText {
    fn from(item: &str) -> (r: Self)
        ensures
            r.model() == plain_text_of(item@),
    {
        PlainText::from_text(item)
    }
}

/// Verus does not identify two texts with equal contents, so no spec-level span
/// can be named for a text value; what the conversion returns is stated by the
/// `ensures` of `from` above.
impl FromSpecImpl<&str> for PlainText {
    open spec fn obeys_from_spec() -> bool {
        false
    }

    open spec fn from_spec(v: &str) -> Self {
        arbitrary()
    }
}

/// Bare text where a span is expected becomes the span's default form: its
/// discriminator and the text, with no other key.
impl From<&str> for Markdown {
    fn from(item: &str) -> (r: Self)
        ensures
            r.model() == markdown_of(item@),
    {
        Markdown::from_text(item)
    }
}

/// As for [`PlainText`], what the conversion returns is stated by the `ensures`
/// of `from` above.
impl FromSpecImpl<&str> for Markdown {
    open spec fn obeys_from_spec() -> bool {
        false
    }

    open spec fn from_spec(v: &str) -> Self {
        arbitrary()
    }
}

/// A text span in either of its two renderings; renders as the span itself.
pub enum Text {
    PlainText(PlainText),
    Markdown(Markdown),
}

impl Render for Text {
    open spec fn model(&self) -> Json {
        match self {
            Text::PlainText(x) => x.model(),
            Text::Markdown(x) => x.model(),
        }
    }

    fn render(&self) -> (r: Value) {
        match self {
            Text::PlainText(x) => x.render(),
            Text::Markdown(x) => x.render(),
        }
    }
}

/// A choice with either kind of label; renders as the choice itself.
pub enum OptionItem {
    PlainTextOptionItem(PlainTextOptionItem),
    MarkdownOptionItem(MarkdownOptionItem),
}

impl Render for OptionItem {
    open spec fn model(&self) -> Json {
        match self {
            OptionItem::PlainTextOptionItem(x) => x.model(),
            OptionItem::MarkdownOptionItem(x) => x.model(),
        }
    }

    fn render(&self) -> (r: Value) {
        match self {
            OptionItem::PlainTextOptionItem(x) => x.render(),
            OptionItem::MarkdownOptionItem(x) => x.render(),
        }
    }
}

/// A span of unformatted text.
pub struct PlainText {
    text: String,
    emoji: Option<bool>,
}

/// Accumulates the attributes of a [`PlainText`]; `build` checks that the required
/// ones are set.
pub struct PlainTextBuilder {
    pub text: Option<String>,
    pub emoji: Option<bool>,
}

impl PlainText {
    /// An accumulator with no attribute set.
    pub fn builder() -> (r: PlainTextBuilder)
        ensures
            r.text is None,
            r.emoji is None,
    {
        PlainTextBuilder { text: None, emoji: None }
    }
}

impl PlainTextBuilder {
    /// Sets `text`.
    pub fn text(self, text: &str) -> (r: Self)
        ensures
            r.text matches Some(s) && s@ == text@,
            r == (PlainTextBuilder { text: r.text, ..self }),
    {
        PlainTextBuilder { text: Some(text.to_owned()), ..self }
    }

    /// Sets `emoji`.
    pub fn emoji(self, emoji: bool) -> (r: Self)
        ensures
            r == (PlainTextBuilder { emoji: Some(emoji), ..self }),
    {
        PlainTextBuilder { emoji: Some(emoji), ..self }
    }

    /// Finishes the leaf: fails naming the first required attribute that was not set.
    pub fn build(self) -> (r: Result<PlainText, BuildError>)
        ensures
            match self.missing() {
                Some(field) => r == Err::<PlainText, BuildError>(
                    BuildError::MissingRequiredField { leaf: "PlainText", field },
                ),
                None => r matches Ok(b) && b.model() == self.built_model(),
            },
    {
        let text = match self.text {
            Some(v) => v,
            None => {
                return Err(
                    BuildError::MissingRequiredField { leaf: "PlainText", field: "text" },
                );
            },
        };
        let b = PlainText { text, emoji: self.emoji };
        Ok(b)
    }
}

impl LeafBuilder for PlainTextBuilder {
    open spec fn missing(&self) -> Option<&'static str> {
        if self.text is None {
            Some("text")
        } else {
            None
        }
    }

    open spec fn only_required(&self) -> bool {
        &&& self.missing() is None
        &&& self.emoji is None
    }

    open spec fn required_keys() -> Seq<Seq<char>> {
        seq!["type"@, "text"@]
    }

    open spec fn built_model(&self) -> Json {
        let f = Seq::<(Seq<char>, Json)>::empty()
            .push(("type"@, Json::Str("plain_text"@)))
            .push(("text"@, Json::Str(self.text.unwrap()@)));
        let f = push_opt(f, "emoji"@, opt_bool(self.emoji));
        Json::Object(f)
    }

    proof fn lemma_minimal_render(&self) {
        assert(keys(self.built_model()) =~= Self::required_keys());
    }
}

impl Render for PlainText {
    closed spec fn model(&self) -> Json {
        let f = Seq::<(Seq<char>, Json)>::empty()
            .push(("type"@, Json::Str("plain_text"@)))
            .push(("text"@, Json::Str(self.text@)));
        let f = push_opt(f, "emoji"@, opt_bool(self.emoji));
        Json::Object(f)
    }

    fn render(&self) -> (r: Value) {
        let mut fields: Vec<(String, Value)> = Vec::new();
        push_tag(&mut fields, "type", "plain_text");
        push_str_field(&mut fields, "text", &self.text);
        push_opt_bool_field(&mut fields, "emoji", self.emoji);
        Value::Object(fields)
    }
}

/// A span of text with light markup.
pub struct Markdown {
    text: String,
    verbatim: Option<bool>,
}

/// Accumulates the attributes of a [`Markdown`]; `build` checks that the required
/// ones are set.
pub struct MarkdownBuilder {
    pub text: Option<String>,
    pub verbatim: Option<bool>,
}

impl Markdown {
    /// An accumulator with no attribute set.
    pub fn builder() -> (r: MarkdownBuilder)
        ensures
            r.text is None,
            r.verbatim is None,
    {
        MarkdownBuilder { text: None, verbatim: None }
    }
}

impl MarkdownBuilder {
    /// Sets `text`.
    pub fn text(self, text: &str) -> (r: Self)
        ensures
            r.text matches Some(s) && s@ == text@,
            r == (MarkdownBuilder { text: r.text, ..self }),
    {
        MarkdownBuilder { text: Some(text.to_owned()), ..self }
    }

    /// Sets `verbatim`.
    pub fn verbatim(self, verbatim: bool) -> (r: Self)
        ensures
            r == (MarkdownBuilder { verbatim: Some(verbatim), ..self }),
    {
        MarkdownBuilder { verbatim: Some(verbatim), ..self }
    }

    /// Finishes the leaf: fails naming the first required attribute that was not set.
    pub fn build(self) -> (r: Result<Markdown, BuildError>)
        ensures
            match self.missing() {
                Some(field) => r == Err::<Markdown, BuildError>(
                    BuildError::MissingRequiredField { leaf: "Markdown", field },
                ),
                None => r matches Ok(b) && b.model() == self.built_model(),
            },
    {
        let text = match self.text {
            Some(v) => v,
            None => {
                return Err(
                    BuildError::MissingRequiredField { leaf: "Markdown", field: "text" },
                );
            },
        };
        let b = Markdown { text, verbatim: self.verbatim };
        Ok(b)
    }
}

impl LeafBuilder for MarkdownBuilder {
    open spec fn missing(&self) -> Option<&'static str> {
        if self.text is None {
            Some("text")
        } else {
            None
        }
    }

    open spec fn only_required(&self) -> bool {
        &&& self.missing() is None
        &&& self.verbatim is None
    }

    open spec fn required_keys() -> Seq<Seq<char>> {
        seq!["type"@, "text"@]
    }

    open spec fn built_model(&self) -> Json {
        let f = Seq::<(Seq<char>, Json)>::empty()
            .push(("type"@, Json::Str("mrkdwn"@)))
            .push(("text"@, Json::Str(self.text.unwrap()@)));
        let f = push_opt(f, "verbatim"@, opt_bool(self.verbatim));
        Json::Object(f)
    }

    proof fn lemma_minimal_render(&self) {
        assert(keys(self.built_model()) =~= Self::required_keys());
    }
}

impl Render for Markdown {
    closed spec fn model(&self) -> Json {
        let f = Seq::<(Seq<char>, Json)>::empty()
            .push(("type"@, Json::Str("mrkdwn"@)))
            .push(("text"@, Json::Str(self.text@)));
        let f = push_opt(f, "verbatim"@, opt_bool(self.verbatim));
        Json::Object(f)
    }

    fn render(&self) -> (r: Value) {
        let mut fields: Vec<(String, Value)> = Vec::new();
        push_tag(&mut fields, "type", "mrkdwn");
        push_str_field(&mut fields, "text", &self.text);
        push_opt_bool_field(&mut fields, "verbatim", self.verbatim);
        Value::Object(fields)
    }
}

/// A dialog that asks the user to confirm an action.
pub struct Confirmation {
    title: PlainText,
    text: Text,
    confirm: PlainText,
    deny: PlainText,
    style: Option<ConfirmationStyle>,
}

/// Accumulates the attributes of a [`Confirmation`]; `build` checks that the required
/// ones are set.
pub struct ConfirmationBuilder {
    pub title: Option<PlainText>,
    pub text: Option<Text>,
    pub confirm: Option<PlainText>,
    pub deny: Option<PlainText>,
    pub style: Option<ConfirmationStyle>,
}

impl Confirmation {
    /// An accumulator with no attribute set.
    pub fn builder() -> (r: ConfirmationBuilder)
        ensures
            r.title is None,
            r.text is None,
            r.confirm is None,
            r.deny is None,
            r.style is None,
    {
        ConfirmationBuilder { title: None, text: None, confirm: None, deny: None, style: None }
    }
}

impl ConfirmationBuilder {
    /// Sets `title`.
    pub fn title(self, title: PlainText) -> (r: Self)
        ensures
            r == (ConfirmationBuilder { title: Some(title), ..self }),
    {
        ConfirmationBuilder { title: Some(title), ..self }
    }

    /// Sets `text`.
    pub fn text(self, text: Text) -> (r: Self)
        ensures
            r == (ConfirmationBuilder { text: Some(text), ..self }),
    {
        ConfirmationBuilder { text: Some(text), ..self }
    }

    /// Sets `confirm`.
    pub fn confirm(self, confirm: PlainText) -> (r: Self)
        ensures
            r == (ConfirmationBuilder { confirm: Some(confirm), ..self }),
    {
        ConfirmationBuilder { confirm: Some(confirm), ..self }
    }

    /// Sets `deny`.
    pub fn deny(self, deny: PlainText) -> (r: Self)
        ensures
            r == (ConfirmationBuilder { deny: Some(deny), ..self }),
    {
        ConfirmationBuilder { deny: Some(deny), ..self }
    }

    /// Sets `style`.
    pub fn style(self, style: ConfirmationStyle) -> (r: Self)
        ensures
            r == (ConfirmationBuilder { style: Some(style), ..self }),
    {
        ConfirmationBuilder { style: Some(style), ..self }
    }

    /// Finishes the leaf: fails naming the first required attribute that was not set.
    pub fn build(self) -> (r: Result<Confirmation, BuildError>)
        ensures
            match self.missing() {
                Some(field) => r == Err::<Confirmation, BuildError>(
                    BuildError::MissingRequiredField { leaf: "Confirmation", field },
                ),
                None => r matches Ok(b) && b.model() == self.built_model(),
            },
    {
        let title = match self.title {
            Some(v) => v,
            None => {
                return Err(
                    BuildError::MissingRequiredField { leaf: "Confirmation", field: "title" },
                );
            },
        };
        let text = match self.text {
            Some(v) => v,
            None => {
                return Err(
                    BuildError::MissingRequiredField { leaf: "Confirmation", field: "text" },
                );
            },
        };
        let confirm = match self.confirm {
            Some(v) => v,
            None => {
                return Err(
                    BuildError::MissingRequiredField { leaf: "Confirmation", field: "confirm" },
                );
            },
        };
        let deny = match self.deny {
            Some(v) => v,
            None => {
                return Err(
                    BuildError::MissingRequiredField { leaf: "Confirmation", field: "deny" },
                );
            },
        };
        let b = Confirmation { title, text, confirm, deny, style: self.style };
        Ok(b)
    }
}

impl LeafBuilder for ConfirmationBuilder {
    open spec fn missing(&self) -> Option<&'static str> {
        if self.title is None {
            Some("title")
        } else if self.text is None {
            Some("text")
        } else if self.confirm is None {
            Some("confirm")
        } else if self.deny is None {
            Some("deny")
        } else {
            None
        }
    }

    open spec fn only_required(&self) -> bool {
        &&& self.missing() is None
        &&& self.style is None
    }

    open spec fn required_keys() -> Seq<Seq<char>> {
        seq!["title"@, "text"@, "confirm"@, "deny"@]
    }

    open spec fn built_model(&self) -> Json {
        let f = Seq::<(Seq<char>, Json)>::empty()
            .push(("title"@, self.title.unwrap().model()))
            .push(("text"@, self.text.unwrap().model()))
            .push(("confirm"@, self.confirm.unwrap().model()))
            .push(("deny"@, self.deny.unwrap().model()));
        let f = push_opt(f, "style"@, opt_model(self.style));
        Json::Object(f)
    }

    proof fn lemma_minimal_render(&self) {
        assert(keys(self.built_model()) =~= Self::required_keys());
    }
}

impl Render for Confirmation {
    closed spec fn model(&self) -> Json {
        let f = Seq::<(Seq<char>, Json)>::empty()
            .push(("title"@, self.title.model()))
            .push(("text"@, self.text.model()))
            .push(("confirm"@, self.confirm.model()))
            .push(("deny"@, self.deny.model()));
        let f = push_opt(f, "style"@, opt_model(self.style));
        Json::Object(f)
    }

    fn render(&self) -> (r: Value) {
        let mut fields: Vec<(String, Value)> = Vec::new();
        push_field(&mut fields, "title", self.title.render());
        push_field(&mut fields, "text", self.text.render());
        push_field(&mut fields, "confirm", self.confirm.render());
        push_field(&mut fields, "deny", self.deny.render());
        push_opt_component(&mut fields, "style", &self.style);
        Value::Object(fields)
    }
}

/// A choice with a plain label, for selects and multi-selects.
pub struct PlainTextOptionItem {
    text: PlainText,
    value: String,
    description: Option<PlainText>,
}

/// Accumulates the attributes of a [`PlainTextOptionItem`]; `build` checks that the required
/// ones are set.
pub struct PlainTextOptionItemBuilder {
    pub text: Option<PlainText>,
    pub value: Option<String>,
    pub description: Option<PlainText>,
}

impl PlainTextOptionItem {
    /// An accumulator with no attribute set.
    pub fn builder() -> (r: PlainTextOptionItemBuilder)
        ensures
            r.text is None,
            r.value is None,
            r.description is None,
    {
        PlainTextOptionItemBuilder { text: None, value: None, description: None }
    }
}

impl PlainTextOptionItemBuilder {
    /// Sets `text`.
    pub fn text(self, text: PlainText) -> (r: Self)
        ensures
            r == (PlainTextOptionItemBuilder { text: Some(text), ..self }),
    {
        PlainTextOptionItemBuilder { text: Some(text), ..self }
    }

    /// Sets `value`.
    pub fn value(self, value: &str) -> (r: Self)
        ensures
            r.value matches Some(s) && s@ == value@,
            r == (PlainTextOptionItemBuilder { value: r.value, ..self }),
    {
        PlainTextOptionItemBuilder { value: Some(value.to_owned()), ..self }
    }

    /// Sets `description`.
    pub fn description(self, description: PlainText) -> (r: Self)
        ensures
            r == (PlainTextOptionItemBuilder { description: Some(description), ..self }),
    {
        PlainTextOptionItemBuilder { description: Some(description), ..self }
    }

    /// Finishes the leaf: fails naming the first required attribute that was not set.
    pub fn build(self) -> (r: Result<PlainTextOptionItem, BuildError>)
        ensures
            match self.missing() {
                Some(field) => r == Err::<PlainTextOptionItem, BuildError>(
                    BuildError::MissingRequiredField { leaf: "PlainTextOptionItem", field },
                ),
                None => r matches Ok(b) && b.model() == self.built_model(),
            },
    {
        let text = match self.text {
            Some(v) => v,
            None => {
                return Err(
                    BuildError::MissingRequiredField { leaf: "PlainTextOptionItem", field: "text" },
                );
            },
        };
        let value = match self.value {
            Some(v) => v,
            None => {
                return Err(
                    BuildError::MissingRequiredField { leaf: "PlainTextOptionItem", field: "value" },
                );
            },
        };
        let b = PlainTextOptionItem { text, value, description: self.description };
        Ok(b)
    }
}

impl LeafBuilder for PlainTextOptionItemBuilder {
    open spec fn missing(&self) -> Option<&'static str> {
        if self.text is None {
            Some("text")
        } else if self.value is None {
            Some("value")
        } else {
            None
        }
    }

    open spec fn only_required(&self) -> bool {
        &&& self.missing() is None
        &&& self.description is None
    }

    open spec fn required_keys() -> Seq<Seq<char>> {
        seq!["text"@, "value"@]
    }

    open spec fn built_model(&self) -> Json {
        let f = Seq::<(Seq<char>, Json)>::empty()
            .push(("text"@, self.text.unwrap().model()))
            .push(("value"@, Json::Str(self.value.unwrap()@)));
        let f = push_opt(f, "description"@, opt_model(self.description));
        Json::Object(f)
    }

    proof fn lemma_minimal_render(&self) {
        assert(keys(self.built_model()) =~= Self::required_keys());
    }
}

impl Render for PlainTextOptionItem {
    closed spec fn model(&self) -> Json {
        let f = Seq::<(Seq<char>, Json)>::empty()
            .push(("text"@, self.text.model()))
            .push(("value"@, Json::Str(self.value@)));
        let f = push_opt(f, "description"@, opt_model(self.description));
        Json::Object(f)
    }

    fn render(&self) -> (r: Value) {
        let mut fields: Vec<(String, Value)> = Vec::new();
        push_field(&mut fields, "text", self.text.render());
        push_str_field(&mut fields, "value", &self.value);
        push_opt_component(&mut fields, "description", &self.description);
        Value::Object(fields)
    }
}

/// A choice with a marked-up label, for radio buttons and checkboxes.
pub struct MarkdownOptionItem {
    text: Markdown,
    value: String,
    description: Option<PlainText>,
}

/// Accumulates the attributes of a [`MarkdownOptionItem`]; `build` checks that the required
/// ones are set.
pub struct MarkdownOptionItemBuilder {
    pub text: Option<Markdown>,
    pub value: Option<String>,
    pub description: Option<PlainText>,
}

impl MarkdownOptionItem {
    /// An accumulator with no attribute set.
    pub fn builder() -> (r: MarkdownOptionItemBuilder)
        ensures
            r.text is None,
            r.value is None,
            r.description is None,
    {
        MarkdownOptionItemBuilder { text: None, value: None, description: None }
    }
}

impl MarkdownOptionItemBuilder {
    /// Sets `text`.
    pub fn text(self, text: Markdown) -> (r: Self)
        ensures
            r == (MarkdownOptionItemBuilder { text: Some(text), ..self }),
    {
        MarkdownOptionItemBuilder { text: Some(text), ..self }
    }

    /// Sets `value`.
    pub fn value(self, value: &str) -> (r: Self)
        ensures
            r.value matches Some(s) && s@ == value@,
            r == (MarkdownOptionItemBuilder { value: r.value, ..self }),
    {
        MarkdownOptionItemBuilder { value: Some(value.to_owned()), ..self }
    }

    /// Sets `description`.
    pub fn description(self, description: PlainText) -> (r: Self)
        ensures
            r == (MarkdownOptionItemBuilder { description: Some(description), ..self }),
    {
        MarkdownOptionItemBuilder { description: Some(description), ..self }
    }

    /// Finishes the leaf: fails naming the first required attribute that was not set.
    pub fn build(self) -> (r: Result<MarkdownOptionItem, BuildError>)
        ensures
            match self.missing() {
                Some(field) => r == Err::<MarkdownOptionItem, BuildError>(
                    BuildError::MissingRequiredField { leaf: "MarkdownOptionItem", field },
                ),
                None => r matches Ok(b) && b.model() == self.built_model(),
            },
    {
        let text = match self.text {
            Some(v) => v,
            None => {
                return Err(
                    BuildError::MissingRequiredField { leaf: "MarkdownOptionItem", field: "text" },
                );
            },
        };
        let value = match self.value {
            Some(v) => v,
            None => {
                return Err(
                    BuildError::MissingRequiredField { leaf: "MarkdownOptionItem", field: "value" },
                );
            },
        };
        let b = MarkdownOptionItem { text, value, description: self.description };
        Ok(b)
    }
}

impl LeafBuilder for MarkdownOptionItemBuilder {
    open spec fn missing(&self) -> Option<&'static str> {
        if self.text is None {
            Some("text")
        } else if self.value is None {
            Some("value")
        } else {
            None
        }
    }

    open spec fn only_required(&self) -> bool {
        &&& self.missing() is None
        &&& self.description is None
    }

    open spec fn required_keys() -> Seq<Seq<char>> {
        seq!["text"@, "value"@]
    }

    open spec fn built_model(&self) -> Json {
        let f = Seq::<(Seq<char>, Json)>::empty()
            .push(("text"@, self.text.unwrap().model()))
            .push(("value"@, Json::Str(self.value.unwrap()@)));
        let f = push_opt(f, "description"@, opt_model(self.description));
        Json::Object(f)
    }

    proof fn lemma_minimal_render(&self) {
        assert(keys(self.built_model()) =~= Self::required_keys());
    }
}

impl Render for MarkdownOptionItem {
    closed spec fn model(&self) -> Json {
        let f = Seq::<(Seq<char>, Json)>::empty()
            .push(("text"@, self.text.model()))
            .push(("value"@, Json::Str(self.value@)));
        let f = push_opt(f, "description"@, opt_model(self.description));
        Json::Object(f)
    }

    fn render(&self) -> (r: Value) {
        let mut fields: Vec<(String, Value)> = Vec::new();
        push_field(&mut fields, "text", self.text.render());
        push_str_field(&mut fields, "value", &self.value);
        push_opt_component(&mut fields, "description", &self.description);
        Value::Object(fields)
    }
}

/// A choice of an overflow menu, which may also open a link.
pub struct OverflowOptionItem {
    text: PlainText,
    value: String,
    description: Option<PlainText>,
    url: Option<String>,
}

/// Accumulates the attributes of a [`OverflowOptionItem`]; `build` checks that the required
/// ones are set.
pub struct OverflowOptionItemBuilder {
    pub text: Option<PlainText>,
    pub value: Option<String>,
    pub description: Option<PlainText>,
    pub url: Option<String>,
}

impl OverflowOptionItem {
    /// An accumulator with no attribute set.
    pub fn builder() -> (r: OverflowOptionItemBuilder)
        ensures
            r.text is None,
            r.value is None,
            r.description is None,
            r.url is None,
    {
        OverflowOptionItemBuilder { text: None, value: None, description: None, url: None }
    }
}

impl OverflowOptionItemBuilder {
    /// Sets `text`.
    pub fn text(self, text: PlainText) -> (r: Self)
        ensures
            r == (OverflowOptionItemBuilder { text: Some(text), ..self }),
    {
        OverflowOptionItemBuilder { text: Some(text), ..self }
    }

    /// Sets `value`.
    pub fn value(self, value: &str) -> (r: Self)
        ensures
            r.value matches Some(s) && s@ == value@,
            r == (OverflowOptionItemBuilder { value: r.value, ..self }),
    {
        OverflowOptionItemBuilder { value: Some(value.to_owned()), ..self }
    }

    /// Sets `description`.
    pub fn description(self, description: PlainText) -> (r: Self)
        ensures
            r == (OverflowOptionItemBuilder { description: Some(description), ..self }),
    {
        OverflowOptionItemBuilder { description: Some(description), ..self }
    }

    /// Sets `url`.
    pub fn url(self, url: &str) -> (r: Self)
        ensures
            r.url matches Some(s) && s@ == url@,
            r == (OverflowOptionItemBuilder { url: r.url, ..self }),
    {
        OverflowOptionItemBuilder { url: Some(url.to_owned()), ..self }
    }

    /// Finishes the leaf: fails naming the first required attribute that was not set.
    pub fn build(self) -> (r: Result<OverflowOptionItem, BuildError>)
        ensures
            match self.missing() {
                Some(field) => r == Err::<OverflowOptionItem, BuildError>(
                    BuildError::MissingRequiredField { leaf: "OverflowOptionItem", field },
                ),
                None => r matches Ok(b) && b.model() == self.built_model(),
            },
    {
        let text = match self.text {
            Some(v) => v,
            None => {
                return Err(
                    BuildError::MissingRequiredField { leaf: "OverflowOptionItem", field: "text" },
                );
            },
        };
        let value = match self.value {
            Some(v) => v,
            None => {
                return Err(
                    BuildError::MissingRequiredField { leaf: "OverflowOptionItem", field: "value" },
                );
            },
        };
        let b = OverflowOptionItem { text, value, description: self.description, url: self.url };
        Ok(b)
    }
}

impl LeafBuilder for OverflowOptionItemBuilder {
    open spec fn missing(&self) -> Option<&'static str> {
        if self.text is None {
            Some("text")
        } else if self.value is None {
            Some("value")
        } else {
            None
        }
    }

    open spec fn only_required(&self) -> bool {
        &&& self.missing() is None
        &&& self.description is None
        &&& self.url is None
    }

    open spec fn required_keys() -> Seq<Seq<char>> {
        seq!["text"@, "value"@]
    }

    open spec fn built_model(&self) -> Json {
        let f = Seq::<(Seq<char>, Json)>::empty()
            .push(("text"@, self.text.unwrap().model()))
            .push(("value"@, Json::Str(self.value.unwrap()@)));
        let f = push_opt(f, "description"@, opt_model(self.description));
        let f = push_opt(f, "url"@, opt_str(self.url));
        Json::Object(f)
    }

    proof fn lemma_minimal_render(&self) {
        assert(keys(self.built_model()) =~= Self::required_keys());
    }
}

impl Render for OverflowOptionItem {
    closed spec fn model(&self) -> Json {
        let f = Seq::<(Seq<char>, Json)>::empty()
            .push(("text"@, self.text.model()))
            .push(("value"@, Json::Str(self.value@)));
        let f = push_opt(f, "description"@, opt_model(self.description));
        let f = push_opt(f, "url"@, opt_str(self.url));
        Json::Object(f)
    }

    fn render(&self) -> (r: Value) {
        let mut fields: Vec<(String, Value)> = Vec::new();
        push_field(&mut fields, "text", self.text.render());
        push_str_field(&mut fields, "value", &self.value);
        push_opt_component(&mut fields, "description", &self.description);
        push_opt_str_field(&mut fields, "url", &self.url);
        Value::Object(fields)
    }
}

/// A labelled group of plain choices, for selects and multi-selects.
pub struct OptionGroup {
    label: PlainText,
    options: Vec<PlainTextOptionItem>,
}

/// Accumulates the attributes of a [`OptionGroup`]; `build` checks that the required
/// ones are set.
pub struct OptionGroupBuilder {
    pub label: Option<PlainText>,
    pub options: Option<Vec<PlainTextOptionItem>>,
}

impl OptionGroup {
    /// An accumulator with no attribute set.
    pub fn builder() -> (r: OptionGroupBuilder)
        ensures
            r.label is None,
            r.options is None,
    {
        OptionGroupBuilder { label: None, options: None }
    }
}

impl OptionGroupBuilder {
    /// Sets `label`.
    pub fn label(self, label: PlainText) -> (r: Self)
        ensures
            r == (OptionGroupBuilder { label: Some(label), ..self }),
    {
        OptionGroupBuilder { label: Some(label), ..self }
    }

    /// Sets `options`.
    pub fn options(self, options: Vec<PlainTextOptionItem>) -> (r: Self)
        ensures
            r == (OptionGroupBuilder { options: Some(options), ..self }),
    {
        OptionGroupBuilder { options: Some(options), ..self }
    }

    /// Finishes the leaf: fails naming the first required attribute that was not set.
    pub fn build(self) -> (r: Result<OptionGroup, BuildError>)
        ensures
            match self.missing() {
                Some(field) => r == Err::<OptionGroup, BuildError>(
                    BuildError::MissingRequiredField { leaf: "OptionGroup", field },
                ),
                None => r matches Ok(b) && b.model() == self.built_model(),
            },
    {
        let label = match self.label {
            Some(v) => v,
            None => {
                return Err(
                    BuildError::MissingRequiredField { leaf: "OptionGroup", field: "label" },
                );
            },
        };
        let options = match self.options {
            Some(v) => v,
            None => {
                return Err(
                    BuildError::MissingRequiredField { leaf: "OptionGroup", field: "options" },
                );
            },
        };
        let b = OptionGroup { label, options };
        Ok(b)
    }
}

impl LeafBuilder for OptionGroupBuilder {
    open spec fn missing(&self) -> Option<&'static str> {
        if self.label is None {
            Some("label")
        } else if self.options is None {
            Some("options")
        } else {
            None
        }
    }

    open spec fn only_required(&self) -> bool {
        &&& self.missing() is None
    }

    open spec fn required_keys() -> Seq<Seq<char>> {
        seq!["label"@, "options"@]
    }

    open spec fn built_model(&self) -> Json {
        let f = Seq::<(Seq<char>, Json)>::empty()
            .push(("label"@, self.label.unwrap().model()))
            .push(("options"@, Json::Array(models(self.options.unwrap()@))));
        Json::Object(f)
    }

    proof fn lemma_minimal_render(&self) {
        assert(keys(self.built_model()) =~= Self::required_keys());
    }
}

impl Render for OptionGroup {
    closed spec fn model(&self) -> Json {
        let f = Seq::<(Seq<char>, Json)>::empty()
            .push(("label"@, self.label.model()))
            .push(("options"@, Json::Array(models(self.options@))));
        Json::Object(f)
    }

    fn render(&self) -> (r: Value) {
        let mut fields: Vec<(String, Value)> = Vec::new();
        push_field(&mut fields, "label", self.label.render());
        push_field(&mut fields, "options", render_all(&self.options));
        Value::Object(fields)
    }
}

/// Which conversations a conversation list offers.
///
/// The external schema asks for at least one of the three attributes; that rule is
/// left to the consumer and not enforced here.
pub struct Filter {
    inclusions: Option<Vec<FilterInclusions>>,
    exclude_external_shared_channels: Option<bool>,
    exclude_bot_users: Option<bool>,
}

/// Accumulates the attributes of a [`Filter`]; `build` checks that the required
/// ones are set.
pub struct FilterBuilder {
    pub inclusions: Option<Vec<FilterInclusions>>,
    pub exclude_external_shared_channels: Option<bool>,
    pub exclude_bot_users: Option<bool>,
}

impl Filter {
    /// An accumulator with no attribute set.
    pub fn builder() -> (r: FilterBuilder)
        ensures
            r.inclusions is None,
            r.exclude_external_shared_channels is None,
            r.exclude_bot_users is None,
    {
        FilterBuilder {
            inclusions: None,
            exclude_external_shared_channels: None,
            exclude_bot_users: None,
        }
    }
}

impl FilterBuilder {
    /// Sets `inclusions`.
    pub fn inclusions(self, inclusions: Vec<FilterInclusions>) -> (r: Self)
        ensures
            r == (FilterBuilder { inclusions: Some(inclusions), ..self }),
    {
        FilterBuilder { inclusions: Some(inclusions), ..self }
    }

    /// Sets `exclude_external_shared_channels`.
    pub fn exclude_external_shared_channels(self, exclude_external_shared_channels: bool) -> (r: Self)
        ensures
            r == (FilterBuilder { exclude_external_shared_channels: Some(exclude_external_shared_channels), ..self }),
    {
        FilterBuilder { exclude_external_shared_channels: Some(exclude_external_shared_channels), ..self }
    }

    /// Sets `exclude_bot_users`.
    pub fn exclude_bot_users(self, exclude_bot_users: bool) -> (r: Self)
        ensures
            r == (FilterBuilder { exclude_bot_users: Some(exclude_bot_users), ..self }),
    {
        FilterBuilder { exclude_bot_users: Some(exclude_bot_users), ..self }
    }

    /// Finishes the leaf: fails naming the first required attribute that was not set.
    pub fn build(self) -> (r: Result<Filter, BuildError>)
        ensures
            match self.missing() {
                Some(field) => r == Err::<Filter, BuildError>(
                    BuildError::MissingRequiredField { leaf: "Filter", field },
                ),
                None => r matches Ok(b) && b.model() == self.built_model(),
            },
    {
        let b = Filter {
            inclusions: self.inclusions,
            exclude_external_shared_channels: self.exclude_external_shared_channels,
            exclude_bot_users: self.exclude_bot_users,
        };
        Ok(b)
    }
}

impl LeafBuilder for FilterBuilder {
    open spec fn missing(&self) -> Option<&'static str> {
        None
    }

    open spec fn only_required(&self) -> bool {
        &&& self.missing() is None
        &&& self.inclusions is None
        &&& self.exclude_external_shared_channels is None
        &&& self.exclude_bot_users is None
    }

    open spec fn required_keys() -> Seq<Seq<char>> {
        seq![]
    }

    open spec fn built_model(&self) -> Json {
        let f = Seq::<(Seq<char>, Json)>::empty();
        let f = push_opt(f, "include"@, opt_models(self.inclusions));
        let f = push_opt(f, "exclude_external_shared_channels"@, opt_bool(self.exclude_external_shared_channels));
        let f = push_opt(f, "exclude_bot_users"@, opt_bool(self.exclude_bot_users));
        Json::Object(f)
    }

    proof fn lemma_minimal_render(&self) {
        assert(keys(self.built_model()) =~= Self::required_keys());
    }
}

impl Render for Filter {
    closed spec fn model(&self) -> Json {
        let f = Seq::<(Seq<char>, Json)>::empty();
        let f = push_opt(f, "include"@, opt_models(self.inclusions));
        let f = push_opt(f, "exclude_external_shared_channels"@, opt_bool(self.exclude_external_shared_channels));
        let f = push_opt(f, "exclude_bot_users"@, opt_bool(self.exclude_bot_users));
        Json::Object(f)
    }

    fn render(&self) -> (r: Value) {
        let mut fields: Vec<(String, Value)> = Vec::new();
        push_opt_components(&mut fields, "include", &self.inclusions);
        push_opt_bool_field(&mut fields, "exclude_external_shared_channels", self.exclude_external_shared_channels);
        push_opt_bool_field(&mut fields, "exclude_bot_users", self.exclude_bot_users);
        Value::Object(fields)
    }
}

impl From<PlainText> for Text {
    fn from(item: PlainText) -> Self {
        Text::PlainText(item)
    }
}

impl FromSpecImpl<PlainText> for Text {
    open spec fn obeys_from_spec() -> bool {
        true
    }

    open spec fn from_spec(v: PlainText) -> Self {
        Text::PlainText(v)
    }
}

impl From<Markdown> for Text {
    fn from(item: Markdown) -> Self {
        Text::Markdown(item)
    }
}

impl FromSpecImpl<Markdown> for Text {
    open spec fn obeys_from_spec() -> bool {
        true
    }

    open spec fn from_spec(v: Markdown) -> Self {
        Text::Markdown(v)
    }
}

impl From<PlainTextOptionItem> for OptionItem {
    fn from(item: PlainTextOptionItem) -> Self {
        OptionItem::PlainTextOptionItem(item)
    }
}

impl FromSpecImpl<PlainTextOptionItem> for OptionItem {
    open spec fn obeys_from_spec() -> bool {
        true
    }

    open spec fn from_spec(v: PlainTextOptionItem) -> Self {
        OptionItem::PlainTextOptionItem(v)
    }
}

impl From<MarkdownOptionItem> for OptionItem {
    fn from(item: MarkdownOptionItem) -> Self {
        OptionItem::MarkdownOptionItem(item)
    }
}

impl FromSpecImpl<MarkdownOptionItem> for OptionItem {
    open spec fn obeys_from_spec() -> bool {
        true
    }

    open spec fn from_spec(v: MarkdownOptionItem) -> Self {
        OptionItem::MarkdownOptionItem(v)
    }
}

impl PlainText {
    /// Each conversion of this leaf into an alternative renders exactly what the leaf
    /// renders on its own.
    pub proof fn lemma_conversions_keep_render(self)
        ensures
            <Text as FromSpec<PlainText>>::from_spec(self).model() == self.model(),
    {
    }
}

impl Markdown {
    /// Each conversion of this leaf into an alternative renders exactly what the leaf
    /// renders on its own.
    pub proof fn lemma_conversions_keep_render(self)
        ensures
            <Text as FromSpec<Markdown>>::from_spec(self).model() == self.model(),
    {
    }
}

impl PlainTextOptionItem {
    /// Each conversion of this leaf into an alternative renders exactly what the leaf
    /// renders on its own.
    pub proof fn lemma_conversions_keep_render(self)
        ensures
            <OptionItem as FromSpec<PlainTextOptionItem>>::from_spec(self).model() == self.model(),
    {
    }
}

impl MarkdownOptionItem {
    /// Each conversion of this leaf into an alternative renders exactly what the leaf
    /// renders on its own.
    pub proof fn lemma_conversions_keep_render(self)
        ensures
            <OptionItem as FromSpec<MarkdownOptionItem>>::from_spec(self).model() == self.model(),
    {
    }
}

} // verus!
