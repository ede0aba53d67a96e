use vstd::prelude::*;
use vstd::std_specs::convert::{FromSpec, FromSpecImpl};
use crate::builder::{BuildError, LeafBuilder};
use crate::composition::{
    Confirmation, Filter, OptionGroup, OptionItem, OverflowOptionItem, PlainText,
    PlainTextOptionItem, Text,
};
use crate::value::{
    fields_view, keys, models, opt_bool, opt_int, opt_model, opt_models, opt_str, opt_strs,
    push_field, push_opt, push_opt_bool_field, push_opt_component, push_opt_components,
    push_opt_int_field, push_opt_str_field, push_opt_strs, push_str_field, push_tag, render_all,
    Json, Render, Value,
};

verus! {

/// The colour scheme of a button; `Default` is the scheme the consumer uses
/// when none is given, and is never rendered.
#[derive(Clone, Copy, Debug, PartialEq, Eq)]
pub enum ButtonStyle {
    Primary,
    Danger,
    Default,
}

impl ButtonStyle {
    /// Whether a style attribute is left out of the render: when it is absent,
    /// and when it holds the `Default` sentinel.
    pub open spec fn skipped(item: Option<ButtonStyle>) -> bool {
        match item {
            Some(style) => style is Default,
            None => true,
        }
    }

    /// Decides whether a style attribute is left out of the render.
    pub fn should_skip(item: &Option<ButtonStyle>) -> (r: bool)
        ensures
            r == ButtonStyle::skipped(*item),
    {
        match item {
            Some(style) => match style {
                ButtonStyle::Default => true,
                _ => false,
            },
            None => true,
        }
    }
}

impl Default for ButtonStyle {
    fn default() -> (r: Self)
        ensures
            r is Default,
    {
        ButtonStyle::Default
    }
}

impl Render for ButtonStyle {
    open spec fn model(&self) -> Json {
        match self {
            ButtonStyle::Primary => Json::Str("primary"@),
            ButtonStyle::Danger => Json::Str("danger"@),
            ButtonStyle::Default => Json::Str("default"@),
        }
    }

    fn render(&self) -> (r: Value) {
        match self {
            ButtonStyle::Primary => Value::Str("primary".to_owned()),
            ButtonStyle::Danger => Value::Str("danger".to_owned()),
            ButtonStyle::Default => Value::Str("default".to_owned()),
        }
    }
}

/// The `"style"` field, present unless the style is skipped.
pub open spec fn push_style(
    fields: Seq<(Seq<char>, Json)>,
    style: Option<ButtonStyle>,
) -> Seq<(Seq<char>, Json)> {
    if ButtonStyle::skipped(style) {
        fields
    } else {
        fields.push(("style"@, style.unwrap().model()))
    }
}

/// Appends the `"style"` field unless the style is skipped.
pub fn push_style_field(fields: &mut Vec<(String, Value)>, style: &Option<ButtonStyle>)
    ensures
        fields_view(final(fields)@) == push_style(fields_view(old(fields)@), *style),
{
    if !ButtonStyle::should_skip(style) {
        if let Some(s) = style {
            push_field(fields, "style", s.render());
        }
    }
}

impl ButtonBuilder {
    /// A button whose style is set to the `Default` sentinel renders exactly as
    /// the same button with no style at all.
    pub proof fn lemma_default_style_is_omitted(self)
        requires
            self.style == Some(ButtonStyle::Default),
        ensures
            self.built_model() == (ButtonBuilder { style: None, ..self }).built_model(),
    {
    }
}

/// An element allowed as the accessory of a section block; renders as the element itself.
pub enum SectionElements {
    Button(Button),
    Checkboxes(Checkboxes),
    Datepicker(Datepicker),
    Image(Image),
    MultiStaticSelect(MultiStaticSelect),
    MultiExternalSelect(MultiExternalSelect),
    MultiUsersSelect(MultiUsersSelect),
    MultiConversationsSelect(MultiConversationsSelect),
    MultiChannelsSelect(MultiChannelsSelect),
    Overflow(Overflow),
    PlainTextInput(PlainTextInput),
    RadioButtons(RadioButtons),
    StaticSelect(StaticSelect),
    ExternalSelect(ExternalSelect),
    UsersSelect(UsersSelect),
    ConversationsSelect(ConversationsSelect),
    ChannelsSelect(ChannelsSelect),
}

impl Render for SectionElements {
    open spec fn model(&self) -> Json {
        match self {
            SectionElements::Button(x) => x.model(),
            SectionElements::Checkboxes(x) => x.model(),
            SectionElements::Datepicker(x) => x.model(),
            SectionElements::Image(x) => x.model(),
            SectionElements::MultiStaticSelect(x) => x.model(),
            SectionElements::MultiExternalSelect(x) => x.model(),
            SectionElements::MultiUsersSelect(x) => x.model(),
            SectionElements::MultiConversationsSelect(x) => x.model(),
            SectionElements::MultiChannelsSelect(x) => x.model(),
            SectionElements::Overflow(x) => x.model(),
            SectionElements::PlainTextInput(x) => x.model(),
            SectionElements::RadioButtons(x) => x.model(),
            SectionElements::StaticSelect(x) => x.model(),
            SectionElements::ExternalSelect(x) => x.model(),
            SectionElements::UsersSelect(x) => x.model(),
            SectionElements::ConversationsSelect(x) => x.model(),
            SectionElements::ChannelsSelect(x) => x.model(),
        }
    }

    fn render(&self) -> (r: Value) {
        match self {
            SectionElements::Button(x) => x.render(),
            SectionElements::Checkboxes(x) => x.render(),
            SectionElements::Datepicker(x) => x.render(),
            SectionElements::Image(x) => x.render(),
            SectionElements::MultiStaticSelect(x) => x.render(),
            SectionElements::MultiExternalSelect(x) => x.render(),
            SectionElements::MultiUsersSelect(x) => x.render(),
            SectionElements::MultiConversationsSelect(x) => x.render(),
            SectionElements::MultiChannelsSelect(x) => x.render(),
            SectionElements::Overflow(x) => x.render(),
            SectionElements::PlainTextInput(x) => x.render(),
            SectionElements::RadioButtons(x) => x.render(),
            SectionElements::StaticSelect(x) => x.render(),
            SectionElements::ExternalSelect(x) => x.render(),
            SectionElements::UsersSelect(x) => x.render(),
            SectionElements::ConversationsSelect(x) => x.render(),
            SectionElements::ChannelsSelect(x) => x.render(),
        }
    }
}

/// An element allowed in a row of actions; renders as the element itself.
pub enum ActionElements {
    Button(Button),
    Checkboxes(Checkboxes),
    Datepicker(Datepicker),
    Overflow(Overflow),
    PlainTextInput(PlainTextInput),
    RadioButtons(RadioButtons),
    StaticSelect(StaticSelect),
    ExternalSelect(ExternalSelect),
    UsersSelect(UsersSelect),
    ConversationsSelect(ConversationsSelect),
    ChannelsSelect(ChannelsSelect),
}

impl Render for ActionElements {
    open spec fn model(&self) -> Json {
        match self {
            ActionElements::Button(x) => x.model(),
            ActionElements::Checkboxes(x) => x.model(),
            ActionElements::Datepicker(x) => x.model(),
            ActionElements::Overflow(x) => x.model(),
            ActionElements::PlainTextInput(x) => x.model(),
            ActionElements::RadioButtons(x) => x.model(),
            ActionElements::StaticSelect(x) => x.model(),
            ActionElements::ExternalSelect(x) => x.model(),
            ActionElements::UsersSelect(x) => x.model(),
            ActionElements::ConversationsSelect(x) => x.model(),
            ActionElements::ChannelsSelect(x) => x.model(),
        }
    }

    fn render(&self) -> (r: Value) {
        match self {
            ActionElements::Button(x) => x.render(),
            ActionElements::Checkboxes(x) => x.render(),
            ActionElements::Datepicker(x) => x.render(),
            ActionElements::Overflow(x) => x.render(),
            ActionElements::PlainTextInput(x) => x.render(),
            ActionElements::RadioButtons(x) => x.render(),
            ActionElements::StaticSelect(x) => x.render(),
            ActionElements::ExternalSelect(x) => x.render(),
            ActionElements::UsersSelect(x) => x.render(),
            ActionElements::ConversationsSelect(x) => x.render(),
            ActionElements::ChannelsSelect(x) => x.render(),
        }
    }
}

/// An element allowed in an input block; renders as the element itself.
pub enum InputElements {
    Button(Button),
    Checkboxes(Checkboxes),
    Datepicker(Datepicker),
    MultiStaticSelect(MultiStaticSelect),
    MultiExternalSelect(MultiExternalSelect),
    MultiUsersSelect(MultiUsersSelect),
    MultiConversationsSelect(MultiConversationsSelect),
    MultiChannelsSelect(MultiChannelsSelect),
    PlainTextInput(PlainTextInput),
    RadioButtons(RadioButtons),
    StaticSelect(StaticSelect),
    ExternalSelect(ExternalSelect),
    UsersSelect(UsersSelect),
    ConversationsSelect(ConversationsSelect),
    ChannelsSelect(ChannelsSelect),
}

impl Render for InputElements {
    open spec fn model(&self) -> Json {
        match self {
            InputElements::Button(x) => x.model(),
            InputElements::Checkboxes(x) => x.model(),
            InputElements::Datepicker(x) => x.model(),
            InputElements::MultiStaticSelect(x) => x.model(),
            InputElements::MultiExternalSelect(x) => x.model(),
            InputElements::MultiUsersSelect(x) => x.model(),
            InputElements::MultiConversationsSelect(x) => x.model(),
            InputElements::MultiChannelsSelect(x) => x.model(),
            InputElements::PlainTextInput(x) => x.model(),
            InputElements::RadioButtons(x) => x.model(),
            InputElements::StaticSelect(x) => x.model(),
            InputElements::ExternalSelect(x) => x.model(),
            InputElements::UsersSelect(x) => x.model(),
            InputElements::ConversationsSelect(x) => x.model(),
            InputElements::ChannelsSelect(x) => x.model(),
        }
    }

    fn render(&self) -> (r: Value) {
        match self {
            InputElements::Button(x) => x.render(),
            InputElements::Checkboxes(x) => x.render(),
            InputElements::Datepicker(x) => x.render(),
            InputElements::MultiStaticSelect(x) => x.render(),
            InputElements::MultiExternalSelect(x) => x.render(),
            InputElements::MultiUsersSelect(x) => x.render(),
            InputElements::MultiConversationsSelect(x) => x.render(),
            InputElements::MultiChannelsSelect(x) => x.render(),
            InputElements::PlainTextInput(x) => x.render(),
            InputElements::RadioButtons(x) => x.render(),
            InputElements::StaticSelect(x) => x.render(),
            InputElements::ExternalSelect(x) => x.render(),
            InputElements::UsersSelect(x) => x.render(),
            InputElements::ConversationsSelect(x) => x.render(),
            InputElements::ChannelsSelect(x) => x.render(),
        }
    }
}

/// An element allowed in a context block; renders as the element itself.
pub enum ContextElements {
    Image(Image),
    Text(Text),
}

impl Render for ContextElements {
    open spec fn model(&self) -> Json {
        match self {
            ContextElements::Image(x) => x.model(),
            ContextElements::Text(x) => x.model(),
        }
    }

    fn render(&self) -> (r: Value) {
        match self {
            ContextElements::Image(x) => x.render(),
            ContextElements::Text(x) => x.render(),
        }
    }
}

/// A regular interactive button, or a link button when it has a URL.
pub struct Button {
    text: PlainText,
    action_id: String,
    url: Option<String>,
    value: Option<String>,
    style: Option<ButtonStyle>,
    confirm: Option<Confirmation>,
}

/// Accumulates the attributes of a [`Button`]; `build` checks that the required
/// ones are set.
pub struct ButtonBuilder {
    pub text: Option<PlainText>,
    pub action_id: Option<String>,
    pub url: Option<String>,
    pub value: Option<String>,
    pub style: Option<ButtonStyle>,
    pub confirm: Option<Confirmation>,
}

impl Button {
    /// An accumulator with no attribute set.
    pub fn builder() -> (r: ButtonBuilder)
        ensures
            r.text is None,
            r.action_id is None,
            r.url is None,
            r.value is None,
            r.style is None,
            r.confirm is None,
    {
        ButtonBuilder {
            text: None,
            action_id: None,
            url: None,
            value: None,
            style: None,
            confirm: None,
        }
    }
}

impl ButtonBuilder {
    /// Sets `text`.
    pub fn text(self, text: PlainText) -> (r: Self)
        ensures
            r == (ButtonBuilder { text: Some(text), ..self }),
    {
        ButtonBuilder { text: Some(text), ..self }
    }

    /// Sets `action_id`.
    pub fn action_id(self, action_id: &str) -> (r: Self)
        ensures
            r.action_id matches Some(s) && s@ == action_id@,
            r == (ButtonBuilder { action_id: r.action_id, ..self }),
    {
        ButtonBuilder { action_id: Some(action_id.to_owned()), ..self }
    }

    /// Sets `url`.
    pub fn url(self, url: &str) -> (r: Self)
        ensures
            r.url matches Some(s) && s@ == url@,
            r == (ButtonBuilder { url: r.url, ..self }),
    {
        ButtonBuilder { url: Some(url.to_owned()), ..self }
    }

    /// Sets `value`.
    pub fn value(self, value: &str) -> (r: Self)
        ensures
            r.value matches Some(s) && s@ == value@,
            r == (ButtonBuilder { value: r.value, ..self }),
    {
        ButtonBuilder { value: Some(value.to_owned()), ..self }
    }

    /// Sets `style`.
    pub fn style(self, style: ButtonStyle) -> (r: Self)
        ensures
            r == (ButtonBuilder { style: Some(style), ..self }),
    {
        ButtonBuilder { style: Some(style), ..self }
    }

    /// Sets `confirm`.
    pub fn confirm(self, confirm: Confirmation) -> (r: Self)
        ensures
            r == (ButtonBuilder { confirm: Some(confirm), ..self }),
    {
        ButtonBuilder { confirm: Some(confirm), ..self }
    }

    /// Finishes the leaf: fails naming the first required attribute that was not set.
    pub fn build(self) -> (r: Result<Button, BuildError>)
        ensures
            match self.missing() {
                Some(field) => r == Err::<Button, BuildError>(
                    BuildError::MissingRequiredField { leaf: "Button", field },
                ),
                None => r matches Ok(b) && b.model() == self.built_model(),
            },
    {
        let text = match self.text {
            Some(v) => v,
            None => {
                return Err(
                    BuildError::MissingRequiredField { leaf: "Button", field: "text" },
                );
            },
        };
        let action_id = match self.action_id {
            Some(v) => v,
            None => {
                return Err(
                    BuildError::MissingRequiredField { leaf: "Button", field: "action_id" },
                );
            },
        };
        let b = Button {
            text,
            action_id,
            url: self.url,
            value: self.value,
            style: self.style,
            confirm: self.confirm,
        };
        Ok(b)
    }
}

impl LeafBuilder for ButtonBuilder {
    open spec fn missing(&self) -> Option<&'static str> {
        if self.text is None {
            Some("text")
        } else if self.action_id is None {
            Some("action_id")
        } else {
            None
        }
    }

    open spec fn only_required(&self) -> bool {
        &&& self.missing() is None
        &&& self.url is None
        &&& self.value is None
        &&& self.style is None
        &&& self.confirm is None
    }

    open spec fn required_keys() -> Seq<Seq<char>> {
        seq!["type"@, "text"@, "action_id"@]
    }

    open spec fn built_model(&self) -> Json {
        let f = Seq::<(Seq<char>, Json)>::empty()
            .push(("type"@, Json::Str("button"@)))
            .push(("text"@, self.text.unwrap().model()))
            .push(("action_id"@, Json::Str(self.action_id.unwrap()@)));
        let f = push_opt(f, "url"@, opt_str(self.url));
        let f = push_opt(f, "value"@, opt_str(self.value));
        let f = push_style(f, self.style);
        let f = push_opt(f, "confirm"@, opt_model(self.confirm));
        Json::Object(f)
    }

    proof fn lemma_minimal_render(&self) {
        assert(keys(self.built_model()) =~= Self::required_keys());
    }
}

impl Render for Button {
    closed spec fn model(&self) -> Json {
        let f = Seq::<(Seq<char>, Json)>::empty()
            .push(("type"@, Json::Str("button"@)))
            .push(("text"@, self.text.model()))
            .push(("action_id"@, Json::Str(self.action_id@)));
        let f = push_opt(f, "url"@, opt_str(self.url));
        let f = push_opt(f, "value"@, opt_str(self.value));
        let f = push_style(f, self.style);
        let f = push_opt(f, "confirm"@, opt_model(self.confirm));
        Json::Object(f)
    }

    fn render(&self) -> (r: Value) {
        let mut fields: Vec<(String, Value)> = Vec::new();
        push_tag(&mut fields, "type", "button");
        push_field(&mut fields, "text", self.text.render());
        push_str_field(&mut fields, "action_id", &self.action_id);
        push_opt_str_field(&mut fields, "url", &self.url);
        push_opt_str_field(&mut fields, "value", &self.value);
        push_style_field(&mut fields, &self.style);
        push_opt_component(&mut fields, "confirm", &self.confirm);
        Value::Object(fields)
    }
}

/// A group of checkboxes.
pub struct Checkboxes {
    action_id: String,
    options: Vec<OptionItem>,
    initial_options: Option<Vec<OptionItem>>,
    confirm: Option<Confirmation>,
}

/// Accumulates the attributes of a [`Checkboxes`]; `build` checks that the required
/// ones are set.
pub struct CheckboxesBuilder {
    pub action_id: Option<String>,
    pub options: Option<Vec<OptionItem>>,
    pub initial_options: Option<Vec<OptionItem>>,
    pub confirm: Option<Confirmation>,
}

impl Checkboxes {
    /// An accumulator with no attribute set.
    pub fn builder() -> (r: CheckboxesBuilder)
        ensures
            r.action_id is None,
            r.options is None,
            r.initial_options is None,
            r.confirm is None,
    {
        CheckboxesBuilder { action_id: None, options: None, initial_options: None, confirm: None }
    }
}

impl CheckboxesBuilder {
    /// Sets `action_id`.
    pub fn action_id(self, action_id: &str) -> (r: Self)
        ensures
            r.action_id matches Some(s) && s@ == action_id@,
            r == (CheckboxesBuilder { action_id: r.action_id, ..self }),
    {
        CheckboxesBuilder { action_id: Some(action_id.to_owned()), ..self }
    }

    /// Sets `options`.
    pub fn options(self, options: Vec<OptionItem>) -> (r: Self)
        ensures
            r == (CheckboxesBuilder { options: Some(options), ..self }),
    {
        CheckboxesBuilder { options: Some(options), ..self }
    }

    /// Sets `initial_options`.
    pub fn initial_options(self, initial_options: Vec<OptionItem>) -> (r: Self)
        ensures
            r == (CheckboxesBuilder { initial_options: Some(initial_options), ..self }),
    {
        CheckboxesBuilder { initial_options: Some(initial_options), ..self }
    }

    /// Sets `confirm`.
    pub fn confirm(self, confirm: Confirmation) -> (r: Self)
        ensures
            r == (CheckboxesBuilder { confirm: Some(confirm), ..self }),
    {
        CheckboxesBuilder { confirm: Some(confirm), ..self }
    }

    /// Finishes the leaf: fails naming the first required attribute that was not set.
    pub fn build(self) -> (r: Result<Checkboxes, BuildError>)
        ensures
            match self.missing() {
                Some(field) => r == Err::<Checkboxes, BuildError>(
                    BuildError::MissingRequiredField { leaf: "Checkboxes", field },
                ),
                None => r matches Ok(b) && b.model() == self.built_model(),
            },
    {
        let action_id = match self.action_id {
            Some(v) => v,
            None => {
                return Err(
                    BuildError::MissingRequiredField { leaf: "Checkboxes", field: "action_id" },
                );
            },
        };
        let options = match self.options {
            Some(v) => v,
            None => {
                return Err(
                    BuildError::MissingRequiredField { leaf: "Checkboxes", field: "options" },
                );
            },
        };
        let b = Checkboxes {
            action_id,
            options,
            initial_options: self.initial_options,
            confirm: self.confirm,
        };
        Ok(b)
    }
}

impl LeafBuilder for CheckboxesBuilder {
    open spec fn missing(&self) -> Option<&'static str> {
        if self.action_id is None {
            Some("action_id")
        } else if self.options is None {
            Some("options")
        } else {
            None
        }
    }

    open spec fn only_required(&self) -> bool {
        &&& self.missing() is None
        &&& self.initial_options is None
        &&& self.confirm is None
    }

    open spec fn required_keys() -> Seq<Seq<char>> {
        seq!["type"@, "action_id"@, "options"@]
    }

    open spec fn built_model(&self) -> Json {
        let f = Seq::<(Seq<char>, Json)>::empty()
            .push(("type"@, Json::Str("checkboxes"@)))
            .push(("action_id"@, Json::Str(self.action_id.unwrap()@)))
            .push(("options"@, Json::Array(models(self.options.unwrap()@))));
        let f = push_opt(f, "initial_options"@, opt_models(self.initial_options));
        let f = push_opt(f, "confirm"@, opt_model(self.confirm));
        Json::Object(f)
    }

    proof fn lemma_minimal_render(&self) {
        assert(keys(self.built_model()) =~= Self::required_keys());
    }
}

impl Render for Checkboxes {
    closed spec fn model(&self) -> Json {
        let f = Seq::<(Seq<char>, Json)>::empty()
            .push(("type"@, Json::Str("checkboxes"@)))
            .push(("action_id"@, Json::Str(self.action_id@)))
            .push(("options"@, Json::Array(models(self.options@))));
        let f = push_opt(f, "initial_options"@, opt_models(self.initial_options));
        let f = push_opt(f, "confirm"@, opt_model(self.confirm));
        Json::Object(f)
    }

    fn render(&self) -> (r: Value) {
        let mut fields: Vec<(String, Value)> = Vec::new();
        push_tag(&mut fields, "type", "checkboxes");
        push_str_field(&mut fields, "action_id", &self.action_id);
        push_field(&mut fields, "options", render_all(&self.options));
        push_opt_components(&mut fields, "initial_options", &self.initial_options);
        push_opt_component(&mut fields, "confirm", &self.confirm);
        Value::Object(fields)
    }
}

/// A calendar for picking a date.
pub struct Datepicker {
    action_id: String,
    placeholder: Option<PlainText>,
    initial_date: Option<String>,
    confirm: Option<Confirmation>,
}

/// Accumulates the attributes of a [`Datepicker`]; `build` checks that the required
/// ones are set.
pub struct DatepickerBuilder {
    pub action_id: Option<String>,
    pub placeholder: Option<PlainText>,
    pub initial_date: Option<String>,
    pub confirm: Option<Confirmation>,
}

impl Datepicker {
    /// An accumulator with no attribute set.
    pub fn builder() -> (r: DatepickerBuilder)
        ensures
            r.action_id is None,
            r.placeholder is None,
            r.initial_date is None,
            r.confirm is None,
    {
        DatepickerBuilder { action_id: None, placeholder: None, initial_date: None, confirm: None }
    }
}

impl DatepickerBuilder {
    /// Sets `action_id`.
    pub fn action_id(self, action_id: &str) -> (r: Self)
        ensures
            r.action_id matches Some(s) && s@ == action_id@,
            r == (DatepickerBuilder { action_id: r.action_id, ..self }),
    {
        DatepickerBuilder { action_id: Some(action_id.to_owned()), ..self }
    }

    /// Sets `placeholder`.
    pub fn placeholder(self, placeholder: PlainText) -> (r: Self)
        ensures
            r == (DatepickerBuilder { placeholder: Some(placeholder), ..self }),
    {
        DatepickerBuilder { placeholder: Some(placeholder), ..self }
    }

    /// Sets `initial_date`.
    pub fn initial_date(self, initial_date: &str) -> (r: Self)
        ensures
            r.initial_date matches Some(s) && s@ == initial_date@,
            r == (DatepickerBuilder { initial_date: r.initial_date, ..self }),
    {
        DatepickerBuilder { initial_date: Some(initial_date.to_owned()), ..self }
    }

    /// Sets `confirm`.
    pub fn confirm(self, confirm: Confirmation) -> (r: Self)
        ensures
            r == (DatepickerBuilder { confirm: Some(confirm), ..self }),
    {
        DatepickerBuilder { confirm: Some(confirm), ..self }
    }

    /// Finishes the leaf: fails naming the first required attribute that was not set.
    pub fn build(self) -> (r: Result<Datepicker, BuildError>)
        ensures
            match self.missing() {
                Some(field) => r == Err::<Datepicker, BuildError>(
                    BuildError::MissingRequiredField { leaf: "Datepicker", field },
                ),
                None => r matches Ok(b) && b.model() == self.built_model(),
            },
    {
        let action_id = match self.action_id {
            Some(v) => v,
            None => {
                return Err(
                    BuildError::MissingRequiredField { leaf: "Datepicker", field: "action_id" },
                );
            },
        };
        let b = Datepicker {
            action_id,
            placeholder: self.placeholder,
            initial_date: self.initial_date,
            confirm: self.confirm,
        };
        Ok(b)
    }
}

impl LeafBuilder for DatepickerBuilder {
    open spec fn missing(&self) -> Option<&'static str> {
        if self.action_id is None {
            Some("action_id")
        } else {
            None
        }
    }

    open spec fn only_required(&self) -> bool {
        &&& self.missing() is None
        &&& self.placeholder is None
        &&& self.initial_date is None
        &&& self.confirm is None
    }

    open spec fn required_keys() -> Seq<Seq<char>> {
        seq!["type"@, "action_id"@]
    }

    open spec fn built_model(&self) -> Json {
        let f = Seq::<(Seq<char>, Json)>::empty()
            .push(("type"@, Json::Str("datepicker"@)))
            .push(("action_id"@, Json::Str(self.action_id.unwrap()@)));
        let f = push_opt(f, "placeholder"@, opt_model(self.placeholder));
        let f = push_opt(f, "initial_date"@, opt_str(self.initial_date));
        let f = push_opt(f, "confirm"@, opt_model(self.confirm));
        Json::Object(f)
    }

    proof fn lemma_minimal_render(&self) {
        assert(keys(self.built_model()) =~= Self::required_keys());
    }
}

impl Render for Datepicker {
    closed spec fn model(&self) -> Json {
        let f = Seq::<(Seq<char>, Json)>::empty()
            .push(("type"@, Json::Str("datepicker"@)))
            .push(("action_id"@, Json::Str(self.action_id@)));
        let f = push_opt(f, "placeholder"@, opt_model(self.placeholder));
        let f = push_opt(f, "initial_date"@, opt_str(self.initial_date));
        let f = push_opt(f, "confirm"@, opt_model(self.confirm));
        Json::Object(f)
    }

    fn render(&self) -> (r: Value) {
        let mut fields: Vec<(String, Value)> = Vec::new();
        push_tag(&mut fields, "type", "datepicker");
        push_str_field(&mut fields, "action_id", &self.action_id);
        push_opt_component(&mut fields, "placeholder", &self.placeholder);
        push_opt_str_field(&mut fields, "initial_date", &self.initial_date);
        push_opt_component(&mut fields, "confirm", &self.confirm);
        Value::Object(fields)
    }
}

/// An image shown inside another block.
pub struct Image {
    image_url: String,
    alt_text: String,
}

/// Accumulates the attributes of a [`Image`]; `build` checks that the required
/// ones are set.
pub struct ImageBuilder {
    pub image_url: Option<String>,
    pub alt_text: Option<String>,
}

impl Image {
    /// An accumulator with no attribute set.
    pub fn builder() -> (r: ImageBuilder)
        ensures
            r.image_url is None,
            r.alt_text is None,
    {
        ImageBuilder { image_url: None, alt_text: None }
    }
}

impl ImageBuilder {
    /// Sets `image_url`.
    pub fn image_url(self, image_url: &str) -> (r: Self)
        ensures
            r.image_url matches Some(s) && s@ == image_url@,
            r == (ImageBuilder { image_url: r.image_url, ..self }),
    {
        ImageBuilder { image_url: Some(image_url.to_owned()), ..self }
    }

    /// Sets `alt_text`.
    pub fn alt_text(self, alt_text: &str) -> (r: Self)
        ensures
            r.alt_text matches Some(s) && s@ == alt_text@,
            r == (ImageBuilder { alt_text: r.alt_text, ..self }),
    {
        ImageBuilder { alt_text: Some(alt_text.to_owned()), ..self }
    }

    /// Finishes the leaf: fails naming the first required attribute that was not set.
    pub fn build(self) -> (r: Result<Image, BuildError>)
        ensures
            match self.missing() {
                Some(field) => r == Err::<Image, BuildError>(
                    BuildError::MissingRequiredField { leaf: "Image", field },
                ),
                None => r matches Ok(b) && b.model() == self.built_model(),
            },
    {
        let image_url = match self.image_url {
            Some(v) => v,
            None => {
                return Err(
                    BuildError::MissingRequiredField { leaf: "Image", field: "image_url" },
                );
            },
        };
        let alt_text = match self.alt_text {
            Some(v) => v,
            None => {
                return Err(
                    BuildError::MissingRequiredField { leaf: "Image", field: "alt_text" },
                );
            },
        };
        let b = Image { image_url, alt_text };
        Ok(b)
    }
}

impl LeafBuilder for ImageBuilder {
    open spec fn missing(&self) -> Option<&'static str> {
        if self.image_url is None {
            Some("image_url")
        } else if self.alt_text is None {
            Some("alt_text")
        } else {
            None
        }
    }

    open spec fn only_required(&self) -> bool {
        &&& self.missing() is None
    }

    open spec fn required_keys() -> Seq<Seq<char>> {
        seq!["type"@, "image_url"@, "alt_text"@]
    }

    open spec fn built_model(&self) -> Json {
        let f = Seq::<(Seq<char>, Json)>::empty()
            .push(("type"@, Json::Str("image"@)))
            .push(("image_url"@, Json::Str(self.image_url.unwrap()@)))
            .push(("alt_text"@, Json::Str(self.alt_text.unwrap()@)));
        Json::Object(f)
    }

    proof fn lemma_minimal_render(&self) {
        assert(keys(self.built_model()) =~= Self::required_keys());
    }
}

impl Render for Image {
    closed spec fn model(&self) -> Json {
        let f = Seq::<(Seq<char>, Json)>::empty()
            .push(("type"@, Json::Str("image"@)))
            .push(("image_url"@, Json::Str(self.image_url@)))
            .push(("alt_text"@, Json::Str(self.alt_text@)));
        Json::Object(f)
    }

    fn render(&self) -> (r: Value) {
        let mut fields: Vec<(String, Value)> = Vec::new();
        push_tag(&mut fields, "type", "image");
        push_str_field(&mut fields, "image_url", &self.image_url);
        push_str_field(&mut fields, "alt_text", &self.alt_text);
        Value::Object(fields)
    }
}

/// A menu for choosing several items from a fixed list.
///
/// The external schema asks for one of `options` and `option_groups`; that rule is
/// left to the consumer and not enforced here.
pub struct MultiStaticSelect {
    placeholder: PlainText,
    action_id: String,
    options: Option<Vec<PlainTextOptionItem>>,
    option_groups: Option<Vec<OptionGroup>>,
    initial_options: Option<Vec<PlainTextOptionItem>>,
    confirm: Option<Confirmation>,
    max_selected_items: Option<i32>,
}

/// Accumulates the attributes of a [`MultiStaticSelect`]; `build` checks that the required
/// ones are set.
pub struct MultiStaticSelectBuilder {
    pub placeholder: Option<PlainText>,
    pub action_id: Option<String>,
    pub options: Option<Vec<PlainTextOptionItem>>,
    pub option_groups: Option<Vec<OptionGroup>>,
    pub initial_options: Option<Vec<PlainTextOptionItem>>,
    pub confirm: Option<Confirmation>,
    pub max_selected_items: Option<i32>,
}

impl MultiStaticSelect {
    /// An accumulator with no attribute set.
    pub fn builder() -> (r: MultiStaticSelectBuilder)
        ensures
            r.placeholder is None,
            r.action_id is None,
            r.options is None,
            r.option_groups is None,
            r.initial_options is None,
            r.confirm is None,
            r.max_selected_items is None,
    {
        MultiStaticSelectBuilder {
            placeholder: None,
            action_id: None,
            options: None,
            option_groups: None,
            initial_options: None,
            confirm: None,
            max_selected_items: None,
        }
    }
}

impl MultiStaticSelectBuilder {
    /// Sets `placeholder`.
    pub fn placeholder(self, placeholder: PlainText) -> (r: Self)
        ensures
            r == (MultiStaticSelectBuilder { placeholder: Some(placeholder), ..self }),
    {
        MultiStaticSelectBuilder { placeholder: Some(placeholder), ..self }
    }

    /// Sets `action_id`.
    pub fn action_id(self, action_id: &str) -> (r: Self)
        ensures
            r.action_id matches Some(s) && s@ == action_id@,
            r == (MultiStaticSelectBuilder { action_id: r.action_id, ..self }),
    {
        MultiStaticSelectBuilder { action_id: Some(action_id.to_owned()), ..self }
    }

    /// Sets `options`.
    pub fn options(self, options: Vec<PlainTextOptionItem>) -> (r: Self)
        ensures
            r == (MultiStaticSelectBuilder { options: Some(options), ..self }),
    {
        MultiStaticSelectBuilder { options: Some(options), ..self }
    }

    /// Sets `option_groups`.
    pub fn option_groups(self, option_groups: Vec<OptionGroup>) -> (r: Self)
        ensures
            r == (MultiStaticSelectBuilder { option_groups: Some(option_groups), ..self }),
    {
        MultiStaticSelectBuilder { option_groups: Some(option_groups), ..self }
    }

    /// Sets `initial_options`.
    pub fn initial_options(self, initial_options: Vec<PlainTextOptionItem>) -> (r: Self)
        ensures
            r == (MultiStaticSelectBuilder { initial_options: Some(initial_options), ..self }),
    {
        MultiStaticSelectBuilder { initial_options: Some(initial_options), ..self }
    }

    /// Sets `confirm`.
    pub fn confirm(self, confirm: Confirmation) -> (r: Self)
        ensures
            r == (MultiStaticSelectBuilder { confirm: Some(confirm), ..self }),
    {
        MultiStaticSelectBuilder { confirm: Some(confirm), ..self }
    }

    /// Sets `max_selected_items`.
    pub fn max_selected_items(self, max_selected_items: i32) -> (r: Self)
        ensures
            r == (MultiStaticSelectBuilder { max_selected_items: Some(max_selected_items), ..self }),
    {
        MultiStaticSelectBuilder { max_selected_items: Some(max_selected_items), ..self }
    }

    /// Finishes the leaf: fails naming the first required attribute that was not set.
    pub fn build(self) -> (r: Result<MultiStaticSelect, BuildError>)
        ensures
            match self.missing() {
                Some(field) => r == Err::<MultiStaticSelect, BuildError>(
                    BuildError::MissingRequiredField { leaf: "MultiStaticSelect", field },
                ),
                None => r matches Ok(b) && b.model() == self.built_model(),
            },
    {
        let placeholder = match self.placeholder {
            Some(v) => v,
            None => {
                return Err(
                    BuildError::MissingRequiredField { leaf: "MultiStaticSelect", field: "placeholder" },
                );
            },
        };
        let action_id = match self.action_id {
            Some(v) => v,
            None => {
                return Err(
                    BuildError::MissingRequiredField { leaf: "MultiStaticSelect", field: "action_id" },
                );
            },
        };
        let b = MultiStaticSelect {
            placeholder,
            action_id,
            options: self.options,
            option_groups: self.option_groups,
            initial_options: self.initial_options,
            confirm: self.confirm,
            max_selected_items: self.max_selected_items,
        };
        Ok(b)
    }
}

impl LeafBuilder for MultiStaticSelectBuilder {
    open spec fn missing(&self) -> Option<&'static str> {
        if self.placeholder is None {
            Some("placeholder")
        } else if self.action_id is None {
            Some("action_id")
        } else {
            None
        }
    }

    open spec fn only_required(&self) -> bool {
        &&& self.missing() is None
        &&& self.options is None
        &&& self.option_groups is None
        &&& self.initial_options is None
        &&& self.confirm is None
        &&& self.max_selected_items is None
    }

    open spec fn required_keys() -> Seq<Seq<char>> {
        seq!["type"@, "placeholder"@, "action_id"@]
    }

    open spec fn built_model(&self) -> Json {
        let f = Seq::<(Seq<char>, Json)>::empty()
            .push(("type"@, Json::Str("multi_static_select"@)))
            .push(("placeholder"@, self.placeholder.unwrap().model()))
            .push(("action_id"@, Json::Str(self.action_id.unwrap()@)));
        let f = push_opt(f, "options"@, opt_models(self.options));
        let f = push_opt(f, "option_groups"@, opt_models(self.option_groups));
        let f = push_opt(f, "initial_options"@, opt_models(self.initial_options));
        let f = push_opt(f, "confirm"@, opt_model(self.confirm));
        let f = push_opt(f, "max_selected_items"@, opt_int(self.max_selected_items));
        Json::Object(f)
    }

    proof fn lemma_minimal_render(&self) {
        assert(keys(self.built_model()) =~= Self::required_keys());
    }
}

impl Render for MultiStaticSelect {
    closed spec fn model(&self) -> Json {
        let f = Seq::<(Seq<char>, Json)>::empty()
            .push(("type"@, Json::Str("multi_static_select"@)))
            .push(("placeholder"@, self.placeholder.model()))
            .push(("action_id"@, Json::Str(self.action_id@)));
        let f = push_opt(f, "options"@, opt_models(self.options));
        let f = push_opt(f, "option_groups"@, opt_models(self.option_groups));
        let f = push_opt(f, "initial_options"@, opt_models(self.initial_options));
        let f = push_opt(f, "confirm"@, opt_model(self.confirm));
        let f = push_opt(f, "max_selected_items"@, opt_int(self.max_selected_items));
        Json::Object(f)
    }

    fn render(&self) -> (r: Value) {
        let mut fields: Vec<(String, Value)> = Vec::new();
        push_tag(&mut fields, "type", "multi_static_select");
        push_field(&mut fields, "placeholder", self.placeholder.render());
        push_str_field(&mut fields, "action_id", &self.action_id);
        push_opt_components(&mut fields, "options", &self.options);
        push_opt_components(&mut fields, "option_groups", &self.option_groups);
        push_opt_components(&mut fields, "initial_options", &self.initial_options);
        push_opt_component(&mut fields, "confirm", &self.confirm);
        push_opt_int_field(&mut fields, "max_selected_items", self.max_selected_items);
        Value::Object(fields)
    }
}

/// A menu for choosing several items that an outside source supplies.
pub struct MultiExternalSelect {
    placeholder: PlainText,
    action_id: String,
    min_query_length: Option<i32>,
    initial_options: Option<Vec<PlainTextOptionItem>>,
    confirm: Option<Confirmation>,
    max_selected_items: Option<i32>,
}

/// Accumulates the attributes of a [`MultiExternalSelect`]; `build` checks that the required
/// ones are set.
pub struct MultiExternalSelectBuilder {
    pub placeholder: Option<PlainText>,
    pub action_id: Option<String>,
    pub min_query_length: Option<i32>,
    pub initial_options: Option<Vec<PlainTextOptionItem>>,
    pub confirm: Option<Confirmation>,
    pub max_selected_items: Option<i32>,
}

impl MultiExternalSelect {
    /// An accumulator with no attribute set.
    pub fn builder() -> (r: MultiExternalSelectBuilder)
        ensures
            r.placeholder is None,
            r.action_id is None,
            r.min_query_length is None,
            r.initial_options is None,
            r.confirm is None,
            r.max_selected_items is None,
    {
        MultiExternalSelectBuilder {
            placeholder: None,
            action_id: None,
            min_query_length: None,
            initial_options: None,
            confirm: None,
            max_selected_items: None,
        }
    }
}

impl MultiExternalSelectBuilder {
    /// Sets `placeholder`.
    pub fn placeholder(self, placeholder: PlainText) -> (r: Self)
        ensures
            r == (MultiExternalSelectBuilder { placeholder: Some(placeholder), ..self }),
    {
        MultiExternalSelectBuilder { placeholder: Some(placeholder), ..self }
    }

    /// Sets `action_id`.
    pub fn action_id(self, action_id: &str) -> (r: Self)
        ensures
            r.action_id matches Some(s) && s@ == action_id@,
            r == (MultiExternalSelectBuilder { action_id: r.action_id, ..self }),
    {
        MultiExternalSelectBuilder { action_id: Some(action_id.to_owned()), ..self }
    }

    /// Sets `min_query_length`.
    pub fn min_query_length(self, min_query_length: i32) -> (r: Self)
        ensures
            r == (MultiExternalSelectBuilder { min_query_length: Some(min_query_length), ..self }),
    {
        MultiExternalSelectBuilder { min_query_length: Some(min_query_length), ..self }
    }

    /// Sets `initial_options`.
    pub fn initial_options(self, initial_options: Vec<PlainTextOptionItem>) -> (r: Self)
        ensures
            r == (MultiExternalSelectBuilder { initial_options: Some(initial_options), ..self }),
    {
        MultiExternalSelectBuilder { initial_options: Some(initial_options), ..self }
    }

    /// Sets `confirm`.
    pub fn confirm(self, confirm: Confirmation) -> (r: Self)
        ensures
            r == (MultiExternalSelectBuilder { confirm: Some(confirm), ..self }),
    {
        MultiExternalSelectBuilder { confirm: Some(confirm), ..self }
    }

    /// Sets `max_selected_items`.
    pub fn max_selected_items(self, max_selected_items: i32) -> (r: Self)
        ensures
            r == (MultiExternalSelectBuilder { max_selected_items: Some(max_selected_items), ..self }),
    {
        MultiExternalSelectBuilder { max_selected_items: Some(max_selected_items), ..self }
    }

    /// Finishes the leaf: fails naming the first required attribute that was not set.
    pub fn build(self) -> (r: Result<MultiExternalSelect, BuildError>)
        ensures
            match self.missing() {
                Some(field) => r == Err::<MultiExternalSelect, BuildError>(
                    BuildError::MissingRequiredField { leaf: "MultiExternalSelect", field },
                ),
                None => r matches Ok(b) && b.model() == self.built_model(),
            },
    {
        let placeholder = match self.placeholder {
            Some(v) => v,
            None => {
                return Err(
                    BuildError::MissingRequiredField { leaf: "MultiExternalSelect", field: "placeholder" },
                );
            },
        };
        let action_id = match self.action_id {
            Some(v) => v,
            None => {
                return Err(
                    BuildError::MissingRequiredField { leaf: "MultiExternalSelect", field: "action_id" },
                );
            },
        };
        let b = MultiExternalSelect {
            placeholder,
            action_id,
            min_query_length: self.min_query_length,
            initial_options: self.initial_options,
            confirm: self.confirm,
            max_selected_items: self.max_selected_items,
        };
        Ok(b)
    }
}

impl LeafBuilder for MultiExternalSelectBuilder {
    open spec fn missing(&self) -> Option<&'static str> {
        if self.placeholder is None {
            Some("placeholder")
        } else if self.action_id is None {
            Some("action_id")
        } else {
            None
        }
    }

    open spec fn only_required(&self) -> bool {
        &&& self.missing() is None
        &&& self.min_query_length is None
        &&& self.initial_options is None
        &&& self.confirm is None
        &&& self.max_selected_items is None
    }

    open spec fn required_keys() -> Seq<Seq<char>> {
        seq!["type"@, "placeholder"@, "action_id"@]
    }

    open spec fn built_model(&self) -> Json {
        let f = Seq::<(Seq<char>, Json)>::empty()
            .push(("type"@, Json::Str("multi_external_select"@)))
            .push(("placeholder"@, self.placeholder.unwrap().model()))
            .push(("action_id"@, Json::Str(self.action_id.unwrap()@)));
        let f = push_opt(f, "min_query_length"@, opt_int(self.min_query_length));
        let f = push_opt(f, "initial_options"@, opt_models(self.initial_options));
        let f = push_opt(f, "confirm"@, opt_model(self.confirm));
        let f = push_opt(f, "max_selected_items"@, opt_int(self.max_selected_items));
        Json::Object(f)
    }

    proof fn lemma_minimal_render(&self) {
        assert(keys(self.built_model()) =~= Self::required_keys());
    }
}

impl Render for MultiExternalSelect {
    closed spec fn model(&self) -> Json {
        let f = Seq::<(Seq<char>, Json)>::empty()
            .push(("type"@, Json::Str("multi_external_select"@)))
            .push(("placeholder"@, self.placeholder.model()))
            .push(("action_id"@, Json::Str(self.action_id@)));
        let f = push_opt(f, "min_query_length"@, opt_int(self.min_query_length));
        let f = push_opt(f, "initial_options"@, opt_models(self.initial_options));
        let f = push_opt(f, "confirm"@, opt_model(self.confirm));
        let f = push_opt(f, "max_selected_items"@, opt_int(self.max_selected_items));
        Json::Object(f)
    }

    fn render(&self) -> (r: Value) {
        let mut fields: Vec<(String, Value)> = Vec::new();
        push_tag(&mut fields, "type", "multi_external_select");
        push_field(&mut fields, "placeholder", self.placeholder.render());
        push_str_field(&mut fields, "action_id", &self.action_id);
        push_opt_int_field(&mut fields, "min_query_length", self.min_query_length);
        push_opt_components(&mut fields, "initial_options", &self.initial_options);
        push_opt_component(&mut fields, "confirm", &self.confirm);
        push_opt_int_field(&mut fields, "max_selected_items", self.max_selected_items);
        Value::Object(fields)
    }
}

/// A menu for choosing several users.
pub struct MultiUsersSelect {
    placeholder: PlainText,
    action_id: String,
    initial_users: Option<Vec<String>>,
    confirm: Option<Confirmation>,
    max_selected_items: Option<i32>,
}

/// Accumulates the attributes of a [`MultiUsersSelect`]; `build` checks that the required
/// ones are set.
pub struct MultiUsersSelectBuilder {
    pub placeholder: Option<PlainText>,
    pub action_id: Option<String>,
    pub initial_users: Option<Vec<String>>,
    pub confirm: Option<Confirmation>,
    pub max_selected_items: Option<i32>,
}

impl MultiUsersSelect {
    /// An accumulator with no attribute set.
    pub fn builder() -> (r: MultiUsersSelectBuilder)
        ensures
            r.placeholder is None,
            r.action_id is None,
            r.initial_users is None,
            r.confirm is None,
            r.max_selected_items is None,
    {
        MultiUsersSelectBuilder {
            placeholder: None,
            action_id: None,
            initial_users: None,
            confirm: None,
            max_selected_items: None,
        }
    }
}

impl MultiUsersSelectBuilder {
    /// Sets `placeholder`.
    pub fn placeholder(self, placeholder: PlainText) -> (r: Self)
        ensures
            r == (MultiUsersSelectBuilder { placeholder: Some(placeholder), ..self }),
    {
        MultiUsersSelectBuilder { placeholder: Some(placeholder), ..self }
    }

    /// Sets `action_id`.
    pub fn action_id(self, action_id: &str) -> (r: Self)
        ensures
            r.action_id matches Some(s) && s@ == action_id@,
            r == (MultiUsersSelectBuilder { action_id: r.action_id, ..self }),
    {
        MultiUsersSelectBuilder { action_id: Some(action_id.to_owned()), ..self }
    }

    /// Sets `initial_users`.
    pub fn initial_users(self, initial_users: Vec<String>) -> (r: Self)
        ensures
            r == (MultiUsersSelectBuilder { initial_users: Some(initial_users), ..self }),
    {
        MultiUsersSelectBuilder { initial_users: Some(initial_users), ..self }
    }

    /// Sets `confirm`.
    pub fn confirm(self, confirm: Confirmation) -> (r: Self)
        ensures
            r == (MultiUsersSelectBuilder { confirm: Some(confirm), ..self }),
    {
        MultiUsersSelectBuilder { confirm: Some(confirm), ..self }
    }

    /// Sets `max_selected_items`.
    pub fn max_selected_items(self, max_selected_items: i32) -> (r: Self)
        ensures
            r == (MultiUsersSelectBuilder { max_selected_items: Some(max_selected_items), ..self }),
    {
        MultiUsersSelectBuilder { max_selected_items: Some(max_selected_items), ..self }
    }

    /// Finishes the leaf: fails naming the first required attribute that was not set.
    pub fn build(self) -> (r: Result<MultiUsersSelect, BuildError>)
        ensures
            match self.missing() {
                Some(field) => r == Err::<MultiUsersSelect, BuildError>(
                    BuildError::MissingRequiredField { leaf: "MultiUsersSelect", field },
                ),
                None => r matches Ok(b) && b.model() == self.built_model(),
            },
    {
        let placeholder = match self.placeholder {
            Some(v) => v,
            None => {
                return Err(
                    BuildError::MissingRequiredField { leaf: "MultiUsersSelect", field: "placeholder" },
                );
            },
        };
        let action_id = match self.action_id {
            Some(v) => v,
            None => {
                return Err(
                    BuildError::MissingRequiredField { leaf: "MultiUsersSelect", field: "action_id" },
                );
            },
        };
        let b = MultiUsersSelect {
            placeholder,
            action_id,
            initial_users: self.initial_users,
            confirm: self.confirm,
            max_selected_items: self.max_selected_items,
        };
        Ok(b)
    }
}

impl LeafBuilder for MultiUsersSelectBuilder {
    open spec fn missing(&self) -> Option<&'static str> {
        if self.placeholder is None {
            Some("placeholder")
        } else if self.action_id is None {
            Some("action_id")
        } else {
            None
        }
    }

    open spec fn only_required(&self) -> bool {
        &&& self.missing() is None
        &&& self.initial_users is None
        &&& self.confirm is None
        &&& self.max_selected_items is None
    }

    open spec fn required_keys() -> Seq<Seq<char>> {
        seq!["type"@, "placeholder"@, "action_id"@]
    }

    open spec fn built_model(&self) -> Json {
        let f = Seq::<(Seq<char>, Json)>::empty()
            .push(("type"@, Json::Str("multi_users_select"@)))
            .push(("placeholder"@, self.placeholder.unwrap().model()))
            .push(("action_id"@, Json::Str(self.action_id.unwrap()@)));
        let f = push_opt(f, "initial_users"@, opt_strs(self.initial_users));
        let f = push_opt(f, "confirm"@, opt_model(self.confirm));
        let f = push_opt(f, "max_selected_items"@, opt_int(self.max_selected_items));
        Json::Object(f)
    }

    proof fn lemma_minimal_render(&self) {
        assert(keys(self.built_model()) =~= Self::required_keys());
    }
}

impl Render for MultiUsersSelect {
    closed spec fn model(&self) -> Json {
        let f = Seq::<(Seq<char>, Json)>::empty()
            .push(("type"@, Json::Str("multi_users_select"@)))
            .push(("placeholder"@, self.placeholder.model()))
            .push(("action_id"@, Json::Str(self.action_id@)));
        let f = push_opt(f, "initial_users"@, opt_strs(self.initial_users));
        let f = push_opt(f, "confirm"@, opt_model(self.confirm));
        let f = push_opt(f, "max_selected_items"@, opt_int(self.max_selected_items));
        Json::Object(f)
    }

    fn render(&self) -> (r: Value) {
        let mut fields: Vec<(String, Value)> = Vec::new();
        push_tag(&mut fields, "type", "multi_users_select");
        push_field(&mut fields, "placeholder", self.placeholder.render());
        push_str_field(&mut fields, "action_id", &self.action_id);
        push_opt_strs(&mut fields, "initial_users", &self.initial_users);
        push_opt_component(&mut fields, "confirm", &self.confirm);
        push_opt_int_field(&mut fields, "max_selected_items", self.max_selected_items);
        Value::Object(fields)
    }
}

/// A menu for choosing several conversations.
pub struct MultiConversationsSelect {
    placeholder: PlainText,
    action_id: String,
    initial_conversations: Option<Vec<String>>,
    default_to_current_conversation: Option<bool>,
    confirm: Option<Confirmation>,
    max_selected_items: Option<i32>,
    filter: Option<Filter>,
}

/// Accumulates the attributes of a [`MultiConversationsSelect`]; `build` checks that the required
/// ones are set.
pub struct MultiConversationsSelectBuilder {
    pub placeholder: Option<PlainText>,
    pub action_id: Option<String>,
    pub initial_conversations: Option<Vec<String>>,
    pub default_to_current_conversation: Option<bool>,
    pub confirm: Option<Confirmation>,
    pub max_selected_items: Option<i32>,
    pub filter: Option<Filter>,
}

impl MultiConversationsSelect {
    /// An accumulator with no attribute set.
    pub fn builder() -> (r: MultiConversationsSelectBuilder)
        ensures
            r.placeholder is None,
            r.action_id is None,
            r.initial_conversations is None,
            r.default_to_current_conversation is None,
            r.confirm is None,
            r.max_selected_items is None,
            r.filter is None,
    {
        MultiConversationsSelectBuilder {
            placeholder: None,
            action_id: None,
            initial_conversations: None,
            default_to_current_conversation: None,
            confirm: None,
            max_selected_items: None,
            filter: None,
        }
    }
}

impl MultiConversationsSelectBuilder {
    /// Sets `placeholder`.
    pub fn placeholder(self, placeholder: PlainText) -> (r: Self)
        ensures
            r == (MultiConversationsSelectBuilder { placeholder: Some(placeholder), ..self }),
    {
        MultiConversationsSelectBuilder { placeholder: Some(placeholder), ..self }
    }

    /// Sets `action_id`.
    pub fn action_id(self, action_id: &str) -> (r: Self)
        ensures
            r.action_id matches Some(s) && s@ == action_id@,
            r == (MultiConversationsSelectBuilder { action_id: r.action_id, ..self }),
    {
        MultiConversationsSelectBuilder { action_id: Some(action_id.to_owned()), ..self }
    }

    /// Sets `initial_conversations`.
    pub fn initial_conversations(self, initial_conversations: Vec<String>) -> (r: Self)
        ensures
            r == (MultiConversationsSelectBuilder { initial_conversations: Some(initial_conversations), ..self }),
    {
        MultiConversationsSelectBuilder { initial_conversations: Some(initial_conversations), ..self }
    }

    /// Sets `default_to_current_conversation`.
    pub fn default_to_current_conversation(self, default_to_current_conversation: bool) -> (r: Self)
        ensures
            r == (MultiConversationsSelectBuilder { default_to_current_conversation: Some(default_to_current_conversation), ..self }),
    {
        MultiConversationsSelectBuilder { default_to_current_conversation: Some(default_to_current_conversation), ..self }
    }

    /// Sets `confirm`.
    pub fn confirm(self, confirm: Confirmation) -> (r: Self)
        ensures
            r == (MultiConversationsSelectBuilder { confirm: Some(confirm), ..self }),
    {
        MultiConversationsSelectBuilder { confirm: Some(confirm), ..self }
    }

    /// Sets `max_selected_items`.
    pub fn max_selected_items(self, max_selected_items: i32) -> (r: Self)
        ensures
            r == (MultiConversationsSelectBuilder { max_selected_items: Some(max_selected_items), ..self }),
    {
        MultiConversationsSelectBuilder { max_selected_items: Some(max_selected_items), ..self }
    }

    /// Sets `filter`.
    pub fn filter(self, filter: Filter) -> (r: Self)
        ensures
            r == (MultiConversationsSelectBuilder { filter: Some(filter), ..self }),
    {
        MultiConversationsSelectBuilder { filter: Some(filter), ..self }
    }

    /// Finishes the leaf: fails naming the first required attribute that was not set.
    pub fn build(self) -> (r: Result<MultiConversationsSelect, BuildError>)
        ensures
            match self.missing() {
                Some(field) => r == Err::<MultiConversationsSelect, BuildError>(
                    BuildError::MissingRequiredField { leaf: "MultiConversationsSelect", field },
                ),
                None => r matches Ok(b) && b.model() == self.built_model(),
            },
    {
        let placeholder = match self.placeholder {
            Some(v) => v,
            None => {
                return Err(
                    BuildError::MissingRequiredField { leaf: "MultiConversationsSelect", field: "placeholder" },
                );
            },
        };
        let action_id = match self.action_id {
            Some(v) => v,
            None => {
                return Err(
                    BuildError::MissingRequiredField { leaf: "MultiConversationsSelect", field: "action_id" },
                );
            },
        };
        let b = MultiConversationsSelect {
            placeholder,
            action_id,
            initial_conversations: self.initial_conversations,
            default_to_current_conversation: self.default_to_current_conversation,
            confirm: self.confirm,
            max_selected_items: self.max_selected_items,
            filter: self.filter,
        };
        Ok(b)
    }
}

impl LeafBuilder for MultiConversationsSelectBuilder {
    open spec fn missing(&self) -> Option<&'static str> {
        if self.placeholder is None {
            Some("placeholder")
        } else if self.action_id is None {
            Some("action_id")
        } else {
            None
        }
    }

    open spec fn only_required(&self) -> bool {
        &&& self.missing() is None
        &&& self.initial_conversations is None
        &&& self.default_to_current_conversation is None
        &&& self.confirm is None
        &&& self.max_selected_items is None
        &&& self.filter is None
    }

    open spec fn required_keys() -> Seq<Seq<char>> {
        seq!["type"@, "placeholder"@, "action_id"@]
    }

    open spec fn built_model(&self) -> Json {
        let f = Seq::<(Seq<char>, Json)>::empty()
            .push(("type"@, Json::Str("multi_conversations_select"@)))
            .push(("placeholder"@, self.placeholder.unwrap().model()))
            .push(("action_id"@, Json::Str(self.action_id.unwrap()@)));
        let f = push_opt(f, "initial_conversations"@, opt_strs(self.initial_conversations));
        let f = push_opt(f, "default_to_current_conversation"@, opt_bool(self.default_to_current_conversation));
        let f = push_opt(f, "confirm"@, opt_model(self.confirm));
        let f = push_opt(f, "max_selected_items"@, opt_int(self.max_selected_items));
        let f = push_opt(f, "filter"@, opt_model(self.filter));
        Json::Object(f)
    }

    proof fn lemma_minimal_render(&self) {
        assert(keys(self.built_model()) =~= Self::required_keys());
    }
}

impl Render for MultiConversationsSelect {
    closed spec fn model(&self) -> Json {
        let f = Seq::<(Seq<char>, Json)>::empty()
            .push(("type"@, Json::Str("multi_conversations_select"@)))
            .push(("placeholder"@, self.placeholder.model()))
            .push(("action_id"@, Json::Str(self.action_id@)));
        let f = push_opt(f, "initial_conversations"@, opt_strs(self.initial_conversations));
        let f = push_opt(f, "default_to_current_conversation"@, opt_bool(self.default_to_current_conversation));
        let f = push_opt(f, "confirm"@, opt_model(self.confirm));
        let f = push_opt(f, "max_selected_items"@, opt_int(self.max_selected_items));
        let f = push_opt(f, "filter"@, opt_model(self.filter));
        Json::Object(f)
    }

    fn render(&self) -> (r: Value) {
        let mut fields: Vec<(String, Value)> = Vec::new();
        push_tag(&mut fields, "type", "multi_conversations_select");
        push_field(&mut fields, "placeholder", self.placeholder.render());
        push_str_field(&mut fields, "action_id", &self.action_id);
        push_opt_strs(&mut fields, "initial_conversations", &self.initial_conversations);
        push_opt_bool_field(&mut fields, "default_to_current_conversation", self.default_to_current_conversation);
        push_opt_component(&mut fields, "confirm", &self.confirm);
        push_opt_int_field(&mut fields, "max_selected_items", self.max_selected_items);
        push_opt_component(&mut fields, "filter", &self.filter);
        Value::Object(fields)
    }
}

/// A menu for choosing several public channels.
pub struct MultiChannelsSelect {
    placeholder: PlainText,
    action_id: String,
    initial_channels: Option<Vec<String>>,
    confirm: Option<Confirmation>,
    max_selected_items: Option<i32>,
}

/// Accumulates the attributes of a [`MultiChannelsSelect`]; `build` checks that the required
/// ones are set.
pub struct MultiChannelsSelectBuilder {
    pub placeholder: Option<PlainText>,
    pub action_id: Option<String>,
    pub initial_channels: Option<Vec<String>>,
    pub confirm: Option<Confirmation>,
    pub max_selected_items: Option<i32>,
}

impl MultiChannelsSelect {
    /// An accumulator with no attribute set.
    pub fn builder() -> (r: MultiChannelsSelectBuilder)
        ensures
            r.placeholder is None,
            r.action_id is None,
            r.initial_channels is None,
            r.confirm is None,
            r.max_selected_items is None,
    {
        MultiChannelsSelectBuilder {
            placeholder: None,
            action_id: None,
            initial_channels: None,
            confirm: None,
            max_selected_items: None,
        }
    }
}

impl MultiChannelsSelectBuilder {
    /// Sets `placeholder`.
    pub fn placeholder(self, placeholder: PlainText) -> (r: Self)
        ensures
            r == (MultiChannelsSelectBuilder { placeholder: Some(placeholder), ..self }),
    {
        MultiChannelsSelectBuilder { placeholder: Some(placeholder), ..self }
    }

    /// Sets `action_id`.
    pub fn action_id(self, action_id: &str) -> (r: Self)
        ensures
            r.action_id matches Some(s) && s@ == action_id@,
            r == (MultiChannelsSelectBuilder { action_id: r.action_id, ..self }),
    {
        MultiChannelsSelectBuilder { action_id: Some(action_id.to_owned()), ..self }
    }

    /// Sets `initial_channels`.
    pub fn initial_channels(self, initial_channels: Vec<String>) -> (r: Self)
        ensures
            r == (MultiChannelsSelectBuilder { initial_channels: Some(initial_channels), ..self }),
    {
        MultiChannelsSelectBuilder { initial_channels: Some(initial_channels), ..self }
    }

    /// Sets `confirm`.
    pub fn confirm(self, confirm: Confirmation) -> (r: Self)
        ensures
            r == (MultiChannelsSelectBuilder { confirm: Some(confirm), ..self }),
    {
        MultiChannelsSelectBuilder { confirm: Some(confirm), ..self }
    }

    /// Sets `max_selected_items`.
    pub fn max_selected_items(self, max_selected_items: i32) -> (r: Self)
        ensures
            r == (MultiChannelsSelectBuilder { max_selected_items: Some(max_selected_items), ..self }),
    {
        MultiChannelsSelectBuilder { max_selected_items: Some(max_selected_items), ..self }
    }

    /// Finishes the leaf: fails naming the first required attribute that was not set.
    pub fn build(self) -> (r: Result<MultiChannelsSelect, BuildError>)
        ensures
            match self.missing() {
                Some(field) => r == Err::<MultiChannelsSelect, BuildError>(
                    BuildError::MissingRequiredField { leaf: "MultiChannelsSelect", field },
                ),
                None => r matches Ok(b) && b.model() == self.built_model(),
            },
    {
        let placeholder = match self.placeholder {
            Some(v) => v,
            None => {
                return Err(
                    BuildError::MissingRequiredField { leaf: "MultiChannelsSelect", field: "placeholder" },
                );
            },
        };
        let action_id = match self.action_id {
            Some(v) => v,
            None => {
                return Err(
                    BuildError::MissingRequiredField { leaf: "MultiChannelsSelect", field: "action_id" },
                );
            },
        };
        let b = MultiChannelsSelect {
            placeholder,
            action_id,
            initial_channels: self.initial_channels,
            confirm: self.confirm,
            max_selected_items: self.max_selected_items,
        };
        Ok(b)
    }
}

impl LeafBuilder for MultiChannelsSelectBuilder {
    open spec fn missing(&self) -> Option<&'static str> {
        if self.placeholder is None {
            Some("placeholder")
        } else if self.action_id is None {
            Some("action_id")
        } else {
            None
        }
    }

    open spec fn only_required(&self) -> bool {
        &&& self.missing() is None
        &&& self.initial_channels is None
        &&& self.confirm is None
        &&& self.max_selected_items is None
    }

    open spec fn required_keys() -> Seq<Seq<char>> {
        seq!["type"@, "placeholder"@, "action_id"@]
    }

    open spec fn built_model(&self) -> Json {
        let f = Seq::<(Seq<char>, Json)>::empty()
            .push(("type"@, Json::Str("multi_channels_select"@)))
            .push(("placeholder"@, self.placeholder.unwrap().model()))
            .push(("action_id"@, Json::Str(self.action_id.unwrap()@)));
        let f = push_opt(f, "initial_channels"@, opt_strs(self.initial_channels));
        let f = push_opt(f, "confirm"@, opt_model(self.confirm));
        let f = push_opt(f, "max_selected_items"@, opt_int(self.max_selected_items));
        Json::Object(f)
    }

    proof fn lemma_minimal_render(&self) {
        assert(keys(self.built_model()) =~= Self::required_keys());
    }
}

impl Render for MultiChannelsSelect {
    closed spec fn model(&self) -> Json {
        let f = Seq::<(Seq<char>, Json)>::empty()
            .push(("type"@, Json::Str("multi_channels_select"@)))
            .push(("placeholder"@, self.placeholder.model()))
            .push(("action_id"@, Json::Str(self.action_id@)));
        let f = push_opt(f, "initial_channels"@, opt_strs(self.initial_channels));
        let f = push_opt(f, "confirm"@, opt_model(self.confirm));
        let f = push_opt(f, "max_selected_items"@, opt_int(self.max_selected_items));
        Json::Object(f)
    }

    fn render(&self) -> (r: Value) {
        let mut fields: Vec<(String, Value)> = Vec::new();
        push_tag(&mut fields, "type", "multi_channels_select");
        push_field(&mut fields, "placeholder", self.placeholder.render());
        push_str_field(&mut fields, "action_id", &self.action_id);
        push_opt_strs(&mut fields, "initial_channels", &self.initial_channels);
        push_opt_component(&mut fields, "confirm", &self.confirm);
        push_opt_int_field(&mut fields, "max_selected_items", self.max_selected_items);
        Value::Object(fields)
    }
}

/// A compact menu of further actions.
pub struct Overflow {
    action_id: String,
    options: Vec<OverflowOptionItem>,
    confirm: Option<Confirmation>,
}

/// Accumulates the attributes of a [`Overflow`]; `build` checks that the required
/// ones are set.
pub struct OverflowBuilder {
    pub action_id: Option<String>,
    pub options: Option<Vec<OverflowOptionItem>>,
    pub confirm: Option<Confirmation>,
}

impl Overflow {
    /// An accumulator with no attribute set.
    pub fn builder() -> (r: OverflowBuilder)
        ensures
            r.action_id is None,
            r.options is None,
            r.confirm is None,
    {
        OverflowBuilder { action_id: None, options: None, confirm: None }
    }
}

impl OverflowBuilder {
    /// Sets `action_id`.
    pub fn action_id(self, action_id: &str) -> (r: Self)
        ensures
            r.action_id matches Some(s) && s@ == action_id@,
            r == (OverflowBuilder { action_id: r.action_id, ..self }),
    {
        OverflowBuilder { action_id: Some(action_id.to_owned()), ..self }
    }

    /// Sets `options`.
    pub fn options(self, options: Vec<OverflowOptionItem>) -> (r: Self)
        ensures
            r == (OverflowBuilder { options: Some(options), ..self }),
    {
        OverflowBuilder { options: Some(options), ..self }
    }

    /// Sets `confirm`.
    pub fn confirm(self, confirm: Confirmation) -> (r: Self)
        ensures
            r == (OverflowBuilder { confirm: Some(confirm), ..self }),
    {
        OverflowBuilder { confirm: Some(confirm), ..self }
    }

    /// Finishes the leaf: fails naming the first required attribute that was not set.
    pub fn build(self) -> (r: Result<Overflow, BuildError>)
        ensures
            match self.missing() {
                Some(field) => r == Err::<Overflow, BuildError>(
                    BuildError::MissingRequiredField { leaf: "Overflow", field },
                ),
                None => r matches Ok(b) && b.model() == self.built_model(),
            },
    {
        let action_id = match self.action_id {
            Some(v) => v,
            None => {
                return Err(
                    BuildError::MissingRequiredField { leaf: "Overflow", field: "action_id" },
                );
            },
        };
        let options = match self.options {
            Some(v) => v,
            None => {
                return Err(
                    BuildError::MissingRequiredField { leaf: "Overflow", field: "options" },
                );
            },
        };
        let b = Overflow { action_id, options, confirm: self.confirm };
        Ok(b)
    }
}

impl LeafBuilder for OverflowBuilder {
    open spec fn missing(&self) -> Option<&'static str> {
        if self.action_id is None {
            Some("action_id")
        } else if self.options is None {
            Some("options")
        } else {
            None
        }
    }

    open spec fn only_required(&self) -> bool {
        &&& self.missing() is None
        &&& self.confirm is None
    }

    open spec fn required_keys() -> Seq<Seq<char>> {
        seq!["type"@, "action_id"@, "options"@]
    }

    open spec fn built_model(&self) -> Json {
        let f = Seq::<(Seq<char>, Json)>::empty()
            .push(("type"@, Json::Str("overflow"@)))
            .push(("action_id"@, Json::Str(self.action_id.unwrap()@)))
            .push(("options"@, Json::Array(models(self.options.unwrap()@))));
        let f = push_opt(f, "confirm"@, opt_model(self.confirm));
        Json::Object(f)
    }

    proof fn lemma_minimal_render(&self) {
        assert(keys(self.built_model()) =~= Self::required_keys());
    }
}

impl Render for Overflow {
    closed spec fn model(&self) -> Json {
        let f = Seq::<(Seq<char>, Json)>::empty()
            .push(("type"@, Json::Str("overflow"@)))
            .push(("action_id"@, Json::Str(self.action_id@)))
            .push(("options"@, Json::Array(models(self.options@))));
        let f = push_opt(f, "confirm"@, opt_model(self.confirm));
        Json::Object(f)
    }

    fn render(&self) -> (r: Value) {
        let mut fields: Vec<(String, Value)> = Vec::new();
        push_tag(&mut fields, "type", "overflow");
        push_str_field(&mut fields, "action_id", &self.action_id);
        push_field(&mut fields, "options", render_all(&self.options));
        push_opt_component(&mut fields, "confirm", &self.confirm);
        Value::Object(fields)
    }
}

/// A field for free-form text.
pub struct PlainTextInput {
    action_id: String,
    placeholder: Option<PlainText>,
    initial_value: Option<String>,
    multiline: Option<bool>,
    min_length: Option<i32>,
    max_length: Option<i32>,
}

/// Accumulates the attributes of a [`PlainTextInput`]; `build` checks that the required
/// ones are set.
pub struct PlainTextInputBuilder {
    pub action_id: Option<String>,
    pub placeholder: Option<PlainText>,
    pub initial_value: Option<String>,
    pub multiline: Option<bool>,
    pub min_length: Option<i32>,
    pub max_length: Option<i32>,
}

impl PlainTextInput {
    /// An accumulator with no attribute set.
    pub fn builder() -> (r: PlainTextInputBuilder)
        ensures
            r.action_id is None,
            r.placeholder is None,
            r.initial_value is None,
            r.multiline is None,
            r.min_length is None,
            r.max_length is None,
    {
        PlainTextInputBuilder {
            action_id: None,
            placeholder: None,
            initial_value: None,
            multiline: None,
            min_length: None,
            max_length: None,
        }
    }
}

impl PlainTextInputBuilder {
    /// Sets `action_id`.
    pub fn action_id(self, action_id: &str) -> (r: Self)
        ensures
            r.action_id matches Some(s) && s@ == action_id@,
            r == (PlainTextInputBuilder { action_id: r.action_id, ..self }),
    {
        PlainTextInputBuilder { action_id: Some(action_id.to_owned()), ..self }
    }

    /// Sets `placeholder`.
    pub fn placeholder(self, placeholder: PlainText) -> (r: Self)
        ensures
            r == (PlainTextInputBuilder { placeholder: Some(placeholder), ..self }),
    {
        PlainTextInputBuilder { placeholder: Some(placeholder), ..self }
    }

    /// Sets `initial_value`.
    pub fn initial_value(self, initial_value: &str) -> (r: Self)
        ensures
            r.initial_value matches Some(s) && s@ == initial_value@,
            r == (PlainTextInputBuilder { initial_value: r.initial_value, ..self }),
    {
        PlainTextInputBuilder { initial_value: Some(initial_value.to_owned()), ..self }
    }

    /// Sets `multiline`.
    pub fn multiline(self, multiline: bool) -> (r: Self)
        ensures
            r == (PlainTextInputBuilder { multiline: Some(multiline), ..self }),
    {
        PlainTextInputBuilder { multiline: Some(multiline), ..self }
    }

    /// Sets `min_length`.
    pub fn min_length(self, min_length: i32) -> (r: Self)
        ensures
            r == (PlainTextInputBuilder { min_length: Some(min_length), ..self }),
    {
        PlainTextInputBuilder { min_length: Some(min_length), ..self }
    }

    /// Sets `max_length`.
    pub fn max_length(self, max_length: i32) -> (r: Self)
        ensures
            r == (PlainTextInputBuilder { max_length: Some(max_length), ..self }),
    {
        PlainTextInputBuilder { max_length: Some(max_length), ..self }
    }

    /// Finishes the leaf: fails naming the first required attribute that was not set.
    pub fn build(self) -> (r: Result<PlainTextInput, BuildError>)
        ensures
            match self.missing() {
                Some(field) => r == Err::<PlainTextInput, BuildError>(
                    BuildError::MissingRequiredField { leaf: "PlainTextInput", field },
                ),
                None => r matches Ok(b) && b.model() == self.built_model(),
            },
    {
        let action_id = match self.action_id {
            Some(v) => v,
            None => {
                return Err(
                    BuildError::MissingRequiredField { leaf: "PlainTextInput", field: "action_id" },
                );
            },
        };
        let b = PlainTextInput {
            action_id,
            placeholder: self.placeholder,
            initial_value: self.initial_value,
            multiline: self.multiline,
            min_length: self.min_length,
            max_length: self.max_length,
        };
        Ok(b)
    }
}

impl LeafBuilder for PlainTextInputBuilder {
    open spec fn missing(&self) -> Option<&'static str> {
        if self.action_id is None {
            Some("action_id")
        } else {
            None
        }
    }

    open spec fn only_required(&self) -> bool {
        &&& self.missing() is None
        &&& self.placeholder is None
        &&& self.initial_value is None
        &&& self.multiline is None
        &&& self.min_length is None
        &&& self.max_length is None
    }

    open spec fn required_keys() -> Seq<Seq<char>> {
        seq!["type"@, "action_id"@]
    }

    open spec fn built_model(&self) -> Json {
        let f = Seq::<(Seq<char>, Json)>::empty()
            .push(("type"@, Json::Str("plain_text_input"@)))
            .push(("action_id"@, Json::Str(self.action_id.unwrap()@)));
        let f = push_opt(f, "placeholder"@, opt_model(self.placeholder));
        let f = push_opt(f, "initial_value"@, opt_str(self.initial_value));
        let f = push_opt(f, "multiline"@, opt_bool(self.multiline));
        let f = push_opt(f, "min_length"@, opt_int(self.min_length));
        let f = push_opt(f, "max_length"@, opt_int(self.max_length));
        Json::Object(f)
    }

    proof fn lemma_minimal_render(&self) {
        assert(keys(self.built_model()) =~= Self::required_keys());
    }
}

impl Render for PlainTextInput {
    closed spec fn model(&self) -> Json {
        let f = Seq::<(Seq<char>, Json)>::empty()
            .push(("type"@, Json::Str("plain_text_input"@)))
            .push(("action_id"@, Json::Str(self.action_id@)));
        let f = push_opt(f, "placeholder"@, opt_model(self.placeholder));
        let f = push_opt(f, "initial_value"@, opt_str(self.initial_value));
        let f = push_opt(f, "multiline"@, opt_bool(self.multiline));
        let f = push_opt(f, "min_length"@, opt_int(self.min_length));
        let f = push_opt(f, "max_length"@, opt_int(self.max_length));
        Json::Object(f)
    }

    fn render(&self) -> (r: Value) {
        let mut fields: Vec<(String, Value)> = Vec::new();
        push_tag(&mut fields, "type", "plain_text_input");
        push_str_field(&mut fields, "action_id", &self.action_id);
        push_opt_component(&mut fields, "placeholder", &self.placeholder);
        push_opt_str_field(&mut fields, "initial_value", &self.initial_value);
        push_opt_bool_field(&mut fields, "multiline", self.multiline);
        push_opt_int_field(&mut fields, "min_length", self.min_length);
        push_opt_int_field(&mut fields, "max_length", self.max_length);
        Value::Object(fields)
    }
}

/// A group of radio buttons, one of them chosen at first.
pub struct RadioButtons {
    action_id: String,
    options: Vec<OptionItem>,
    initial_option: OptionItem,
    confirm: Option<Confirmation>,
}

/// Accumulates the attributes of a [`RadioButtons`]; `build` checks that the required
/// ones are set.
pub struct RadioButtonsBuilder {
    pub action_id: Option<String>,
    pub options: Option<Vec<OptionItem>>,
    pub initial_option: Option<OptionItem>,
    pub confirm: Option<Confirmation>,
}

impl RadioButtons {
    /// An accumulator with no attribute set.
    pub fn builder() -> (r: RadioButtonsBuilder)
        ensures
            r.action_id is None,
            r.options is None,
            r.initial_option is None,
            r.confirm is None,
    {
        RadioButtonsBuilder { action_id: None, options: None, initial_option: None, confirm: None }
    }
}

impl RadioButtonsBuilder {
    /// Sets `action_id`.
    pub fn action_id(self, action_id: &str) -> (r: Self)
        ensures
            r.action_id matches Some(s) && s@ == action_id@,
            r == (RadioButtonsBuilder { action_id: r.action_id, ..self }),
    {
        RadioButtonsBuilder { action_id: Some(action_id.to_owned()), ..self }
    }

    /// Sets `options`.
    pub fn options(self, options: Vec<OptionItem>) -> (r: Self)
        ensures
            r == (RadioButtonsBuilder { options: Some(options), ..self }),
    {
        RadioButtonsBuilder { options: Some(options), ..self }
    }

    /// Sets `initial_option`.
    pub fn initial_option(self, initial_option: OptionItem) -> (r: Self)
        ensures
            r == (RadioButtonsBuilder { initial_option: Some(initial_option), ..self }),
    {
        RadioButtonsBuilder { initial_option: Some(initial_option), ..self }
    }

    /// Sets `confirm`.
    pub fn confirm(self, confirm: Confirmation) -> (r: Self)
        ensures
            r == (RadioButtonsBuilder { confirm: Some(confirm), ..self }),
    {
        RadioButtonsBuilder { confirm: Some(confirm), ..self }
    }

    /// Finishes the leaf: fails naming the first required attribute that was not set.
    pub fn build(self) -> (r: Result<RadioButtons, BuildError>)
        ensures
            match self.missing() {
                Some(field) => r == Err::<RadioButtons, BuildError>(
                    BuildError::MissingRequiredField { leaf: "RadioButtons", field },
                ),
                None => r matches Ok(b) && b.model() == self.built_model(),
            },
    {
        let action_id = match self.action_id {
            Some(v) => v,
            None => {
                return Err(
                    BuildError::MissingRequiredField { leaf: "RadioButtons", field: "action_id" },
                );
            },
        };
        let options = match self.options {
            Some(v) => v,
            None => {
                return Err(
                    BuildError::MissingRequiredField { leaf: "RadioButtons", field: "options" },
                );
            },
        };
        let initial_option = match self.initial_option {
            Some(v) => v,
            None => {
                return Err(
                    BuildError::MissingRequiredField { leaf: "RadioButtons", field: "initial_option" },
                );
            },
        };
        let b = RadioButtons { action_id, options, initial_option, confirm: self.confirm };
        Ok(b)
    }
}

impl LeafBuilder for RadioButtonsBuilder {
    open spec fn missing(&self) -> Option<&'static str> {
        if self.action_id is None {
            Some("action_id")
        } else if self.options is None {
            Some("options")
        } else if self.initial_option is None {
            Some("initial_option")
        } else {
            None
        }
    }

    open spec fn only_required(&self) -> bool {
        &&& self.missing() is None
        &&& self.confirm is None
    }

    open spec fn required_keys() -> Seq<Seq<char>> {
        seq!["type"@, "action_id"@, "options"@, "initial_option"@]
    }

    open spec fn built_model(&self) -> Json {
        let f = Seq::<(Seq<char>, Json)>::empty()
            .push(("type"@, Json::Str("radio_buttons"@)))
            .push(("action_id"@, Json::Str(self.action_id.unwrap()@)))
            .push(("options"@, Json::Array(models(self.options.unwrap()@))))
            .push(("initial_option"@, self.initial_option.unwrap().model()));
        let f = push_opt(f, "confirm"@, opt_model(self.confirm));
        Json::Object(f)
    }

    proof fn lemma_minimal_render(&self) {
        assert(keys(self.built_model()) =~= Self::required_keys());
    }
}

impl Render for RadioButtons {
    closed spec fn model(&self) -> Json {
        let f = Seq::<(Seq<char>, Json)>::empty()
            .push(("type"@, Json::Str("radio_buttons"@)))
            .push(("action_id"@, Json::Str(self.action_id@)))
            .push(("options"@, Json::Array(models(self.options@))))
            .push(("initial_option"@, self.initial_option.model()));
        let f = push_opt(f, "confirm"@, opt_model(self.confirm));
        Json::Object(f)
    }

    fn render(&self) -> (r: Value) {
        let mut fields: Vec<(String, Value)> = Vec::new();
        push_tag(&mut fields, "type", "radio_buttons");
        push_str_field(&mut fields, "action_id", &self.action_id);
        push_field(&mut fields, "options", render_all(&self.options));
        push_field(&mut fields, "initial_option", self.initial_option.render());
        push_opt_component(&mut fields, "confirm", &self.confirm);
        Value::Object(fields)
    }
}

/// A menu for choosing one item from a fixed list.
///
/// The external schema asks for one of `options` and `option_groups`; that rule is
/// left to the consumer and not enforced here.
pub struct StaticSelect {
    placeholder: PlainText,
    action_id: String,
    options: Option<Vec<PlainTextOptionItem>>,
    option_groups: Option<Vec<OptionGroup>>,
    initial_option: Option<PlainTextOptionItem>,
    confirm: Option<Confirmation>,
}

/// Accumulates the attributes of a [`StaticSelect`]; `build` checks that the required
/// ones are set.
pub struct StaticSelectBuilder {
    pub placeholder: Option<PlainText>,
    pub action_id: Option<String>,
    pub options: Option<Vec<PlainTextOptionItem>>,
    pub option_groups: Option<Vec<OptionGroup>>,
    pub initial_option: Option<PlainTextOptionItem>,
    pub confirm: Option<Confirmation>,
}

impl StaticSelect {
    /// An accumulator with no attribute set.
    pub fn builder() -> (r: StaticSelectBuilder)
        ensures
            r.placeholder is None,
            r.action_id is None,
            r.options is None,
            r.option_groups is None,
            r.initial_option is None,
            r.confirm is None,
    {
        StaticSelectBuilder {
            placeholder: None,
            action_id: None,
            options: None,
            option_groups: None,
            initial_option: None,
            confirm: None,
        }
    }
}

impl StaticSelectBuilder {
    /// Sets `placeholder`.
    pub fn placeholder(self, placeholder: PlainText) -> (r: Self)
        ensures
            r == (StaticSelectBuilder { placeholder: Some(placeholder), ..self }),
    {
        StaticSelectBuilder { placeholder: Some(placeholder), ..self }
    }

    /// Sets `action_id`.
    pub fn action_id(self, action_id: &str) -> (r: Self)
        ensures
            r.action_id matches Some(s) && s@ == action_id@,
            r == (StaticSelectBuilder { action_id: r.action_id, ..self }),
    {
        StaticSelectBuilder { action_id: Some(action_id.to_owned()), ..self }
    }

    /// Sets `options`.
    pub fn options(self, options: Vec<PlainTextOptionItem>) -> (r: Self)
        ensures
            r == (StaticSelectBuilder { options: Some(options), ..self }),
    {
        StaticSelectBuilder { options: Some(options), ..self }
    }

    /// Sets `option_groups`.
    pub fn option_groups(self, option_groups: Vec<OptionGroup>) -> (r: Self)
        ensures
            r == (StaticSelectBuilder { option_groups: Some(option_groups), ..self }),
    {
        StaticSelectBuilder { option_groups: Some(option_groups), ..self }
    }

    /// Sets `initial_option`.
    pub fn initial_option(self, initial_option: PlainTextOptionItem) -> (r: Self)
        ensures
            r == (StaticSelectBuilder { initial_option: Some(initial_option), ..self }),
    {
        StaticSelectBuilder { initial_option: Some(initial_option), ..self }
    }

    /// Sets `confirm`.
    pub fn confirm(self, confirm: Confirmation) -> (r: Self)
        ensures
            r == (StaticSelectBuilder { confirm: Some(confirm), ..self }),
    {
        StaticSelectBuilder { confirm: Some(confirm), ..self }
    }

    /// Finishes the leaf: fails naming the first required attribute that was not set.
    pub fn build(self) -> (r: Result<StaticSelect, BuildError>)
        ensures
            match self.missing() {
                Some(field) => r == Err::<StaticSelect, BuildError>(
                    BuildError::MissingRequiredField { leaf: "StaticSelect", field },
                ),
                None => r matches Ok(b) && b.model() == self.built_model(),
            },
    {
        let placeholder = match self.placeholder {
            Some(v) => v,
            None => {
                return Err(
                    BuildError::MissingRequiredField { leaf: "StaticSelect", field: "placeholder" },
                );
            },
        };
        let action_id = match self.action_id {
            Some(v) => v,
            None => {
                return Err(
                    BuildError::MissingRequiredField { leaf: "StaticSelect", field: "action_id" },
                );
            },
        };
        let b = StaticSelect {
            placeholder,
            action_id,
            options: self.options,
            option_groups: self.option_groups,
            initial_option: self.initial_option,
            confirm: self.confirm,
        };
        Ok(b)
    }
}

impl LeafBuilder for StaticSelectBuilder {
    open spec fn missing(&self) -> Option<&'static str> {
        if self.placeholder is None {
            Some("placeholder")
        } else if self.action_id is None {
            Some("action_id")
        } else {
            None
        }
    }

    open spec fn only_required(&self) -> bool {
        &&& self.missing() is None
        &&& self.options is None
        &&& self.option_groups is None
        &&& self.initial_option is None
        &&& self.confirm is None
    }

    open spec fn required_keys() -> Seq<Seq<char>> {
        seq!["type"@, "placeholder"@, "action_id"@]
    }

    open spec fn built_model(&self) -> Json {
        let f = Seq::<(Seq<char>, Json)>::empty()
            .push(("type"@, Json::Str("static_select"@)))
            .push(("placeholder"@, self.placeholder.unwrap().model()))
            .push(("action_id"@, Json::Str(self.action_id.unwrap()@)));
        let f = push_opt(f, "options"@, opt_models(self.options));
        let f = push_opt(f, "option_groups"@, opt_models(self.option_groups));
        let f = push_opt(f, "initial_option"@, opt_model(self.initial_option));
        let f = push_opt(f, "confirm"@, opt_model(self.confirm));
        Json::Object(f)
    }

    proof fn lemma_minimal_render(&self) {
        assert(keys(self.built_model()) =~= Self::required_keys());
    }
}

impl Render for StaticSelect {
    closed spec fn model(&self) -> Json {
        let f = Seq::<(Seq<char>, Json)>::empty()
            .push(("type"@, Json::Str("static_select"@)))
            .push(("placeholder"@, self.placeholder.model()))
            .push(("action_id"@, Json::Str(self.action_id@)));
        let f = push_opt(f, "options"@, opt_models(self.options));
        let f = push_opt(f, "option_groups"@, opt_models(self.option_groups));
        let f = push_opt(f, "initial_option"@, opt_model(self.initial_option));
        let f = push_opt(f, "confirm"@, opt_model(self.confirm));
        Json::Object(f)
    }

    fn render(&self) -> (r: Value) {
        let mut fields: Vec<(String, Value)> = Vec::new();
        push_tag(&mut fields, "type", "static_select");
        push_field(&mut fields, "placeholder", self.placeholder.render());
        push_str_field(&mut fields, "action_id", &self.action_id);
        push_opt_components(&mut fields, "options", &self.options);
        push_opt_components(&mut fields, "option_groups", &self.option_groups);
        push_opt_component(&mut fields, "initial_option", &self.initial_option);
        push_opt_component(&mut fields, "confirm", &self.confirm);
        Value::Object(fields)
    }
}

/// A menu for choosing one item that an outside source supplies.
pub struct ExternalSelect {
    placeholder: PlainText,
    action_id: String,
    min_query_length: Option<i32>,
    initial_option: Option<PlainTextOptionItem>,
    confirm: Option<Confirmation>,
}

/// Accumulates the attributes of a [`ExternalSelect`]; `build` checks that the required
/// ones are set.
pub struct ExternalSelectBuilder {
    pub placeholder: Option<PlainText>,
    pub action_id: Option<String>,
    pub min_query_length: Option<i32>,
    pub initial_option: Option<PlainTextOptionItem>,
    pub confirm: Option<Confirmation>,
}

impl ExternalSelect {
    /// An accumulator with no attribute set.
    pub fn builder() -> (r: ExternalSelectBuilder)
        ensures
            r.placeholder is None,
            r.action_id is None,
            r.min_query_length is None,
            r.initial_option is None,
            r.confirm is None,
    {
        ExternalSelectBuilder {
            placeholder: None,
            action_id: None,
            min_query_length: None,
            initial_option: None,
            confirm: None,
        }
    }
}

impl ExternalSelectBuilder {
    /// Sets `placeholder`.
    pub fn placeholder(self, placeholder: PlainText) -> (r: Self)
        ensures
            r == (ExternalSelectBuilder { placeholder: Some(placeholder), ..self }),
    {
        ExternalSelectBuilder { placeholder: Some(placeholder), ..self }
    }

    /// Sets `action_id`.
    pub fn action_id(self, action_id: &str) -> (r: Self)
        ensures
            r.action_id matches Some(s) && s@ == action_id@,
            r == (ExternalSelectBuilder { action_id: r.action_id, ..self }),
    {
        ExternalSelectBuilder { action_id: Some(action_id.to_owned()), ..self }
    }

    /// Sets `min_query_length`.
    pub fn min_query_length(self, min_query_length: i32) -> (r: Self)
        ensures
            r == (ExternalSelectBuilder { min_query_length: Some(min_query_length), ..self }),
    {
        ExternalSelectBuilder { min_query_length: Some(min_query_length), ..self }
    }

    /// Sets `initial_option`.
    pub fn initial_option(self, initial_option: PlainTextOptionItem) -> (r: Self)
        ensures
            r == (ExternalSelectBuilder { initial_option: Some(initial_option), ..self }),
    {
        ExternalSelectBuilder { initial_option: Some(initial_option), ..self }
    }

    /// Sets `confirm`.
    pub fn confirm(self, confirm: Confirmation) -> (r: Self)
        ensures
            r == (ExternalSelectBuilder { confirm: Some(confirm), ..self }),
    {
        ExternalSelectBuilder { confirm: Some(confirm), ..self }
    }

    /// Finishes the leaf: fails naming the first required attribute that was not set.
    pub fn build(self) -> (r: Result<ExternalSelect, BuildError>)
        ensures
            match self.missing() {
                Some(field) => r == Err::<ExternalSelect, BuildError>(
                    BuildError::MissingRequiredField { leaf: "ExternalSelect", field },
                ),
                None => r matches Ok(b) && b.model() == self.built_model(),
            },
    {
        let placeholder = match self.placeholder {
            Some(v) => v,
            None => {
                return Err(
                    BuildError::MissingRequiredField { leaf: "ExternalSelect", field: "placeholder" },
                );
            },
        };
        let action_id = match self.action_id {
            Some(v) => v,
            None => {
                return Err(
                    BuildError::MissingRequiredField { leaf: "ExternalSelect", field: "action_id" },
                );
            },
        };
        let b = ExternalSelect {
            placeholder,
            action_id,
            min_query_length: self.min_query_length,
            initial_option: self.initial_option,
            confirm: self.confirm,
        };
        Ok(b)
    }
}

impl LeafBuilder for ExternalSelectBuilder {
    open spec fn missing(&self) -> Option<&'static str> {
        if self.placeholder is None {
            Some("placeholder")
        } else if self.action_id is None {
            Some("action_id")
        } else {
            None
        }
    }

    open spec fn only_required(&self) -> bool {
        &&& self.missing() is None
        &&& self.min_query_length is None
        &&& self.initial_option is None
        &&& self.confirm is None
    }

    open spec fn required_keys() -> Seq<Seq<char>> {
        seq!["type"@, "placeholder"@, "action_id"@]
    }

    open spec fn built_model(&self) -> Json {
        let f = Seq::<(Seq<char>, Json)>::empty()
            .push(("type"@, Json::Str("external_select"@)))
            .push(("placeholder"@, self.placeholder.unwrap().model()))
            .push(("action_id"@, Json::Str(self.action_id.unwrap()@)));
        let f = push_opt(f, "min_query_length"@, opt_int(self.min_query_length));
        let f = push_opt(f, "initial_option"@, opt_model(self.initial_option));
        let f = push_opt(f, "confirm"@, opt_model(self.confirm));
        Json::Object(f)
    }

    proof fn lemma_minimal_render(&self) {
        assert(keys(self.built_model()) =~= Self::required_keys());
    }
}

impl Render for ExternalSelect {
    closed spec fn model(&self) -> Json {
        let f = Seq::<(Seq<char>, Json)>::empty()
            .push(("type"@, Json::Str("external_select"@)))
            .push(("placeholder"@, self.placeholder.model()))
            .push(("action_id"@, Json::Str(self.action_id@)));
        let f = push_opt(f, "min_query_length"@, opt_int(self.min_query_length));
        let f = push_opt(f, "initial_option"@, opt_model(self.initial_option));
        let f = push_opt(f, "confirm"@, opt_model(self.confirm));
        Json::Object(f)
    }

    fn render(&self) -> (r: Value) {
        let mut fields: Vec<(String, Value)> = Vec::new();
        push_tag(&mut fields, "type", "external_select");
        push_field(&mut fields, "placeholder", self.placeholder.render());
        push_str_field(&mut fields, "action_id", &self.action_id);
        push_opt_int_field(&mut fields, "min_query_length", self.min_query_length);
        push_opt_component(&mut fields, "initial_option", &self.initial_option);
        push_opt_component(&mut fields, "confirm", &self.confirm);
        Value::Object(fields)
    }
}

/// A menu for choosing one user.
pub struct UsersSelect {
    placeholder: PlainText,
    action_id: String,
    initial_user: Option<String>,
    confirm: Option<Confirmation>,
}

/// Accumulates the attributes of a [`UsersSelect`]; `build` checks that the required
/// ones are set.
pub struct UsersSelectBuilder {
    pub placeholder: Option<PlainText>,
    pub action_id: Option<String>,
    pub initial_user: Option<String>,
    pub confirm: Option<Confirmation>,
}

impl UsersSelect {
    /// An accumulator with no attribute set.
    pub fn builder() -> (r: UsersSelectBuilder)
        ensures
            r.placeholder is None,
            r.action_id is None,
            r.initial_user is None,
            r.confirm is None,
    {
        UsersSelectBuilder { placeholder: None, action_id: None, initial_user: None, confirm: None }
    }
}

impl UsersSelectBuilder {
    /// Sets `placeholder`.
    pub fn placeholder(self, placeholder: PlainText) -> (r: Self)
        ensures
            r == (UsersSelectBuilder { placeholder: Some(placeholder), ..self }),
    {
        UsersSelectBuilder { placeholder: Some(placeholder), ..self }
    }

    /// Sets `action_id`.
    pub fn action_id(self, action_id: &str) -> (r: Self)
        ensures
            r.action_id matches Some(s) && s@ == action_id@,
            r == (UsersSelectBuilder { action_id: r.action_id, ..self }),
    {
        UsersSelectBuilder { action_id: Some(action_id.to_owned()), ..self }
    }

    /// Sets `initial_user`.
    pub fn initial_user(self, initial_user: &str) -> (r: Self)
        ensures
            r.initial_user matches Some(s) && s@ == initial_user@,
            r == (UsersSelectBuilder { initial_user: r.initial_user, ..self }),
    {
        UsersSelectBuilder { initial_user: Some(initial_user.to_owned()), ..self }
    }

    /// Sets `confirm`.
    pub fn confirm(self, confirm: Confirmation) -> (r: Self)
        ensures
            r == (UsersSelectBuilder { confirm: Some(confirm), ..self }),
    {
        UsersSelectBuilder { confirm: Some(confirm), ..self }
    }

    /// Finishes the leaf: fails naming the first required attribute that was not set.
    pub fn build(self) -> (r: Result<UsersSelect, BuildError>)
        ensures
            match self.missing() {
                Some(field) => r == Err::<UsersSelect, BuildError>(
                    BuildError::MissingRequiredField { leaf: "UsersSelect", field },
                ),
                None => r matches Ok(b) && b.model() == self.built_model(),
            },
    {
        let placeholder = match self.placeholder {
            Some(v) => v,
            None => {
                return Err(
                    BuildError::MissingRequiredField { leaf: "UsersSelect", field: "placeholder" },
                );
            },
        };
        let action_id = match self.action_id {
            Some(v) => v,
            None => {
                return Err(
                    BuildError::MissingRequiredField { leaf: "UsersSelect", field: "action_id" },
                );
            },
        };
        let b = UsersSelect {
            placeholder,
            action_id,
            initial_user: self.initial_user,
            confirm: self.confirm,
        };
        Ok(b)
    }
}

impl LeafBuilder for UsersSelectBuilder {
    open spec fn missing(&self) -> Option<&'static str> {
        if self.placeholder is None {
            Some("placeholder")
        } else if self.action_id is None {
            Some("action_id")
        } else {
            None
        }
    }

    open spec fn only_required(&self) -> bool {
        &&& self.missing() is None
        &&& self.initial_user is None
        &&& self.confirm is None
    }

    open spec fn required_keys() -> Seq<Seq<char>> {
        seq!["type"@, "placeholder"@, "action_id"@]
    }

    open spec fn built_model(&self) -> Json {
        let f = Seq::<(Seq<char>, Json)>::empty()
            .push(("type"@, Json::Str("users_select"@)))
            .push(("placeholder"@, self.placeholder.unwrap().model()))
            .push(("action_id"@, Json::Str(self.action_id.unwrap()@)));
        let f = push_opt(f, "initial_user"@, opt_str(self.initial_user));
        let f = push_opt(f, "confirm"@, opt_model(self.confirm));
        Json::Object(f)
    }

    proof fn lemma_minimal_render(&self) {
        assert(keys(self.built_model()) =~= Self::required_keys());
    }
}

impl Render for UsersSelect {
    closed spec fn model(&self) -> Json {
        let f = Seq::<(Seq<char>, Json)>::empty()
            .push(("type"@, Json::Str("users_select"@)))
            .push(("placeholder"@, self.placeholder.model()))
            .push(("action_id"@, Json::Str(self.action_id@)));
        let f = push_opt(f, "initial_user"@, opt_str(self.initial_user));
        let f = push_opt(f, "confirm"@, opt_model(self.confirm));
        Json::Object(f)
    }

    fn render(&self) -> (r: Value) {
        let mut fields: Vec<(String, Value)> = Vec::new();
        push_tag(&mut fields, "type", "users_select");
        push_field(&mut fields, "placeholder", self.placeholder.render());
        push_str_field(&mut fields, "action_id", &self.action_id);
        push_opt_str_field(&mut fields, "initial_user", &self.initial_user);
        push_opt_component(&mut fields, "confirm", &self.confirm);
        Value::Object(fields)
    }
}

/// A menu for choosing one conversation.
pub struct ConversationsSelect {
    placeholder: PlainText,
    action_id: String,
    initial_conversation: Option<String>,
    default_to_current_conversation: Option<bool>,
    confirm: Option<Confirmation>,
    filter: Option<Filter>,
}

/// Accumulates the attributes of a [`ConversationsSelect`]; `build` checks that the required
/// ones are set.
pub struct ConversationsSelectBuilder {
    pub placeholder: Option<PlainText>,
    pub action_id: Option<String>,
    pub initial_conversation: Option<String>,
    pub default_to_current_conversation: Option<bool>,
    pub confirm: Option<Confirmation>,
    pub filter: Option<Filter>,
}

impl ConversationsSelect {
    /// An accumulator with no attribute set.
    pub fn builder() -> (r: ConversationsSelectBuilder)
        ensures
            r.placeholder is None,
            r.action_id is None,
            r.initial_conversation is None,
            r.default_to_current_conversation is None,
            r.confirm is None,
            r.filter is None,
    {
        ConversationsSelectBuilder {
            placeholder: None,
            action_id: None,
            initial_conversation: None,
            default_to_current_conversation: None,
            confirm: None,
            filter: None,
        }
    }
}

impl ConversationsSelectBuilder {
    /// Sets `placeholder`.
    pub fn placeholder(self, placeholder: PlainText) -> (r: Self)
        ensures
            r == (ConversationsSelectBuilder { placeholder: Some(placeholder), ..self }),
    {
        ConversationsSelectBuilder { placeholder: Some(placeholder), ..self }
    }

    /// Sets `action_id`.
    pub fn action_id(self, action_id: &str) -> (r: Self)
        ensures
            r.action_id matches Some(s) && s@ == action_id@,
            r == (ConversationsSelectBuilder { action_id: r.action_id, ..self }),
    {
        ConversationsSelectBuilder { action_id: Some(action_id.to_owned()), ..self }
    }

    /// Sets `initial_conversation`.
    pub fn initial_conversation(self, initial_conversation: &str) -> (r: Self)
        ensures
            r.initial_conversation matches Some(s) && s@ == initial_conversation@,
            r == (ConversationsSelectBuilder { initial_conversation: r.initial_conversation, ..self }),
    {
        ConversationsSelectBuilder { initial_conversation: Some(initial_conversation.to_owned()), ..self }
    }

    /// Sets `default_to_current_conversation`.
    pub fn default_to_current_conversation(self, default_to_current_conversation: bool) -> (r: Self)
        ensures
            r == (ConversationsSelectBuilder { default_to_current_conversation: Some(default_to_current_conversation), ..self }),
    {
        ConversationsSelectBuilder { default_to_current_conversation: Some(default_to_current_conversation), ..self }
    }

    /// Sets `confirm`.
    pub fn confirm(self, confirm: Confirmation) -> (r: Self)
        ensures
            r == (ConversationsSelectBuilder { confirm: Some(confirm), ..self }),
    {
        ConversationsSelectBuilder { confirm: Some(confirm), ..self }
    }

    /// Sets `filter`.
    pub fn filter(self, filter: Filter) -> (r: Self)
        ensures
            r == (ConversationsSelectBuilder { filter: Some(filter), ..self }),
    {
        ConversationsSelectBuilder { filter: Some(filter), ..self }
    }

    /// Finishes the leaf: fails naming the first required attribute that was not set.
    pub fn build(self) -> (r: Result<ConversationsSelect, BuildError>)
        ensures
            match self.missing() {
                Some(field) => r == Err::<ConversationsSelect, BuildError>(
                    BuildError::MissingRequiredField { leaf: "ConversationsSelect", field },
                ),
                None => r matches Ok(b) && b.model() == self.built_model(),
            },
    {
        let placeholder = match self.placeholder {
            Some(v) => v,
            None => {
                return Err(
                    BuildError::MissingRequiredField { leaf: "ConversationsSelect", field: "placeholder" },
                );
            },
        };
        let action_id = match self.action_id {
            Some(v) => v,
            None => {
                return Err(
                    BuildError::MissingRequiredField { leaf: "ConversationsSelect", field: "action_id" },
                );
            },
        };
        let b = ConversationsSelect {
            placeholder,
            action_id,
            initial_conversation: self.initial_conversation,
            default_to_current_conversation: self.default_to_current_conversation,
            confirm: self.confirm,
            filter: self.filter,
        };
        Ok(b)
    }
}

impl LeafBuilder for ConversationsSelectBuilder {
    open spec fn missing(&self) -> Option<&'static str> {
        if self.placeholder is None {
            Some("placeholder")
        } else if self.action_id is None {
            Some("action_id")
        } else {
            None
        }
    }

    open spec fn only_required(&self) -> bool {
        &&& self.missing() is None
        &&& self.initial_conversation is None
        &&& self.default_to_current_conversation is None
        &&& self.confirm is None
        &&& self.filter is None
    }

    open spec fn required_keys() -> Seq<Seq<char>> {
        seq!["type"@, "placeholder"@, "action_id"@]
    }

    open spec fn built_model(&self) -> Json {
        let f = Seq::<(Seq<char>, Json)>::empty()
            .push(("type"@, Json::Str("conversations_select"@)))
            .push(("placeholder"@, self.placeholder.unwrap().model()))
            .push(("action_id"@, Json::Str(self.action_id.unwrap()@)));
        let f = push_opt(f, "initial_conversation"@, opt_str(self.initial_conversation));
        let f = push_opt(f, "default_to_current_conversation"@, opt_bool(self.default_to_current_conversation));
        let f = push_opt(f, "confirm"@, opt_model(self.confirm));
        let f = push_opt(f, "filter"@, opt_model(self.filter));
        Json::Object(f)
    }

    proof fn lemma_minimal_render(&self) {
        assert(keys(self.built_model()) =~= Self::required_keys());
    }
}

impl Render for ConversationsSelect {
    closed spec fn model(&self) -> Json {
        let f = Seq::<(Seq<char>, Json)>::empty()
            .push(("type"@, Json::Str("conversations_select"@)))
            .push(("placeholder"@, self.placeholder.model()))
            .push(("action_id"@, Json::Str(self.action_id@)));
        let f = push_opt(f, "initial_conversation"@, opt_str(self.initial_conversation));
        let f = push_opt(f, "default_to_current_conversation"@, opt_bool(self.default_to_current_conversation));
        let f = push_opt(f, "confirm"@, opt_model(self.confirm));
        let f = push_opt(f, "filter"@, opt_model(self.filter));
        Json::Object(f)
    }

    fn render(&self) -> (r: Value) {
        let mut fields: Vec<(String, Value)> = Vec::new();
        push_tag(&mut fields, "type", "conversations_select");
        push_field(&mut fields, "placeholder", self.placeholder.render());
        push_str_field(&mut fields, "action_id", &self.action_id);
        push_opt_str_field(&mut fields, "initial_conversation", &self.initial_conversation);
        push_opt_bool_field(&mut fields, "default_to_current_conversation", self.default_to_current_conversation);
        push_opt_component(&mut fields, "confirm", &self.confirm);
        push_opt_component(&mut fields, "filter", &self.filter);
        Value::Object(fields)
    }
}

/// A menu for choosing one public channel.
pub struct ChannelsSelect {
    placeholder: PlainText,
    action_id: String,
    initial_channel: Option<String>,
    confirm: Option<Confirmation>,
}

/// Accumulates the attributes of a [`ChannelsSelect`]; `build` checks that the required
/// ones are set.
pub struct ChannelsSelectBuilder {
    pub placeholder: Option<PlainText>,
    pub action_id: Option<String>,
    pub initial_channel: Option<String>,
    pub confirm: Option<Confirmation>,
}

impl ChannelsSelect {
    /// An accumulator with no attribute set.
    pub fn builder() -> (r: ChannelsSelectBuilder)
        ensures
            r.placeholder is None,
            r.action_id is None,
            r.initial_channel is None,
            r.confirm is None,
    {
        ChannelsSelectBuilder {
            placeholder: None,
            action_id: None,
            initial_channel: None,
            confirm: None,
        }
    }
}

impl ChannelsSelectBuilder {
    /// Sets `placeholder`.
    pub fn placeholder(self, placeholder: PlainText) -> (r: Self)
        ensures
            r == (ChannelsSelectBuilder { placeholder: Some(placeholder), ..self }),
    {
        ChannelsSelectBuilder { placeholder: Some(placeholder), ..self }
    }

    /// Sets `action_id`.
    pub fn action_id(self, action_id: &str) -> (r: Self)
        ensures
            r.action_id matches Some(s) && s@ == action_id@,
            r == (ChannelsSelectBuilder { action_id: r.action_id, ..self }),
    {
        ChannelsSelectBuilder { action_id: Some(action_id.to_owned()), ..self }
    }

    /// Sets `initial_channel`.
    pub fn initial_channel(self, initial_channel: &str) -> (r: Self)
        ensures
            r.initial_channel matches Some(s) && s@ == initial_channel@,
            r == (ChannelsSelectBuilder { initial_channel: r.initial_channel, ..self }),
    {
        ChannelsSelectBuilder { initial_channel: Some(initial_channel.to_owned()), ..self }
    }

    /// Sets `confirm`.
    pub fn confirm(self, confirm: Confirmation) -> (r: Self)
        ensures
            r == (ChannelsSelectBuilder { confirm: Some(confirm), ..self }),
    {
        ChannelsSelectBuilder { confirm: Some(confirm), ..self }
    }

    /// Finishes the leaf: fails naming the first required attribute that was not set.
    pub fn build(self) -> (r: Result<ChannelsSelect, BuildError>)
        ensures
            match self.missing() {
                Some(field) => r == Err::<ChannelsSelect, BuildError>(
                    BuildError::MissingRequiredField { leaf: "ChannelsSelect", field },
                ),
                None => r matches Ok(b) && b.model() == self.built_model(),
            },
    {
        let placeholder = match self.placeholder {
            Some(v) => v,
            None => {
                return Err(
                    BuildError::MissingRequiredField { leaf: "ChannelsSelect", field: "placeholder" },
                );
            },
        };
        let action_id = match self.action_id {
            Some(v) => v,
            None => {
                return Err(
                    BuildError::MissingRequiredField { leaf: "ChannelsSelect", field: "action_id" },
                );
            },
        };
        let b = ChannelsSelect {
            placeholder,
            action_id,
            initial_channel: self.initial_channel,
            confirm: self.confirm,
        };
        Ok(b)
    }
}

impl LeafBuilder for ChannelsSelectBuilder {
    open spec fn missing(&self) -> Option<&'static str> {
        if self.placeholder is None {
            Some("placeholder")
        } else if self.action_id is None {
            Some("action_id")
        } else {
            None
        }
    }

    open spec fn only_required(&self) -> bool {
        &&& self.missing() is None
        &&& self.initial_channel is None
        &&& self.confirm is None
    }

    open spec fn required_keys() -> Seq<Seq<char>> {
        seq!["type"@, "placeholder"@, "action_id"@]
    }

    open spec fn built_model(&self) -> Json {
        let f = Seq::<(Seq<char>, Json)>::empty()
            .push(("type"@, Json::Str("channels_select"@)))
            .push(("placeholder"@, self.placeholder.unwrap().model()))
            .push(("action_id"@, Json::Str(self.action_id.unwrap()@)));
        let f = push_opt(f, "initial_channel"@, opt_str(self.initial_channel));
        let f = push_opt(f, "confirm"@, opt_model(self.confirm));
        Json::Object(f)
    }

    proof fn lemma_minimal_render(&self) {
        assert(keys(self.built_model()) =~= Self::required_keys());
    }
}

impl Render for ChannelsSelect {
    closed spec fn model(&self) -> Json {
        let f = Seq::<(Seq<char>, Json)>::empty()
            .push(("type"@, Json::Str("channels_select"@)))
            .push(("placeholder"@, self.placeholder.model()))
            .push(("action_id"@, Json::Str(self.action_id@)));
        let f = push_opt(f, "initial_channel"@, opt_str(self.initial_channel));
        let f = push_opt(f, "confirm"@, opt_model(self.confirm));
        Json::Object(f)
    }

    fn render(&self) -> (r: Value) {
        let mut fields: Vec<(String, Value)> = Vec::new();
        push_tag(&mut fields, "type", "channels_select");
        push_field(&mut fields, "placeholder", self.placeholder.render());
        push_str_field(&mut fields, "action_id", &self.action_id);
        push_opt_str_field(&mut fields, "initial_channel", &self.initial_channel);
        push_opt_component(&mut fields, "confirm", &self.confirm);
        Value::Object(fields)
    }
}

impl From<Button> for SectionElements {
    fn from(item: Button) -> Self {
        SectionElements::Button(item)
    }
}

impl FromSpecImpl<Button> for SectionElements {
    open spec fn obeys_from_spec() -> bool {
        true
    }

    open spec fn from_spec(v: Button) -> Self {
        SectionElements::Button(v)
    }
}

impl From<Button> for ActionElements {
    fn from(item: Button) -> Self {
        ActionElements::Button(item)
    }
}

impl FromSpecImpl<Button> for ActionElements {
    open spec fn obeys_from_spec() -> bool {
        true
    }

    open spec fn from_spec(v: Button) -> Self {
        ActionElements::Button(v)
    }
}

impl From<Checkboxes> for InputElements {
    fn from(item: Checkboxes) -> Self {
        InputElements::Checkboxes(item)
    }
}

impl FromSpecImpl<Checkboxes> for InputElements {
    open spec fn obeys_from_spec() -> bool {
        true
    }

    open spec fn from_spec(v: Checkboxes) -> Self {
        InputElements::Checkboxes(v)
    }
}

impl From<Checkboxes> for SectionElements {
    fn from(item: Checkboxes) -> Self {
        SectionElements::Checkboxes(item)
    }
}

impl FromSpecImpl<Checkboxes> for SectionElements {
    open spec fn obeys_from_spec() -> bool {
        true
    }

    open spec fn from_spec(v: Checkboxes) -> Self {
        SectionElements::Checkboxes(v)
    }
}

impl From<Checkboxes> for ActionElements {
    fn from(item: Checkboxes) -> Self {
        ActionElements::Checkboxes(item)
    }
}

impl FromSpecImpl<Checkboxes> for ActionElements {
    open spec fn obeys_from_spec() -> bool {
        true
    }

    open spec fn from_spec(v: Checkboxes) -> Self {
        ActionElements::Checkboxes(v)
    }
}

impl From<Datepicker> for InputElements {
    fn from(item: Datepicker) -> Self {
        InputElements::Datepicker(item)
    }
}

impl FromSpecImpl<Datepicker> for InputElements {
    open spec fn obeys_from_spec() -> bool {
        true
    }

    open spec fn from_spec(v: Datepicker) -> Self {
        InputElements::Datepicker(v)
    }
}

impl From<Datepicker> for SectionElements {
    fn from(item: Datepicker) -> Self {
        SectionElements::Datepicker(item)
    }
}

impl FromSpecImpl<Datepicker> for SectionElements {
    open spec fn obeys_from_spec() -> bool {
        true
    }

    open spec fn from_spec(v: Datepicker) -> Self {
        SectionElements::Datepicker(v)
    }
}

impl From<Datepicker> for ActionElements {
    fn from(item: Datepicker) -> Self {
        ActionElements::Datepicker(item)
    }
}

impl FromSpecImpl<Datepicker> for ActionElements {
    open spec fn obeys_from_spec() -> bool {
        true
    }

    open spec fn from_spec(v: Datepicker) -> Self {
        ActionElements::Datepicker(v)
    }
}

impl From<Image> for SectionElements {
    fn from(item: Image) -> Self {
        SectionElements::Image(item)
    }
}

impl FromSpecImpl<Image> for SectionElements {
    open spec fn obeys_from_spec() -> bool {
        true
    }

    open spec fn from_spec(v: Image) -> Self {
        SectionElements::Image(v)
    }
}

impl From<Image> for ContextElements {
    fn from(item: Image) -> Self {
        ContextElements::Image(item)
    }
}

impl FromSpecImpl<Image> for ContextElements {
    open spec fn obeys_from_spec() -> bool {
        true
    }

    open spec fn from_spec(v: Image) -> Self {
        ContextElements::Image(v)
    }
}

impl From<MultiStaticSelect> for SectionElements {
    fn from(item: MultiStaticSelect) -> Self {
        SectionElements::MultiStaticSelect(item)
    }
}

impl FromSpecImpl<MultiStaticSelect> for SectionElements {
    open spec fn obeys_from_spec() -> bool {
        true
    }

    open spec fn from_spec(v: MultiStaticSelect) -> Self {
        SectionElements::MultiStaticSelect(v)
    }
}

impl From<MultiStaticSelect> for InputElements {
    fn from(item: MultiStaticSelect) -> Self {
        InputElements::MultiStaticSelect(item)
    }
}

impl FromSpecImpl<MultiStaticSelect> for InputElements {
    open spec fn obeys_from_spec() -> bool {
        true
    }

    open spec fn from_spec(v: MultiStaticSelect) -> Self {
        InputElements::MultiStaticSelect(v)
    }
}

impl From<MultiExternalSelect> for SectionElements {
    fn from(item: MultiExternalSelect) -> Self {
        SectionElements::MultiExternalSelect(item)
    }
}

impl FromSpecImpl<MultiExternalSelect> for SectionElements {
    open spec fn obeys_from_spec() -> bool {
        true
    }

    open spec fn from_spec(v: MultiExternalSelect) -> Self {
        SectionElements::MultiExternalSelect(v)
    }
}

impl From<MultiExternalSelect> for InputElements {
    fn from(item: MultiExternalSelect) -> Self {
        InputElements::MultiExternalSelect(item)
    }
}

impl FromSpecImpl<MultiExternalSelect> for InputElements {
    open spec fn obeys_from_spec() -> bool {
        true
    }

    open spec fn from_spec(v: MultiExternalSelect) -> Self {
        InputElements::MultiExternalSelect(v)
    }
}

impl From<MultiUsersSelect> for SectionElements {
    fn from(item: MultiUsersSelect) -> Self {
        SectionElements::MultiUsersSelect(item)
    }
}

impl FromSpecImpl<MultiUsersSelect> for SectionElements {
    open spec fn obeys_from_spec() -> bool {
        true
    }

    open spec fn from_spec(v: MultiUsersSelect) -> Self {
        SectionElements::MultiUsersSelect(v)
    }
}

impl From<MultiUsersSelect> for InputElements {
    fn from(item: MultiUsersSelect) -> Self {
        InputElements::MultiUsersSelect(item)
    }
}

impl FromSpecImpl<MultiUsersSelect> for InputElements {
    open spec fn obeys_from_spec() -> bool {
        true
    }

    open spec fn from_spec(v: MultiUsersSelect) -> Self {
        InputElements::MultiUsersSelect(v)
    }
}

impl From<MultiConversationsSelect> for SectionElements {
    fn from(item: MultiConversationsSelect) -> Self {
        SectionElements::MultiConversationsSelect(item)
    }
}

impl FromSpecImpl<MultiConversationsSelect> for SectionElements {
    open spec fn obeys_from_spec() -> bool {
        true
    }

    open spec fn from_spec(v: MultiConversationsSelect) -> Self {
        SectionElements::MultiConversationsSelect(v)
    }
}

impl From<MultiConversationsSelect> for InputElements {
    fn from(item: MultiConversationsSelect) -> Self {
        InputElements::MultiConversationsSelect(item)
    }
}

impl FromSpecImpl<MultiConversationsSelect> for InputElements {
    open spec fn obeys_from_spec() -> bool {
        true
    }

    open spec fn from_spec(v: MultiConversationsSelect) -> Self {
        InputElements::MultiConversationsSelect(v)
    }
}

impl From<MultiChannelsSelect> for SectionElements {
    fn from(item: MultiChannelsSelect) -> Self {
        SectionElements::MultiChannelsSelect(item)
    }
}

impl FromSpecImpl<MultiChannelsSelect> for SectionElements {
    open spec fn obeys_from_spec() -> bool {
        true
    }

    open spec fn from_spec(v: MultiChannelsSelect) -> Self {
        SectionElements::MultiChannelsSelect(v)
    }
}

impl From<MultiChannelsSelect> for InputElements {
    fn from(item: MultiChannelsSelect) -> Self {
        InputElements::MultiChannelsSelect(item)
    }
}

impl FromSpecImpl<MultiChannelsSelect> for InputElements {
    open spec fn obeys_from_spec() -> bool {
        true
    }

    open spec fn from_spec(v: MultiChannelsSelect) -> Self {
        InputElements::MultiChannelsSelect(v)
    }
}

impl From<Overflow> for SectionElements {
    fn from(item: Overflow) -> Self {
        SectionElements::Overflow(item)
    }
}

impl FromSpecImpl<Overflow> for SectionElements {
    open spec fn obeys_from_spec() -> bool {
        true
    }

    open spec fn from_spec(v: Overflow) -> Self {
        SectionElements::Overflow(v)
    }
}

impl From<Overflow> for ActionElements {
    fn from(item: Overflow) -> Self {
        ActionElements::Overflow(item)
    }
}

impl FromSpecImpl<Overflow> for ActionElements {
    open spec fn obeys_from_spec() -> bool {
        true
    }

    open spec fn from_spec(v: Overflow) -> Self {
        ActionElements::Overflow(v)
    }
}

impl From<PlainTextInput> for SectionElements {
    fn from(item: PlainTextInput) -> Self {
        SectionElements::PlainTextInput(item)
    }
}

impl FromSpecImpl<PlainTextInput> for SectionElements {
    open spec fn obeys_from_spec() -> bool {
        true
    }

    open spec fn from_spec(v: PlainTextInput) -> Self {
        SectionElements::PlainTextInput(v)
    }
}

impl From<PlainTextInput> for ActionElements {
    fn from(item: PlainTextInput) -> Self {
        ActionElements::PlainTextInput(item)
    }
}

impl FromSpecImpl<PlainTextInput> for ActionElements {
    open spec fn obeys_from_spec() -> bool {
        true
    }

    open spec fn from_spec(v: PlainTextInput) -> Self {
        ActionElements::PlainTextInput(v)
    }
}

impl From<PlainTextInput> for InputElements {
    fn from(item: PlainTextInput) -> Self {
        InputElements::PlainTextInput(item)
    }
}

impl FromSpecImpl<PlainTextInput> for InputElements {
    open spec fn obeys_from_spec() -> bool {
        true
    }

    open spec fn from_spec(v: PlainTextInput) -> Self {
        InputElements::PlainTextInput(v)
    }
}

impl From<RadioButtons> for SectionElements {
    fn from(item: RadioButtons) -> Self {
        SectionElements::RadioButtons(item)
    }
}

impl FromSpecImpl<RadioButtons> for SectionElements {
    open spec fn obeys_from_spec() -> bool {
        true
    }

    open spec fn from_spec(v: RadioButtons) -> Self {
        SectionElements::RadioButtons(v)
    }
}

impl From<RadioButtons> for ActionElements {
    fn from(item: RadioButtons) -> Self {
        ActionElements::RadioButtons(item)
    }
}

impl FromSpecImpl<RadioButtons> for ActionElements {
    open spec fn obeys_from_spec() -> bool {
        true
    }

    open spec fn from_spec(v: RadioButtons) -> Self {
        ActionElements::RadioButtons(v)
    }
}

impl From<RadioButtons> for InputElements {
    fn from(item: RadioButtons) -> Self {
        InputElements::RadioButtons(item)
    }
}

impl FromSpecImpl<RadioButtons> for InputElements {
    open spec fn obeys_from_spec() -> bool {
        true
    }

    open spec fn from_spec(v: RadioButtons) -> Self {
        InputElements::RadioButtons(v)
    }
}

impl From<StaticSelect> for SectionElements {
    fn from(item: StaticSelect) -> Self {
        SectionElements::StaticSelect(item)
    }
}

impl FromSpecImpl<StaticSelect> for SectionElements {
    open spec fn obeys_from_spec() -> bool {
        true
    }

    open spec fn from_spec(v: StaticSelect) -> Self {
        SectionElements::StaticSelect(v)
    }
}

impl From<StaticSelect> for ActionElements {
    fn from(item: StaticSelect) -> Self {
        ActionElements::StaticSelect(item)
    }
}

impl FromSpecImpl<StaticSelect> for ActionElements {
    open spec fn obeys_from_spec() -> bool {
        true
    }

    open spec fn from_spec(v: StaticSelect) -> Self {
        ActionElements::StaticSelect(v)
    }
}

impl From<StaticSelect> for InputElements {
    fn from(item: StaticSelect) -> Self {
        InputElements::StaticSelect(item)
    }
}

impl FromSpecImpl<StaticSelect> for InputElements {
    open spec fn obeys_from_spec() -> bool {
        true
    }

    open spec fn from_spec(v: StaticSelect) -> Self {
        InputElements::StaticSelect(v)
    }
}

impl From<ExternalSelect> for SectionElements {
    fn from(item: ExternalSelect) -> Self {
        SectionElements::ExternalSelect(item)
    }
}

impl FromSpecImpl<ExternalSelect> for SectionElements {
    open spec fn obeys_from_spec() -> bool {
        true
    }

    open spec fn from_spec(v: ExternalSelect) -> Self {
        SectionElements::ExternalSelect(v)
    }
}

impl From<ExternalSelect> for ActionElements {
    fn from(item: ExternalSelect) -> Self {
        ActionElements::ExternalSelect(item)
    }
}

impl FromSpecImpl<ExternalSelect> for ActionElements {
    open spec fn obeys_from_spec() -> bool {
        true
    }

    open spec fn from_spec(v: ExternalSelect) -> Self {
        ActionElements::ExternalSelect(v)
    }
}

impl From<ExternalSelect> for InputElements {
    fn from(item: ExternalSelect) -> Self {
        InputElements::ExternalSelect(item)
    }
}

impl FromSpecImpl<ExternalSelect> for InputElements {
    open spec fn obeys_from_spec() -> bool {
        true
    }

    open spec fn from_spec(v: ExternalSelect) -> Self {
        InputElements::ExternalSelect(v)
    }
}

impl From<UsersSelect> for SectionElements {
    fn from(item: UsersSelect) -> Self {
        SectionElements::UsersSelect(item)
    }
}

impl FromSpecImpl<UsersSelect> for SectionElements {
    open spec fn obeys_from_spec() -> bool {
        true
    }

    open spec fn from_spec(v: UsersSelect) -> Self {
        SectionElements::UsersSelect(v)
    }
}

impl From<UsersSelect> for ActionElements {
    fn from(item: UsersSelect) -> Self {
        ActionElements::UsersSelect(item)
    }
}

impl FromSpecImpl<UsersSelect> for ActionElements {
    open spec fn obeys_from_spec() -> bool {
        true
    }

    open spec fn from_spec(v: UsersSelect) -> Self {
        ActionElements::UsersSelect(v)
    }
}

impl From<UsersSelect> for InputElements {
    fn from(item: UsersSelect) -> Self {
        InputElements::UsersSelect(item)
    }
}

impl FromSpecImpl<UsersSelect> for InputElements {
    open spec fn obeys_from_spec() -> bool {
        true
    }

    open spec fn from_spec(v: UsersSelect) -> Self {
        InputElements::UsersSelect(v)
    }
}

impl From<ConversationsSelect> for SectionElements {
    fn from(item: ConversationsSelect) -> Self {
        SectionElements::ConversationsSelect(item)
    }
}

impl FromSpecImpl<ConversationsSelect> for SectionElements {
    open spec fn obeys_from_spec() -> bool {
        true
    }

    open spec fn from_spec(v: ConversationsSelect) -> Self {
        SectionElements::ConversationsSelect(v)
    }
}

impl From<ConversationsSelect> for ActionElements {
    fn from(item: ConversationsSelect) -> Self {
        ActionElements::ConversationsSelect(item)
    }
}

impl FromSpecImpl<ConversationsSelect> for ActionElements {
    open spec fn obeys_from_spec() -> bool {
        true
    }

    open spec fn from_spec(v: ConversationsSelect) -> Self {
        ActionElements::ConversationsSelect(v)
    }
}

impl From<ConversationsSelect> for InputElements {
    fn from(item: ConversationsSelect) -> Self {
        InputElements::ConversationsSelect(item)
    }
}

impl FromSpecImpl<ConversationsSelect> for InputElements {
    open spec fn obeys_from_spec() -> bool {
        true
    }

    open spec fn from_spec(v: ConversationsSelect) -> Self {
        InputElements::ConversationsSelect(v)
    }
}

impl From<ChannelsSelect> for SectionElements {
    fn from(item: ChannelsSelect) -> Self {
        SectionElements::ChannelsSelect(item)
    }
}

impl FromSpecImpl<ChannelsSelect> for SectionElements {
    open spec fn obeys_from_spec() -> bool {
        true
    }

    open spec fn from_spec(v: ChannelsSelect) -> Self {
        SectionElements::ChannelsSelect(v)
    }
}

impl From<ChannelsSelect> for ActionElements {
    fn from(item: ChannelsSelect) -> Self {
        ActionElements::ChannelsSelect(item)
    }
}

impl FromSpecImpl<ChannelsSelect> for ActionElements {
    open spec fn obeys_from_spec() -> bool {
        true
    }

    open spec fn from_spec(v: ChannelsSelect) -> Self {
        ActionElements::ChannelsSelect(v)
    }
}

impl From<ChannelsSelect> for InputElements {
    fn from(item: ChannelsSelect) -> Self {
        InputElements::ChannelsSelect(item)
    }
}

impl FromSpecImpl<ChannelsSelect> for InputElements {
    open spec fn obeys_from_spec() -> bool {
        true
    }

    open spec fn from_spec(v: ChannelsSelect) -> Self {
        InputElements::ChannelsSelect(v)
    }
}

impl Button {
    /// Each conversion of this leaf into an alternative renders exactly what the leaf
    /// renders on its own.
    pub proof fn lemma_conversions_keep_render(self)
        ensures
            <SectionElements as FromSpec<Button>>::from_spec(self).model() == self.model(),
            <ActionElements as FromSpec<Button>>::from_spec(self).model() == self.model(),
    {
    }
}

impl Checkboxes {
    /// Each conversion of this leaf into an alternative renders exactly what the leaf
    /// renders on its own.
    pub proof fn lemma_conversions_keep_render(self)
        ensures
            <InputElements as FromSpec<Checkboxes>>::from_spec(self).model() == self.model(),
            <SectionElements as FromSpec<Checkboxes>>::from_spec(self).model() == self.model(),
            <ActionElements as FromSpec<Checkboxes>>::from_spec(self).model() == self.model(),
    {
    }
}

impl Datepicker {
    /// Each conversion of this leaf into an alternative renders exactly what the leaf
    /// renders on its own.
    pub proof fn lemma_conversions_keep_render(self)
        ensures
            <InputElements as FromSpec<Datepicker>>::from_spec(self).model() == self.model(),
            <SectionElements as FromSpec<Datepicker>>::from_spec(self).model() == self.model(),
            <ActionElements as FromSpec<Datepicker>>::from_spec(self).model() == self.model(),
    {
    }
}

impl Image {
    /// Each conversion of this leaf into an alternative renders exactly what the leaf
    /// renders on its own.
    pub proof fn lemma_conversions_keep_render(self)
        ensures
            <SectionElements as FromSpec<Image>>::from_spec(self).model() == self.model(),
            <ContextElements as FromSpec<Image>>::from_spec(self).model() == self.model(),
    {
    }
}

impl MultiStaticSelect {
    /// Each conversion of this leaf into an alternative renders exactly what the leaf
    /// renders on its own.
    pub proof fn lemma_conversions_keep_render(self)
        ensures
            <SectionElements as FromSpec<MultiStaticSelect>>::from_spec(self).model() == self.model(),
            <InputElements as FromSpec<MultiStaticSelect>>::from_spec(self).model() == self.model(),
    {
    }
}

impl MultiExternalSelect {
    /// Each conversion of this leaf into an alternative renders exactly what the leaf
    /// renders on its own.
    pub proof fn lemma_conversions_keep_render(self)
        ensures
            <SectionElements as FromSpec<MultiExternalSelect>>::from_spec(self).model() == self.model(),
            <InputElements as FromSpec<MultiExternalSelect>>::from_spec(self).model() == self.model(),
    {
    }
}

impl MultiUsersSelect {
    /// Each conversion of this leaf into an alternative renders exactly what the leaf
    /// renders on its own.
    pub proof fn lemma_conversions_keep_render(self)
        ensures
            <SectionElements as FromSpec<MultiUsersSelect>>::from_spec(self).model() == self.model(),
            <InputElements as FromSpec<MultiUsersSelect>>::from_spec(self).model() == self.model(),
    {
    }
}

impl MultiConversationsSelect {
    /// Each conversion of this leaf into an alternative renders exactly what the leaf
    /// renders on its own.
    pub proof fn lemma_conversions_keep_render(self)
        ensures
            <SectionElements as FromSpec<MultiConversationsSelect>>::from_spec(self).model() == self.model(),
            <InputElements as FromSpec<MultiConversationsSelect>>::from_spec(self).model() == self.model(),
    {
    }
}

impl MultiChannelsSelect {
    /// Each conversion of this leaf into an alternative renders exactly what the leaf
    /// renders on its own.
    pub proof fn lemma_conversions_keep_render(self)
        ensures
            <SectionElements as FromSpec<MultiChannelsSelect>>::from_spec(self).model() == self.model(),
            <InputElements as FromSpec<MultiChannelsSelect>>::from_spec(self).model() == self.model(),
    {
    }
}

impl Overflow {
    /// Each conversion of this leaf into an alternative renders exactly what the leaf
    /// renders on its own.
    pub proof fn lemma_conversions_keep_render(self)
        ensures
            <SectionElements as FromSpec<Overflow>>::from_spec(self).model() == self.model(),
            <ActionElements as FromSpec<Overflow>>::from_spec(self).model() == self.model(),
    {
    }
}

impl PlainTextInput {
    /// Each conversion of this leaf into an alternative renders exactly what the leaf
    /// renders on its own.
    pub proof fn lemma_conversions_keep_render(self)
        ensures
            <SectionElements as FromSpec<PlainTextInput>>::from_spec(self).model() == self.model(),
            <ActionElements as FromSpec<PlainTextInput>>::from_spec(self).model() == self.model(),
            <InputElements as FromSpec<PlainTextInput>>::from_spec(self).model() == self.model(),
    {
    }
}

impl RadioButtons {
    /// Each conversion of this leaf into an alternative renders exactly what the leaf
    /// renders on its own.
    pub proof fn lemma_conversions_keep_render(self)
        ensures
            <SectionElements as FromSpec<RadioButtons>>::from_spec(self).model() == self.model(),
            <ActionElements as FromSpec<RadioButtons>>::from_spec(self).model() == self.model(),
            <InputElements as FromSpec<RadioButtons>>::from_spec(self).model() == self.model(),
    {
    }
}

impl StaticSelect {
    /// Each conversion of this leaf into an alternative renders exactly what the leaf
    /// renders on its own.
    pub proof fn lemma_conversions_keep_render(self)
        ensures
            <SectionElements as FromSpec<StaticSelect>>::from_spec(self).model() == self.model(),
            <ActionElements as FromSpec<StaticSelect>>::from_spec(self).model() == self.model(),
            <InputElements as FromSpec<StaticSelect>>::from_spec(self).model() == self.model(),
    {
    }
}

impl ExternalSelect {
    /// Each conversion of this leaf into an alternative renders exactly what the leaf
    /// renders on its own.
    pub proof fn lemma_conversions_keep_render(self)
        ensures
            <SectionElements as FromSpec<ExternalSelect>>::from_spec(self).model() == self.model(),
            <ActionElements as FromSpec<ExternalSelect>>::from_spec(self).model() == self.model(),
            <InputElements as FromSpec<ExternalSelect>>::from_spec(self).model() == self.model(),
    {
    }
}

impl UsersSelect {
    /// Each conversion of this leaf into an alternative renders exactly what the leaf
    /// renders on its own.
    pub proof fn lemma_conversions_keep_render(self)
        ensures
            <SectionElements as FromSpec<UsersSelect>>::from_spec(self).model() == self.model(),
            <ActionElements as FromSpec<UsersSelect>>::from_spec(self).model() == self.model(),
            <InputElements as FromSpec<UsersSelect>>::from_spec(self).model() == self.model(),
    {
    }
}

impl ConversationsSelect {
    /// Each conversion of this leaf into an alternative renders exactly what the leaf
    /// renders on its own.
    pub proof fn lemma_conversions_keep_render(self)
        ensures
            <SectionElements as FromSpec<ConversationsSelect>>::from_spec(self).model() == self.model(),
            <ActionElements as FromSpec<ConversationsSelect>>::from_spec(self).model() == self.model(),
            <InputElements as FromSpec<ConversationsSelect>>::from_spec(self).model() == self.model(),
    {
    }
}

impl ChannelsSelect {
    /// Each conversion of this leaf into an alternative renders exactly what the leaf
    /// renders on its own.
    pub proof fn lemma_conversions_keep_render(self)
        ensures
            <SectionElements as FromSpec<ChannelsSelect>>::from_spec(self).model() == self.model(),
            <ActionElements as FromSpec<ChannelsSelect>>::from_spec(self).model() == self.model(),
            <InputElements as FromSpec<ChannelsSelect>>::from_spec(self).model() == self.model(),
    {
    }
}

} // verus!
