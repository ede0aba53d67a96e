use vstd::prelude::*;
use vstd::std_specs::convert::{FromSpec, FromSpecImpl};
use crate::builder::{BuildError, LeafBuilder};
use crate::composition::{PlainText, Text};
use crate::elements::{ActionElements, ContextElements, InputElements, SectionElements};
use crate::value::{
    fields_view, keys, lemma_push_concat, lemma_push_opt_concat, models, opt_bool, opt_model, opt_models, opt_str,
    push_field, push_opt, push_opt_bool_field, push_opt_component, push_opt_components,
    object_fields, push_opt_str_field, push_str_field, push_tag, render_all, tagged, Json, Render,
    Value,
};

verus! {

/// A block allowed in a message; renders with a `"type"` discriminator naming the block.
pub enum MessageBlock {
    Actions(Actions),
    Context(Context),
    Divider(Divider),
    Header(Header),
    Image(Image),
    Section(Section),
}

impl Render for MessageBlock {
    open spec fn model(&self) -> Json {
        match self {
            MessageBlock::Actions(x) => tagged("actions"@, x.model()),
            MessageBlock::Context(x) => tagged("context"@, x.model()),
            MessageBlock::Divider(x) => tagged("divider"@, x.model()),
            MessageBlock::Header(x) => tagged("header"@, x.model()),
            MessageBlock::Image(x) => tagged("image"@, x.model()),
            MessageBlock::Section(x) => tagged("section"@, x.model()),
        }
    }

    fn render(&self) -> (r: Value) {
        match self {
            MessageBlock::Actions(x) => x.render_block(),
            MessageBlock::Context(x) => x.render_block(),
            MessageBlock::Divider(x) => x.render_block(),
            MessageBlock::Header(x) => x.render_block(),
            MessageBlock::Image(x) => x.render_block(),
            MessageBlock::Section(x) => x.render_block(),
        }
    }
}

impl MessageBlock {
    /// The discriminator value that names the block held.
    pub open spec fn discriminator(&self) -> Seq<char> {
        match self {
            MessageBlock::Actions(_) => "actions"@,
            MessageBlock::Context(_) => "context"@,
            MessageBlock::Divider(_) => "divider"@,
            MessageBlock::Header(_) => "header"@,
            MessageBlock::Image(_) => "image"@,
            MessageBlock::Section(_) => "section"@,
        }
    }

    /// Whether two blocks hold the same kind of block.
    pub open spec fn same_case(a: MessageBlock, b: MessageBlock) -> bool {
        match (a, b) {
            (MessageBlock::Actions(_), MessageBlock::Actions(_)) => true,
            (MessageBlock::Context(_), MessageBlock::Context(_)) => true,
            (MessageBlock::Divider(_), MessageBlock::Divider(_)) => true,
            (MessageBlock::Header(_), MessageBlock::Header(_)) => true,
            (MessageBlock::Image(_), MessageBlock::Image(_)) => true,
            (MessageBlock::Section(_), MessageBlock::Section(_)) => true,
            _ => false,
        }
    }

    /// Each block renders with its discriminator as its first field, a value
    /// fixed by the kind of block alone; blocks of two different kinds carry
    /// different discriminators.
    pub proof fn lemma_distinct_discriminators(a: MessageBlock, b: MessageBlock)
        ensures
            object_fields(a.model()).len() >= 1,
            object_fields(b.model()).len() >= 1,
            object_fields(a.model())[0] == ("type"@, Json::Str(a.discriminator())),
            object_fields(b.model())[0] == ("type"@, Json::Str(b.discriminator())),
            !Self::same_case(a, b) ==> a.discriminator() != b.discriminator(),
    {
        reveal_strlit("actions");
        reveal_strlit("context");
        reveal_strlit("divider");
        reveal_strlit("header");
        reveal_strlit("image");
        reveal_strlit("section");
        if !Self::same_case(a, b) {
            assert(a.discriminator()[0] != b.discriminator()[0]);
        }
    }
}

/// A block allowed in a modal; renders with a `"type"` discriminator naming the block.
pub enum ModalBlock {
    Actions(Actions),
    Context(Context),
    Divider(Divider),
    Header(Header),
    Image(Image),
    Input(Input),
    Section(Section),
}

impl Render for ModalBlock {
    open spec fn model(&self) -> Json {
        match self {
            ModalBlock::Actions(x) => tagged("actions"@, x.model()),
            ModalBlock::Context(x) => tagged("context"@, x.model()),
            ModalBlock::Divider(x) => tagged("divider"@, x.model()),
            ModalBlock::Header(x) => tagged("header"@, x.model()),
            ModalBlock::Image(x) => tagged("image"@, x.model()),
            ModalBlock::Input(x) => tagged("input"@, x.model()),
            ModalBlock::Section(x) => tagged("section"@, x.model()),
        }
    }

    fn render(&self) -> (r: Value) {
        match self {
            ModalBlock::Actions(x) => x.render_block(),
            ModalBlock::Context(x) => x.render_block(),
            ModalBlock::Divider(x) => x.render_block(),
            ModalBlock::Header(x) => x.render_block(),
            ModalBlock::Image(x) => x.render_block(),
            ModalBlock::Input(x) => x.render_block(),
            ModalBlock::Section(x) => x.render_block(),
        }
    }
}

impl ModalBlock {
    /// The discriminator value that names the block held.
    pub open spec fn discriminator(&self) -> Seq<char> {
        match self {
            ModalBlock::Actions(_) => "actions"@,
            ModalBlock::Context(_) => "context"@,
            ModalBlock::Divider(_) => "divider"@,
            ModalBlock::Header(_) => "header"@,
            ModalBlock::Image(_) => "image"@,
            ModalBlock::Input(_) => "input"@,
            ModalBlock::Section(_) => "section"@,
        }
    }

    /// Whether two blocks hold the same kind of block.
    pub open spec fn same_case(a: ModalBlock, b: ModalBlock) -> bool {
        match (a, b) {
            (ModalBlock::Actions(_), ModalBlock::Actions(_)) => true,
            (ModalBlock::Context(_), ModalBlock::Context(_)) => true,
            (ModalBlock::Divider(_), ModalBlock::Divider(_)) => true,
            (ModalBlock::Header(_), ModalBlock::Header(_)) => true,
            (ModalBlock::Image(_), ModalBlock::Image(_)) => true,
            (ModalBlock::Input(_), ModalBlock::Input(_)) => true,
            (ModalBlock::Section(_), ModalBlock::Section(_)) => true,
            _ => false,
        }
    }

    /// Each block renders with its discriminator as its first field, a value
    /// fixed by the kind of block alone; blocks of two different kinds carry
    /// different discriminators.
    pub proof fn lemma_distinct_discriminators(a: ModalBlock, b: ModalBlock)
        ensures
            object_fields(a.model()).len() >= 1,
            object_fields(b.model()).len() >= 1,
            object_fields(a.model())[0] == ("type"@, Json::Str(a.discriminator())),
            object_fields(b.model())[0] == ("type"@, Json::Str(b.discriminator())),
            !Self::same_case(a, b) ==> a.discriminator() != b.discriminator(),
    {
        reveal_strlit("actions");
        reveal_strlit("context");
        reveal_strlit("divider");
        reveal_strlit("header");
        reveal_strlit("image");
        reveal_strlit("input");
        reveal_strlit("section");
        if !Self::same_case(a, b) {
            assert(a.discriminator()[0] != b.discriminator()[0] || a.discriminator()[1] != b.discriminator()[1]);
        }
    }
}

/// A block allowed on a home tab; renders with a `"type"` discriminator naming the block.
pub enum HomeTabBlock {
    Actions(Actions),
    Context(Context),
    Divider(Divider),
    Header(Header),
    Image(Image),
    Section(Section),
}

impl Render for HomeTabBlock {
    open spec fn model(&self) -> Json {
        match self {
            HomeTabBlock::Actions(x) => tagged("actions"@, x.model()),
            HomeTabBlock::Context(x) => tagged("context"@, x.model()),
            HomeTabBlock::Divider(x) => tagged("divider"@, x.model()),
            HomeTabBlock::Header(x) => tagged("header"@, x.model()),
            HomeTabBlock::Image(x) => tagged("image"@, x.model()),
            HomeTabBlock::Section(x) => tagged("section"@, x.model()),
        }
    }

    fn render(&self) -> (r: Value) {
        match self {
            HomeTabBlock::Actions(x) => x.render_block(),
            HomeTabBlock::Context(x) => x.render_block(),
            HomeTabBlock::Divider(x) => x.render_block(),
            HomeTabBlock::Header(x) => x.render_block(),
            HomeTabBlock::Image(x) => x.render_block(),
            HomeTabBlock::Section(x) => x.render_block(),
        }
    }
}

impl HomeTabBlock {
    /// The discriminator value that names the block held.
    pub open spec fn discriminator(&self) -> Seq<char> {
        match self {
            HomeTabBlock::Actions(_) => "actions"@,
            HomeTabBlock::Context(_) => "context"@,
            HomeTabBlock::Divider(_) => "divider"@,
            HomeTabBlock::Header(_) => "header"@,
            HomeTabBlock::Image(_) => "image"@,
            HomeTabBlock::Section(_) => "section"@,
        }
    }

    /// Whether two blocks hold the same kind of block.
    pub open spec fn same_case(a: HomeTabBlock, b: HomeTabBlock) -> bool {
        match (a, b) {
            (HomeTabBlock::Actions(_), HomeTabBlock::Actions(_)) => true,
            (HomeTabBlock::Context(_), HomeTabBlock::Context(_)) => true,
            (HomeTabBlock::Divider(_), HomeTabBlock::Divider(_)) => true,
            (HomeTabBlock::Header(_), HomeTabBlock::Header(_)) => true,
            (HomeTabBlock::Image(_), HomeTabBlock::Image(_)) => true,
            (HomeTabBlock::Section(_), HomeTabBlock::Section(_)) => true,
            _ => false,
        }
    }

    /// Each block renders with its discriminator as its first field, a value
    /// fixed by the kind of block alone; blocks of two different kinds carry
    /// different discriminators.
    pub proof fn lemma_distinct_discriminators(a: HomeTabBlock, b: HomeTabBlock)
        ensures
            object_fields(a.model()).len() >= 1,
            object_fields(b.model()).len() >= 1,
            object_fields(a.model())[0] == ("type"@, Json::Str(a.discriminator())),
            object_fields(b.model())[0] == ("type"@, Json::Str(b.discriminator())),
            !Self::same_case(a, b) ==> a.discriminator() != b.discriminator(),
    {
        reveal_strlit("actions");
        reveal_strlit("context");
        reveal_strlit("divider");
        reveal_strlit("header");
        reveal_strlit("image");
        reveal_strlit("section");
        if !Self::same_case(a, b) {
            assert(a.discriminator()[0] != b.discriminator()[0]);
        }
    }
}

/// A row of interactive elements.
pub struct Actions {
    block_id: Option<String>,
    elements: Vec<ActionElements>,
}

/// Accumulates the attributes of a [`Actions`]; `build` checks that the required
/// ones are set.
pub struct ActionsBuilder {
    pub block_id: Option<String>,
    pub elements: Option<Vec<ActionElements>>,
}

impl Actions {
    /// An accumulator with no attribute set.
    pub fn builder() -> (r: ActionsBuilder)
        ensures
            r.block_id is None,
            r.elements is None,
    {
        ActionsBuilder { block_id: None, elements: None }
    }

    /// The fields of the rendered form, without a discriminator.
    pub closed spec fn payload(&self) -> Seq<(Seq<char>, Json)> {
        let f = Seq::<(Seq<char>, Json)>::empty();
        let f = push_opt(f, "block_id"@, opt_str(self.block_id));
        let f = f.push(("elements"@, Json::Array(models(self.elements@))));
        f
    }

    /// Appends the fields of the rendered form, in order, to `f`.
    pub fn render_into(&self, f: &mut Vec<(String, Value)>)
        ensures
            fields_view(final(f)@) == fields_view(old(f)@) + self.payload(),
    {
        let ghost start = fields_view(f@);
        let ghost mut done = Seq::<(Seq<char>, Json)>::empty();
        assert(start =~= start + done);
        push_opt_str_field(f, "block_id", &self.block_id);
        proof {
            lemma_push_opt_concat(start, done, "block_id"@, opt_str(self.block_id));
            done = push_opt(done, "block_id"@, opt_str(self.block_id));
        }
        push_field(f, "elements", render_all(&self.elements));
        proof {
            lemma_push_concat(start, done, ("elements"@, Json::Array(models(self.elements@))));
            done = done.push(("elements"@, Json::Array(models(self.elements@))));
        }
    }

    /// Renders the block as a member of a sequence of blocks: its fields after
    /// the discriminator `"actions"`.
    pub fn render_block(&self) -> (r: Value)
        ensures
            r@ == tagged("actions"@, self.model()),
    {
        let mut fields: Vec<(String, Value)> = Vec::new();
        push_tag(&mut fields, "type", "actions");
        self.render_into(&mut fields);
        Value::Object(fields)
    }
}

impl ActionsBuilder {
    /// Sets `block_id`.
    pub fn block_id(self, block_id: &str) -> (r: Self)
        ensures
            r.block_id matches Some(s) && s@ == block_id@,
            r == (ActionsBuilder { block_id: r.block_id, ..self }),
    {
        ActionsBuilder { block_id: Some(block_id.to_owned()), ..self }
    }

    /// Sets `elements`.
    pub fn elements(self, elements: Vec<ActionElements>) -> (r: Self)
        ensures
            r == (ActionsBuilder { elements: Some(elements), ..self }),
    {
        ActionsBuilder { elements: Some(elements), ..self }
    }

    /// Finishes the leaf: fails naming the first required attribute that was not set.
    pub fn build(self) -> (r: Result<Actions, BuildError>)
        ensures
            match self.missing() {
                Some(field) => r == Err::<Actions, BuildError>(
                    BuildError::MissingRequiredField { leaf: "Actions", field },
                ),
                None => r matches Ok(b) && b.model() == self.built_model(),
            },
    {
        let elements = match self.elements {
            Some(v) => v,
            None => {
                return Err(
                    BuildError::MissingRequiredField { leaf: "Actions", field: "elements" },
                );
            },
        };
        let b = Actions { block_id: self.block_id, elements };
        assert(b.model() == Json::Object(b.payload()));
        Ok(b)
    }
}

impl LeafBuilder for ActionsBuilder {
    open spec fn missing(&self) -> Option<&'static str> {
        if self.elements is None {
            Some("elements")
        } else {
            None
        }
    }

    open spec fn only_required(&self) -> bool {
        &&& self.missing() is None
        &&& self.block_id is None
    }

    open spec fn required_keys() -> Seq<Seq<char>> {
        seq!["elements"@]
    }

    open spec fn built_model(&self) -> Json {
        let f = Seq::<(Seq<char>, Json)>::empty();
        let f = push_opt(f, "block_id"@, opt_str(self.block_id));
        let f = f.push(("elements"@, Json::Array(models(self.elements.unwrap()@))));
        Json::Object(f)
    }

    proof fn lemma_minimal_render(&self) {
        assert(keys(self.built_model()) =~= Self::required_keys());
    }
}

impl Render for Actions {
    closed spec fn model(&self) -> Json {
        Json::Object(self.payload())
    }

    fn render(&self) -> (r: Value) {
        let mut fields: Vec<(String, Value)> = Vec::new();
        self.render_into(&mut fields);
        assert(Seq::<(Seq<char>, Json)>::empty() + self.payload() =~= self.payload());
        Value::Object(fields)
    }
}

/// A line of small images and text.
pub struct Context {
    block_id: Option<String>,
    elements: Vec<ContextElements>,
}

/// Accumulates the attributes of a [`Context`]; `build` checks that the required
/// ones are set.
pub struct ContextBuilder {
    pub block_id: Option<String>,
    pub elements: Option<Vec<ContextElements>>,
}

impl Context {
    /// An accumulator with no attribute set.
    pub fn builder() -> (r: ContextBuilder)
        ensures
            r.block_id is None,
            r.elements is None,
    {
        ContextBuilder { block_id: None, elements: None }
    }

    /// The fields of the rendered form, without a discriminator.
    pub closed spec fn payload(&self) -> Seq<(Seq<char>, Json)> {
        let f = Seq::<(Seq<char>, Json)>::empty();
        let f = push_opt(f, "block_id"@, opt_str(self.block_id));
        let f = f.push(("elements"@, Json::Array(models(self.elements@))));
        f
    }

    /// Appends the fields of the rendered form, in order, to `f`.
    pub fn render_into(&self, f: &mut Vec<(String, Value)>)
        ensures
            fields_view(final(f)@) == fields_view(old(f)@) + self.payload(),
    {
        let ghost start = fields_view(f@);
        let ghost mut done = Seq::<(Seq<char>, Json)>::empty();
        assert(start =~= start + done);
        push_opt_str_field(f, "block_id", &self.block_id);
        proof {
            lemma_push_opt_concat(start, done, "block_id"@, opt_str(self.block_id));
            done = push_opt(done, "block_id"@, opt_str(self.block_id));
        }
        push_field(f, "elements", render_all(&self.elements));
        proof {
            lemma_push_concat(start, done, ("elements"@, Json::Array(models(self.elements@))));
            done = done.push(("elements"@, Json::Array(models(self.elements@))));
        }
    }

    /// Renders the block as a member of a sequence of blocks: its fields after
    /// the discriminator `"context"`.
    pub fn render_block(&self) -> (r: Value)
        ensures
            r@ == tagged("context"@, self.model()),
    {
        let mut fields: Vec<(String, Value)> = Vec::new();
        push_tag(&mut fields, "type", "context");
        self.render_into(&mut fields);
        Value::Object(fields)
    }
}

impl ContextBuilder {
    /// Sets `block_id`.
    pub fn block_id(self, block_id: &str) -> (r: Self)
        ensures
            r.block_id matches Some(s) && s@ == block_id@,
            r == (ContextBuilder { block_id: r.block_id, ..self }),
    {
        ContextBuilder { block_id: Some(block_id.to_owned()), ..self }
    }

    /// Sets `elements`.
    pub fn elements(self, elements: Vec<ContextElements>) -> (r: Self)
        ensures
            r == (ContextBuilder { elements: Some(elements), ..self }),
    {
        ContextBuilder { elements: Some(elements), ..self }
    }

    /// Finishes the leaf: fails naming the first required attribute that was not set.
    pub fn build(self) -> (r: Result<Context, BuildError>)
        ensures
            match self.missing() {
                Some(field) => r == Err::<Context, BuildError>(
                    BuildError::MissingRequiredField { leaf: "Context", field },
                ),
                None => r matches Ok(b) && b.model() == self.built_model(),
            },
    {
        let elements = match self.elements {
            Some(v) => v,
            None => {
                return Err(
                    BuildError::MissingRequiredField { leaf: "Context", field: "elements" },
                );
            },
        };
        let b = Context { block_id: self.block_id, elements };
        assert(b.model() == Json::Object(b.payload()));
        Ok(b)
    }
}

impl LeafBuilder for ContextBuilder {
    open spec fn missing(&self) -> Option<&'static str> {
        if self.elements is None {
            Some("elements")
        } else {
            None
        }
    }

    open spec fn only_required(&self) -> bool {
        &&& self.missing() is None
        &&& self.block_id is None
    }

    open spec fn required_keys() -> Seq<Seq<char>> {
        seq!["elements"@]
    }

    open spec fn built_model(&self) -> Json {
        let f = Seq::<(Seq<char>, Json)>::empty();
        let f = push_opt(f, "block_id"@, opt_str(self.block_id));
        let f = f.push(("elements"@, Json::Array(models(self.elements.unwrap()@))));
        Json::Object(f)
    }

    proof fn lemma_minimal_render(&self) {
        assert(keys(self.built_model()) =~= Self::required_keys());
    }
}

impl Render for Context {
    closed spec fn model(&self) -> Json {
        Json::Object(self.payload())
    }

    fn render(&self) -> (r: Value) {
        let mut fields: Vec<(String, Value)> = Vec::new();
        self.render_into(&mut fields);
        assert(Seq::<(Seq<char>, Json)>::empty() + self.payload() =~= self.payload());
        Value::Object(fields)
    }
}

/// A horizontal rule between blocks.
pub struct Divider {
    block_id: Option<String>,
}

/// Accumulates the attributes of a [`Divider`]; `build` checks that the required
/// ones are set.
pub struct DividerBuilder {
    pub block_id: Option<String>,
}

impl Divider {
    /// An accumulator with no attribute set.
    pub fn builder() -> (r: DividerBuilder)
        ensures
            r.block_id is None,
    {
        DividerBuilder { block_id: None }
    }

    /// The fields of the rendered form, without a discriminator.
    pub closed spec fn payload(&self) -> Seq<(Seq<char>, Json)> {
        let f = Seq::<(Seq<char>, Json)>::empty();
        let f = push_opt(f, "block_id"@, opt_str(self.block_id));
        f
    }

    /// Appends the fields of the rendered form, in order, to `f`.
    pub fn render_into(&self, f: &mut Vec<(String, Value)>)
        ensures
            fields_view(final(f)@) == fields_view(old(f)@) + self.payload(),
    {
        let ghost start = fields_view(f@);
        let ghost mut done = Seq::<(Seq<char>, Json)>::empty();
        assert(start =~= start + done);
        push_opt_str_field(f, "block_id", &self.block_id);
        proof {
            lemma_push_opt_concat(start, done, "block_id"@, opt_str(self.block_id));
            done = push_opt(done, "block_id"@, opt_str(self.block_id));
        }
    }

    /// Renders the block as a member of a sequence of blocks: its fields after
    /// the discriminator `"divider"`.
    pub fn render_block(&self) -> (r: Value)
        ensures
            r@ == tagged("divider"@, self.model()),
    {
        let mut fields: Vec<(String, Value)> = Vec::new();
        push_tag(&mut fields, "type", "divider");
        self.render_into(&mut fields);
        Value::Object(fields)
    }
}

impl DividerBuilder {
    /// Sets `block_id`.
    pub fn block_id(self, block_id: &str) -> (r: Self)
        ensures
            r.block_id matches Some(s) && s@ == block_id@,
            r == (DividerBuilder { block_id: r.block_id, ..self }),
    {
        DividerBuilder { block_id: Some(block_id.to_owned()), ..self }
    }

    /// Finishes the leaf: fails naming the first required attribute that was not set.
    pub fn build(self) -> (r: Result<Divider, BuildError>)
        ensures
            match self.missing() {
                Some(field) => r == Err::<Divider, BuildError>(
                    BuildError::MissingRequiredField { leaf: "Divider", field },
                ),
                None => r matches Ok(b) && b.model() == self.built_model(),
            },
    {
        let b = Divider { block_id: self.block_id };
        assert(b.model() == Json::Object(b.payload()));
        Ok(b)
    }
}

impl LeafBuilder for DividerBuilder {
    open spec fn missing(&self) -> Option<&'static str> {
        None
    }

    open spec fn only_required(&self) -> bool {
        &&& self.missing() is None
        &&& self.block_id is None
    }

    open spec fn required_keys() -> Seq<Seq<char>> {
        seq![]
    }

    open spec fn built_model(&self) -> Json {
        let f = Seq::<(Seq<char>, Json)>::empty();
        let f = push_opt(f, "block_id"@, opt_str(self.block_id));
        Json::Object(f)
    }

    proof fn lemma_minimal_render(&self) {
        assert(keys(self.built_model()) =~= Self::required_keys());
    }
}

impl Render for Divider {
    closed spec fn model(&self) -> Json {
        Json::Object(self.payload())
    }

    fn render(&self) -> (r: Value) {
        let mut fields: Vec<(String, Value)> = Vec::new();
        self.render_into(&mut fields);
        assert(Seq::<(Seq<char>, Json)>::empty() + self.payload() =~= self.payload());
        Value::Object(fields)
    }
}

/// A line of large bold text.
pub struct Header {
    block_id: Option<String>,
    text: PlainText,
}

/// Accumulates the attributes of a [`Header`]; `build` checks that the required
/// ones are set.
pub struct HeaderBuilder {
    pub block_id: Option<String>,
    pub text: Option<PlainText>,
}

impl Header {
    /// An accumulator with no attribute set.
    pub fn builder() -> (r: HeaderBuilder)
        ensures
            r.block_id is None,
            r.text is None,
    {
        HeaderBuilder { block_id: None, text: None }
    }

    /// The fields of the rendered form, without a discriminator.
    pub closed spec fn payload(&self) -> Seq<(Seq<char>, Json)> {
        let f = Seq::<(Seq<char>, Json)>::empty();
        let f = push_opt(f, "block_id"@, opt_str(self.block_id));
        let f = f.push(("text"@, self.text.model()));
        f
    }

    /// Appends the fields of the rendered form, in order, to `f`.
    pub fn render_into(&self, f: &mut Vec<(String, Value)>)
        ensures
            fields_view(final(f)@) == fields_view(old(f)@) + self.payload(),
    {
        let ghost start = fields_view(f@);
        let ghost mut done = Seq::<(Seq<char>, Json)>::empty();
        assert(start =~= start + done);
        push_opt_str_field(f, "block_id", &self.block_id);
        proof {
            lemma_push_opt_concat(start, done, "block_id"@, opt_str(self.block_id));
            done = push_opt(done, "block_id"@, opt_str(self.block_id));
        }
        push_field(f, "text", self.text.render());
        proof {
            lemma_push_concat(start, done, ("text"@, self.text.model()));
            done = done.push(("text"@, self.text.model()));
        }
    }

    /// Renders the block as a member of a sequence of blocks: its fields after
    /// the discriminator `"header"`.
    pub fn render_block(&self) -> (r: Value)
        ensures
            r@ == tagged("header"@, self.model()),
    {
        let mut fields: Vec<(String, Value)> = Vec::new();
        push_tag(&mut fields, "type", "header");
        self.render_into(&mut fields);
        Value::Object(fields)
    }
}

impl HeaderBuilder {
    /// Sets `block_id`.
    pub fn block_id(self, block_id: &str) -> (r: Self)
        ensures
            r.block_id matches Some(s) && s@ == block_id@,
            r == (HeaderBuilder { block_id: r.block_id, ..self }),
    {
        HeaderBuilder { block_id: Some(block_id.to_owned()), ..self }
    }

    /// Sets `text`.
    pub fn text(self, text: PlainText) -> (r: Self)
        ensures
            r == (HeaderBuilder { text: Some(text), ..self }),
    {
        HeaderBuilder { text: Some(text), ..self }
    }

    /// Finishes the leaf: fails naming the first required attribute that was not set.
    pub fn build(self) -> (r: Result<Header, BuildError>)
        ensures
            match self.missing() {
                Some(field) => r == Err::<Header, BuildError>(
                    BuildError::MissingRequiredField { leaf: "Header", field },
                ),
                None => r matches Ok(b) && b.model() == self.built_model(),
            },
    {
        let text = match self.text {
            Some(v) => v,
            None => {
                return Err(
                    BuildError::MissingRequiredField { leaf: "Header", field: "text" },
                );
            },
        };
        let b = Header { block_id: self.block_id, text };
        assert(b.model() == Json::Object(b.payload()));
        Ok(b)
    }
}

impl LeafBuilder for HeaderBuilder {
    open spec fn missing(&self) -> Option<&'static str> {
        if self.text is None {
            Some("text")
        } else {
            None
        }
    }

    open spec fn only_required(&self) -> bool {
        &&& self.missing() is None
        &&& self.block_id is None
    }

    open spec fn required_keys() -> Seq<Seq<char>> {
        seq!["text"@]
    }

    open spec fn built_model(&self) -> Json {
        let f = Seq::<(Seq<char>, Json)>::empty();
        let f = push_opt(f, "block_id"@, opt_str(self.block_id));
        let f = f.push(("text"@, self.text.unwrap().model()));
        Json::Object(f)
    }

    proof fn lemma_minimal_render(&self) {
        assert(keys(self.built_model()) =~= Self::required_keys());
    }
}

impl Render for Header {
    closed spec fn model(&self) -> Json {
        Json::Object(self.payload())
    }

    fn render(&self) -> (r: Value) {
        let mut fields: Vec<(String, Value)> = Vec::new();
        self.render_into(&mut fields);
        assert(Seq::<(Seq<char>, Json)>::empty() + self.payload() =~= self.payload());
        Value::Object(fields)
    }
}

/// An image on a block of its own.
pub struct Image {
    block_id: Option<String>,
    image_url: String,
    alt_text: String,
    title: Option<PlainText>,
}

/// Accumulates the attributes of a [`Image`]; `build` checks that the required
/// ones are set.
pub struct ImageBuilder {
    pub block_id: Option<String>,
    pub image_url: Option<String>,
    pub alt_text: Option<String>,
    pub title: Option<PlainText>,
}

impl Image {
    /// An accumulator with no attribute set.
    pub fn builder() -> (r: ImageBuilder)
        ensures
            r.block_id is None,
            r.image_url is None,
            r.alt_text is None,
            r.title is None,
    {
        ImageBuilder { block_id: None, image_url: None, alt_text: None, title: None }
    }

    /// The fields of the rendered form, without a discriminator.
    pub closed spec fn payload(&self) -> Seq<(Seq<char>, Json)> {
        let f = Seq::<(Seq<char>, Json)>::empty();
        let f = push_opt(f, "block_id"@, opt_str(self.block_id));
        let f = f.push(("image_url"@, Json::Str(self.image_url@)));
        let f = f.push(("alt_text"@, Json::Str(self.alt_text@)));
        let f = push_opt(f, "title"@, opt_model(self.title));
        f
    }

    /// Appends the fields of the rendered form, in order, to `f`.
    pub fn render_into(&self, f: &mut Vec<(String, Value)>)
        ensures
            fields_view(final(f)@) == fields_view(old(f)@) + self.payload(),
    {
        let ghost start = fields_view(f@);
        let ghost mut done = Seq::<(Seq<char>, Json)>::empty();
        assert(start =~= start + done);
        push_opt_str_field(f, "block_id", &self.block_id);
        proof {
            lemma_push_opt_concat(start, done, "block_id"@, opt_str(self.block_id));
            done = push_opt(done, "block_id"@, opt_str(self.block_id));
        }
        push_str_field(f, "image_url", &self.image_url);
        proof {
            lemma_push_concat(start, done, ("image_url"@, Json::Str(self.image_url@)));
            done = done.push(("image_url"@, Json::Str(self.image_url@)));
        }
        push_str_field(f, "alt_text", &self.alt_text);
        proof {
            lemma_push_concat(start, done, ("alt_text"@, Json::Str(self.alt_text@)));
            done = done.push(("alt_text"@, Json::Str(self.alt_text@)));
        }
        push_opt_component(f, "title", &self.title);
        proof {
            lemma_push_opt_concat(start, done, "title"@, opt_model(self.title));
            done = push_opt(done, "title"@, opt_model(self.title));
        }
    }

    /// Renders the block as a member of a sequence of blocks: its fields after
    /// the discriminator `"image"`.
    pub fn render_block(&self) -> (r: Value)
        ensures
            r@ == tagged("image"@, self.model()),
    {
        let mut fields: Vec<(String, Value)> = Vec::new();
        push_tag(&mut fields, "type", "image");
        self.render_into(&mut fields);
        Value::Object(fields)
    }
}

impl ImageBuilder {
    /// Sets `block_id`.
    pub fn block_id(self, block_id: &str) -> (r: Self)
        ensures
            r.block_id matches Some(s) && s@ == block_id@,
            r == (ImageBuilder { block_id: r.block_id, ..self }),
    {
        ImageBuilder { block_id: Some(block_id.to_owned()), ..self }
    }

    /// Sets `image_url`.
    pub fn image_url(self, image_url: &str) -> (r: Self)
        ensures
            r.image_url matches Some(s) && s@ == image_url@,
            r == (ImageBuilder { image_url: r.image_url, ..self }),
    {
        ImageBuilder { image_url: Some(image_url.to_owned()), ..self }
    }

    /// Sets `alt_text`.
    pub fn alt_text(self, alt_text: &str) -> (r: Self)
        ensures
            r.alt_text matches Some(s) && s@ == alt_text@,
            r == (ImageBuilder { alt_text: r.alt_text, ..self }),
    {
        ImageBuilder { alt_text: Some(alt_text.to_owned()), ..self }
    }

    /// Sets `title`.
    pub fn title(self, title: PlainText) -> (r: Self)
        ensures
            r == (ImageBuilder { title: Some(title), ..self }),
    {
        ImageBuilder { title: Some(title), ..self }
    }

    /// Finishes the leaf: fails naming the first required attribute that was not set.
    pub fn build(self) -> (r: Result<Image, BuildError>)
        ensures
            match self.missing() {
                Some(field) => r == Err::<Image, BuildError>(
                    BuildError::MissingRequiredField { leaf: "Image", field },
                ),
                None => r matches Ok(b) && b.model() == self.built_model(),
            },
    {
        let image_url = match self.image_url {
            Some(v) => v,
            None => {
                return Err(
                    BuildError::MissingRequiredField { leaf: "Image", field: "image_url" },
                );
            },
        };
        let alt_text = match self.alt_text {
            Some(v) => v,
            None => {
                return Err(
                    BuildError::MissingRequiredField { leaf: "Image", field: "alt_text" },
                );
            },
        };
        let b = Image { block_id: self.block_id, image_url, alt_text, title: self.title };
        assert(b.model() == Json::Object(b.payload()));
        Ok(b)
    }
}

impl LeafBuilder for ImageBuilder {
    open spec fn missing(&self) -> Option<&'static str> {
        if self.image_url is None {
            Some("image_url")
        } else if self.alt_text is None {
            Some("alt_text")
        } else {
            None
        }
    }

    open spec fn only_required(&self) -> bool {
        &&& self.missing() is None
        &&& self.block_id is None
        &&& self.title is None
    }

    open spec fn required_keys() -> Seq<Seq<char>> {
        seq!["image_url"@, "alt_text"@]
    }

    open spec fn built_model(&self) -> Json {
        let f = Seq::<(Seq<char>, Json)>::empty();
        let f = push_opt(f, "block_id"@, opt_str(self.block_id));
        let f = f.push(("image_url"@, Json::Str(self.image_url.unwrap()@)));
        let f = f.push(("alt_text"@, Json::Str(self.alt_text.unwrap()@)));
        let f = push_opt(f, "title"@, opt_model(self.title));
        Json::Object(f)
    }

    proof fn lemma_minimal_render(&self) {
        assert(keys(self.built_model()) =~= Self::required_keys());
    }
}

impl Render for Image {
    closed spec fn model(&self) -> Json {
        Json::Object(self.payload())
    }

    fn render(&self) -> (r: Value) {
        let mut fields: Vec<(String, Value)> = Vec::new();
        self.render_into(&mut fields);
        assert(Seq::<(Seq<char>, Json)>::empty() + self.payload() =~= self.payload());
        Value::Object(fields)
    }
}

/// A labelled form field of a modal.
pub struct Input {
    block_id: Option<String>,
    label: PlainText,
    element: InputElements,
    hint: Option<PlainText>,
    optional: Option<bool>,
}

/// Accumulates the attributes of a [`Input`]; `build` checks that the required
/// ones are set.
pub struct InputBuilder {
    pub block_id: Option<String>,
    pub label: Option<PlainText>,
    pub element: Option<InputElements>,
    pub hint: Option<PlainText>,
    pub optional: Option<bool>,
}

impl Input {
    /// An accumulator with no attribute set.
    pub fn builder() -> (r: InputBuilder)
        ensures
            r.block_id is None,
            r.label is None,
            r.element is None,
            r.hint is None,
            r.optional is None,
    {
        InputBuilder { block_id: None, label: None, element: None, hint: None, optional: None }
    }

    /// The fields of the rendered form, without a discriminator.
    pub closed spec fn payload(&self) -> Seq<(Seq<char>, Json)> {
        let f = Seq::<(Seq<char>, Json)>::empty();
        let f = push_opt(f, "block_id"@, opt_str(self.block_id));
        let f = f.push(("label"@, self.label.model()));
        let f = f.push(("element"@, self.element.model()));
        let f = push_opt(f, "hint"@, opt_model(self.hint));
        let f = push_opt(f, "optional"@, opt_bool(self.optional));
        f
    }

    /// Appends the fields of the rendered form, in order, to `f`.
    pub fn render_into(&self, f: &mut Vec<(String, Value)>)
        ensures
            fields_view(final(f)@) == fields_view(old(f)@) + self.payload(),
    {
        let ghost start = fields_view(f@);
        let ghost mut done = Seq::<(Seq<char>, Json)>::empty();
        assert(start =~= start + done);
        push_opt_str_field(f, "block_id", &self.block_id);
        proof {
            lemma_push_opt_concat(start, done, "block_id"@, opt_str(self.block_id));
            done = push_opt(done, "block_id"@, opt_str(self.block_id));
        }
        push_field(f, "label", self.label.render());
        proof {
            lemma_push_concat(start, done, ("label"@, self.label.model()));
            done = done.push(("label"@, self.label.model()));
        }
        push_field(f, "element", self.element.render());
        proof {
            lemma_push_concat(start, done, ("element"@, self.element.model()));
            done = done.push(("element"@, self.element.model()));
        }
        push_opt_component(f, "hint", &self.hint);
        proof {
            lemma_push_opt_concat(start, done, "hint"@, opt_model(self.hint));
            done = push_opt(done, "hint"@, opt_model(self.hint));
        }
        push_opt_bool_field(f, "optional", self.optional);
        proof {
            lemma_push_opt_concat(start, done, "optional"@, opt_bool(self.optional));
            done = push_opt(done, "optional"@, opt_bool(self.optional));
        }
    }

    /// Renders the block as a member of a sequence of blocks: its fields after
    /// the discriminator `"input"`.
    pub fn render_block(&self) -> (r: Value)
        ensures
            r@ == tagged("input"@, self.model()),
    {
        let mut fields: Vec<(String, Value)> = Vec::new();
        push_tag(&mut fields, "type", "input");
        self.render_into(&mut fields);
        Value::Object(fields)
    }
}

impl InputBuilder {
    /// Sets `block_id`.
    pub fn block_id(self, block_id: &str) -> (r: Self)
        ensures
            r.block_id matches Some(s) && s@ == block_id@,
            r == (InputBuilder { block_id: r.block_id, ..self }),
    {
        InputBuilder { block_id: Some(block_id.to_owned()), ..self }
    }

    /// Sets `label`.
    pub fn label(self, label: PlainText) -> (r: Self)
        ensures
            r == (InputBuilder { label: Some(label), ..self }),
    {
        InputBuilder { label: Some(label), ..self }
    }

    /// Sets `element`.
    pub fn element(self, element: InputElements) -> (r: Self)
        ensures
            r == (InputBuilder { element: Some(element), ..self }),
    {
        InputBuilder { element: Some(element), ..self }
    }

    /// Sets `hint`.
    pub fn hint(self, hint: PlainText) -> (r: Self)
        ensures
            r == (InputBuilder { hint: Some(hint), ..self }),
    {
        InputBuilder { hint: Some(hint), ..self }
    }

    /// Sets `optional`.
    pub fn optional(self, optional: bool) -> (r: Self)
        ensures
            r == (InputBuilder { optional: Some(optional), ..self }),
    {
        InputBuilder { optional: Some(optional), ..self }
    }

    /// Finishes the leaf: fails naming the first required attribute that was not set.
    pub fn build(self) -> (r: Result<Input, BuildError>)
        ensures
            match self.missing() {
                Some(field) => r == Err::<Input, BuildError>(
                    BuildError::MissingRequiredField { leaf: "Input", field },
                ),
                None => r matches Ok(b) && b.model() == self.built_model(),
            },
    {
        let label = match self.label {
            Some(v) => v,
            None => {
                return Err(
                    BuildError::MissingRequiredField { leaf: "Input", field: "label" },
                );
            },
        };
        let element = match self.element {
            Some(v) => v,
            None => {
                return Err(
                    BuildError::MissingRequiredField { leaf: "Input", field: "element" },
                );
            },
        };
        let b = Input {
            block_id: self.block_id,
            label,
            element,
            hint: self.hint,
            optional: self.optional,
        };
        assert(b.model() == Json::Object(b.payload()));
        Ok(b)
    }
}

impl LeafBuilder for InputBuilder {
    open spec fn missing(&self) -> Option<&'static str> {
        if self.label is None {
            Some("label")
        } else if self.element is None {
            Some("element")
        } else {
            None
        }
    }

    open spec fn only_required(&self) -> bool {
        &&& self.missing() is None
        &&& self.block_id is None
        &&& self.hint is None
        &&& self.optional is None
    }

    open spec fn required_keys() -> Seq<Seq<char>> {
        seq!["label"@, "element"@]
    }

    open spec fn built_model(&self) -> Json {
        let f = Seq::<(Seq<char>, Json)>::empty();
        let f = push_opt(f, "block_id"@, opt_str(self.block_id));
        let f = f.push(("label"@, self.label.unwrap().model()));
        let f = f.push(("element"@, self.element.unwrap().model()));
        let f = push_opt(f, "hint"@, opt_model(self.hint));
        let f = push_opt(f, "optional"@, opt_bool(self.optional));
        Json::Object(f)
    }

    proof fn lemma_minimal_render(&self) {
        assert(keys(self.built_model()) =~= Self::required_keys());
    }
}

impl Render for Input {
    closed spec fn model(&self) -> Json {
        Json::Object(self.payload())
    }

    fn render(&self) -> (r: Value) {
        let mut fields: Vec<(String, Value)> = Vec::new();
        self.render_into(&mut fields);
        assert(Seq::<(Seq<char>, Json)>::empty() + self.payload() =~= self.payload());
        Value::Object(fields)
    }
}

/// Text, optionally laid out in columns, with an optional accessory element.
pub struct Section {
    block_id: Option<String>,
    text: Text,
    fields: Option<Vec<Text>>,
    accessory: Option<SectionElements>,
}

/// Accumulates the attributes of a [`Section`]; `build` checks that the required
/// ones are set.
pub struct SectionBuilder {
    pub block_id: Option<String>,
    pub text: Option<Text>,
    pub fields: Option<Vec<Text>>,
    pub accessory: Option<SectionElements>,
}

impl Section {
    /// An accumulator with no attribute set.
    pub fn builder() -> (r: SectionBuilder)
        ensures
            r.block_id is None,
            r.text is None,
            r.fields is None,
            r.accessory is None,
    {
        SectionBuilder { block_id: None, text: None, fields: None, accessory: None }
    }

    /// The fields of the rendered form, without a discriminator.
    pub closed spec fn payload(&self) -> Seq<(Seq<char>, Json)> {
        let f = Seq::<(Seq<char>, Json)>::empty();
        let f = push_opt(f, "block_id"@, opt_str(self.block_id));
        let f = f.push(("text"@, self.text.model()));
        let f = push_opt(f, "fields"@, opt_models(self.fields));
        let f = push_opt(f, "accessory"@, opt_model(self.accessory));
        f
    }

    /// Appends the fields of the rendered form, in order, to `f`.
    pub fn render_into(&self, f: &mut Vec<(String, Value)>)
        ensures
            fields_view(final(f)@) == fields_view(old(f)@) + self.payload(),
    {
        let ghost start = fields_view(f@);
        let ghost mut done = Seq::<(Seq<char>, Json)>::empty();
        assert(start =~= start + done);
        push_opt_str_field(f, "block_id", &self.block_id);
        proof {
            lemma_push_opt_concat(start, done, "block_id"@, opt_str(self.block_id));
            done = push_opt(done, "block_id"@, opt_str(self.block_id));
        }
        push_field(f, "text", self.text.render());
        proof {
            lemma_push_concat(start, done, ("text"@, self.text.model()));
            done = done.push(("text"@, self.text.model()));
        }
        push_opt_components(f, "fields", &self.fields);
        proof {
            lemma_push_opt_concat(start, done, "fields"@, opt_models(self.fields));
            done = push_opt(done, "fields"@, opt_models(self.fields));
        }
        push_opt_component(f, "accessory", &self.accessory);
        proof {
            lemma_push_opt_concat(start, done, "accessory"@, opt_model(self.accessory));
            done = push_opt(done, "accessory"@, opt_model(self.accessory));
        }
    }

    /// Renders the block as a member of a sequence of blocks: its fields after
    /// the discriminator `"section"`.
    pub fn render_block(&self) -> (r: Value)
        ensures
            r@ == tagged("section"@, self.model()),
    {
        let mut fields: Vec<(String, Value)> = Vec::new();
        push_tag(&mut fields, "type", "section");
        self.render_into(&mut fields);
        Value::Object(fields)
    }
}

impl SectionBuilder {
    /// Sets `block_id`.
    pub fn block_id(self, block_id: &str) -> (r: Self)
        ensures
            r.block_id matches Some(s) && s@ == block_id@,
            r == (SectionBuilder { block_id: r.block_id, ..self }),
    {
        SectionBuilder { block_id: Some(block_id.to_owned()), ..self }
    }

    /// Sets `text`.
    pub fn text(self, text: Text) -> (r: Self)
        ensures
            r == (SectionBuilder { text: Some(text), ..self }),
    {
        SectionBuilder { text: Some(text), ..self }
    }

    /// Sets `fields`.
    pub fn fields(self, fields: Vec<Text>) -> (r: Self)
        ensures
            r == (SectionBuilder { fields: Some(fields), ..self }),
    {
        SectionBuilder { fields: Some(fields), ..self }
    }

    /// Sets `accessory`.
    pub fn accessory(self, accessory: SectionElements) -> (r: Self)
        ensures
            r == (SectionBuilder { accessory: Some(accessory), ..self }),
    {
        SectionBuilder { accessory: Some(accessory), ..self }
    }

    /// Finishes the leaf: fails naming the first required attribute that was not set.
    pub fn build(self) -> (r: Result<Section, BuildError>)
        ensures
            match self.missing() {
                Some(field) => r == Err::<Section, BuildError>(
                    BuildError::MissingRequiredField { leaf: "Section", field },
                ),
                None => r matches Ok(b) && b.model() == self.built_model(),
            },
    {
        let text = match self.text {
            Some(v) => v,
            None => {
                return Err(
                    BuildError::MissingRequiredField { leaf: "Section", field: "text" },
                );
            },
        };
        let b = Section {
            block_id: self.block_id,
            text,
            fields: self.fields,
            accessory: self.accessory,
        };
        assert(b.model() == Json::Object(b.payload()));
        Ok(b)
    }
}

impl LeafBuilder for SectionBuilder {
    open spec fn missing(&self) -> Option<&'static str> {
        if self.text is None {
            Some("text")
        } else {
            None
        }
    }

    open spec fn only_required(&self) -> bool {
        &&& self.missing() is None
        &&& self.block_id is None
        &&& self.fields is None
        &&& self.accessory is None
    }

    open spec fn required_keys() -> Seq<Seq<char>> {
        seq!["text"@]
    }

    open spec fn built_model(&self) -> Json {
        let f = Seq::<(Seq<char>, Json)>::empty();
        let f = push_opt(f, "block_id"@, opt_str(self.block_id));
        let f = f.push(("text"@, self.text.unwrap().model()));
        let f = push_opt(f, "fields"@, opt_models(self.fields));
        let f = push_opt(f, "accessory"@, opt_model(self.accessory));
        Json::Object(f)
    }

    proof fn lemma_minimal_render(&self) {
        assert(keys(self.built_model()) =~= Self::required_keys());
    }
}

impl Render for Section {
    closed spec fn model(&self) -> Json {
        Json::Object(self.payload())
    }

    fn render(&self) -> (r: Value) {
        let mut fields: Vec<(String, Value)> = Vec::new();
        self.render_into(&mut fields);
        assert(Seq::<(Seq<char>, Json)>::empty() + self.payload() =~= self.payload());
        Value::Object(fields)
    }
}

impl From<Actions> for MessageBlock {
    fn from(item: Actions) -> Self {
        MessageBlock::Actions(item)
    }
}

impl FromSpecImpl<Actions> for MessageBlock {
    open spec fn obeys_from_spec() -> bool {
        true
    }

    open spec fn from_spec(v: Actions) -> Self {
        MessageBlock::Actions(v)
    }
}

impl From<Actions> for ModalBlock {
    fn from(item: Actions) -> Self {
        ModalBlock::Actions(item)
    }
}

impl FromSpecImpl<Actions> for ModalBlock {
    open spec fn obeys_from_spec() -> bool {
        true
    }

    open spec fn from_spec(v: Actions) -> Self {
        ModalBlock::Actions(v)
    }
}

impl From<Actions> for HomeTabBlock {
    fn from(item: Actions) -> Self {
        HomeTabBlock::Actions(item)
    }
}

impl FromSpecImpl<Actions> for HomeTabBlock {
    open spec fn obeys_from_spec() -> bool {
        true
    }

    open spec fn from_spec(v: Actions) -> Self {
        HomeTabBlock::Actions(v)
    }
}

impl From<Context> for MessageBlock {
    fn from(item: Context) -> Self {
        MessageBlock::Context(item)
    }
}

impl FromSpecImpl<Context> for MessageBlock {
    open spec fn obeys_from_spec() -> bool {
        true
    }

    open spec fn from_spec(v: Context) -> Self {
        MessageBlock::Context(v)
    }
}

impl From<Context> for ModalBlock {
    fn from(item: Context) -> Self {
        ModalBlock::Context(item)
    }
}

impl FromSpecImpl<Context> for ModalBlock {
    open spec fn obeys_from_spec() -> bool {
        true
    }

    open spec fn from_spec(v: Context) -> Self {
        ModalBlock::Context(v)
    }
}

impl From<Context> for HomeTabBlock {
    fn from(item: Context) -> Self {
        HomeTabBlock::Context(item)
    }
}

impl FromSpecImpl<Context> for HomeTabBlock {
    open spec fn obeys_from_spec() -> bool {
        true
    }

    open spec fn from_spec(v: Context) -> Self {
        HomeTabBlock::Context(v)
    }
}

impl From<Divider> for MessageBlock {
    fn from(item: Divider) -> Self {
        MessageBlock::Divider(item)
    }
}

impl FromSpecImpl<Divider> for MessageBlock {
    open spec fn obeys_from_spec() -> bool {
        true
    }

    open spec fn from_spec(v: Divider) -> Self {
        MessageBlock::Divider(v)
    }
}

impl From<Divider> for ModalBlock {
    fn from(item: Divider) -> Self {
        ModalBlock::Divider(item)
    }
}

impl FromSpecImpl<Divider> for ModalBlock {
    open spec fn obeys_from_spec() -> bool {
        true
    }

    open spec fn from_spec(v: Divider) -> Self {
        ModalBlock::Divider(v)
    }
}

impl From<Divider> for HomeTabBlock {
    fn from(item: Divider) -> Self {
        HomeTabBlock::Divider(item)
    }
}

impl FromSpecImpl<Divider> for HomeTabBlock {
    open spec fn obeys_from_spec() -> bool {
        true
    }

    open spec fn from_spec(v: Divider) -> Self {
        HomeTabBlock::Divider(v)
    }
}

impl From<Header> for MessageBlock {
    fn from(item: Header) -> Self {
        MessageBlock::Header(item)
    }
}

impl FromSpecImpl<Header> for MessageBlock {
    open spec fn obeys_from_spec() -> bool {
        true
    }

    open spec fn from_spec(v: Header) -> Self {
        MessageBlock::Header(v)
    }
}

impl From<Header> for ModalBlock {
    fn from(item: Header) -> Self {
        ModalBlock::Header(item)
    }
}

impl FromSpecImpl<Header> for ModalBlock {
    open spec fn obeys_from_spec() -> bool {
        true
    }

    open spec fn from_spec(v: Header) -> Self {
        ModalBlock::Header(v)
    }
}

impl From<Header> for HomeTabBlock {
    fn from(item: Header) -> Self {
        HomeTabBlock::Header(item)
    }
}

impl FromSpecImpl<Header> for HomeTabBlock {
    open spec fn obeys_from_spec() -> bool {
        true
    }

    open spec fn from_spec(v: Header) -> Self {
        HomeTabBlock::Header(v)
    }
}

impl From<Image> for MessageBlock {
    fn from(item: Image) -> Self {
        MessageBlock::Image(item)
    }
}

impl FromSpecImpl<Image> for MessageBlock {
    open spec fn obeys_from_spec() -> bool {
        true
    }

    open spec fn from_spec(v: Image) -> Self {
        MessageBlock::Image(v)
    }
}

impl From<Image> for ModalBlock {
    fn from(item: Image) -> Self {
        ModalBlock::Image(item)
    }
}

impl FromSpecImpl<Image> for ModalBlock {
    open spec fn obeys_from_spec() -> bool {
        true
    }

    open spec fn from_spec(v: Image) -> Self {
        ModalBlock::Image(v)
    }
}

impl From<Image> for HomeTabBlock {
    fn from(item: Image) -> Self {
        HomeTabBlock::Image(item)
    }
}

impl FromSpecImpl<Image> for HomeTabBlock {
    open spec fn obeys_from_spec() -> bool {
        true
    }

    open spec fn from_spec(v: Image) -> Self {
        HomeTabBlock::Image(v)
    }
}

impl From<Input> for ModalBlock {
    fn from(item: Input) -> Self {
        ModalBlock::Input(item)
    }
}

impl FromSpecImpl<Input> for ModalBlock {
    open spec fn obeys_from_spec() -> bool {
        true
    }

    open spec fn from_spec(v: Input) -> Self {
        ModalBlock::Input(v)
    }
}

impl From<Section> for MessageBlock {
    fn from(item: Section) -> Self {
        MessageBlock::Section(item)
    }
}

impl FromSpecImpl<Section> for MessageBlock {
    open spec fn obeys_from_spec() -> bool {
        true
    }

    open spec fn from_spec(v: Section) -> Self {
        MessageBlock::Section(v)
    }
}

impl From<Section> for ModalBlock {
    fn from(item: Section) -> Self {
        ModalBlock::Section(item)
    }
}

impl FromSpecImpl<Section> for ModalBlock {
    open spec fn obeys_from_spec() -> bool {
        true
    }

    open spec fn from_spec(v: Section) -> Self {
        ModalBlock::Section(v)
    }
}

impl From<Section> for HomeTabBlock {
    fn from(item: Section) -> Self {
        HomeTabBlock::Section(item)
    }
}

impl FromSpecImpl<Section> for HomeTabBlock {
    open spec fn obeys_from_spec() -> bool {
        true
    }

    open spec fn from_spec(v: Section) -> Self {
        HomeTabBlock::Section(v)
    }
}

impl Actions {
    /// Each conversion of this leaf into a sequence of blocks renders the leaf's own
    /// fields, unchanged and in order, after the discriminator `"actions"`.
    pub proof fn lemma_conversions_keep_render(self)
        ensures
            <MessageBlock as FromSpec<Actions>>::from_spec(self).model() == tagged("actions"@, self.model()),
            <ModalBlock as FromSpec<Actions>>::from_spec(self).model() == tagged("actions"@, self.model()),
            <HomeTabBlock as FromSpec<Actions>>::from_spec(self).model() == tagged("actions"@, self.model()),
    {
    }
}

impl Context {
    /// Each conversion of this leaf into a sequence of blocks renders the leaf's own
    /// fields, unchanged and in order, after the discriminator `"context"`.
    pub proof fn lemma_conversions_keep_render(self)
        ensures
            <MessageBlock as FromSpec<Context>>::from_spec(self).model() == tagged("context"@, self.model()),
            <ModalBlock as FromSpec<Context>>::from_spec(self).model() == tagged("context"@, self.model()),
            <HomeTabBlock as FromSpec<Context>>::from_spec(self).model() == tagged("context"@, self.model()),
    {
    }
}

impl Divider {
    /// Each conversion of this leaf into a sequence of blocks renders the leaf's own
    /// fields, unchanged and in order, after the discriminator `"divider"`.
    pub proof fn lemma_conversions_keep_render(self)
        ensures
            <MessageBlock as FromSpec<Divider>>::from_spec(self).model() == tagged("divider"@, self.model()),
            <ModalBlock as FromSpec<Divider>>::from_spec(self).model() == tagged("divider"@, self.model()),
            <HomeTabBlock as FromSpec<Divider>>::from_spec(self).model() == tagged("divider"@, self.model()),
    {
    }
}

impl Header {
    /// Each conversion of this leaf into a sequence of blocks renders the leaf's own
    /// fields, unchanged and in order, after the discriminator `"header"`.
    pub proof fn lemma_conversions_keep_render(self)
        ensures
            <MessageBlock as FromSpec<Header>>::from_spec(self).model() == tagged("header"@, self.model()),
            <ModalBlock as FromSpec<Header>>::from_spec(self).model() == tagged("header"@, self.model()),
            <HomeTabBlock as FromSpec<Header>>::from_spec(self).model() == tagged("header"@, self.model()),
    {
    }
}

impl Image {
    /// Each conversion of this leaf into a sequence of blocks renders the leaf's own
    /// fields, unchanged and in order, after the discriminator `"image"`.
    pub proof fn lemma_conversions_keep_render(self)
        ensures
            <MessageBlock as FromSpec<Image>>::from_spec(self).model() == tagged("image"@, self.model()),
            <ModalBlock as FromSpec<Image>>::from_spec(self).model() == tagged("image"@, self.model()),
            <HomeTabBlock as FromSpec<Image>>::from_spec(self).model() == tagged("image"@, self.model()),
    {
    }
}

impl Input {
    /// Each conversion of this leaf into a sequence of blocks renders the leaf's own
    /// fields, unchanged and in order, after the discriminator `"input"`.
    pub proof fn lemma_conversions_keep_render(self)
        ensures
            <ModalBlock as FromSpec<Input>>::from_spec(self).model() == tagged("input"@, self.model()),
    {
    }
}

impl Section {
    /// Each conversion of this leaf into a sequence of blocks renders the leaf's own
    /// fields, unchanged and in order, after the discriminator `"section"`.
    pub proof fn lemma_conversions_keep_render(self)
        ensures
            <MessageBlock as FromSpec<Section>>::from_spec(self).model() == tagged("section"@, self.model()),
            <ModalBlock as FromSpec<Section>>::from_spec(self).model() == tagged("section"@, self.model()),
            <HomeTabBlock as FromSpec<Section>>::from_spec(self).model() == tagged("section"@, self.model()),
    {
    }
}

} // verus!
