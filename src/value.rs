use vstd::prelude::*;

verus! {

/// The structured form that rendering produces, as a mathematical value: an
/// object is an ordered list of (field name, value) pairs.
pub enum Json {
    Bool(bool),
    Int(int),
    Str(Seq<char>),
    Array(Seq<Json>),
    Object(Seq<(Seq<char>, Json)>),
}

/// The rendered structured form, held in memory.
#[derive(Debug, PartialEq)]
pub enum Value {
    Bool(bool),
    Int(i64),
    Str(String),
    Array(Vec<Value>),
    Object(Vec<(String, Value)>),
}

broadcast use {
    vstd::seq::axiom_seq_index_decreases,
    vstd::seq::axiom_seq_subrange_decreases,
    vstd::std_specs::vec::axiom_vec_decreases_to_view,
};

impl View for Value {
    type V = Json;

    open spec fn view(&self) -> Json
        decreases self,
    {
        match self {
            Value::Bool(b) => Json::Bool(*b),
            Value::Int(i) => Json::Int(*i as int),
            Value::Str(s) => Json::Str(s@),
            Value::Array(items) => Json::Array(items_view(items@)),
            Value::Object(fields) => Json::Object(fields_view(fields@)),
        }
    }
}

/// The models of a sequence of values, in order.
pub open spec fn items_view(items: Seq<Value>) -> Seq<Json>
    decreases items,
{
    if items.len() == 0 {
        Seq::empty()
    } else {
        items_view(items.drop_last()).push(items.last().view())
    }
}

/// The models of a sequence of fields, in order, each name taken as text.
pub open spec fn fields_view(fields: Seq<(String, Value)>) -> Seq<(Seq<char>, Json)>
    decreases fields,
{
    if fields.len() == 0 {
        Seq::empty()
    } else {
        fields_view(fields.drop_last()).push((fields.last().0@, fields.last().1.view()))
    }
}

/// A component that renders to the structured form.
pub trait Render {
    /// The structured form that this component renders to.
    spec fn model(&self) -> Json;

    /// Renders the component; the result is exactly its model.
    fn render(&self) -> (r: Value)
        ensures
            r@ == self.model(),
    ;
}

/// The models of a sequence of components, in order.
pub open spec fn models<T: Render>(items: Seq<T>) -> Seq<Json> {
    Seq::new(items.len(), |i: int| items[i].model())
}

/// Sequences keep their insertion order through rendering: the rendered
/// sequence has one item per inserted item, and its `i`-th item is what the
/// `i`-th inserted item renders to.
pub proof fn lemma_sequence_order<T: Render>(items: Seq<T>, i: int)
    requires
        0 <= i < items.len(),
    ensures
        models(items).len() == items.len(),
        models(items)[i] == items[i].model(),
{
}

/// A sequence whose items were each converted into an alternative that renders
/// them unchanged renders as the original sequence: same length, same order,
/// nothing dropped or repeated.
pub proof fn lemma_converted_sequence_keeps_render<S: Render, A: Render>(xs: Seq<S>, ys: Seq<A>)
    requires
        ys.len() == xs.len(),
        forall|i: int| 0 <= i < xs.len() ==> #[trigger] ys[i].model() == xs[i].model(),
    ensures
        models(ys) == models(xs),
{
    assert(models(ys) =~= models(xs));
}

/// Sequences of texts keep their insertion order through rendering.
pub proof fn lemma_text_sequence_order(items: Seq<String>, i: int)
    requires
        0 <= i < items.len(),
    ensures
        str_models(items).len() == items.len(),
        str_models(items)[i] == Json::Str(items[i]@),
{
}

/// A field whose value is present only when `o` holds one.
pub open spec fn push_opt(
    fields: Seq<(Seq<char>, Json)>,
    key: Seq<char>,
    o: Option<Json>,
) -> Seq<(Seq<char>, Json)> {
    match o {
        Some(j) => fields.push((key, j)),
        None => fields,
    }
}

/// The model of an optional text field's value.
pub open spec fn opt_str(o: Option<String>) -> Option<Json> {
    match o {
        Some(s) => Some(Json::Str(s@)),
        None => None,
    }
}

/// The model of an optional flag's value.
pub open spec fn opt_bool(o: Option<bool>) -> Option<Json> {
    match o {
        Some(b) => Some(Json::Bool(b)),
        None => None,
    }
}

/// The model of an optional integer field's value.
pub open spec fn opt_int(o: Option<i32>) -> Option<Json> {
    match o {
        Some(i) => Some(Json::Int(i as int)),
        None => None,
    }
}

/// The model of an optional component.
pub open spec fn opt_model<T: Render>(o: Option<T>) -> Option<Json> {
    match o {
        Some(c) => Some(c.model()),
        None => None,
    }
}

/// The model of an optional sequence of components.
pub open spec fn opt_models<T: Render>(o: Option<Vec<T>>) -> Option<Json> {
    match o {
        Some(v) => Some(Json::Array(models(v@))),
        None => None,
    }
}

/// The model of an optional sequence of texts.
pub open spec fn opt_strs(o: Option<Vec<String>>) -> Option<Json> {
    match o {
        Some(v) => Some(Json::Array(str_models(v@))),
        None => None,
    }
}

/// The models of a sequence of texts, in order.
pub open spec fn str_models(items: Seq<String>) -> Seq<Json> {
    Seq::new(items.len(), |i: int| Json::Str(items[i]@))
}

/// The field names of an object, in order; nothing for any other value.
pub open spec fn keys(j: Json) -> Seq<Seq<char>> {
    match j {
        Json::Object(fields) => Seq::new(fields.len(), |i: int| fields[i].0),
        _ => Seq::empty(),
    }
}

/// The fields of an object; nothing for any other value.
pub open spec fn object_fields(j: Json) -> Seq<(Seq<char>, Json)> {
    match j {
        Json::Object(fields) => fields,
        _ => Seq::empty(),
    }
}

/// An object's fields behind a leading `"type"` discriminator.
pub open spec fn tagged(tag: Seq<char>, j: Json) -> Json {
    Json::Object(seq![("type"@, Json::Str(tag))] + object_fields(j))
}

/// Rendering through a discriminated alternative adds exactly one key, the
/// discriminator, in front of the leaf's own keys.
pub proof fn lemma_tagged_keys(tag: Seq<char>, j: Json)
    requires
        j is Object,
    ensures
        keys(tagged(tag, j)) == seq!["type"@] + keys(j),
{
    assert(keys(tagged(tag, j)) =~= seq!["type"@] + keys(j));
}

/// Appending a field after a prefix is appending it to the suffix.
pub proof fn lemma_push_concat(
    prefix: Seq<(Seq<char>, Json)>,
    fields: Seq<(Seq<char>, Json)>,
    field: (Seq<char>, Json),
)
    ensures
        (prefix + fields).push(field) == prefix + fields.push(field),
{
    assert((prefix + fields).push(field) =~= prefix + fields.push(field));
}

/// Appending an optional field after a prefix is appending it to the suffix.
pub proof fn lemma_push_opt_concat(
    prefix: Seq<(Seq<char>, Json)>,
    fields: Seq<(Seq<char>, Json)>,
    key: Seq<char>,
    o: Option<Json>,
)
    ensures
        push_opt(prefix + fields, key, o) == prefix + push_opt(fields, key, o),
{
    match o {
        Some(j) => {
            assert((prefix + fields).push((key, j)) =~= prefix + fields.push((key, j)));
        },
        None => {},
    }
}

/// Appends a field to an object under construction.
pub fn push_field(fields: &mut Vec<(String, Value)>, key: &str, value: Value)
    ensures
        fields_view(final(fields)@) == fields_view(old(fields)@).push((key@, value@)),
{
    let k = key.to_owned();
    fields.push((k, value));
    assert(final(fields)@.drop_last() =~= old(fields)@);
}

/// Appends a field whose value is a fixed name.
pub fn push_tag(fields: &mut Vec<(String, Value)>, key: &str, tag: &str)
    ensures
        fields_view(final(fields)@) == fields_view(old(fields)@).push((key@, Json::Str(tag@))),
{
    push_field(fields, key, Value::Str(tag.to_owned()));
}

/// Appends a text field whose value is the given text.
pub fn push_str_field(fields: &mut Vec<(String, Value)>, key: &str, value: &String)
    ensures
        fields_view(final(fields)@) == fields_view(old(fields)@).push((key@, Json::Str(value@))),
{
    push_field(fields, key, Value::Str(value.clone()));
}

/// Appends a text field when the text is present.
pub fn push_opt_str_field(fields: &mut Vec<(String, Value)>, key: &str, value: &Option<String>)
    ensures
        fields_view(final(fields)@) == push_opt(fields_view(old(fields)@), key@, opt_str(*value)),
{
    if let Some(v) = value {
        push_str_field(fields, key, v);
    }
}

/// Appends a flag when it is present.
pub fn push_opt_bool_field(fields: &mut Vec<(String, Value)>, key: &str, value: Option<bool>)
    ensures
        fields_view(final(fields)@) == push_opt(fields_view(old(fields)@), key@, opt_bool(value)),
{
    if let Some(b) = value {
        push_field(fields, key, Value::Bool(b));
    }
}

/// Appends an integer field when it is present.
pub fn push_opt_int_field(fields: &mut Vec<(String, Value)>, key: &str, value: Option<i32>)
    ensures
        fields_view(final(fields)@) == push_opt(fields_view(old(fields)@), key@, opt_int(value)),
{
    if let Some(i) = value {
        push_field(fields, key, Value::Int(i as i64));
    }
}

/// Appends a component field when the component is present.
pub fn push_opt_component<T: Render>(fields: &mut Vec<(String, Value)>, key: &str, value: &Option<T>)
    ensures
        fields_view(final(fields)@) == push_opt(fields_view(old(fields)@), key@, opt_model(*value)),
{
    if let Some(c) = value {
        push_field(fields, key, c.render());
    }
}

/// Renders a sequence of components, keeping their order.
pub fn render_all<T: Render>(items: &Vec<T>) -> (r: Value)
    ensures
        r@ == Json::Array(models(items@)),
{
    let mut out: Vec<Value> = Vec::new();
    let mut i: usize = 0;
    while i < items.len()
        invariant
            i <= items.len(),
            items_view(out@) =~= models(items@.subrange(0, i as int)),
        decreases items.len() - i,
    {
        let v = items[i].render();
        let ghost before = out@;
        out.push(v);
        assert(out@.drop_last() =~= before);
        assert(models(items@.subrange(0, i + 1)) =~= models(items@.subrange(0, i as int)).push(
            items@[i as int].model(),
        ));
        i = i + 1;
    }
    assert(items@.subrange(0, items.len() as int) =~= items@);
    Value::Array(out)
}

/// Renders a sequence of texts, keeping their order.
pub fn render_strs(items: &Vec<String>) -> (r: Value)
    ensures
        r@ == Json::Array(str_models(items@)),
{
    let mut out: Vec<Value> = Vec::new();
    let mut i: usize = 0;
    while i < items.len()
        invariant
            i <= items.len(),
            items_view(out@) =~= str_models(items@.subrange(0, i as int)),
        decreases items.len() - i,
    {
        let v = Value::Str(items[i].clone());
        assert(v@ == Json::Str(items@[i as int]@));
        let ghost before = out@;
        out.push(v);
        assert(out@.drop_last() =~= before);
        assert(str_models(items@.subrange(0, i + 1)) =~= str_models(
            items@.subrange(0, i as int),
        ).push(Json::Str(items@[i as int]@)));
        i = i + 1;
    }
    assert(items@.subrange(0, items.len() as int) =~= items@);
    Value::Array(out)
}

/// Appends a sequence of components when it is present.
pub fn push_opt_components<T: Render>(
    fields: &mut Vec<(String, Value)>,
    key: &str,
    value: &Option<Vec<T>>,
)
    ensures
        fields_view(final(fields)@) == push_opt(fields_view(old(fields)@), key@, opt_models(*value)),
{
    if let Some(v) = value {
        push_field(fields, key, render_all(v));
    }
}

/// Appends a sequence of texts when it is present.
pub fn push_opt_strs(fields: &mut Vec<(String, Value)>, key: &str, value: &Option<Vec<String>>)
    ensures
        fields_view(final(fields)@) == push_opt(fields_view(old(fields)@), key@, opt_strs(*value)),
{
    if let Some(v) = value {
        push_field(fields, key, render_strs(v));
    }
}

} // verus!
