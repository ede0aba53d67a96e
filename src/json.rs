use vstd::prelude::*;
use vstd::string::StringExecFns;
use crate::value::{fields_view, items_view, Json, Render, Value};

verus! {

broadcast use {
    vstd::seq::axiom_seq_index_decreases,
    vstd::seq::axiom_seq_subrange_decreases,
    vstd::std_specs::vec::axiom_vec_decreases_to_view,
    vstd::std_specs::vec::axiom_vec_index_decreases,
};

/// The digit for a value below ten.
pub open spec fn digit(d: int) -> char {
    if d == 0 { '0' }
    else if d == 1 { '1' }
    else if d == 2 { '2' }
    else if d == 3 { '3' }
    else if d == 4 { '4' }
    else if d == 5 { '5' }
    else if d == 6 { '6' }
    else if d == 7 { '7' }
    else if d == 8 { '8' }
    else { '9' }
}

/// The lower-case hexadecimal digit for a value below sixteen.
pub open spec fn hex_digit(d: int) -> char {
    if d < 10 { digit(d) }
    else if d == 10 { 'a' }
    else if d == 11 { 'b' }
    else if d == 12 { 'c' }
    else if d == 13 { 'd' }
    else if d == 14 { 'e' }
    else { 'f' }
}

/// The decimal digits of a natural number, most significant first.
pub open spec fn nat_text(n: nat) -> Seq<char>
    decreases n,
{
    if n < 10 {
        seq![digit(n as int)]
    } else {
        nat_text(n / 10) + seq![digit((n % 10) as int)]
    }
}

/// The decimal text of an integer, with a leading `-` when it is negative.
pub open spec fn int_text(i: int) -> Seq<char> {
    if i < 0 {
        seq!['-'] + nat_text((-i) as nat)
    } else {
        nat_text(i as nat)
    }
}

/// How one character of a text value is written between quotes.
pub open spec fn escape_char(c: char) -> Seq<char> {
    if c == '"' {
        seq!['\\', '"']
    } else if c == '\\' {
        seq!['\\', '\\']
    } else if c == '\n' {
        seq!['\\', 'n']
    } else if c == '\r' {
        seq!['\\', 'r']
    } else if c == '\t' {
        seq!['\\', 't']
    } else if c == '\u{8}' {
        seq!['\\', 'b']
    } else if c == '\u{c}' {
        seq!['\\', 'f']
    } else if (c as u32) < 0x20 {
        seq!['\\', 'u', '0', '0', hex_digit((c as u32) as int / 16), hex_digit((c as u32) as int % 16)]
    } else {
        seq![c]
    }
}

/// A text value with each character escaped.
pub open spec fn escaped(s: Seq<char>) -> Seq<char>
    decreases s.len(),
{
    if s.len() == 0 {
        Seq::empty()
    } else {
        escaped(s.drop_last()) + escape_char(s.last())
    }
}

/// A text value as a quoted string.
pub open spec fn quoted(s: Seq<char>) -> Seq<char> {
    seq!['"'] + escaped(s) + seq!['"']
}

/// The JSON text of a value: no white space, object fields in their order.
pub open spec fn json_text(j: Json) -> Seq<char>
    decreases j,
{
    match j {
        Json::Bool(b) => if b { "true"@ } else { "false"@ },
        Json::Int(i) => int_text(i),
        Json::Str(s) => quoted(s),
        Json::Array(items) => seq!['['] + items_text(items) + seq![']'],
        Json::Object(fields) => seq!['{'] + fields_text(fields) + seq!['}'],
    }
}

/// The JSON texts of a sequence of values, separated by commas.
pub open spec fn items_text(items: Seq<Json>) -> Seq<char>
    decreases items,
{
    if items.len() == 0 {
        Seq::empty()
    } else if items.len() == 1 {
        json_text(items[0])
    } else {
        items_text(items.drop_last()) + seq![','] + json_text(items.last())
    }
}

/// The JSON texts of a sequence of fields, each as `"name":value`, separated by commas.
pub open spec fn fields_text(fields: Seq<(Seq<char>, Json)>) -> Seq<char>
    decreases fields,
{
    if fields.len() == 0 {
        Seq::empty()
    } else if fields.len() == 1 {
        quoted(fields[0].0) + seq![':'] + json_text(fields[0].1)
    } else {
        fields_text(fields.drop_last()) + seq![','] + quoted(fields.last().0) + seq![':']
            + json_text(fields.last().1)
    }
}

/// Relies on String::push: the character is appended at the end.
#[verifier::external_body]
fn push_char(out: &mut String, c: char)
    ensures
        final(out)@ == old(out)@.push(c),
{
    out.push(c);
}

/// The lower-case hexadecimal digit for a value below sixteen.
fn digit_char(d: u64) -> (c: char)
    requires
        d < 16,
    ensures
        c == hex_digit(d as int),
{
    if d == 0 { '0' }
    else if d == 1 { '1' }
    else if d == 2 { '2' }
    else if d == 3 { '3' }
    else if d == 4 { '4' }
    else if d == 5 { '5' }
    else if d == 6 { '6' }
    else if d == 7 { '7' }
    else if d == 8 { '8' }
    else if d == 9 { '9' }
    else if d == 10 { 'a' }
    else if d == 11 { 'b' }
    else if d == 12 { 'c' }
    else if d == 13 { 'd' }
    else if d == 14 { 'e' }
    else { 'f' }
}

/// Writes the decimal digits of `n`.
fn write_nat(n: u64, out: &mut String)
    ensures
        final(out)@ == old(out)@ + nat_text(n as nat),
    decreases n,
{
    if n >= 10 {
        write_nat(n / 10, out);
    }
    push_char(out, digit_char(n % 10));
    assert(final(out)@ =~= old(out)@ + nat_text(n as nat));
}

/// Writes the decimal text of `i`.
fn write_int(i: i64, out: &mut String)
    ensures
        final(out)@ == old(out)@ + int_text(i as int),
{
    if i < 0 {
        push_char(out, '-');
        let m: u64 = (-(i as i128)) as u64;
        write_nat(m, out);
        assert(final(out)@ =~= old(out)@ + int_text(i as int));
    } else {
        write_nat(i as u64, out);
    }
}

/// Writes one character of a text value, escaped.
fn write_char(c: char, out: &mut String)
    ensures
        final(out)@ == old(out)@ + escape_char(c),
{
    let ghost start = out@;
    if c == '"' {
        push_char(out, '\\');
        push_char(out, '"');
    } else if c == '\\' {
        push_char(out, '\\');
        push_char(out, '\\');
    } else if c == '\n' {
        push_char(out, '\\');
        push_char(out, 'n');
    } else if c == '\r' {
        push_char(out, '\\');
        push_char(out, 'r');
    } else if c == '\t' {
        push_char(out, '\\');
        push_char(out, 't');
    } else if c == '\u{8}' {
        push_char(out, '\\');
        push_char(out, 'b');
    } else if c == '\u{c}' {
        push_char(out, '\\');
        push_char(out, 'f');
    } else if (c as u32) < 0x20 {
        push_char(out, '\\');
        push_char(out, 'u');
        push_char(out, '0');
        push_char(out, '0');
        push_char(out, digit_char((c as u32 / 16) as u64));
        push_char(out, digit_char((c as u32 % 16) as u64));
    } else {
        push_char(out, c);
    }
    assert(out@ =~= start + escape_char(c));
}

/// Writes a text value as a quoted, escaped string.
fn write_quoted(s: &String, out: &mut String)
    ensures
        final(out)@ == old(out)@ + quoted(s@),
{
    let ghost start = out@;
    push_char(out, '"');
    for c in it: s.as_str().chars()
        invariant
            it.seq() == s@,
            out@ == start + seq!['"'] + escaped(s@.take(it.index() as int)),
    {
        let ghost before = s@.take(it.index() as int);
        write_char(c, out);
        proof {
            let after = s@.take(it.index() + 1);
            assert(after.drop_last() =~= before);
        }
    }
    assert(s@.take(s@.len() as int) =~= s@);
    push_char(out, '"');
    assert(out@ =~= start + quoted(s@));
}

/// The models of a sequence of values line up with the values, one for one.
pub proof fn lemma_items_view(items: Seq<Value>)
    ensures
        items_view(items).len() == items.len(),
        forall|i: int| 0 <= i < items.len() ==> #[trigger] items_view(items)[i] == items[i]@,
    decreases items.len(),
{
    if items.len() > 0 {
        lemma_items_view(items.drop_last());
        assert(items_view(items) == items_view(items.drop_last()).push(items.last()@));
        assert forall|i: int| 0 <= i < items.len() implies #[trigger] items_view(items)[i]
            == items[i]@ by {
            if i < items.len() - 1 {
                assert(items.drop_last()[i] == items[i]);
                assert(items_view(items.drop_last())[i] == items[i]@);
            }
        }
    }
}

/// The models of a sequence of fields line up with the fields, one for one.
pub proof fn lemma_fields_view(fields: Seq<(String, Value)>)
    ensures
        fields_view(fields).len() == fields.len(),
        forall|i: int|
            0 <= i < fields.len() ==> #[trigger] fields_view(fields)[i] == (
                fields[i].0@,
                fields[i].1@,
            ),
    decreases fields.len(),
{
    if fields.len() > 0 {
        lemma_fields_view(fields.drop_last());
        assert(fields_view(fields) == fields_view(fields.drop_last()).push((fields.last().0@, fields.last().1@)));
        assert forall|i: int| 0 <= i < fields.len() implies #[trigger] fields_view(fields)[i] == (
            fields[i].0@,
            fields[i].1@,
        ) by {
            if i < fields.len() - 1 {
                assert(fields.drop_last()[i] == fields[i]);
                assert(fields_view(fields.drop_last())[i] == (fields[i].0@, fields[i].1@));
            }
        }
    }
}

/// Writes the JSON text of a value.
fn write_value(v: &Value, out: &mut String)
    ensures
        final(out)@ == old(out)@ + json_text(v@),
    decreases v@,
{
    let ghost start = out@;
    match v {
        Value::Bool(b) => {
            if *b {
                out.append("true");
            } else {
                out.append("false");
            }
        },
        Value::Int(i) => {
            write_int(*i, out);
        },
        Value::Str(s) => {
            write_quoted(s, out);
        },
        Value::Array(items) => {
            let ghost js = items_view(items@);
            proof {
                lemma_items_view(items@);
            }
            push_char(out, '[');
            let mut i: usize = 0;
            while i < items.len()
                invariant
                    i <= items.len(),
                    *v == Value::Array(*items),
                    v@ == Json::Array(js),
                    js == items_view(items@),
                    js.len() == items.len(),
                    forall|k: int| 0 <= k < items.len() ==> #[trigger] js[k] == items@[k]@,
                    out@ == start + seq!['['] + items_text(js.take(i as int)),
                decreases items.len() - i,
            {
                let ghost before = out@;
                if i > 0 {
                    push_char(out, ',');
                }
                proof {
                    assert(decreases_to!(v@ => v@->Array_0));
                    assert(decreases_to!(js => js[i as int]));
                    assert(decreases_to!(v@ => items@[i as int]@));
                }
                write_value(&items[i], out);
                proof {
                    let next = js.take(i + 1);
                    assert(next.drop_last() =~= js.take(i as int));
                    assert(next.last() == js[i as int]);
                    if i == 0 {
                        assert(next.len() == 1);
                        assert(items_text(js.take(0)) =~= Seq::<char>::empty());
                    }
                    assert(out@ =~= start + seq!['['] + items_text(next));
                }
                i = i + 1;
            }
            assert(js.take(items.len() as int) =~= js);
            push_char(out, ']');
        },
        Value::Object(fields) => {
            let ghost fs = fields_view(fields@);
            proof {
                lemma_fields_view(fields@);
            }
            push_char(out, '{');
            let mut i: usize = 0;
            while i < fields.len()
                invariant
                    i <= fields.len(),
                    *v == Value::Object(*fields),
                    v@ == Json::Object(fs),
                    fs == fields_view(fields@),
                    fs.len() == fields.len(),
                    forall|k: int|
                        0 <= k < fields.len() ==> #[trigger] fs[k] == (fields@[k].0@, fields@[k].1@),
                    out@ == start + seq!['{'] + fields_text(fs.take(i as int)),
                decreases fields.len() - i,
            {
                if i > 0 {
                    push_char(out, ',');
                }
                write_quoted(&fields[i].0, out);
                push_char(out, ':');
                proof {
                    assert(decreases_to!(v@ => v@->Object_0));
                    assert(decreases_to!(fs => fs[i as int]));
                    assert(decreases_to!(fs[i as int] => fs[i as int].1));
                    assert(decreases_to!(v@ => fields@[i as int].1@));
                }
                write_value(&fields[i].1, out);
                proof {
                    let next = fs.take(i + 1);
                    assert(next.drop_last() =~= fs.take(i as int));
                    assert(next.last() == fs[i as int]);
                    if i == 0 {
                        assert(next.len() == 1);
                        assert(fields_text(fs.take(0)) =~= Seq::<char>::empty());
                    }
                    assert(out@ =~= start + seq!['{'] + fields_text(next));
                }
                i = i + 1;
            }
            assert(fs.take(fields.len() as int) =~= fs);
            push_char(out, '}');
        },
    }
    assert(out@ =~= start + json_text(v@));
}

impl Value {
    /// The JSON text of the rendered form: no white space, object fields in
    /// their order, arrays in their order.
    pub fn to_json(&self) -> (r: String)
        ensures
            r@ == json_text(self@),
    {
        let mut out = String::new();
        write_value(self, &mut out);
        assert(out@ =~= json_text(self@));
        out
    }
}

/// Renders a component and writes its rendered form as JSON text.
pub fn render_json<T: Render>(x: &T) -> (r: String)
    ensures
        r@ == json_text(x.model()),
{
    x.render().to_json()
}

} // verus!
