//! JSON text of requests and log records. Objects are written field by field;
//! strings are quoted and escaped by `serde_json`.
use crate::text::{
    join, joined, lemma_texts_push, needed_places, needed_places_of, push_fixed, push_int, push_nat,
    texts,
};
use vstd::prelude::*;

verus! {

/// The JSON string, with its quotes, that `serde_json` writes for a text.
pub uninterp spec fn json_string(s: Seq<char>) -> Seq<char>;

/// `serde_json::Value::to_string` on a string value: the text quoted and
/// escaped, a function of the text.
#[verifier::external_body]
fn quote(s: &str) -> (q: String)
    ensures
        q@ == json_string(s@),
{
    serde_json::Value::from(s).to_string()
}

/// A field of an object: its name and the JSON text of its value.
pub open spec fn field(name: Seq<char>, value: Seq<char>) -> Seq<char> {
    "\""@ + name + "\":"@ + value
}

/// An object with the given fields.
pub open spec fn object_text(fields: Seq<Seq<char>>) -> Seq<char> {
    "{"@ + joined(fields, ","@) + "}"@
}

/// The JSON number of an amount: at least one digit behind the point.
pub open spec fn decimal_text(v: int) -> Seq<char> {
    let places = needed_places(crate::fixed::abs_of(v) as nat, 8);
    crate::text::fixed_text(
        v,
        if places == 0 {
            1
        } else {
            places
        },
    )
}

/// The JSON text of a truth value.
pub open spec fn flag_text(b: bool) -> Seq<char> {
    if b {
        "true"@
    } else {
        "false"@
    }
}

/// `fields` with one more, where there is a value.
pub open spec fn with_optional(
    fields: Seq<Seq<char>>,
    name: Seq<char>,
    value: Option<Seq<char>>,
) -> Seq<Seq<char>> {
    match value {
        Some(v) => fields.push(field(name, v)),
        None => fields,
    }
}

/// The JSON number of an optional integer.
pub open spec fn int_value(v: Option<i64>) -> Option<Seq<char>> {
    match v {
        Some(i) => Some(crate::text::int_text(i as int)),
        None => None,
    }
}

/// The JSON number of an optional price.
pub open spec fn price_value(v: Option<u64>) -> Option<Seq<char>> {
    match v {
        Some(p) => Some(decimal_text(p as int)),
        None => None,
    }
}

/// The JSON text of an optional price.
pub open spec fn price_or_null(v: Option<u64>) -> Seq<char> {
    match v {
        Some(p) => decimal_text(p as int),
        None => "null"@,
    }
}

/// The JSON number of an optional percentage.
pub open spec fn pct_value(v: Option<i128>) -> Option<Seq<char>> {
    match v {
        Some(p) => Some(decimal_text(p as int)),
        None => None,
    }
}

/// The JSON string of an optional text.
pub open spec fn string_value(v: Option<String>) -> Option<Seq<char>> {
    match v {
        Some(s) => Some(json_string(s@)),
        None => None,
    }
}

/// The fields of an object under construction.
pub struct Fields {
    pub parts: Vec<String>,
}

impl Fields {
    pub open spec fn view(&self) -> Seq<Seq<char>> {
        texts(self.parts@)
    }

    /// No fields.
    pub fn new() -> (f: Fields)
        ensures
            f@ == Seq::<Seq<char>>::empty(),
    {
        let f = Fields { parts: Vec::new() };
        assert(f@ =~= Seq::<Seq<char>>::empty());
        f
    }

    /// Adds a field whose value is JSON text.
    pub fn put(&mut self, name: &str, value: &str)
        ensures
            final(self)@ == old(self)@.push(field(name@, value@)),
    {
        let mut part = "\"".to_owned();
        part.append(name);
        part.append("\":");
        part.append(value);
        proof {
            lemma_texts_push(self.parts@, part);
        }
        self.parts.push(part);
    }

    /// Adds a field whose value is a string.
    pub fn put_string(&mut self, name: &str, value: &str)
        ensures
            final(self)@ == old(self)@.push(field(name@, json_string(value@))),
    {
        let q = quote(value);
        self.put(name, q.as_str());
    }

    /// Adds a field whose value is a truth value.
    pub fn put_flag(&mut self, name: &str, value: bool)
        ensures
            final(self)@ == old(self)@.push(field(name@, flag_text(value))),
    {
        if value {
            self.put(name, "true");
        } else {
            self.put(name, "false");
        }
    }

    /// Adds a field whose value is a natural number.
    pub fn put_nat(&mut self, name: &str, value: u64)
        ensures
            final(self)@ == old(self)@.push(field(name@, crate::text::nat_text(value as nat))),
    {
        let mut t = String::new();
        push_nat(&mut t, value as u128);
        assert(t@ =~= crate::text::nat_text(value as nat));
        self.put(name, t.as_str());
    }

    /// Adds a field whose value is an amount or a percentage.
    pub fn put_decimal(&mut self, name: &str, value: i128)
        ensures
            final(self)@ == old(self)@.push(field(name@, decimal_text(value as int))),
    {
        let mut t = String::new();
        let places: usize = needed_places_of(value);
        push_fixed(
            &mut t,
            value,
            if places == 0 {
                1
            } else {
                places
            },
        );
        assert(t@ =~= decimal_text(value as int));
        self.put(name, t.as_str());
    }

    /// Adds a field whose value is a price, or null where there is none.
    pub fn put_price_or_null(&mut self, name: &str, value: Option<u64>)
        ensures
            final(self)@ == old(self)@.push(field(name@, price_or_null(value))),
    {
        match value {
            Some(v) => self.put_decimal(name, v as i128),
            None => self.put(name, "null"),
        }
    }

    /// Adds a field whose value is an integer, where there is one.
    pub fn put_int_if(&mut self, name: &str, value: Option<i64>)
        ensures
            final(self)@ == with_optional(old(self)@, name@, int_value(value)),
    {
        if let Some(v) = value {
            let mut t = String::new();
            push_int(&mut t, v);
            assert(t@ =~= crate::text::int_text(v as int));
            self.put(name, t.as_str());
        }
    }

    /// Adds a field whose value is a price, where there is one.
    pub fn put_price_if(&mut self, name: &str, value: Option<u64>)
        ensures
            final(self)@ == with_optional(old(self)@, name@, price_value(value)),
    {
        if let Some(v) = value {
            self.put_decimal(name, v as i128);
        }
    }

    /// Adds a field whose value is a percentage, where there is one.
    pub fn put_pct_if(&mut self, name: &str, value: Option<i128>)
        ensures
            final(self)@ == with_optional(old(self)@, name@, pct_value(value)),
    {
        if let Some(v) = value {
            self.put_decimal(name, v);
        }
    }

    /// Adds a field whose value is a string, where there is one.
    pub fn put_string_if(&mut self, name: &str, value: &Option<String>)
        ensures
            final(self)@ == with_optional(old(self)@, name@, string_value(*value)),
    {
        if let Some(v) = value {
            self.put_string(name, v.as_str());
        }
    }

    /// The object with these fields.
    pub fn object(&self) -> (s: String)
        ensures
            s@ == object_text(self@),
    {
        let mut out = "{".to_owned();
        let body = crate::text::join(&self.parts, ",");
        out.append(body.as_str());
        out.append("}");
        out
    }
}

/// An array with the given items, each JSON text.
pub open spec fn array_text(items: Seq<Seq<char>>) -> Seq<char> {
    "["@ + joined(items, ","@) + "]"@
}

/// The JSON strings of texts.
pub open spec fn quoted(items: Seq<Seq<char>>) -> Seq<Seq<char>> {
    Seq::new(items.len(), |i: int| json_string(items[i]))
}

/// An array of strings.
pub fn string_array(items: &Vec<String>) -> (s: String)
    ensures
        s@ == array_text(quoted(texts(items@))),
{
    let mut parts: Vec<String> = Vec::new();
    let mut i: usize = 0;
    while i < items.len()
        invariant
            i <= items@.len(),
            texts(parts@) =~= quoted(texts(items@)).take(i as int),
        decreases items@.len() - i,
    {
        let q = quote(items[i].as_str());
        proof {
            lemma_texts_push(parts@, q);
        }
        parts.push(q);
        i = i + 1;
    }
    assert(quoted(texts(items@)).take(i as int) =~= quoted(texts(items@)));
    let body = join(&parts, ",");
    let mut s = "[".to_owned();
    s.append(body.as_str());
    s.append("]");
    s
}

/// A text as a JSON string.
pub fn string_text(s: &str) -> (q: String)
    ensures
        q@ == json_string(s@),
{
    quote(s)
}

} // verus!
