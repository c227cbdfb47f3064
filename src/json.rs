//! Compact JSON text, assembled from pieces whose text is known.
use vstd::prelude::*;

verus! {

/// The JSON text of a string value: quoted and escaped.
pub uninterp spec fn json_string_text(s: Seq<char>) -> Seq<char>;

/// Decimal digits of a natural number, without leading zeros.
pub open spec fn decimal_text(n: nat) -> Seq<char>
    decreases n,
{
    if n < 10 {
        seq![digit_char(n)]
    } else {
        decimal_text(n / 10).push(digit_char(n % 10))
    }
}

pub open spec fn digit_char(d: nat) -> char {
    if d == 0 { '0' }
    else if d == 1 { '1' }
    else if d == 2 { '2' }
    else if d == 3 { '3' }
    else if d == 4 { '4' }
    else if d == 5 { '5' }
    else if d == 6 { '6' }
    else if d == 7 { '7' }
    else if d == 8 { '8' }
    else { '9' }
}

/// Items separated by commas.
pub open spec fn comma_joined(items: Seq<Seq<char>>) -> Seq<char>
    decreases items.len(),
{
    if items.len() == 0 {
        Seq::empty()
    } else if items.len() == 1 {
        items[0]
    } else {
        comma_joined(items.drop_last()) + ","@ + items.last()
    }
}

/// `"key":value`
pub open spec fn member_text(key: Seq<char>, value: Seq<char>) -> Seq<char> {
    json_string_text(key) + ":"@ + value
}

pub open spec fn member_texts(members: Seq<(Seq<char>, Seq<char>)>) -> Seq<Seq<char>> {
    members.map_values(|m: (Seq<char>, Seq<char>)| member_text(m.0, m.1))
}

/// A JSON object with the given members, in the given order.
pub open spec fn object_text(members: Seq<(Seq<char>, Seq<char>)>) -> Seq<char> {
    "{"@ + comma_joined(member_texts(members)) + "}"@
}

/// A JSON array of the given element texts.
pub open spec fn array_text(items: Seq<Seq<char>>) -> Seq<char> {
    "["@ + comma_joined(items) + "]"@
}

pub open spec fn bool_text(b: bool) -> Seq<char> {
    if b { "true"@ } else { "false"@ }
}

pub open spec fn null_text() -> Seq<char> {
    "null"@
}

/// The JSON text of an optional string: the string, or `null`.
pub open spec fn opt_string_text(s: Option<Seq<char>>) -> Seq<char> {
    match s {
        Some(t) => json_string_text(t),
        None => null_text(),
    }
}

pub open spec fn pair_views(v: Seq<(String, String)>) -> Seq<(Seq<char>, Seq<char>)> {
    v.map_values(|p: (String, String)| (p.0@, p.1@))
}

pub open spec fn string_views(v: Seq<String>) -> Seq<Seq<char>> {
    v.map_values(|s: String| s@)
}

/// Relies on serde_json: a `Value::String` displays as its quoted, escaped JSON text,
/// which depends on the characters alone.
#[verifier::external_body]
pub fn json_string(s: &str) -> (r: String)
    ensures
        r@ == json_string_text(s@),
{
    serde_json::Value::String(s.to_string()).to_string()
}

/// Relies on serde_json: a number made from a `u64` displays as its decimal digits.
#[verifier::external_body]
pub fn json_u64(n: u64) -> (r: String)
    ensures
        r@ == decimal_text(n as nat),
{
    serde_json::Value::from(n).to_string()
}

pub fn json_bool(b: bool) -> (r: String)
    ensures
        r@ == bool_text(b),
{
    if b {
        "true".to_string()
    } else {
        "false".to_string()
    }
}

pub fn json_opt_string(s: &Option<String>) -> (r: String)
    ensures
        r@ == opt_string_text(
            match s {
                Some(t) => Some(t@),
                None => None,
            },
        ),
{
    match s {
        Some(t) => json_string(t.as_str()),
        None => "null".to_string(),
    }
}

/// Joins the texts with commas.
pub fn join_commas(items: &Vec<String>) -> (r: String)
    ensures
        r@ == comma_joined(string_views(items@)),
{
    let mut out = String::new();
    let mut i: usize = 0;
    while i < items.len()
        invariant
            i <= items.len(),
            out@ == comma_joined(string_views(items@).take(i as int)),
        decreases items.len() - i,
    {
        let ghost before = string_views(items@).take(i as int);
        let ghost after = string_views(items@).take(i as int + 1);
        assert(after.drop_last() =~= before);
        if i > 0 {
            out.append(",");
        }
        out.append(items[i].as_str());
        proof {
            if i == 0 {
                assert(before =~= Seq::<Seq<char>>::empty());
                assert(out@ =~= after[0]);
            } else {
                assert(out@ =~= comma_joined(before) + ","@ + after.last());
            }
        }
        i = i + 1;
    }
    assert(string_views(items@).take(items.len() as int) =~= string_views(items@));
    out
}

/// Renders a JSON array whose elements are the given texts.
pub fn render_array(items: &Vec<String>) -> (r: String)
    ensures
        r@ == array_text(string_views(items@)),
{
    let mut out = "[".to_string();
    let inner = join_commas(items);
    out.append(inner.as_str());
    out.append("]");
    out
}

/// Renders a JSON object; each member is a key and the JSON text of its value.
pub fn render_object(members: &Vec<(String, String)>) -> (r: String)
    ensures
        r@ == object_text(pair_views(members@)),
{
    let mut texts: Vec<String> = Vec::new();
    let mut i: usize = 0;
    while i < members.len()
        invariant
            i <= members.len(),
            string_views(texts@) =~= member_texts(pair_views(members@)).take(i as int),
        decreases members.len() - i,
    {
        let mut t = json_string(members[i].0.as_str());
        t.append(":");
        t.append(members[i].1.as_str());
        let ghost before = texts@;
        texts.push(t);
        proof {
            let ms = member_texts(pair_views(members@));
            assert(string_views(texts@) =~= string_views(before).push(t@));
            assert(ms.take(i as int + 1) =~= ms.take(i as int).push(ms[i as int]));
            assert(t@ =~= ms[i as int]);
        }
        i = i + 1;
    }
    assert(member_texts(pair_views(members@)).take(members.len() as int)
        =~= member_texts(pair_views(members@)));
    let mut out = "{".to_string();
    let inner = join_commas(&texts);
    out.append(inner.as_str());
    out.append("}");
    out
}

} // verus!
