use vstd::prelude::*;
use crate::episode::{episodes_view, field_name, field_names, FlatEpisode, FIELD_COUNT};

verus! {

#[verifier::external_type_specification]
#[verifier::external_body]
pub struct ExJsonError(serde_json::Error);

/// The lower-case hexadecimal digits.
pub open spec fn hex_digits() -> Seq<char> {
    seq!['0', '1', '2', '3', '4', '5', '6', '7', '8', '9', 'a', 'b', 'c', 'd', 'e', 'f']
}

/// How one character stands inside a JSON string: `"` and `\` get a
/// backslash, the control characters with a short escape take it, the other
/// control characters become `\u00` and two hex digits, and every other
/// character stands as it is.
pub open spec fn escaped_char(c: char) -> Seq<char> {
    if c == '"' {
        seq!['\\', '"']
    } else if c == '\\' {
        seq!['\\', '\\']
    } else if c == '\u{8}' {
        seq!['\\', 'b']
    } else if c == '\t' {
        seq!['\\', 't']
    } else if c == '\n' {
        seq!['\\', 'n']
    } else if c == '\u{c}' {
        seq!['\\', 'f']
    } else if c == '\r' {
        seq!['\\', 'r']
    } else if (c as u32) < 0x20 {
        seq![
            '\\',
            'u',
            '0',
            '0',
            hex_digits()[(c as int) / 16],
            hex_digits()[(c as int) % 16],
        ]
    } else {
        seq![c]
    }
}

/// The characters of `s`, each escaped for a JSON string.
pub open spec fn escaped(s: Seq<char>) -> Seq<char>
    decreases s.len(),
{
    if s.len() == 0 {
        Seq::empty()
    } else {
        escaped(s.drop_last()) + escaped_char(s.last())
    }
}

/// The JSON string literal for the text `s`, quotes included.
pub open spec fn json_quoted(s: Seq<char>) -> Seq<char> {
    seq!['"'] + escaped(s) + seq!['"']
}

/// Relies on serde_json::to_string on a `str`: it writes the text as one
/// JSON string, escaped as `escaped_char` says, into a `Vec`, which cannot
/// fail.
#[verifier::external_body]
fn encode_str(s: &str) -> (r: Result<String, serde_json::Error>)
    ensures
        r is Ok,
        r is Ok ==> r->Ok_0@ == json_quoted(s@),
{
    serde_json::to_string(s)
}

/// The JSON string literal for `s`.
pub fn quote(s: &str) -> (r: String)
    ensures
        r@ == json_quoted(s@),
{
    match encode_str(s) {
        Ok(q) => q,
        Err(_) => vstd::pervasive::unreached(),
    }
}

/// `parts` with `sep` between each two neighbours.
pub open spec fn join(parts: Seq<Seq<char>>, sep: Seq<char>) -> Seq<char>
    decreases parts.len(),
{
    if parts.len() == 0 {
        Seq::empty()
    } else if parts.len() == 1 {
        parts[0]
    } else {
        join(parts.drop_last(), sep) + sep + parts.last()
    }
}

/// The JSON array whose elements are the JSON texts `elems`, without spaces.
pub open spec fn array_text(elems: Seq<Seq<char>>) -> Seq<char> {
    "["@ + join(elems, ","@) + "]"@
}

/// The member `"key":value` of a JSON object, where `value` is JSON text.
pub open spec fn member_text(key: Seq<char>, value: Seq<char>) -> Seq<char> {
    "\""@ + key + "\":"@ + value
}

/// The members of an episode object: each field name with its JSON value.
pub open spec fn members(values: Seq<Seq<char>>) -> Seq<Seq<char>> {
    Seq::new(FIELD_COUNT as nat, |i: int| member_text(field_names()[i], values[i]))
}

/// The JSON object whose keys are the field names, in column order, and whose
/// values are the JSON texts `values`, without spaces.
pub open spec fn object_text(values: Seq<Seq<char>>) -> Seq<char> {
    "{"@ + join(members(values), ","@) + "}"@
}

/// The JSON object for an episode with the values `fields`: each value
/// becomes a JSON string.
pub open spec fn episode_json(fields: Seq<Seq<char>>) -> Seq<char> {
    object_text(fields.map_values(|f: Seq<char>| json_quoted(f)))
}

/// The JSON document for a sequence of episodes: an array of their objects,
/// in order.
pub open spec fn document_text(episodes: Seq<Seq<Seq<char>>>) -> Seq<char> {
    array_text(episodes.map_values(|e: Seq<Seq<char>>| episode_json(e)))
}

proof fn lemma_join_push(parts: Seq<Seq<char>>, sep: Seq<char>, i: int)
    requires
        0 <= i < parts.len(),
    ensures
        join(parts.take(i + 1), sep) == if i == 0 {
            parts[0]
        } else {
            join(parts.take(i), sep) + sep + parts[i]
        },
{
    assert(parts.take(i + 1).drop_last() =~= parts.take(i));
}

/// Appends `parts`, separated by commas, to `out`.
fn push_joined(out: &mut String, parts: &Vec<String>)
    ensures
        final(out)@ == old(out)@ + join(parts.deep_view(), ","@),
{
    let ghost start = out@;
    let ghost all = parts.deep_view();
    let mut i: usize = 0;
    while i < parts.len()
        invariant
            i <= parts.len(),
            all == parts.deep_view(),
            out@ == start + join(all.take(i as int), ","@),
        decreases parts.len() - i,
    {
        proof {
            lemma_join_push(all, ","@, i as int);
        }
        if i > 0 {
            out.append(",");
        }
        out.append(parts[i].as_str());
        i = i + 1;
    }
    assert(all.take(i as int) =~= all);
}

/// Writes the JSON array whose elements are the JSON texts `elems`.
pub fn json_array(elems: &Vec<String>) -> (r: String)
    ensures
        r@ == array_text(elems.deep_view()),
{
    let mut out = String::from_str("[");
    push_joined(&mut out, elems);
    out.append("]");
    out
}

/// Writes the JSON object whose keys are the field names, in column order,
/// and whose values are the JSON texts `values`.
pub fn json_object(values: &Vec<String>) -> (r: String)
    requires
        values.len() == FIELD_COUNT,
    ensures
        r@ == object_text(values.deep_view()),
{
    let mut parts: Vec<String> = Vec::new();
    let mut i: usize = 0;
    while i < FIELD_COUNT
        invariant
            i <= FIELD_COUNT,
            values.len() == FIELD_COUNT,
            parts.len() == i,
            forall|j: int|
                0 <= j < i ==> #[trigger] parts@[j]@ == members(values.deep_view())[j],
        decreases FIELD_COUNT - i,
    {
        let mut m = String::from_str("\"");
        m.append(field_name(i));
        m.append("\":");
        m.append(values[i].as_str());
        parts.push(m);
        i = i + 1;
    }
    assert(parts.deep_view() =~= members(values.deep_view()));
    let mut out = String::from_str("{");
    push_joined(&mut out, &parts);
    out.append("}");
    out
}

/// Writes the JSON object of an episode: each value as a JSON string.
pub fn episode_object(e: &FlatEpisode) -> (r: String)
    ensures
        r@ == episode_json(e@),
{
    let values = e.values();
    let mut encoded: Vec<String> = Vec::new();
    let mut i: usize = 0;
    while i < values.len()
        invariant
            i <= values.len(),
            values.deep_view() == e@,
            encoded.len() == i,
            forall|j: int| 0 <= j < i ==> #[trigger] encoded@[j]@ == json_quoted(e@[j]),
        decreases values.len() - i,
    {
        encoded.push(quote(values[i].as_str()));
        i = i + 1;
    }
    assert(encoded.deep_view() =~= e@.map_values(|f: Seq<char>| json_quoted(f)));
    json_object(&encoded)
}

/// Writes the JSON object of each episode, in order.
pub fn episode_objects(episodes: &Vec<FlatEpisode>) -> (r: Vec<String>)
    ensures
        r.deep_view() == episodes_view(episodes@).map_values(
            |e: Seq<Seq<char>>| episode_json(e),
        ),
{
    let mut objects: Vec<String> = Vec::new();
    let mut k: usize = 0;
    while k < episodes.len()
        invariant
            k <= episodes.len(),
            objects.len() == k,
            forall|j: int| 0 <= j < k ==> #[trigger] objects@[j]@ == episode_json(episodes@[j]@),
        decreases episodes.len() - k,
    {
        objects.push(episode_object(&episodes[k]));
        k = k + 1;
    }
    assert(objects.deep_view() =~= episodes_view(episodes@).map_values(
        |e: Seq<Seq<char>>| episode_json(e),
    ));
    objects
}

/// Writes the JSON document for `episodes`: one array, one object per
/// episode, in order.
pub fn render_episodes(episodes: &Vec<FlatEpisode>) -> (r: String)
    ensures
        r@ == document_text(episodes_view(episodes@)),
{
    let objects = episode_objects(episodes);
    json_array(&objects)
}

} // verus!
