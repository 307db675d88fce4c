use vstd::prelude::*;
use crate::episode::{field_names, HeaderCheck, FIELD_COUNT};
use crate::json::{array_text, document_text, episode_json, escaped, json_quoted, object_text};
use crate::table::{csv_rows, header_ok, parsed_episodes, table_ok};

verus! {

/// The eight field names are pairwise distinct, so an episode object has
/// eight different keys.
pub proof fn lemma_field_names_distinct()
    ensures
        field_names().len() == FIELD_COUNT,
        forall|i: int, j: int|
            0 <= i < j < FIELD_COUNT ==> field_names()[i] != field_names()[j],
{
    reveal_strlit("show");
    reveal_strlit("season");
    reveal_strlit("episode_n");
    reveal_strlit("season_n");
    reveal_strlit("title");
    reveal_strlit("director");
    reveal_strlit("writer");
    reveal_strlit("air_date");
    let f = field_names();
    assert forall|i: int, j: int| 0 <= i < j < FIELD_COUNT implies f[i] != f[j] by {
        if f[i].len() == f[j].len() {
            assert(f[i][0] != f[j][0]);
        }
    }
}

/// Shape: a well-formed table with N data rows gives a JSON array of exactly
/// N elements, each the object whose keys are the field names, in column
/// order, and whose values are JSON strings.
pub proof fn lemma_document_shape(data: Seq<u8>, rows: Seq<Seq<Seq<char>>>, check: HeaderCheck)
    requires
        csv_rows(data) == Some(rows),
        table_ok(rows, check),
    ensures
        parsed_episodes(data, check) is Some,
        ({
            let episodes = parsed_episodes(data, check)->Some_0;
            let objects = episodes.map_values(|e: Seq<Seq<char>>| episode_json(e));
            &&& episodes.len() == rows.len() - 1
            &&& objects.len() == rows.len() - 1
            &&& document_text(episodes) == array_text(objects)
            &&& forall|k: int|
                0 <= k < objects.len() ==> #[trigger] objects[k] == object_text(
                    Seq::new(FIELD_COUNT as nat, |i: int| json_quoted(rows[k + 1][i])),
                )
        }),
{
    let episodes = parsed_episodes(data, check)->Some_0;
    let objects = episodes.map_values(|e: Seq<Seq<char>>| episode_json(e));
    assert forall|k: int| 0 <= k < objects.len() implies #[trigger] objects[k] == object_text(
        Seq::new(FIELD_COUNT as nat, |i: int| json_quoted(rows[k + 1][i])),
    ) by {
        assert(rows[k + 1].len() == FIELD_COUNT);
        assert(episodes[k].map_values(|f: Seq<char>| json_quoted(f)) =~= Seq::new(
            FIELD_COUNT as nat,
            |i: int| json_quoted(rows[k + 1][i]),
        ));
    }
}

/// Order: the k-th element of the document is the object of the k-th data
/// row, for every k.
pub proof fn lemma_order_kept(data: Seq<u8>, rows: Seq<Seq<Seq<char>>>, check: HeaderCheck)
    requires
        csv_rows(data) == Some(rows),
        table_ok(rows, check),
    ensures
        ({
            let episodes = parsed_episodes(data, check)->Some_0;
            document_text(episodes) == array_text(
                Seq::new(
                    (rows.len() - 1) as nat,
                    |k: int| episode_json(rows[k + 1]),
                ),
            )
        }),
{
    let episodes = parsed_episodes(data, check)->Some_0;
    assert(episodes.map_values(|e: Seq<Seq<char>>| episode_json(e)) =~= Seq::new(
        (rows.len() - 1) as nat,
        |k: int| episode_json(rows[k + 1]),
    ));
}

/// Whether `c` stands for itself inside a JSON string.
pub open spec fn plain_char(c: char) -> bool {
    c != '"' && c != '\\' && (c as u32) >= 0x20
}

/// Text made only of characters that JSON does not escape is written
/// between quotes exactly as it is.
pub proof fn lemma_plain_text_unescaped(s: Seq<char>)
    requires
        forall|i: int| 0 <= i < s.len() ==> plain_char(#[trigger] s[i]),
    ensures
        escaped(s) == s,
        json_quoted(s) == seq!['"'] + s + seq!['"'],
    decreases s.len(),
{
    if s.len() > 0 {
        lemma_plain_text_unescaped(s.drop_last());
        assert(plain_char(s[s.len() - 1]));
        assert(s.drop_last() + seq![s.last()] =~= s);
    } else {
        assert(escaped(s) =~= s);
    }
}

/// Verbatim values: each field of each episode is the text of its cell,
/// unchanged, and a value with no character that JSON escapes appears in
/// the document between quotes exactly as it is.
pub proof fn lemma_values_verbatim(data: Seq<u8>, rows: Seq<Seq<Seq<char>>>, check: HeaderCheck)
    requires
        csv_rows(data) == Some(rows),
        table_ok(rows, check),
    ensures
        ({
            let episodes = parsed_episodes(data, check)->Some_0;
            forall|k: int, i: int|
                0 <= k < episodes.len() && 0 <= i < FIELD_COUNT ==> {
                    &&& #[trigger] episodes[k][i] == rows[k + 1][i]
                    &&& (forall|j: int|
                        0 <= j < episodes[k][i].len() ==> plain_char(#[trigger] episodes[k][i][j]))
                        ==> json_quoted(episodes[k][i]) == seq!['"'] + rows[k + 1][i] + seq!['"']
                }
        }),
{
    let episodes = parsed_episodes(data, check)->Some_0;
    assert forall|k: int, i: int| 0 <= k < episodes.len() && 0 <= i < FIELD_COUNT implies {
        &&& #[trigger] episodes[k][i] == rows[k + 1][i]
        &&& (forall|j: int|
            0 <= j < episodes[k][i].len() ==> plain_char(#[trigger] episodes[k][i][j]))
            ==> json_quoted(episodes[k][i]) == seq!['"'] + rows[k + 1][i] + seq!['"']
    } by {
        if forall|j: int| 0 <= j < episodes[k][i].len() ==> plain_char(#[trigger] episodes[k][i][j]) {
            lemma_plain_text_unescaped(episodes[k][i]);
        }
    }
}

/// A table with a header and no data row gives the document `[]`.
pub proof fn lemma_header_only_is_empty_array(
    data: Seq<u8>,
    rows: Seq<Seq<Seq<char>>>,
    check: HeaderCheck,
)
    requires
        csv_rows(data) == Some(rows),
        rows.len() == 1,
        header_ok(rows[0], check),
    ensures
        parsed_episodes(data, check) == Some(Seq::<Seq<Seq<char>>>::empty()),
        document_text(parsed_episodes(data, check)->Some_0) == "[]"@,
{
    reveal_strlit("[");
    reveal_strlit("]");
    reveal_strlit("[]");
    assert(rows.drop_first() =~= Seq::<Seq<Seq<char>>>::empty());
    let objects = Seq::<Seq<Seq<char>>>::empty().map_values(|e: Seq<Seq<char>>| episode_json(e));
    assert(objects =~= Seq::<Seq<char>>::empty());
    assert(array_text(objects) =~= "[]"@);
}

/// A data row with a cell too many or too few makes the table malformed,
/// whatever the other rows hold.
pub proof fn lemma_wrong_width_rejected(
    data: Seq<u8>,
    rows: Seq<Seq<Seq<char>>>,
    check: HeaderCheck,
    k: int,
)
    requires
        csv_rows(data) == Some(rows),
        1 <= k < rows.len(),
        rows[k].len() != FIELD_COUNT,
    ensures
        parsed_episodes(data, check) is None,
{
    assert(!table_ok(rows, check));
}

} // verus!
