use vstd::prelude::*;
use crate::episode::{
    episodes_view, field_name, field_names, ConvertError, FlatEpisode, HeaderCheck, FIELD_COUNT,
};

verus! {

#[verifier::external_type_specification]
#[verifier::external_body]
pub struct ExCsvError(csv::Error);

/// The rows that the csv crate reads from `data` (header included, every row
/// as read, whatever its width), or `None` where it rejects the bytes.
pub uninterp spec fn csv_rows(data: Seq<u8>) -> Option<Seq<Seq<Seq<char>>>>;

/// Relies on csv::ReaderBuilder (no header row set apart, rows of any width)
/// and Reader::deserialize into `Vec<String>`: the rows it reads depend on the
/// bytes alone.
#[verifier::external_body]
fn read_csv_rows(data: &[u8]) -> (r: Result<Vec<Vec<String>>, csv::Error>)
    ensures
        r is Ok <==> csv_rows(data@) is Some,
        r is Ok ==> csv_rows(data@) == Some(r->Ok_0.deep_view()),
{
    let mut rdr = csv::ReaderBuilder::new().has_headers(false).flexible(true).from_reader(data);
    rdr.deserialize().collect()
}

/// Whether `header` is acceptable under `check`.
pub open spec fn header_ok(header: Seq<Seq<char>>, check: HeaderCheck) -> bool {
    match check {
        HeaderCheck::ColumnCount => header.len() == FIELD_COUNT,
        HeaderCheck::ExactNames => header == field_names(),
    }
}

/// Whether `rows` form an episode table: a header acceptable under `check`,
/// then data rows of exactly one cell per field.
pub open spec fn table_ok(rows: Seq<Seq<Seq<char>>>, check: HeaderCheck) -> bool {
    &&& rows.len() >= 1
    &&& header_ok(rows[0], check)
    &&& forall|k: int| 1 <= k < rows.len() ==> #[trigger] rows[k].len() == FIELD_COUNT
}

/// The episodes of a table: its data rows, in order, or `None` where the
/// table is malformed.
pub open spec fn table_episodes(
    rows: Seq<Seq<Seq<char>>>,
    check: HeaderCheck,
) -> Option<Seq<Seq<Seq<char>>>> {
    if table_ok(rows, check) {
        Some(rows.drop_first())
    } else {
        None
    }
}

/// The episodes that the bytes `data` hold, or `None` where they are not a
/// well-formed episode table.
pub open spec fn parsed_episodes(data: Seq<u8>, check: HeaderCheck) -> Option<
    Seq<Seq<Seq<char>>>,
> {
    match csv_rows(data) {
        Some(rows) => table_episodes(rows, check),
        None => None,
    }
}

/// Checks the header row under `check`.
pub fn check_header(header: &Vec<String>, check: HeaderCheck) -> (r: bool)
    ensures
        r == header_ok(header.deep_view(), check),
{
    if header.len() != FIELD_COUNT {
        return false;
    }
    match check {
        HeaderCheck::ColumnCount => true,
        HeaderCheck::ExactNames => {
            let mut i: usize = 0;
            while i < FIELD_COUNT
                invariant
                    i <= FIELD_COUNT,
                    check == HeaderCheck::ExactNames,
                    header.len() == FIELD_COUNT,
                    forall|j: int| 0 <= j < i ==> header.deep_view()[j] == field_names()[j],
                decreases FIELD_COUNT - i,
            {
                let name = String::from_str(field_name(i));
                if header[i] != name {
                    assert(header.deep_view()[i as int] != field_names()[i as int]);
                    return false;
                }
                i = i + 1;
            }
            assert(header.deep_view() =~= field_names());
            true
        },
    }
}

/// Turns the rows of a table into episodes: the first row is the header,
/// each later row gives one episode, its cells taken positionally. Fails
/// where the header is not acceptable under `check` or a data row has a
/// cell too many or too few.
pub fn episodes_from_rows(rows: &Vec<Vec<String>>, check: HeaderCheck) -> (r: Result<
    Vec<FlatEpisode>,
    ConvertError,
>)
    ensures
        r is Ok <==> table_ok(rows.deep_view(), check),
        r is Err ==> r->Err_0 == ConvertError::ParseError,
        r is Ok ==> Some(episodes_view(r->Ok_0@)) == table_episodes(rows.deep_view(), check),
{
    if rows.len() == 0 || !check_header(&rows[0], check) {
        return Err(ConvertError::ParseError);
    }
    let ghost all = rows.deep_view();
    let mut episodes: Vec<FlatEpisode> = Vec::new();
    let mut k: usize = 1;
    while k < rows.len()
        invariant
            1 <= k <= rows.len(),
            all == rows.deep_view(),
            rows.len() >= 1,
            header_ok(all[0], check),
            episodes.len() == k - 1,
            forall|j: int| 1 <= j < k ==> #[trigger] all[j].len() == FIELD_COUNT,
            forall|j: int| 0 <= j < episodes.len() ==> #[trigger] episodes[j]@ == all[j + 1],
        decreases rows.len() - k,
    {
        if rows[k].len() != FIELD_COUNT {
            assert(all[k as int].len() != FIELD_COUNT);
            return Err(ConvertError::ParseError);
        }
        let e = FlatEpisode::from_row(&rows[k]);
        episodes.push(e);
        k = k + 1;
    }
    assert(episodes_view(episodes@) =~= all.drop_first());
    Ok(episodes)
}

/// Reads the episodes of a CSV table. Fails with `ParseError` where the
/// bytes are not CSV text or not a well-formed episode table.
pub fn parse_episodes(data: &[u8], check: HeaderCheck) -> (r: Result<
    Vec<FlatEpisode>,
    ConvertError,
>)
    ensures
        r is Ok <==> parsed_episodes(data@, check) is Some,
        r is Err ==> r->Err_0 == ConvertError::ParseError,
        r is Ok ==> parsed_episodes(data@, check) == Some(episodes_view(r->Ok_0@)),
{
    match read_csv_rows(data) {
        Ok(rows) => episodes_from_rows(&rows, check),
        Err(_) => Err(ConvertError::ParseError),
    }
}

} // verus!
