use vstd::prelude::*;

verus! {

/// Number of columns of an episode table.
pub const FIELD_COUNT: usize = 8;

/// The column names, in the order that both the table header and the JSON
/// objects use.
pub open spec fn field_names() -> Seq<Seq<char>> {
    seq![
        "show"@,
        "season"@,
        "episode_n"@,
        "season_n"@,
        "title"@,
        "director"@,
        "writer"@,
        "air_date"@,
    ]
}

/// The name of column `i`.
pub fn field_name(i: usize) -> (r: &'static str)
    requires
        i < FIELD_COUNT,
    ensures
        r@ == field_names()[i as int],
{
    match i {
        0 => "show",
        1 => "season",
        2 => "episode_n",
        3 => "season_n",
        4 => "title",
        5 => "director",
        6 => "writer",
        _ => "air_date",
    }
}

/// One row of the table. Every value is text, exactly as it stood in its cell.
#[derive(Debug)]
pub struct FlatEpisode {
    pub show: String,
    pub season: String,
    pub episode_n: String,
    pub season_n: String,
    pub title: String,
    pub director: String,
    pub writer: String,
    pub air_date: String,
}

impl View for FlatEpisode {
    /// The eight values, in column order.
    type V = Seq<Seq<char>>;

    open spec fn view(&self) -> Seq<Seq<char>> {
        seq![
            self.show@,
            self.season@,
            self.episode_n@,
            self.season_n@,
            self.title@,
            self.director@,
            self.writer@,
            self.air_date@,
        ]
    }
}

/// The values of a sequence of episodes.
pub open spec fn episodes_view(v: Seq<FlatEpisode>) -> Seq<Seq<Seq<char>>> {
    v.map_values(|e: FlatEpisode| e@)
}

impl FlatEpisode {
    /// Builds an episode from the eight cells of a row, taken positionally.
    pub fn from_row(row: &Vec<String>) -> (r: FlatEpisode)
        requires
            row.len() == FIELD_COUNT,
        ensures
            r@ == row.deep_view(),
    {
        let r = FlatEpisode {
            show: row[0].clone(),
            season: row[1].clone(),
            episode_n: row[2].clone(),
            season_n: row[3].clone(),
            title: row[4].clone(),
            director: row[5].clone(),
            writer: row[6].clone(),
            air_date: row[7].clone(),
        };
        assert(r@ =~= row.deep_view());
        r
    }

    /// The eight values, in column order.
    pub fn values(&self) -> (r: Vec<String>)
        ensures
            r.deep_view() == self@,
    {
        let r = vec![
            self.show.clone(),
            self.season.clone(),
            self.episode_n.clone(),
            self.season_n.clone(),
            self.title.clone(),
            self.director.clone(),
            self.writer.clone(),
            self.air_date.clone(),
        ];
        assert(r.deep_view() =~= self@);
        r
    }
}

/// How strictly the header row is checked.
#[derive(Clone, Copy, Debug, PartialEq, Eq, Structural)]
pub enum HeaderCheck {
    /// The header must have as many columns as an episode has fields.
    ColumnCount,
    /// The header must name the columns exactly, in order.
    ExactNames,
}

/// What can go wrong in a conversion.
#[derive(Clone, Copy, Debug, PartialEq, Eq, Structural)]
pub enum ConvertError {
    /// The input could not be opened.
    FileNotFound,
    /// The input is not a well-formed episode table.
    ParseError,
    /// The output could not be written.
    WriteError,
}

} // verus!
