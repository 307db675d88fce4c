use streamdata::convert::convert;
use streamdata::episode::{field_name, ConvertError, FlatEpisode, HeaderCheck, FIELD_COUNT};
use streamdata::json::{episode_object, episode_objects, json_array, json_object, quote, render_episodes};
use streamdata::table::{check_header, episodes_from_rows, parse_episodes};

const HEADER: &str = "show,season,episode_n,season_n,title,director,writer,air_date\n";

fn table(rows: &[&str]) -> Vec<u8> {
    let mut s = String::from(HEADER);
    for r in rows {
        s.push_str(r);
        s.push('\n');
    }
    s.into_bytes()
}

fn strings(v: &[&str]) -> Vec<String> {
    v.iter().map(|s| s.to_string()).collect()
}

fn episode(values: &[&str]) -> FlatEpisode {
    FlatEpisode::from_row(&strings(values))
}

#[test]
fn example_scenario() {
    let data = table(&["Foo,1,1,1,Pilot,Jane Doe,John Roe,2020-01-01"]);
    let out = convert(&data, HeaderCheck::ExactNames).unwrap();
    assert_eq!(
        out,
        "[{\"show\":\"Foo\",\"season\":\"1\",\"episode_n\":\"1\",\"season_n\":\"1\",\"title\":\"Pilot\",\"director\":\"Jane Doe\",\"writer\":\"John Roe\",\"air_date\":\"2020-01-01\"}]"
    );
}

#[test]
fn header_only_gives_empty_array() {
    let data = table(&[]);
    assert_eq!(convert(&data, HeaderCheck::ExactNames).unwrap(), "[]");
    assert_eq!(convert(&data, HeaderCheck::ColumnCount).unwrap(), "[]");
}

#[test]
fn empty_input_has_no_header() {
    assert_eq!(convert(b"", HeaderCheck::ColumnCount), Err(ConvertError::ParseError));
    assert_eq!(convert(b"", HeaderCheck::ExactNames), Err(ConvertError::ParseError));
}

#[test]
fn row_with_seven_fields_is_rejected() {
    let data = table(&[
        "Foo,1,1,1,Pilot,Jane Doe,John Roe,2020-01-01",
        "Foo,1,2,1,Second,Jane Doe,2020-01-08",
    ]);
    assert_eq!(convert(&data, HeaderCheck::ExactNames), Err(ConvertError::ParseError));
    assert!(parse_episodes(&data, HeaderCheck::ColumnCount).is_err());
}

#[test]
fn row_with_nine_fields_is_rejected() {
    let data = table(&["Foo,1,1,1,Pilot,Jane Doe,John Roe,2020-01-01,extra"]);
    assert_eq!(convert(&data, HeaderCheck::ExactNames), Err(ConvertError::ParseError));
    assert_eq!(convert(&data, HeaderCheck::ColumnCount), Err(ConvertError::ParseError));
}

#[test]
fn values_are_kept_verbatim() {
    let data = table(&["The Show, Revisited , S1 ,01,1,PILOT,jane doe,  John Roe,1994-09-22"]);
    // the first cell ends at the first comma: nine cells, rejected
    assert_eq!(convert(&data, HeaderCheck::ExactNames), Err(ConvertError::ParseError));
    let data = table(&["\"The Show, Revisited \", S1 ,01,1,PILOT,jane doe,  John Roe,1994-09-22"]);
    let eps = parse_episodes(&data, HeaderCheck::ExactNames).unwrap();
    assert_eq!(eps.len(), 1);
    let e = &eps[0];
    assert_eq!(e.show, "The Show, Revisited ");
    assert_eq!(e.season, " S1 ");
    assert_eq!(e.episode_n, "01");
    assert_eq!(e.season_n, "1");
    assert_eq!(e.title, "PILOT");
    assert_eq!(e.director, "jane doe");
    assert_eq!(e.writer, "  John Roe");
    assert_eq!(e.air_date, "1994-09-22");
    let out = convert(&data, HeaderCheck::ExactNames).unwrap();
    assert!(out.contains("\"air_date\":\"1994-09-22\""));
    assert!(out.contains("\"episode_n\":\"01\""));
    assert!(out.contains("\"show\":\"The Show, Revisited \""));
}

#[test]
fn rows_keep_their_order() {
    let data = table(&[
        "A,1,1,1,One,D1,W1,2020-01-01",
        "B,1,2,1,Two,D2,W2,2020-01-08",
        "C,2,1,2,Three,D3,W3,2020-02-01",
    ]);
    let eps = parse_episodes(&data, HeaderCheck::ExactNames).unwrap();
    let shows: Vec<&str> = eps.iter().map(|e| e.show.as_str()).collect();
    assert_eq!(shows, vec!["A", "B", "C"]);
    let out = convert(&data, HeaderCheck::ExactNames).unwrap();
    let a = out.find("\"One\"").unwrap();
    let b = out.find("\"Two\"").unwrap();
    let c = out.find("\"Three\"").unwrap();
    assert!(a < b && b < c);
    assert_eq!(out.matches("{").count(), 3);
    assert_eq!(out.matches("\"air_date\":").count(), 3);
    assert!(out.starts_with("[{") && out.ends_with("}]"));
}

#[test]
fn quotes_are_escaped_in_json() {
    let data = table(&["Foo,1,1,1,\"He said \"\"hi\"\"\",Jane,John,2020-01-01"]);
    let eps = parse_episodes(&data, HeaderCheck::ExactNames).unwrap();
    assert_eq!(eps[0].title, "He said \"hi\"");
    let out = convert(&data, HeaderCheck::ExactNames).unwrap();
    assert!(out.contains("\"title\":\"He said \\\"hi\\\"\""));
}

#[test]
fn header_names_checked_when_exact() {
    let data = b"name,season,episode_n,season_n,title,director,writer,air_date\nFoo,1,1,1,Pilot,J,W,2020-01-01\n";
    assert_eq!(convert(data, HeaderCheck::ExactNames), Err(ConvertError::ParseError));
    let out = convert(data, HeaderCheck::ColumnCount).unwrap();
    assert!(out.starts_with("[{\"show\":\"Foo\""));
}

#[test]
fn header_width_checked_always() {
    let data = b"show,season,episode_n,season_n,title,director,writer\nFoo,1,1,1,Pilot,J,W,2020-01-01\n";
    assert_eq!(convert(data, HeaderCheck::ColumnCount), Err(ConvertError::ParseError));
    assert_eq!(convert(data, HeaderCheck::ExactNames), Err(ConvertError::ParseError));
}

#[test]
fn invalid_utf8_is_a_parse_error() {
    let mut data = table(&[]);
    data.extend_from_slice(&[0xff, 0xfe, b',', b'\n']);
    assert_eq!(convert(&data, HeaderCheck::ColumnCount), Err(ConvertError::ParseError));
}

#[test]
fn check_header_cases() {
    let good = strings(&["show", "season", "episode_n", "season_n", "title", "director", "writer", "air_date"]);
    assert!(check_header(&good, HeaderCheck::ExactNames));
    assert!(check_header(&good, HeaderCheck::ColumnCount));
    let reordered = strings(&["season", "show", "episode_n", "season_n", "title", "director", "writer", "air_date"]);
    assert!(!check_header(&reordered, HeaderCheck::ExactNames));
    assert!(check_header(&reordered, HeaderCheck::ColumnCount));
    assert!(!check_header(&good[..7].to_vec(), HeaderCheck::ColumnCount));
}

#[test]
fn episodes_from_rows_cases() {
    let header = strings(&["show", "season", "episode_n", "season_n", "title", "director", "writer", "air_date"]);
    let row = strings(&["a", "b", "c", "d", "e", "f", "g", "h"]);
    let eps = episodes_from_rows(&vec![header.clone(), row.clone()], HeaderCheck::ExactNames).unwrap();
    assert_eq!(eps.len(), 1);
    assert_eq!(eps[0].values(), row);
    assert_eq!(episodes_from_rows(&vec![], HeaderCheck::ColumnCount).unwrap_err(), ConvertError::ParseError);
    let short = strings(&["a"]);
    assert_eq!(
        episodes_from_rows(&vec![header, row, short], HeaderCheck::ExactNames).unwrap_err(),
        ConvertError::ParseError
    );
}

#[test]
fn field_names_in_order() {
    let names: Vec<&str> = (0..FIELD_COUNT).map(field_name).collect();
    assert_eq!(names.join(","), HEADER.trim_end());
}

#[test]
fn json_array_frames_elements() {
    assert_eq!(json_array(&vec![]), "[]");
    assert_eq!(json_array(&strings(&["1"])), "[1]");
    assert_eq!(json_array(&strings(&["{}", "\"x\"", "2"])), "[{},\"x\",2]");
}

#[test]
fn json_object_uses_field_names() {
    let values = strings(&["1", "2", "3", "4", "5", "6", "7", "8"]);
    assert_eq!(
        json_object(&values),
        "{\"show\":1,\"season\":2,\"episode_n\":3,\"season_n\":4,\"title\":5,\"director\":6,\"writer\":7,\"air_date\":8}"
    );
}

#[test]
fn episode_object_quotes_values() {
    let e = episode(&["S", "1", "2", "3", "T\\", "D", "W", "2001-01-01"]);
    assert_eq!(
        episode_object(&e),
        "{\"show\":\"S\",\"season\":\"1\",\"episode_n\":\"2\",\"season_n\":\"3\",\"title\":\"T\\\\\",\"director\":\"D\",\"writer\":\"W\",\"air_date\":\"2001-01-01\"}"
    );
}

#[test]
fn episode_objects_and_render_agree() {
    let eps = vec![
        episode(&["a", "1", "1", "1", "t1", "d", "w", "x"]),
        episode(&["b", "1", "2", "1", "t2", "d", "w", "y"]),
    ];
    let objs = episode_objects(&eps);
    assert_eq!(objs.len(), 2);
    assert_eq!(objs[0], episode_object(&eps[0]));
    assert_eq!(objs[1], episode_object(&eps[1]));
    assert_eq!(render_episodes(&eps), format!("[{},{}]", objs[0], objs[1]));
    assert_eq!(render_episodes(&vec![]), "[]");
    assert!(episode_objects(&vec![]).is_empty());
}

#[test]
fn quote_escapes_as_json() {
    assert_eq!(quote(""), "\"\"");
    assert_eq!(quote("Pilot"), "\"Pilot\"");
    assert_eq!(quote("a\"b\\c"), "\"a\\\"b\\\\c\"");
    assert_eq!(quote("\u{8}\t\n\u{c}\r"), "\"\\b\\t\\n\\f\\r\"");
    assert_eq!(quote("\u{1}\u{1f}"), "\"\\u0001\\u001f\"");
    assert_eq!(quote("caf\u{e9} /"), "\"caf\u{e9} /\"");
}

#[test]
fn example_row_gives_its_object() {
    let data = table(&["Foo,1,1,1,Pilot,Jane Doe,John Roe,2020-01-01"]);
    let eps = parse_episodes(&data, HeaderCheck::ExactNames).unwrap();
    assert_eq!(
        episode_objects(&eps),
        vec![r#"{"show":"Foo","season":"1","episode_n":"1","season_n":"1","title":"Pilot","director":"Jane Doe","writer":"John Roe","air_date":"2020-01-01"}"#.to_string()]
    );
}

#[test]
fn header_only_gives_no_objects() {
    let eps = parse_episodes(&table(&[]), HeaderCheck::ExactNames).unwrap();
    assert!(episode_objects(&eps).is_empty());
}

#[test]
fn quoted_cells_survive_escaping() {
    let data = table(&["Foo,1,1,1,\"Say \"\"Hi\"\"\",\"Doe, Jane\",John Roe, 1994-09-22"]);
    let eps = parse_episodes(&data, HeaderCheck::ExactNames).unwrap();
    assert_eq!(eps[0].title, "Say \"Hi\"");
    assert_eq!(eps[0].director, "Doe, Jane");
    assert_eq!(eps[0].air_date, " 1994-09-22");
    let obj = &episode_objects(&eps)[0];
    assert!(obj.contains(r#""title":"Say \"Hi\"""#));
    assert!(obj.contains(r#""director":"Doe, Jane""#));
    assert!(obj.contains(r#""air_date":" 1994-09-22""#));
}

#[test]
fn numbers_stay_strings() {
    let data = table(&["Foo,1,01,1,Pilot,Jane Doe,John Roe,1994-09-22"]);
    let out = convert(&data, HeaderCheck::ExactNames).unwrap();
    assert!(out.contains(r#""episode_n":"01""#));
    assert!(out.contains(r#""season_n":"1""#));
    assert!(out.contains(r#""air_date":"1994-09-22""#));
}

#[test]
fn empty_cells_are_kept() {
    let data = table(&["Foo,,,,,,,"]);
    let eps = parse_episodes(&data, HeaderCheck::ExactNames).unwrap();
    assert_eq!(
        episode_objects(&eps),
        vec![r#"{"show":"Foo","season":"","episode_n":"","season_n":"","title":"","director":"","writer":"","air_date":""}"#.to_string()]
    );
}
