//! JSON encoding of reconstructed lines and of platform OCR output.
use vstd::prelude::*;
use crate::decimal::centi_text;
use crate::ocr::{
    lines_of, lines_wf, mean_centi, models, position_text, reconstruct_lines, LineModel,
    LineRecord, OcrToken,
};

verus! {

#[verifier::external_type_specification]
#[verifier::external_body]
pub struct ExJsonError(serde_json::Error);

/// The text of the pretty-printed JSON array that holds one object per row.
/// Each object holds the row's (key, value) pairs as string members, sorted
/// by key; of repeated keys the last value stays.
pub uninterp spec fn pretty_json_of(rows: Seq<Seq<(Seq<char>, Seq<char>)>>) -> Seq<char>;

pub open spec fn pairs_view(row: Seq<(String, String)>) -> Seq<(Seq<char>, Seq<char>)> {
    row.map_values(|p: (String, String)| (p.0@, p.1@))
}

pub open spec fn rows_view(rows: Seq<Vec<(String, String)>>) -> Seq<Seq<(Seq<char>, Seq<char>)>> {
    rows.map_values(|row: Vec<(String, String)>| pairs_view(row@))
}

/// The members of the JSON object of a line: its text, its mean confidence
/// with two decimals, and its position descriptor.
pub open spec fn row_of(l: LineModel) -> Seq<(Seq<char>, Seq<char>)> {
    seq![
        (seq!['t', 'e', 'x', 't'], l.text),
        (seq!['c', 'o', 'n', 'f', 'i', 'd', 'e', 'n', 'c', 'e'], centi_text(mean_centi(l.conf_sum, l.word_count))),
        (seq!['l', 'i', 'n', 'e', '_', 'p', 'o', 's', 'i', 't', 'i', 'o', 'n'], position_text(l.position)),
    ]
}

pub open spec fn rows_of(lines: Seq<LineModel>) -> Seq<Seq<(Seq<char>, Seq<char>)>> {
    lines.map_values(|l: LineModel| row_of(l))
}

/// Relies on serde_json::to_string_pretty to print an array of string maps
/// (each row collected into a `BTreeMap`, which sorts the members by key and
/// keeps the last of repeated keys). It fails only where a `Serialize` impl
/// fails or a map has keys that are not strings, neither of which can happen
/// here; the text depends on the rows alone.
#[verifier::external_body]
fn to_pretty_json(rows: &Vec<Vec<(String, String)>>) -> (r: Result<String, serde_json::Error>)
    ensures
        r is Ok,
        r matches Ok(s) ==> s@ == pretty_json_of(rows_view(rows@)),
{
    let objects: Vec<std::collections::BTreeMap<&str, &str>> = rows
        .iter()
        .map(|row| row.iter().map(|(k, v)| (k.as_str(), v.as_str())).collect())
        .collect();
    serde_json::to_string_pretty(&objects)
}

/// The members of the JSON object of one line record.
pub fn line_row(record: &LineRecord) -> (r: Vec<(String, String)>)
    requires
        record@.is_wf(),
    ensures
        pairs_view(r@) == row_of(record@),
{
    proof {
        reveal_strlit("text");
        reveal_strlit("confidence");
        reveal_strlit("line_position");
    }
    let text = record.text.clone();
    let conf = record.confidence_text();
    let mut row: Vec<(String, String)> = Vec::new();
    row.push((String::from_str("text"), text));
    row.push((String::from_str("confidence"), conf));
    assert(pairs_view(row@)[0] == row_of(record@)[0]);
    assert(pairs_view(row@)[1] == row_of(record@)[1]);
    let pos = record.position.describe();
    row.push((String::from_str("line_position"), pos));
    assert(pairs_view(row@)[2] == row_of(record@)[2]);
    assert(pairs_view(row@) =~= row_of(record@));
    row
}

/// The rows of JSON members of a sequence of line records, one per record.
pub fn json_rows(records: &Vec<LineRecord>) -> (r: Vec<Vec<(String, String)>>)
    requires
        lines_wf(models(records@)),
    ensures
        rows_view(r@) == rows_of(models(records@)),
{
    let mut rows: Vec<Vec<(String, String)>> = Vec::new();
    let n = records.len();
    let mut i: usize = 0;
    while i < n
        invariant
            n == records@.len(),
            0 <= i <= n,
            lines_wf(models(records@)),
            rows_view(rows@) == rows_of(models(records@)).take(i as int),
        decreases n - i,
    {
        proof {
            assert(models(records@)[i as int] == records@[i as int]@);
            assert(models(records@)[i as int].is_wf());
        }
        let row = line_row(&records[i]);
        let ghost before = rows@;
        rows.push(row);
        assert(rows_view(rows@) =~= rows_of(models(records@)).take(i + 1)) by {
            assert(rows_view(rows@) =~= rows_view(before).push(pairs_view(row@)));
        }
        i = i + 1;
    }
    assert(rows_view(rows@) =~= rows_of(models(records@)));
    rows
}

/// The line records of a token stream, encoded as a pretty-printed JSON
/// array with one object per line.
pub fn data_output_to_json(tokens: &Vec<OcrToken>) -> (r: String)
    ensures
        r@ == pretty_json_of(rows_of(lines_of(tokens@))),
{
    let lines = reconstruct_lines(tokens);
    let rows = json_rows(&lines);
    to_pretty_json(&rows).unwrap()
}


/// The text of the compact JSON array that holds one object per row. Each
/// object holds the row's (key, value) pairs as string members, sorted by
/// key; of repeated keys the last value stays.
pub uninterp spec fn json_of(rows: Seq<Seq<(Seq<char>, Seq<char>)>>) -> Seq<char>;

/// Relies on serde_json::to_string to print an array of string maps
/// compactly (each row collected into a `BTreeMap`, as above). It fails only
/// where a `Serialize` impl fails or a map has keys that are not strings,
/// neither of which can happen here; the text depends on the rows alone.
#[verifier::external_body]
fn to_compact_json(rows: &Vec<Vec<(String, String)>>) -> (r: Result<String, serde_json::Error>)
    ensures
        r is Ok,
        r matches Ok(s) ==> s@ == json_of(rows_view(rows@)),
{
    let objects: Vec<std::collections::BTreeMap<&str, &str>> = rows
        .iter()
        .map(|row| row.iter().map(|(k, v)| (k.as_str(), v.as_str())).collect())
        .collect();
    serde_json::to_string(&objects)
}

/// The single record of a platform OCR service, which reports no
/// confidence: its text, and `n/a` in place of the confidence.
pub open spec fn native_row(text: Seq<char>) -> Seq<(Seq<char>, Seq<char>)> {
    seq![
        (seq!['t', 'e', 'x', 't'], text),
        (seq!['c', 'o', 'n', 'f', 'i', 'd', 'e', 'n', 'c', 'e'], seq!['n', '/', 'a']),
    ]
}

/// The JSON rows of a platform OCR service's full text: one record.
pub fn native_rows(text: &String) -> (r: Vec<Vec<(String, String)>>)
    ensures
        rows_view(r@) == seq![native_row(text@)],
{
    proof {
        reveal_strlit("text");
        reveal_strlit("confidence");
        reveal_strlit("n/a");
    }
    let mut row: Vec<(String, String)> = Vec::new();
    row.push((String::from_str("text"), text.clone()));
    row.push((String::from_str("confidence"), String::from_str("n/a")));
    assert(pairs_view(row@)[0] == native_row(text@)[0]);
    assert(pairs_view(row@)[1] == native_row(text@)[1]);
    assert(pairs_view(row@) =~= native_row(text@));
    let mut rows: Vec<Vec<(String, String)>> = Vec::new();
    rows.push(row);
    assert(rows_view(rows@) =~= seq![native_row(text@)]);
    rows
}

/// The output of a platform OCR service for its full text: the text itself
/// and a JSON array with the one record of that text.
pub fn native_ocr_output(text: String) -> (r: (String, String))
    ensures
        r.0@ == text@,
        r.1@ == json_of(seq![native_row(text@)]),
{
    let rows = native_rows(&text);
    let json = to_compact_json(&rows).unwrap();
    (text, json)
}

} // verus!
