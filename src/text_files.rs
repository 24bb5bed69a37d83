//! What the text files of a frame hold: one file per category, one line per
//! line record.
use vstd::prelude::*;
use crate::decimal::{digits_of, push_digits};
use crate::ocr_json::pairs_view;

verus! {

/// Which reconstruction of a frame a text file holds.
#[derive(Clone, Copy, Debug, PartialEq, Eq, Structural)]
pub enum TextCategory {
    New,
    Current,
    Previous,
}

pub open spec fn category_prefix(c: TextCategory) -> Seq<char> {
    match c {
        TextCategory::New => seq!['n', 'e', 'w', '_', 't', 'e', 'x', 't', '_'],
        TextCategory::Current => seq!['c', 'u', 'r', 'r', 'e', 'n', 't', '_', 't', 'e', 'x', 't', '_'],
        TextCategory::Previous => seq!['p', 'r', 'e', 'v', 'i', 'o', 'u', 's', '_', 't', 'e', 'x', 't', '_'],
    }
}

/// The name of a frame's text file: `<category>_text_<frame>.txt`.
pub open spec fn file_name_of(c: TextCategory, frame_number: u64) -> Seq<char> {
    category_prefix(c) + digits_of(frame_number as nat) + seq!['.', 't', 'x', 't']
}

/// The value under the key `text` in a record's members (the first such
/// member), or the empty text when there is none.
pub open spec fn text_of(row: Seq<(Seq<char>, Seq<char>)>) -> Seq<char>
    decreases row.len(),
{
    if row.len() == 0 {
        seq![]
    } else if row[0].0 == seq!['t', 'e', 'x', 't'] {
        row[0].1
    } else {
        text_of(row.drop_first())
    }
}

/// The lines of a text file: the text of each record, in order.
pub open spec fn lines_of_rows(rows: Seq<Vec<(String, String)>>) -> Seq<Seq<char>> {
    rows.map_values(|row: Vec<(String, String)>| text_of(pairs_view(row@)))
}

pub open spec fn strings_view(v: Seq<String>) -> Seq<Seq<char>> {
    v.map_values(|s: String| s@)
}

/// The name of the text file of `category` for a frame.
pub fn text_file_name(category: TextCategory, frame_number: u64) -> (r: String)
    ensures
        r@ == file_name_of(category, frame_number),
{
    proof {
        reveal_strlit("new_text_");
        reveal_strlit("current_text_");
        reveal_strlit("previous_text_");
        reveal_strlit(".txt");
    }
    let mut name = match category {
        TextCategory::New => String::from_str("new_text_"),
        TextCategory::Current => String::from_str("current_text_"),
        TextCategory::Previous => String::from_str("previous_text_"),
    };
    push_digits(&mut name, frame_number as u128);
    name.append(".txt");
    assert(name@ =~= file_name_of(category, frame_number));
    name
}

/// The text of one record.
pub fn record_text(row: &Vec<(String, String)>) -> (r: String)
    ensures
        r@ == text_of(pairs_view(row@)),
{
    proof {
        reveal_strlit("text");
    }
    let key = String::from_str("text");
    let n = row.len();
    let mut i: usize = 0;
    assert(pairs_view(row@).skip(0) =~= pairs_view(row@));
    while i < n
        invariant
            n == row@.len(),
            0 <= i <= n,
            key@ == seq!['t', 'e', 'x', 't'],
            text_of(pairs_view(row@)) == text_of(pairs_view(row@).skip(i as int)),
        decreases n - i,
    {
        let ghost rest = pairs_view(row@).skip(i as int);
        assert(rest[0] == (row@[i as int].0@, row@[i as int].1@));
        if row[i].0 == key {
            return row[i].1.clone();
        }
        assert(rest.drop_first() =~= pairs_view(row@).skip(i + 1));
        i = i + 1;
    }
    String::new()
}

/// The lines of a text file for a sequence of records.
pub fn text_lines(rows: &Vec<Vec<(String, String)>>) -> (r: Vec<String>)
    ensures
        strings_view(r@) == lines_of_rows(rows@),
{
    let mut lines: Vec<String> = Vec::new();
    let n = rows.len();
    let mut i: usize = 0;
    while i < n
        invariant
            n == rows@.len(),
            0 <= i <= n,
            strings_view(lines@) == lines_of_rows(rows@).take(i as int),
        decreases n - i,
    {
        let line = record_text(&rows[i]);
        let ghost before = lines@;
        lines.push(line);
        assert(strings_view(lines@) =~= strings_view(before).push(line@));
        assert(strings_view(lines@) =~= lines_of_rows(rows@).take(i + 1));
        i = i + 1;
    }
    assert(strings_view(lines@) =~= lines_of_rows(rows@));
    lines
}

/// The text files of a frame, each a name and its lines: the new and the
/// current text always, the previous text when there is one.
pub fn plan_text_files(
    frame_number: u64,
    new_text: &Vec<Vec<(String, String)>>,
    current_text: &Vec<Vec<(String, String)>>,
    previous_text: &Option<Vec<Vec<(String, String)>>>,
) -> (r: Vec<(String, Vec<String>)>)
    ensures
        r@.len() == if previous_text is Some { 3int } else { 2int },
        r@[0].0@ == file_name_of(TextCategory::New, frame_number),
        strings_view(r@[0].1@) == lines_of_rows(new_text@),
        r@[1].0@ == file_name_of(TextCategory::Current, frame_number),
        strings_view(r@[1].1@) == lines_of_rows(current_text@),
        previous_text matches Some(p) ==> r@[2].0@ == file_name_of(TextCategory::Previous, frame_number),
        previous_text matches Some(p) ==> strings_view(r@[2].1@) == lines_of_rows(p@),
{
    let mut files: Vec<(String, Vec<String>)> = Vec::new();
    files.push((text_file_name(TextCategory::New, frame_number), text_lines(new_text)));
    files.push((text_file_name(TextCategory::Current, frame_number), text_lines(current_text)));
    match previous_text {
        Some(p) => files.push((text_file_name(TextCategory::Previous, frame_number), text_lines(p))),
        None => {},
    }
    files
}

} // verus!
