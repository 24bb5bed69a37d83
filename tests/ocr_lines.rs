use screenpipe_vision::ocr::{
    data_output_to_text, reconstruct_lines, LinePosition, LineRecord, OcrEngine, OcrToken,
};
use screenpipe_vision::ocr_json::{data_output_to_json, json_rows};

const PERCENT: i32 = 1_000_000;

fn pos(level: i32, line: i32) -> LinePosition {
    LinePosition { level, page_num: 1, block_num: 1, par_num: 1, line_num: line }
}

fn token(level: i32, line: i32, word: i32, text: &str, conf: i32) -> OcrToken {
    OcrToken { position: pos(level, line), word_num: word, conf, text: text.to_string() }
}

fn hello_world() -> Vec<OcrToken> {
    vec![
        token(4, 1, 0, "", -PERCENT),
        token(5, 1, 1, "hello", 90 * PERCENT),
        token(5, 1, 2, "world", 80 * PERCENT),
        token(4, 1, 0, "", -PERCENT),
    ]
}

#[test]
fn grouping_yields_one_line() {
    let lines = reconstruct_lines(&hello_world());
    assert_eq!(lines.len(), 1);
    assert_eq!(lines[0].text, "hello world");
    assert_eq!(lines[0].word_count, 2);
    assert_eq!(lines[0].conf_sum, 170 * PERCENT as i128);
    assert_eq!(lines[0].confidence(), 8500);
    assert_eq!(lines[0].confidence_text(), "85.00");
    assert_eq!(lines[0].position, pos(5, 1));
}

#[test]
fn trailing_line_is_flushed() {
    let tokens = vec![
        token(4, 1, 0, "", -PERCENT),
        token(5, 1, 1, "first", 90 * PERCENT),
        token(4, 2, 0, "", -PERCENT),
        token(5, 2, 1, "second", 70 * PERCENT),
        token(5, 2, 2, "line", 60 * PERCENT),
    ];
    let lines = reconstruct_lines(&tokens);
    assert_eq!(lines.len(), 2);
    assert_eq!(lines[0].text, "first");
    assert_eq!(lines[0].position, pos(5, 1));
    assert_eq!(lines[1].text, "second line");
    assert_eq!(lines[1].position, pos(5, 2));
    assert_eq!(lines[1].confidence_text(), "65.00");
}

#[test]
fn trailing_single_word_is_flushed() {
    let tokens = vec![token(4, 1, 0, "", -PERCENT), token(5, 1, 1, "hello", 90 * PERCENT)];
    let json = data_output_to_json(&tokens);
    assert_eq!(
        json,
        "[\n  {\n    \"confidence\": \"90.00\",\n    \"line_position\": \"level5page_num1block_num1par_num1line_num1\",\n    \"text\": \"hello\"\n  }\n]"
    );
}

#[test]
fn empty_stream_gives_nothing() {
    let tokens: Vec<OcrToken> = Vec::new();
    assert!(reconstruct_lines(&tokens).is_empty());
    assert_eq!(data_output_to_text(&tokens), "");
    assert_eq!(data_output_to_json(&tokens), "[]");
}

#[test]
fn non_increasing_word_numbers_are_skipped() {
    let tokens = vec![
        token(5, 1, 1, "a", 10 * PERCENT),
        token(5, 1, 2, "b", 20 * PERCENT),
        token(5, 1, 2, "again", 50 * PERCENT),
        token(5, 1, 1, "back", 50 * PERCENT),
        token(5, 1, 3, "c", 30 * PERCENT),
    ];
    let lines = reconstruct_lines(&tokens);
    assert_eq!(lines.len(), 1);
    assert_eq!(lines[0].text, "a b c");
    assert_eq!(lines[0].word_count, 3);
    assert_eq!(lines[0].confidence_text(), "20.00");
}

#[test]
fn first_word_of_unmarked_line_is_dropped() {
    let tokens = vec![
        token(5, 1, 1, "a", 90 * PERCENT),
        token(5, 1, 2, "b", 80 * PERCENT),
        token(5, 2, 1, "c", 70 * PERCENT),
    ];
    let lines = reconstruct_lines(&tokens);
    assert_eq!(lines.len(), 1);
    assert_eq!(lines[0].text, "a b");
    assert_eq!(lines[0].confidence_text(), "85.00");
}

#[test]
fn marker_without_words_closes_nothing() {
    let tokens = vec![token(4, 1, 0, "", -PERCENT), token(4, 2, 0, "", -PERCENT)];
    assert!(reconstruct_lines(&tokens).is_empty());
}

#[test]
fn confidence_rounds_to_hundredths() {
    let p = pos(5, 1);
    let rec = LineRecord { text: "x".to_string(), conf_sum: 10_000, word_count: 2, position: p };
    assert_eq!(rec.confidence(), 1);
    assert_eq!(rec.confidence_text(), "0.01");
    let rec = LineRecord { text: "x".to_string(), conf_sum: 30_015_900, word_count: 3, position: p };
    assert_eq!(rec.confidence_text(), "10.01");
    let rec = LineRecord { text: "x".to_string(), conf_sum: 99_970_000, word_count: 3, position: p };
    assert_eq!(rec.confidence_text(), "33.32");
    let rec = LineRecord { text: "x".to_string(), conf_sum: -1_000_000, word_count: 1, position: p };
    assert_eq!(rec.confidence_text(), "-1.00");
    let rec = LineRecord { text: "x".to_string(), conf_sum: -50_000, word_count: 1, position: p };
    assert_eq!(rec.confidence_text(), "-0.05");
}

#[test]
fn position_descriptor_lists_all_numbers() {
    let p = LinePosition { level: 4, page_num: 1, block_num: 12, par_num: 3, line_num: -7 };
    assert_eq!(p.describe(), "level4page_num1block_num12par_num3line_num-7");
}

#[test]
fn full_text_joins_non_empty_tokens() {
    let tokens = vec![
        token(4, 1, 0, "", -PERCENT),
        token(5, 1, 1, "hello", 90 * PERCENT),
        token(5, 1, 1, "", 90 * PERCENT),
        token(5, 1, 2, "world", 80 * PERCENT),
        token(5, 1, 1, "again", 80 * PERCENT),
    ];
    assert_eq!(data_output_to_text(&tokens), "hello world again");
}

#[test]
fn json_of_lines() {
    let json = data_output_to_json(&hello_world());
    let expected = "[\n  {\n    \"confidence\": \"85.00\",\n    \"line_position\": \"level5page_num1block_num1par_num1line_num1\",\n    \"text\": \"hello world\"\n  }\n]";
    assert_eq!(json, expected);
}

#[test]
fn json_rows_name_each_field() {
    let rows = json_rows(&reconstruct_lines(&hello_world()));
    assert_eq!(rows.len(), 1);
    assert_eq!(rows[0][0], ("text".to_string(), "hello world".to_string()));
    assert_eq!(rows[0][1], ("confidence".to_string(), "85.00".to_string()));
    assert_eq!(
        rows[0][2],
        ("line_position".to_string(), "level5page_num1block_num1par_num1line_num1".to_string())
    );
}

#[test]
fn json_escapes_text() {
    let tokens = vec![token(5, 3, 1, "say \"hi\"", 50 * PERCENT)];
    let json = data_output_to_json(&tokens);
    assert_eq!(
        json,
        "[\n  {\n    \"confidence\": \"50.00\",\n    \"line_position\": \"level5page_num1block_num1par_num1line_num3\",\n    \"text\": \"say \\\"hi\\\"\"\n  }\n]"
    );
}

#[test]
fn default_engine_is_tesseract() {
    assert_eq!(OcrEngine::default(), OcrEngine::Tesseract);
}
