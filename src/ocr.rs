//! Reconstruction of line records from a flat, word-level OCR token stream.
use vstd::prelude::*;
use crate::decimal::{push_centi, push_int, centi_text, int_text};

verus! {

/// The OCR engine that produced, or should produce, the tokens of a frame.
#[derive(Clone, Debug, PartialEq, Eq, Structural)]
pub enum OcrEngine {
    Unstructured,
    Tesseract,
    WindowsNative,
    AppleNative,
}

impl Default for OcrEngine {
    fn default() -> (r: Self)
        ensures
            r == OcrEngine::Tesseract,
    {
        OcrEngine::Tesseract
    }
}

/// Where a token sits in the page: its level and its page, block,
/// paragraph and line numbers.
#[derive(Clone, Copy, Debug, PartialEq, Eq, Structural)]
pub struct LinePosition {
    pub level: i32,
    pub page_num: i32,
    pub block_num: i32,
    pub par_num: i32,
    pub line_num: i32,
}

/// One word-level record of an OCR backend. A word number of 0 marks a
/// line boundary, not a word. The confidence is in millionths of a percent
/// (`90_000_000` is 90 %).
#[derive(Clone, Debug)]
pub struct OcrToken {
    pub position: LinePosition,
    pub word_num: i32,
    pub conf: i32,
    pub text: String,
}

/// One reconstructed line: the space-joined words, the sum of their
/// confidences (millionths of a percent), how many words contributed, and
/// the line's own position: that of the word that began its text.
#[derive(Clone, Debug)]
pub struct LineRecord {
    pub text: String,
    pub conf_sum: i128,
    pub word_count: u64,
    pub position: LinePosition,
}

/// The mathematical value of a line record.
pub struct LineModel {
    pub text: Seq<char>,
    pub conf_sum: int,
    pub word_count: nat,
    pub position: LinePosition,
}

impl LineModel {
    /// A finished line has a text and at least one word.
    pub open spec fn is_wf(&self) -> bool {
        &&& self.word_count >= 1
        &&& self.text.len() > 0
        &&& sum_fits(self.conf_sum, self.word_count)
    }
}

impl View for LineRecord {
    type V = LineModel;

    open spec fn view(&self) -> LineModel {
        LineModel {
            text: self.text@,
            conf_sum: self.conf_sum as int,
            word_count: self.word_count as nat,
            position: self.position,
        }
    }
}

/// The state of the scan over the tokens: the lines finished so far, the
/// line being accumulated with its position, and the word number of the
/// previous token.
pub struct ScanState {
    pub lines: Seq<LineModel>,
    pub text: Seq<char>,
    pub conf_sum: int,
    pub word_count: nat,
    pub position: LinePosition,
    pub last_word: int,
}

pub open spec fn origin() -> LinePosition {
    LinePosition { level: 0, page_num: 0, block_num: 0, par_num: 0, line_num: 0 }
}

pub open spec fn initial_scan() -> ScanState {
    ScanState {
        lines: seq![],
        text: seq![],
        conf_sum: 0,
        word_count: 0,
        position: origin(),
        last_word: 0,
    }
}

/// `word` appended to `line`, with one space between them when the line is
/// not empty.
pub open spec fn joined(line: Seq<char>, word: Seq<char>) -> Seq<char> {
    if line.len() == 0 {
        word
    } else {
        line + seq![' '] + word
    }
}

/// A boundary marker finishes a non-empty line; a token whose word number
/// is above the previous token's is a word of the line (the first one added
/// to an empty text gives the line its position); every token sets the
/// previous word number.
pub open spec fn scan_step(s: ScanState, t: OcrToken) -> ScanState {
    let closed = if t.word_num == 0 && s.text.len() > 0 {
        ScanState {
            lines: s.lines.push(
                LineModel {
                    text: s.text,
                    conf_sum: s.conf_sum,
                    word_count: s.word_count,
                    position: s.position,
                },
            ),
            text: seq![],
            conf_sum: 0,
            word_count: 0,
            ..s
        }
    } else {
        s
    };
    let added = if t.word_num != 0 && t.word_num > s.last_word {
        ScanState {
            text: joined(closed.text, t.text@),
            conf_sum: closed.conf_sum + t.conf,
            word_count: closed.word_count + 1,
            position: if closed.text.len() == 0 { t.position } else { closed.position },
            ..closed
        }
    } else {
        closed
    };
    ScanState { last_word: t.word_num as int, ..added }
}

pub open spec fn scan(tokens: Seq<OcrToken>) -> ScanState
    decreases tokens.len(),
{
    if tokens.len() == 0 {
        initial_scan()
    } else {
        scan_step(scan(tokens.drop_last()), tokens.last())
    }
}

/// The line records of a token stream: those the markers finished, then the
/// line still open at the end of the stream, if its text is not empty.
pub open spec fn lines_of(tokens: Seq<OcrToken>) -> Seq<LineModel> {
    let s = scan(tokens);
    if s.text.len() > 0 {
        s.lines.push(
            LineModel { text: s.text, conf_sum: s.conf_sum, word_count: s.word_count, position: s.position },
        )
    } else {
        s.lines
    }
}

/// Every record of a reconstruction has at least one word and a non-empty
/// text.
pub open spec fn lines_wf(lines: Seq<LineModel>) -> bool {
    forall|i: int| 0 <= i < lines.len() ==> (#[trigger] lines[i]).is_wf()
}

pub open spec fn scan_wf(s: ScanState) -> bool {
    &&& lines_wf(s.lines)
    &&& s.text.len() > 0 ==> s.word_count >= 1
    &&& sum_fits(s.conf_sum, s.word_count)
}

/// The number of boundary markers among the tokens.
pub open spec fn marker_count(tokens: Seq<OcrToken>) -> nat
    decreases tokens.len(),
{
    if tokens.len() == 0 {
        0
    } else {
        marker_count(tokens.drop_last()) + if tokens.last().word_num == 0 { 1nat } else { 0nat }
    }
}

/// A sum of `count` confidences that each fit in an `i32`.
pub open spec fn sum_fits(sum: int, count: nat) -> bool {
    -(count * 0x8000_0000) <= sum <= count * 0x8000_0000
}

/// The mean of `count` confidences (millionths) that sum to `sum`, in
/// hundredths, rounded to the nearest, halves away from zero.
pub open spec fn mean_centi(sum: int, count: nat) -> int {
    if sum < 0 {
        -((2 * (-sum) + 10000 * count) / (20000 * count as int))
    } else {
        (2 * sum + 10000 * count) / (20000 * count as int)
    }
}

/// The position descriptor of a line, as `level{}page_num{}block_num{}par_num{}line_num{}`.
pub open spec fn position_text(p: LinePosition) -> Seq<char> {
    seq!['l', 'e', 'v', 'e', 'l'] + int_text(p.level as int)
        + seq!['p', 'a', 'g', 'e', '_', 'n', 'u', 'm'] + int_text(p.page_num as int)
        + seq!['b', 'l', 'o', 'c', 'k', '_', 'n', 'u', 'm'] + int_text(p.block_num as int)
        + seq!['p', 'a', 'r', '_', 'n', 'u', 'm'] + int_text(p.par_num as int)
        + seq!['l', 'i', 'n', 'e', '_', 'n', 'u', 'm'] + int_text(p.line_num as int)
}

/// The texts of the tokens that have one, joined by single spaces.
pub open spec fn flat_text(tokens: Seq<OcrToken>) -> Seq<char>
    decreases tokens.len(),
{
    if tokens.len() == 0 {
        seq![]
    } else {
        let pre = flat_text(tokens.drop_last());
        let word = tokens.last().text@;
        if word.len() == 0 {
            pre
        } else {
            joined(pre, word)
        }
    }
}

/// The views of a sequence of records.
pub open spec fn models(records: Seq<LineRecord>) -> Seq<LineModel> {
    records.map_values(|r: LineRecord| r@)
}

proof fn lemma_scan_wf(tokens: Seq<OcrToken>)
    ensures
        scan_wf(scan(tokens)),
        scan(tokens).word_count <= tokens.len(),
        -(tokens.len() * 0x8000_0000) <= scan(tokens).conf_sum <= tokens.len() * 0x8000_0000,
        scan(tokens).lines.len() <= marker_count(tokens),
        forall|i: int| 0 <= i < scan(tokens).lines.len() ==>
            #[trigger] scan(tokens).lines[i].word_count <= tokens.len()
            && -(tokens.len() * 0x8000_0000) <= scan(tokens).lines[i].conf_sum <= tokens.len() * 0x8000_0000,
    decreases tokens.len(),
{
    if tokens.len() > 0 {
        let prev = tokens.drop_last();
        lemma_scan_wf(prev);
        let s = scan(prev);
        let t = tokens.last();
        let r = scan(tokens);
        assert(r == scan_step(s, t));
        assert forall|i: int| 0 <= i < r.lines.len() implies (#[trigger] r.lines[i]).is_wf() by {
            if i < s.lines.len() {
                assert(r.lines[i] == s.lines[i]);
            }
        }
    }
}

proof fn lemma_lines_wf(tokens: Seq<OcrToken>)
    ensures
        lines_wf(lines_of(tokens)),
{
    lemma_scan_wf(tokens);
    let s = scan(tokens);
    let l = lines_of(tokens);
    assert forall|i: int| 0 <= i < l.len() implies (#[trigger] l[i]).is_wf() by {
        if i < s.lines.len() {
            assert(l[i] == s.lines[i]);
        }
    }
}

/// Reconstructs the line records of a token stream, in reading order.
pub fn reconstruct_lines(tokens: &Vec<OcrToken>) -> (r: Vec<LineRecord>)
    ensures
        models(r@) == lines_of(tokens@),
        r@.len() == lines_of(tokens@).len(),
        r@.len() <= marker_count(tokens@) + 1,
        lines_wf(lines_of(tokens@)),
{
    let mut lines: Vec<LineRecord> = Vec::new();
    let mut text = String::new();
    let mut conf_sum: i128 = 0;
    let mut word_count: u64 = 0;
    let mut position = LinePosition { level: 0, page_num: 0, block_num: 0, par_num: 0, line_num: 0 };
    let mut last_word: i32 = 0;
    let n = tokens.len();
    let mut i: usize = 0;
    while i < n
        invariant
            n == tokens@.len(),
            0 <= i <= n,
            models(lines@) == scan(tokens@.take(i as int)).lines,
            text@ == scan(tokens@.take(i as int)).text,
            conf_sum as int == scan(tokens@.take(i as int)).conf_sum,
            word_count as int == scan(tokens@.take(i as int)).word_count,
            position == scan(tokens@.take(i as int)).position,
            last_word as int == scan(tokens@.take(i as int)).last_word,
        decreases n - i,
    {
        let ghost pre = tokens@.take(i as int);
        proof {
            reveal_strlit(" ");
            assert(tokens@.take(i + 1).drop_last() =~= pre);
            lemma_scan_wf(tokens@.take(i + 1));
            lemma_scan_wf(pre);
        }
        let t = &tokens[i];
        if t.word_num == 0 && !text.as_str().is_empty() {
            let ghost old_lines = lines@;
            let done = LineRecord {
                text: text,
                conf_sum: conf_sum,
                word_count: word_count,
                position: position,
            };
            lines.push(done);
            text = String::new();
            conf_sum = 0;
            word_count = 0;
            assert(models(lines@) =~= models(old_lines).push(done@));
        }
        if t.word_num != 0 && t.word_num > last_word {
            if text.as_str().is_empty() {
                position = t.position;
            } else {
                text.append(" ");
            }
            text.append(t.text.as_str());
            conf_sum = conf_sum + t.conf as i128;
            word_count = word_count + 1;
        }
        last_word = t.word_num;
        i = i + 1;
    }
    proof {
        assert(tokens@.take(n as int) =~= tokens@);
        lemma_scan_wf(tokens@);
        lemma_lines_wf(tokens@);
    }
    if !text.as_str().is_empty() {
        let ghost old_lines = lines@;
        let last = LineRecord { text: text, conf_sum: conf_sum, word_count: word_count, position: position };
        lines.push(last);
        assert(models(lines@) =~= models(old_lines).push(last@));
    }
    proof {
        assert(models(lines@) =~= lines_of(tokens@));
    }
    lines
}


impl LinePosition {
    /// The position descriptor of this line.
    pub fn describe(&self) -> (r: String)
        ensures
            r@ == position_text(*self),
    {
        proof {
            reveal_strlit("level");
            reveal_strlit("page_num");
            reveal_strlit("block_num");
            reveal_strlit("par_num");
            reveal_strlit("line_num");
        }
        let mut out = String::new();
        out.append("level");
        push_int(&mut out, self.level as i128);
        out.append("page_num");
        push_int(&mut out, self.page_num as i128);
        out.append("block_num");
        push_int(&mut out, self.block_num as i128);
        out.append("par_num");
        push_int(&mut out, self.par_num as i128);
        out.append("line_num");
        push_int(&mut out, self.line_num as i128);
        assert(out@ =~= position_text(*self));
        out
    }
}

impl LineRecord {
    /// The mean confidence of the line's words, in hundredths.
    pub fn confidence(&self) -> (r: i128)
        requires
            self@.is_wf(),
        ensures
            r == mean_centi(self.conf_sum as int, self.word_count as nat),
    {
        let c = self.word_count as u128;
        if self.conf_sum < 0 {
            let m = (-(self.conf_sum + 1)) as u128 + 1;
            let q = (2 * m + 10000 * c) / (20000 * c);
            -(q as i128)
        } else {
            let m = self.conf_sum as u128;
            let q = (2 * m + 10000 * c) / (20000 * c);
            q as i128
        }
    }

    /// The mean confidence of the line's words, with two decimals.
    pub fn confidence_text(&self) -> (r: String)
        requires
            self@.is_wf(),
        ensures
            r@ == centi_text(mean_centi(self.conf_sum as int, self.word_count as nat)),
    {
        let mut out = String::new();
        push_centi(&mut out, self.confidence());
        assert(out@ =~= centi_text(mean_centi(self.conf_sum as int, self.word_count as nat)));
        out
    }
}

/// The texts of the tokens that have one, in order, joined by single
/// spaces: the full text of a frame.
pub fn data_output_to_text(tokens: &Vec<OcrToken>) -> (r: String)
    ensures
        r@ == flat_text(tokens@),
{
    let mut text = String::new();
    let n = tokens.len();
    let mut i: usize = 0;
    while i < n
        invariant
            n == tokens@.len(),
            0 <= i <= n,
            text@ == flat_text(tokens@.take(i as int)),
        decreases n - i,
    {
        proof {
            reveal_strlit(" ");
            assert(tokens@.take(i + 1).drop_last() =~= tokens@.take(i as int));
        }
        let word = tokens[i].text.as_str();
        if !word.is_empty() {
            if !text.as_str().is_empty() {
                text.append(" ");
            }
            text.append(word);
        }
        i = i + 1;
    }
    proof {
        assert(tokens@.take(n as int) =~= tokens@);
    }
    text
}


/// A stream whose last token is a word, with no boundary marker after it,
/// still ends in a finished line: the last record holds that word at its
/// end, and counts the word.
pub proof fn lemma_trailing_line_kept(tokens: Seq<OcrToken>, word: OcrToken)
    requires
        word.word_num != 0,
        word.word_num > scan(tokens).last_word,
        word.text@.len() > 0,
    ensures
        lines_of(tokens.push(word)).len() == scan(tokens).lines.len() + 1,
        lines_of(tokens.push(word)).last().word_count == scan(tokens).word_count + 1,
        lines_of(tokens.push(word)).last().text.len() >= word.text@.len(),
        lines_of(tokens.push(word)).last().text.subrange(
            lines_of(tokens.push(word)).last().text.len() - word.text@.len(),
            lines_of(tokens.push(word)).last().text.len() as int,
        ) == word.text@,
{
    let all = tokens.push(word);
    assert(all.drop_last() =~= tokens);
    let s = scan(tokens);
    let line = lines_of(all).last();
    if s.text.len() == 0 {
        assert(line.text =~= word.text@);
    } else {
        assert(line.text =~= s.text + seq![' '] + word.text@);
        assert(line.text.subrange(line.text.len() - word.text@.len(), line.text.len() as int) =~= word.text@);
    }
}

/// An empty token stream reconstructs to no line records and an empty full
/// text.
pub proof fn lemma_empty_stream()
    ensures
        lines_of(Seq::<OcrToken>::empty()) == Seq::<LineModel>::empty(),
        flat_text(Seq::<OcrToken>::empty()) == Seq::<char>::empty(),
{
    assert(lines_of(Seq::<OcrToken>::empty()) =~= Seq::<LineModel>::empty());
}


/// Every word token's confidence lies between 0 and 100 %.
pub open spec fn confs_in_range(tokens: Seq<OcrToken>) -> bool {
    forall|i: int| 0 <= i < tokens.len() && tokens[i].word_num != 0 ==>
        0 <= #[trigger] tokens[i].conf <= 100_000_000
}

pub open spec fn sum_in_range(sum: int, count: nat) -> bool {
    0 <= sum <= count * 100_000_000
}

proof fn lemma_scan_in_range(tokens: Seq<OcrToken>)
    requires
        confs_in_range(tokens),
    ensures
        sum_in_range(scan(tokens).conf_sum, scan(tokens).word_count),
        forall|i: int| 0 <= i < scan(tokens).lines.len() ==>
            sum_in_range(#[trigger] scan(tokens).lines[i].conf_sum, scan(tokens).lines[i].word_count),
    decreases tokens.len(),
{
    if tokens.len() > 0 {
        let prev = tokens.drop_last();
        assert forall|i: int| 0 <= i < prev.len() && prev[i].word_num != 0 implies
            0 <= #[trigger] prev[i].conf <= 100_000_000 by {
            assert(prev[i] == tokens[i]);
        }
        lemma_scan_in_range(prev);
        let s = scan(prev);
        let r = scan(tokens);
        assert(tokens.last() == tokens[tokens.len() - 1]);
        assert forall|i: int| 0 <= i < r.lines.len() implies
            sum_in_range(#[trigger] r.lines[i].conf_sum, r.lines[i].word_count) by {
            if i < s.lines.len() {
                assert(r.lines[i] == s.lines[i]);
            }
        }
    }
}

proof fn lemma_mean_in_range(sum: int, count: nat)
    requires
        count >= 1,
        sum_in_range(sum, count),
    ensures
        0 <= mean_centi(sum, count) <= 10000,
{
    let x = 2 * sum + 10000 * count;
    let d = 20000 * count as int;
    let q = x / d;
    vstd::arithmetic::div_mod::lemma_fundamental_div_mod(x, d);
    vstd::arithmetic::div_mod::lemma_mod_pos_bound(x, d);
    assert(d * q <= x);
    assert(x < 10001 * d);
    assert(q < 10001) by (nonlinear_arith)
        requires
            d * q <= x,
            x < 10001 * d,
            d > 0,
    ;
    assert(q >= 0) by (nonlinear_arith)
        requires
            d * q + x % d == x,
            x % d < d,
            x >= 0,
            d > 0,
    ;
}

/// Where every word's confidence lies between 0 and 100 %, every line's
/// confidence lies between 0.00 and 100.00.
pub proof fn lemma_confidence_in_range(tokens: Seq<OcrToken>)
    requires
        confs_in_range(tokens),
    ensures
        forall|i: int| 0 <= i < lines_of(tokens).len() ==>
            0 <= #[trigger] mean_centi(lines_of(tokens)[i].conf_sum, lines_of(tokens)[i].word_count) <= 10000,
{
    lemma_scan_in_range(tokens);
    lemma_lines_wf(tokens);
    let s = scan(tokens);
    let l = lines_of(tokens);
    assert forall|i: int| 0 <= i < l.len() implies
        0 <= #[trigger] mean_centi(l[i].conf_sum, l[i].word_count) <= 10000 by {
        assert(l[i].is_wf());
        if i < s.lines.len() {
            assert(l[i] == s.lines[i]);
        }
        lemma_mean_in_range(l[i].conf_sum, l[i].word_count);
    }
}

} // verus!
