//! The text of the CSV log: a header line, then one row for each reading.

use vstd::prelude::*;
use crate::text::{
    free_of, lemma_split_next, lemma_split_terminated, lemma_split_whole, split_on, terminated,
};

verus! {

/// The header line of the log, without its line end.
pub const HEADER: &'static str = "timestamp,temperature,humidity,pressure";

/// The character between the fields of a row.
pub const FIELD_SEPARATOR: char = ',';

/// The character that ends a line.
pub const LINE_END: char = '\n';

/// A text can stand as a field of a row: it holds no comma and no line
/// end.
pub open spec fn is_field(text: Seq<char>) -> bool {
    forall|i: int| 0 <= i < text.len() ==> text[i] != FIELD_SEPARATOR && text[i] != LINE_END
}

/// The four fields of a row.
pub struct RecordView {
    pub timestamp: Seq<char>,
    pub temperature: Seq<char>,
    pub humidity: Seq<char>,
    pub pressure: Seq<char>,
}

/// Each of the four texts can stand as a field.
pub open spec fn valid_record(record: RecordView) -> bool {
    &&& is_field(record.timestamp)
    &&& is_field(record.temperature)
    &&& is_field(record.humidity)
    &&& is_field(record.pressure)
}

/// The line of a record: its four fields with commas between them.
pub open spec fn line_of(record: RecordView) -> Seq<char> {
    record.timestamp + seq![FIELD_SEPARATOR] + record.temperature + seq![FIELD_SEPARATOR]
        + record.humidity + seq![FIELD_SEPARATOR] + record.pressure
}

/// The row of a record: its line and a line end.
pub open spec fn row_text(record: RecordView) -> Seq<char> {
    line_of(record) + seq![LINE_END]
}

/// The header line and its line end.
pub open spec fn header_text() -> Seq<char> {
    HEADER@ + seq![LINE_END]
}

/// What is appended to the log for a record: the row, and before it the
/// header where the file was empty when it was opened.
pub open spec fn appended(was_empty: bool, record: RecordView) -> Seq<char> {
    if was_empty {
        header_text() + row_text(record)
    } else {
        row_text(record)
    }
}

/// The log after a record has been appended to it.
pub open spec fn written(log: Seq<char>, record: RecordView) -> Seq<char> {
    log + appended(log.len() == 0, record)
}

/// The log that appending these records in turn makes of an empty file.
pub open spec fn log_of(records: Seq<RecordView>) -> Seq<char>
    decreases records.len(),
{
    if records.len() == 0 {
        Seq::<char>::empty()
    } else {
        written(log_of(records.drop_last()), records.last())
    }
}

/// The rows of these records, one after the other.
pub open spec fn rows_of(records: Seq<RecordView>) -> Seq<char>
    decreases records.len(),
{
    if records.len() == 0 {
        Seq::<char>::empty()
    } else {
        rows_of(records.drop_last()) + row_text(records.last())
    }
}

/// The lines of a log that holds these records: the header, then the line
/// of each record, in order.
pub open spec fn lines_of(records: Seq<RecordView>) -> Seq<Seq<char>> {
    Seq::new(records.len() + 1, |i: int| if i == 0 { HEADER@ } else { line_of(records[i - 1]) })
}

/// Whether `text` can stand as a field of a row.
pub fn check_field(text: &str) -> (clean: bool)
    ensures
        clean == is_field(text@),
{
    let mut clean = true;
    for c in it: text.chars()
        invariant
            it.seq() == text@,
            clean == (forall|i: int|
                0 <= i < it.index() ==> text@[i] != FIELD_SEPARATOR && text@[i] != LINE_END),
    {
        if c == FIELD_SEPARATOR || c == LINE_END {
            clean = false;
        }
    }
    clean
}

/// One row of the log: a timestamp and three measurements, each as the
/// text that is written. No field holds a comma or a line end.
#[derive(Debug, PartialEq, Eq)]
pub struct LogRecord {
    timestamp: String,
    temperature: String,
    humidity: String,
    pressure: String,
}

impl View for LogRecord {
    type V = RecordView;

    closed spec fn view(&self) -> RecordView {
        RecordView {
            timestamp: self.timestamp@,
            temperature: self.temperature@,
            humidity: self.humidity@,
            pressure: self.pressure@,
        }
    }
}

impl LogRecord {
    #[verifier::type_invariant]
    closed spec fn fields_are_clean(&self) -> bool {
        valid_record(self@)
    }

    /// Makes a record of four texts; `None` where one of them holds a comma
    /// or a line end.
    pub fn new(timestamp: String, temperature: String, humidity: String, pressure: String) -> (record:
        Option<LogRecord>)
        ensures
            match record {
                Some(record) => valid_record(record@) && record@ == (RecordView {
                    timestamp: timestamp@,
                    temperature: temperature@,
                    humidity: humidity@,
                    pressure: pressure@,
                }),
                None => !valid_record(
                    RecordView {
                        timestamp: timestamp@,
                        temperature: temperature@,
                        humidity: humidity@,
                        pressure: pressure@,
                    },
                ),
            },
    {
        if check_field(timestamp.as_str()) && check_field(temperature.as_str()) && check_field(
            humidity.as_str(),
        ) && check_field(pressure.as_str()) {
            Some(LogRecord { timestamp, temperature, humidity, pressure })
        } else {
            None
        }
    }

    /// The time of the reading.
    pub fn timestamp(&self) -> (text: &str)
        ensures
            text@ == self@.timestamp,
    {
        self.timestamp.as_str()
    }

    /// The temperature, as written.
    pub fn temperature(&self) -> (text: &str)
        ensures
            text@ == self@.temperature,
    {
        self.temperature.as_str()
    }

    /// The humidity, as written.
    pub fn humidity(&self) -> (text: &str)
        ensures
            text@ == self@.humidity,
    {
        self.humidity.as_str()
    }

    /// The pressure, as written.
    pub fn pressure(&self) -> (text: &str)
        ensures
            text@ == self@.pressure,
    {
        self.pressure.as_str()
    }

    /// The row of this record, line end included. The record is valid, as
    /// every record is.
    pub fn row(&self) -> (text: String)
        ensures
            text@ == row_text(self@),
            valid_record(self@),
    {
        proof {
            use_type_invariant(self);
        }
        let mut text = String::new();
        text.append(self.timestamp.as_str());
        text.append(",");
        text.append(self.temperature.as_str());
        text.append(",");
        text.append(self.humidity.as_str());
        text.append(",");
        text.append(self.pressure.as_str());
        text.append("\n");
        proof {
            reveal_strlit(",");
            reveal_strlit("\n");
            assert(","@ == seq![',']);
            assert("\n"@ == seq!['\n']);
        }
        text
    }
}

/// The text to append for `record` to a log file that holds `file_len`
/// bytes: the record's row, and before it the header line where the file
/// is empty.
pub fn append_text(file_len: u64, record: &LogRecord) -> (text: String)
    ensures
        text@ == appended(file_len == 0, record@),
        valid_record(record@),
{
    let row = record.row();
    if file_len == 0 {
        let mut text = String::new();
        text.append(HEADER);
        text.append("\n");
        text.append(row.as_str());
        proof {
            reveal_strlit("\n");
            assert("\n"@ == seq!['\n']);
        }
        text
    } else {
        row
    }
}

/// The first append to an empty file writes the header line and one row;
/// the second adds one row and no header.
pub proof fn law_first_appends(first: RecordView, second: RecordView)
    ensures
        written(Seq::<char>::empty(), first) == header_text() + row_text(first),
        written(written(Seq::<char>::empty(), first), second) == header_text() + row_text(first)
            + row_text(second),
{
    let nothing = Seq::<char>::empty();
    assert(nothing + (header_text() + row_text(first)) =~= header_text() + row_text(first));
    assert((header_text() + row_text(first)).len() > 0);
}

/// The header is written once: a log that any number of appends made of an
/// empty file is the header line followed by the rows of the records, in
/// the order of the appends.
pub proof fn law_header_once(records: Seq<RecordView>)
    requires
        records.len() > 0,
    ensures
        log_of(records) == header_text() + rows_of(records),
    decreases records.len(),
{
    let earlier = records.drop_last();
    let nothing = Seq::<char>::empty();
    if earlier.len() == 0 {
        assert(rows_of(earlier) == nothing);
        assert(log_of(earlier) == nothing);
        assert(rows_of(records) =~= row_text(records.last()));
        assert(nothing + (header_text() + row_text(records.last())) =~= header_text() + row_text(
            records.last(),
        ));
    } else {
        law_header_once(earlier);
        assert(log_of(earlier).len() > 0);
        assert((header_text() + rows_of(earlier)) + row_text(records.last()) =~= header_text() + (
        rows_of(earlier) + row_text(records.last())));
    }
}

/// The log is append-only: what it held before an append, it holds
/// unchanged at its start after it, and what follows ends with the row of
/// the record.
pub proof fn law_append_only(log: Seq<char>, record: RecordView)
    ensures
        written(log, record).len() >= log.len() + row_text(record).len(),
        written(log, record).subrange(0, log.len() as int) == log,
        written(log, record).subrange(
            written(log, record).len() - row_text(record).len(),
            written(log, record).len() as int,
        ) == row_text(record),
{
    let after = written(log, record);
    assert(after.subrange(0, log.len() as int) =~= log);
    assert(after.subrange(after.len() - row_text(record).len(), after.len() as int) =~= row_text(
        record,
    ));
}

/// Only an empty file gets the header: what is appended to a file that
/// holds anything is the row alone.
pub proof fn law_header_only_when_empty(log: Seq<char>, record: RecordView)
    ensures
        log.len() > 0 ==> written(log, record) == log + row_text(record),
        log.len() == 0 ==> written(log, record) == header_text() + row_text(record),
{
    if log.len() == 0 {
        assert(log + (header_text() + row_text(record)) =~= header_text() + row_text(record));
    }
}

/// A row read back: the line of a valid record, split at its commas, gives
/// the four fields of the record, in order.
pub proof fn law_line_fields(record: RecordView)
    requires
        valid_record(record),
    ensures
        split_on(line_of(record), FIELD_SEPARATOR) == seq![
            record.timestamp,
            record.temperature,
            record.humidity,
            record.pressure,
        ],
{
    lemma_split_whole(record.timestamp, FIELD_SEPARATOR);
    lemma_split_next(record.timestamp, record.temperature, FIELD_SEPARATOR);
    lemma_split_next(record.timestamp + seq![FIELD_SEPARATOR] + record.temperature, record.humidity, FIELD_SEPARATOR);
    lemma_split_next(
        record.timestamp + seq![FIELD_SEPARATOR] + record.temperature + seq![FIELD_SEPARATOR] + record.humidity,
        record.pressure,
        FIELD_SEPARATOR,
    );
    assert(seq![record.timestamp].push(record.temperature).push(record.humidity).push(
        record.pressure,
    ) =~= seq![record.timestamp, record.temperature, record.humidity, record.pressure]);
}

/// The line of a valid record holds no line end.
pub proof fn lemma_line_is_one_line(record: RecordView)
    requires
        valid_record(record),
    ensures
        free_of(line_of(record), LINE_END),
{
}

/// The header holds no line end.
pub proof fn lemma_header_is_one_line()
    ensures
        free_of(HEADER@, LINE_END),
{
    reveal_strlit("timestamp,temperature,humidity,pressure");
}

/// A log read back: the log that appends of valid records made of an empty
/// file, split at its line ends, gives the header, then the line of each
/// record in the order of the appends, then the empty piece that follows
/// the last line end.
pub proof fn law_log_lines(records: Seq<RecordView>)
    requires
        records.len() > 0,
        forall|i: int| 0 <= i < records.len() ==> valid_record(#[trigger] records[i]),
    ensures
        log_of(records) == terminated(lines_of(records), LINE_END),
        split_on(log_of(records), LINE_END) == lines_of(records).push(Seq::<char>::empty()),
    decreases records.len(),
{
    let earlier = records.drop_last();
    let lines = lines_of(records);
    let head = lines_of(earlier);
    assert(lines.drop_last() =~= head);
    assert(lines.last() == line_of(records.last()));
    if earlier.len() == 0 {
        // the header is the only line before the first record
        assert(head.drop_last() =~= Seq::<Seq<char>>::empty());
        assert(terminated(head.drop_last(), LINE_END) =~= Seq::<char>::empty());
        assert(terminated(head, LINE_END) =~= header_text());
        assert(log_of(earlier) == Seq::<char>::empty());
        assert(log_of(records) =~= header_text() + row_text(records.last()));
    } else {
        law_log_lines(earlier);
        law_header_once(earlier);
        assert(log_of(earlier).len() > 0);
        assert(log_of(records) =~= log_of(earlier) + row_text(records.last()));
    }
    assert(terminated(lines, LINE_END) =~= terminated(head, LINE_END) + row_text(records.last()));
    lemma_header_is_one_line();
    assert forall|i: int| 0 <= i < lines.len() implies free_of(#[trigger] lines[i], LINE_END) by {
        if i > 0 {
            lemma_line_is_one_line(records[i - 1]);
        }
    }
    lemma_split_terminated(lines, LINE_END);
}

} // verus!
