use vstd::prelude::*;

use crate::models::message::{Message, MessageView, CREATED_AT_MAX, CREATED_AT_MIN};
use crate::numbers::{dec_digits, is_u64_string, parse_u64, u64_string_val, u64_to_string};
use crate::timefmt::{parse_rfc3339_utc_secs, rfc3339_secs};

verus! {

/// Why a CSV byte stream could not be turned into messages.
#[derive(Debug)]
pub enum CsvError {
    /// A record lacked a named field entirely.
    MissingField(&'static str),
    /// A record held a value that does not parse as its field asks.
    InvalidFormat(String),
    /// The byte stream itself could not be read as CSV.
    ProcessingError(String),
}

/// The mathematical image of a [`CsvError`]. The reading failure carries
/// no payload: its wording comes from the CSV decoder and is not pinned.
pub enum CsvErrorView {
    MissingField(Seq<char>),
    InvalidFormat(Seq<char>),
    Processing,
}

/// Whether an error value renders the modelled error.
pub open spec fn csv_err_matches(e: CsvError, v: CsvErrorView) -> bool {
    match v {
        CsvErrorView::MissingField(f) => e matches CsvError::MissingField(g) && g@ == f,
        CsvErrorView::InvalidFormat(s) => e matches CsvError::InvalidFormat(t) && t@ == s,
        CsvErrorView::Processing => e matches CsvError::ProcessingError(_),
    }
}

/// What the records of a CSV byte stream are: each record a sequence of
/// string fields, with quoting and embedded separators resolved; `None`
/// where the bytes cannot be read as CSV. The result depends on the
/// bytes alone.
pub uninterp spec fn csv_rows(data: Seq<u8>) -> Option<Seq<Seq<Seq<char>>>>;

/// Relies on `csv::Reader` (built with `has_headers(false)` and
/// `flexible(true)`): splits a byte stream into records of string fields
/// without interpreting any row as a header and without enforcing a
/// record length.
#[verifier::external_body]
fn csv_parse_rows(data: &Vec<u8>) -> (r: Result<Vec<Vec<String>>, String>)
    ensures
        match r {
            Ok(rows) => csv_rows(data@) == Some(rows.deep_view()),
            Err(_) => csv_rows(data@) is None,
        },
{
    let mut reader = csv::ReaderBuilder::new().has_headers(false).flexible(true).from_reader(
        data.as_slice(),
    );
    let mut rows: Vec<Vec<String>> = Vec::new();
    for record in reader.records() {
        match record {
            Ok(rec) => rows.push(rec.iter().map(|f| f.to_owned()).collect()),
            Err(e) => {
                return Err(format!("{}", e));
            },
        }
    }
    Ok(rows)
}

/// What one data record parses to: the message it denotes, or the first
/// error among a wrong field count, a non-numeric `topic_id` or `id`,
/// and a `created_at` that is not an RFC 3339 date-time in range.
pub open spec fn parse_record_spec(r: Seq<Seq<char>>) -> Result<MessageView, CsvErrorView> {
    if r.len() != 6 {
        Err(CsvErrorView::InvalidFormat("message record should have 6 fields but "@ + dec_digits(r.len())))
    } else if !is_u64_string(r[0]) {
        Err(CsvErrorView::InvalidFormat("topic_id should be number"@))
    } else if !is_u64_string(r[1]) {
        Err(CsvErrorView::InvalidFormat("id should be number"@))
    } else {
        match rfc3339_secs(r[5]) {
            Some(secs) => if CREATED_AT_MIN <= secs <= CREATED_AT_MAX {
                Ok(
                    MessageView {
                        topic_id: u64_string_val(r[0]) as u64,
                        id: u64_string_val(r[1]) as u64,
                        account_name: r[2],
                        account_fullname: r[3],
                        message: r[4],
                        created_at: secs,
                    },
                )
            } else {
                Err(CsvErrorView::InvalidFormat("created_at is not valid date"@))
            },
            None => Err(CsvErrorView::InvalidFormat("created_at is not valid date"@)),
        }
    }
}

/// Parse one CSV record into a message: exactly six fields in the order
/// `topic_id, id, account_name, account_fullname, message, created_at`,
/// the two identifiers decimal numbers and the timestamp an RFC 3339
/// date-time with an explicit offset, normalized to UTC.
pub fn parse_message_record(record: &Vec<String>) -> (r: Result<Message, CsvError>)
    ensures
        match r {
            Ok(m) => parse_record_spec(record.deep_view()) == Ok::<MessageView, CsvErrorView>(m@)
                && m.wf(),
            Err(e) => parse_record_spec(record.deep_view()) matches Err(ev) && csv_err_matches(
                e,
                ev,
            ),
        },
{
    if record.len() != 6 {
        let mut text = String::from_str("message record should have 6 fields but ");
        let count = u64_to_string(record.len() as u64);
        text.append(count.as_str());
        return Err(CsvError::InvalidFormat(text));
    }
    let topic_id = match parse_u64(record[0].as_str()) {
        Some(v) => v,
        None => {
            return Err(CsvError::InvalidFormat(String::from_str("topic_id should be number")));
        },
    };
    let id = match parse_u64(record[1].as_str()) {
        Some(v) => v,
        None => {
            return Err(CsvError::InvalidFormat(String::from_str("id should be number")));
        },
    };
    let created_at = match parse_rfc3339_utc_secs(record[5].as_str()) {
        Some(secs) => {
            if secs < CREATED_AT_MIN || secs > CREATED_AT_MAX {
                return Err(CsvError::InvalidFormat(String::from_str("created_at is not valid date")));
            }
            secs
        },
        None => {
            return Err(CsvError::InvalidFormat(String::from_str("created_at is not valid date")));
        },
    };
    Ok(
        Message::new(
            topic_id,
            id,
            record[2].as_str(),
            record[3].as_str(),
            record[4].as_str(),
            created_at,
        ),
    )
}

/// What a sequence of data records parses to: their messages in order,
/// or the error of the first record that fails.
pub open spec fn rows_result(rows: Seq<Seq<Seq<char>>>) -> Result<Seq<MessageView>, CsvErrorView>
    decreases rows.len(),
{
    if rows.len() == 0 {
        Ok(Seq::empty())
    } else {
        match parse_record_spec(rows[0]) {
            Ok(m) => match rows_result(rows.skip(1)) {
                Ok(ms) => Ok(seq![m] + ms),
                Err(e) => Err(e),
            },
            Err(e) => Err(e),
        }
    }
}

/// A parsed prefix joined with the outcome of the remaining records.
pub open spec fn csv_combine(
    pre: Seq<MessageView>,
    r: Result<Seq<MessageView>, CsvErrorView>,
) -> Result<Seq<MessageView>, CsvErrorView> {
    match r {
        Ok(ms) => Ok(pre + ms),
        Err(e) => Err(e),
    }
}

/// What a CSV byte stream yields: its first record is a header and is
/// skipped unconditionally; every later record must parse as a message.
pub open spec fn csv_data_result(data: Seq<u8>) -> Result<Seq<MessageView>, CsvErrorView> {
    match csv_rows(data) {
        Some(rows) => if rows.len() == 0 {
            Ok(Seq::empty())
        } else {
            rows_result(rows.skip(1))
        },
        None => Err(CsvErrorView::Processing),
    }
}

/// A stream with a header record and no data records yields no messages
/// and no error.
pub proof fn lemma_header_only_yields_nothing(data: Seq<u8>)
    requires
        csv_rows(data) matches Some(rows) && rows.len() == 1,
    ensures
        csv_data_result(data) == Ok::<Seq<MessageView>, CsvErrorView>(Seq::empty()),
{
    let rows = csv_rows(data).unwrap();
    assert(rows.skip(1).len() == 0);
}

/// Read every message from a CSV byte stream: the first record is
/// skipped as the header, each later record parses as in
/// [`parse_message_record`], and the first failure aborts the whole
/// read.
pub fn read_csv_messages(data: &Vec<u8>) -> (r: Result<Vec<Message>, CsvError>)
    ensures
        match r {
            Ok(msgs) => csv_data_result(data@) == Ok::<Seq<MessageView>, CsvErrorView>(
                msgs.deep_view(),
            ) && (forall|k: int| 0 <= k < msgs.len() ==> (#[trigger] msgs[k]).wf()),
            Err(e) => csv_data_result(data@) matches Err(ev) && csv_err_matches(e, ev),
        },
{
    let rows = match csv_parse_rows(data) {
        Ok(rows) => rows,
        Err(s) => {
            return Err(CsvError::ProcessingError(s));
        },
    };
    let ghost rows_v = rows.deep_view();
    let mut msgs: Vec<Message> = Vec::new();
    if rows.len() == 0 {
        proof {
            assert(msgs.deep_view() =~= Seq::<MessageView>::empty());
        }
        return Ok(msgs);
    }
    proof {
        match rows_result(rows_v.skip(1)) {
            Ok(ms) => {
                assert(Seq::<MessageView>::empty() + ms =~= ms);
            },
            Err(_) => {},
        }
    }
    let mut i: usize = 1;
    while i < rows.len()
        invariant
            1 <= i <= rows.len(),
            rows_v == rows.deep_view(),
            rows_v.len() == rows.len(),
            rows_v.len() >= 1,
            csv_rows(data@) == Some(rows_v),
            forall|k: int| 0 <= k < msgs.len() ==> (#[trigger] msgs[k]).wf(),
            rows_result(rows_v.skip(1)) == csv_combine(
                msgs.deep_view(),
                rows_result(rows_v.skip(i as int)),
            ),
        decreases rows.len() - i,
    {
        proof {
            assert(rows_v.skip(i as int).len() > 0);
            assert(rows_v.skip(i as int)[0] == rows_v[i as int]);
            assert(rows_v.skip(i as int).skip(1) =~= rows_v.skip(i as int + 1));
            assert(rows_v[i as int] == rows@[i as int].deep_view());
        }
        let m = match parse_message_record(&rows[i]) {
            Ok(m) => m,
            Err(e) => {
                return Err(e);
            },
        };
        let ghost old_msgs = msgs.deep_view();
        msgs.push(m);
        proof {
            assert(msgs.deep_view() =~= old_msgs.push(m@));
            match rows_result(rows_v.skip(i as int + 1)) {
                Ok(ms) => {
                    assert(old_msgs + (seq![m@] + ms) =~= old_msgs.push(m@) + ms);
                },
                Err(_) => {},
            }
        }
        i = i + 1;
    }
    proof {
        assert(rows_v.skip(i as int).len() == 0);
        assert(msgs.deep_view() + Seq::<MessageView>::empty() =~= msgs.deep_view());
    }
    Ok(msgs)
}

} // verus!
