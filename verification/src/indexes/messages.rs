use vstd::prelude::*;

use crate::models::message::{Message, MessageView, CREATED_AT_MAX, CREATED_AT_MIN};
use crate::printer::Printer;

verus! {

/// The value type of one index field.
#[derive(Clone, Copy, PartialEq, Eq, Structural, Debug)]
pub enum FieldKind {
    U64,
    Text,
    Date,
}

/// One field of the message index schema: its name, value type, and
/// indexing options. A text field with no tokenizer is matched exactly;
/// one with a tokenizer name is analyzed under that tokenizer.
pub struct FieldDef {
    pub name: String,
    pub kind: FieldKind,
    pub indexed: bool,
    pub stored: bool,
    pub fast: bool,
    pub tokenizer: Option<String>,
    pub with_freqs_and_positions: bool,
}

/// The name the message-body tokenizer is registered under.
pub fn tokenizer_name() -> (r: &'static str)
    ensures
        r@ == "lang_ja"@,
{
    "lang_ja"
}

/// The schema of the message index, in order; the position of each
/// field is the identifier documents carry for it.
///
/// The six fields are `topic_id` and `id` (integers, indexed and
/// stored), `account_name` and `account_fullname` (exact-match text,
/// indexed and stored), `message` (text analyzed under the `lang_ja`
/// tokenizer with term frequencies and positions, stored), and
/// `created_at` (a date, indexed, stored, and fast for sorting).
pub fn create_messages_schema() -> (r: Vec<FieldDef>)
    ensures
        r@.len() == 6,
        r@[0].name@ == "topic_id"@ && r@[0].kind == FieldKind::U64 && r@[0].indexed && r@[0].stored
            && !r@[0].fast && r@[0].tokenizer is None && !r@[0].with_freqs_and_positions,
        r@[1].name@ == "id"@ && r@[1].kind == FieldKind::U64 && r@[1].indexed && r@[1].stored
            && !r@[1].fast && r@[1].tokenizer is None && !r@[1].with_freqs_and_positions,
        r@[2].name@ == "account_name"@ && r@[2].kind == FieldKind::Text && r@[2].indexed
            && r@[2].stored && !r@[2].fast && r@[2].tokenizer is None
            && !r@[2].with_freqs_and_positions,
        r@[3].name@ == "account_fullname"@ && r@[3].kind == FieldKind::Text && r@[3].indexed
            && r@[3].stored && !r@[3].fast && r@[3].tokenizer is None
            && !r@[3].with_freqs_and_positions,
        r@[4].name@ == "message"@ && r@[4].kind == FieldKind::Text && r@[4].indexed && r@[4].stored
            && !r@[4].fast && (r@[4].tokenizer matches Some(t) && t@ == "lang_ja"@)
            && r@[4].with_freqs_and_positions,
        r@[5].name@ == "created_at"@ && r@[5].kind == FieldKind::Date && r@[5].indexed
            && r@[5].stored && r@[5].fast && r@[5].tokenizer is None
            && !r@[5].with_freqs_and_positions,
{
    let mut fields: Vec<FieldDef> = Vec::new();
    fields.push(
        FieldDef {
            name: String::from_str("topic_id"),
            kind: FieldKind::U64,
            indexed: true,
            stored: true,
            fast: false,
            tokenizer: None,
            with_freqs_and_positions: false,
        },
    );
    fields.push(
        FieldDef {
            name: String::from_str("id"),
            kind: FieldKind::U64,
            indexed: true,
            stored: true,
            fast: false,
            tokenizer: None,
            with_freqs_and_positions: false,
        },
    );
    fields.push(
        FieldDef {
            name: String::from_str("account_name"),
            kind: FieldKind::Text,
            indexed: true,
            stored: true,
            fast: false,
            tokenizer: None,
            with_freqs_and_positions: false,
        },
    );
    fields.push(
        FieldDef {
            name: String::from_str("account_fullname"),
            kind: FieldKind::Text,
            indexed: true,
            stored: true,
            fast: false,
            tokenizer: None,
            with_freqs_and_positions: false,
        },
    );
    fields.push(
        FieldDef {
            name: String::from_str("message"),
            kind: FieldKind::Text,
            indexed: true,
            stored: true,
            fast: false,
            tokenizer: Some(String::from_str("lang_ja")),
            with_freqs_and_positions: true,
        },
    );
    fields.push(
        FieldDef {
            name: String::from_str("created_at"),
            kind: FieldKind::Date,
            indexed: true,
            stored: true,
            fast: true,
            tokenizer: None,
            with_freqs_and_positions: false,
        },
    );
    fields
}

/// What the index lifecycle does with the on-disk state directory.
#[derive(Clone, Copy, PartialEq, Eq, Structural, Debug)]
pub enum IndexAction {
    /// The `messages` directory exists: open it in place, its on-disk
    /// schema authoritative.
    OpenExisting,
    /// The `messages` directory is absent: create it and a new index
    /// with the current schema.
    CreateNew,
}

/// The decision `open_or_create` acts on once the per-user data path
/// and the current existence of the index directory are known: fail
/// where no data path can be resolved, open the `messages`
/// subdirectory where it already exists, and create it afresh
/// otherwise. The tokenizer must be registered again in either case.
pub fn open_or_create_plan(data_path: Option<&str>, index_dir_exists: bool) -> (r: Result<
    (String, IndexAction),
    String,
>)
    ensures
        data_path is None ==> (r matches Err(e) && e@ == "failed to open"@),
        data_path matches Some(p) ==> (r matches Ok(plan) && plan.0@ == p@ + "messages"@ && plan.1
            == (if index_dir_exists {
            IndexAction::OpenExisting
        } else {
            IndexAction::CreateNew
        })),
{
    match data_path {
        None => Err(String::from_str("failed to open")),
        Some(p) => {
            let mut dir = p.to_owned();
            dir.append("messages");
            if index_dir_exists {
                Ok((dir, IndexAction::OpenExisting))
            } else {
                Ok((dir, IndexAction::CreateNew))
            }
        },
    }
}

/// One typed value inside an index document.
pub enum DocValue {
    U64(u64),
    Str(String),
    Date(i64),
}

/// The mathematical image of a [`DocValue`].
pub enum DocValueView {
    U64(u64),
    Str(Seq<char>),
    Date(i64),
}

impl DeepView for DocValue {
    type V = DocValueView;

    open spec fn deep_view(&self) -> DocValueView {
        match self {
            DocValue::U64(v) => DocValueView::U64(*v),
            DocValue::Str(s) => DocValueView::Str(s@),
            DocValue::Date(d) => DocValueView::Date(*d),
        }
    }
}

/// The index-native image of one message: typed values keyed by the
/// positional identifier of their field in the schema.
pub struct Document {
    pub entries: Vec<(u32, DocValue)>,
}

impl View for Document {
    type V = Seq<(u32, DocValueView)>;

    open spec fn view(&self) -> Seq<(u32, DocValueView)> {
        self.entries.deep_view()
    }
}

impl DeepView for Document {
    type V = Seq<(u32, DocValueView)>;

    open spec fn deep_view(&self) -> Seq<(u32, DocValueView)> {
        self@
    }
}

/// The document a message encodes to: its six fields in schema order,
/// each keyed by its positional identifier.
pub open spec fn encode_spec(m: MessageView) -> Seq<(u32, DocValueView)> {
    seq![
        (0u32, DocValueView::U64(m.topic_id)),
        (1u32, DocValueView::U64(m.id)),
        (2u32, DocValueView::Str(m.account_name)),
        (3u32, DocValueView::Str(m.account_fullname)),
        (4u32, DocValueView::Str(m.message)),
        (5u32, DocValueView::Date(m.created_at)),
    ]
}

/// Encode a message as an index document, copying each field verbatim
/// in schema order; the timestamp is held at second granularity.
pub fn create_message_document(message: &Message) -> (d: Document)
    ensures
        d@ == encode_spec(message@),
{
    let mut entries: Vec<(u32, DocValue)> = Vec::new();
    entries.push((0, DocValue::U64(message.topic_id)));
    entries.push((1, DocValue::U64(message.id)));
    entries.push((2, DocValue::Str(message.account_name.clone())));
    entries.push((3, DocValue::Str(message.account_fullname.clone())));
    entries.push((4, DocValue::Str(message.message.clone())));
    entries.push((5, DocValue::Date(message.created_at)));
    let d = Document { entries };
    proof {
        assert(d@ =~= encode_spec(message@));
    }
    d
}

/// Why a stored document could not be reconstructed into a message.
#[derive(Clone, Copy, PartialEq, Eq, Structural, Debug)]
pub enum DeserializeError {
    /// An entry carried a field identifier and value type the schema
    /// does not pair.
    UnknownField(u32),
    /// One of the six fields never appeared.
    MissingField,
    /// The date field lies outside the representable timestamp range.
    InvalidTimestamp,
}

/// The six optional slots a document decode fills as it walks the
/// entries.
pub struct DecodeSlots {
    pub topic_id: Option<u64>,
    pub id: Option<u64>,
    pub account_name: Option<Seq<char>>,
    pub account_fullname: Option<Seq<char>>,
    pub message: Option<Seq<char>>,
    pub created_at: Option<i64>,
}

pub open spec fn empty_slots() -> DecodeSlots {
    DecodeSlots {
        topic_id: None,
        id: None,
        account_name: None,
        account_fullname: None,
        message: None,
        created_at: None,
    }
}

/// How one entry changes the slots: a value of the right type at a
/// known position fills that slot, a later entry for the same position
/// replacing an earlier one; anything else is an unknown field.
pub open spec fn decode_step(st: DecodeSlots, e: (u32, DocValueView)) -> Result<
    DecodeSlots,
    DeserializeError,
> {
    match e.1 {
        DocValueView::U64(v) => if e.0 == 0 {
            Ok(DecodeSlots { topic_id: Some(v), ..st })
        } else if e.0 == 1 {
            Ok(DecodeSlots { id: Some(v), ..st })
        } else {
            Err(DeserializeError::UnknownField(e.0))
        },
        DocValueView::Str(s) => if e.0 == 2 {
            Ok(DecodeSlots { account_name: Some(s), ..st })
        } else if e.0 == 3 {
            Ok(DecodeSlots { account_fullname: Some(s), ..st })
        } else if e.0 == 4 {
            Ok(DecodeSlots { message: Some(s), ..st })
        } else {
            Err(DeserializeError::UnknownField(e.0))
        },
        DocValueView::Date(d) => if e.0 == 5 {
            Ok(DecodeSlots { created_at: Some(d), ..st })
        } else {
            Err(DeserializeError::UnknownField(e.0))
        },
    }
}

/// The slots after walking all entries in order, or the first failure.
pub open spec fn decode_entries(es: Seq<(u32, DocValueView)>) -> Result<
    DecodeSlots,
    DeserializeError,
>
    decreases es.len(),
{
    if es.len() == 0 {
        Ok(empty_slots())
    } else {
        match decode_entries(es.drop_last()) {
            Ok(st) => decode_step(st, es.last()),
            Err(e) => Err(e),
        }
    }
}

/// The message the filled slots denote: every slot must be filled and
/// the timestamp must lie in range.
pub open spec fn finish_decode(st: DecodeSlots) -> Result<MessageView, DeserializeError> {
    if st.topic_id is Some && st.id is Some && st.account_name is Some && st.account_fullname
        is Some && st.message is Some && st.created_at is Some {
        if CREATED_AT_MIN <= st.created_at.unwrap() <= CREATED_AT_MAX {
            Ok(
                MessageView {
                    topic_id: st.topic_id.unwrap(),
                    id: st.id.unwrap(),
                    account_name: st.account_name.unwrap(),
                    account_fullname: st.account_fullname.unwrap(),
                    message: st.message.unwrap(),
                    created_at: st.created_at.unwrap(),
                },
            )
        } else {
            Err(DeserializeError::InvalidTimestamp)
        }
    } else {
        Err(DeserializeError::MissingField)
    }
}

/// What a stored document decodes to: the message it denotes, or the
/// first failure among an unknown entry, a missing field, and an
/// out-of-range timestamp.
pub open spec fn decode_document(es: Seq<(u32, DocValueView)>) -> Result<
    MessageView,
    DeserializeError,
> {
    match decode_entries(es) {
        Ok(st) => finish_decode(st),
        Err(e) => Err(e),
    }
}

/// A failure while walking a prefix of the entries is the failure of
/// the whole walk.
proof fn lemma_decode_err_monotone(es: Seq<(u32, DocValueView)>, k: int)
    requires
        0 <= k <= es.len(),
        decode_entries(es.take(k)) is Err,
    ensures
        decode_entries(es) == decode_entries(es.take(k)),
    decreases es.len() - k,
{
    if k < es.len() {
        assert(es.take(k + 1).drop_last() =~= es.take(k));
        lemma_decode_err_monotone(es, k + 1);
    } else {
        assert(es.take(k) =~= es);
    }
}

impl Message {
    /// Reconstruct a message from a stored document, reading each entry
    /// by the positional identifier of its field: every one of the six
    /// fields must be present with its schema's value type, or the
    /// decode fails.
    pub fn deserialize(doc: &Document) -> (r: Result<Message, DeserializeError>)
        ensures
            match r {
                Ok(m) => decode_document(doc@) == Ok::<MessageView, DeserializeError>(m@)
                    && m.wf(),
                Err(e) => decode_document(doc@) == Err::<MessageView, DeserializeError>(e),
            },
    {
        let ghost es = doc@;
        let mut topic_id: Option<u64> = None;
        let mut id: Option<u64> = None;
        let mut account_name: Option<String> = None;
        let mut account_fullname: Option<String> = None;
        let mut message: Option<String> = None;
        let mut created_at: Option<i64> = None;
        let mut i: usize = 0;
        proof {
            assert(es.take(0).len() == 0);
        }
        while i < doc.entries.len()
            invariant
                0 <= i <= doc.entries.len(),
                es == doc@,
                es.len() == doc.entries.len(),
                decode_entries(es.take(i as int)) == Ok::<DecodeSlots, DeserializeError>(
                    DecodeSlots {
                        topic_id,
                        id,
                        account_name: account_name.deep_view(),
                        account_fullname: account_fullname.deep_view(),
                        message: message.deep_view(),
                        created_at,
                    },
                ),
            decreases doc.entries.len() - i,
        {
            proof {
                assert(es.take(i + 1).drop_last() =~= es.take(i as int));
                assert(es.take(i + 1).last() == es[i as int]);
                assert(es[i as int] == doc.entries@[i as int].deep_view());
            }
            let entry = &doc.entries[i];
            let field_id = entry.0;
            match &entry.1 {
                DocValue::U64(v) => {
                    if field_id == 0 {
                        topic_id = Some(*v);
                    } else if field_id == 1 {
                        id = Some(*v);
                    } else {
                        proof {
                            lemma_decode_err_monotone(es, i + 1);
                        }
                        return Err(DeserializeError::UnknownField(field_id));
                    }
                },
                DocValue::Str(s) => {
                    if field_id == 2 {
                        account_name = Some(s.clone());
                    } else if field_id == 3 {
                        account_fullname = Some(s.clone());
                    } else if field_id == 4 {
                        message = Some(s.clone());
                    } else {
                        proof {
                            lemma_decode_err_monotone(es, i + 1);
                        }
                        return Err(DeserializeError::UnknownField(field_id));
                    }
                },
                DocValue::Date(d) => {
                    if field_id == 5 {
                        created_at = Some(*d);
                    } else {
                        proof {
                            lemma_decode_err_monotone(es, i + 1);
                        }
                        return Err(DeserializeError::UnknownField(field_id));
                    }
                },
            }
            i = i + 1;
        }
        proof {
            assert(es.take(i as int) =~= es);
        }
        match (topic_id, id, account_name, account_fullname, message, created_at) {
            (Some(v_topic_id), Some(v_id), Some(v_account_name), Some(v_account_fullname), Some(v_message), Some(v_created_at)) => {
                if v_created_at < CREATED_AT_MIN || v_created_at > CREATED_AT_MAX {
                    return Err(DeserializeError::InvalidTimestamp);
                }
                Ok(
                    Message::new(
                        v_topic_id,
                        v_id,
                        v_account_name.as_str(),
                        v_account_fullname.as_str(),
                        v_message.as_str(),
                        v_created_at,
                    ),
                )
            },
            _ => Err(DeserializeError::MissingField),
        }
    }
}

/// Encoding a well-formed message and decoding the result yields the
/// message back unchanged: the document mapper round-trips.
pub proof fn lemma_document_round_trip(m: MessageView)
    requires
        CREATED_AT_MIN <= m.created_at <= CREATED_AT_MAX,
    ensures
        decode_document(encode_spec(m)) == Ok::<MessageView, DeserializeError>(m),
{
    reveal_with_fuel(decode_entries, 8);
    let es = encode_spec(m);
    assert(es.take(0).len() == 0);
    assert(es.take(1).drop_last() =~= es.take(0));
    assert(es.take(1).last() == es[0]);
    assert(es.take(2).drop_last() =~= es.take(1));
    assert(es.take(2).last() == es[1]);
    assert(es.take(3).drop_last() =~= es.take(2));
    assert(es.take(3).last() == es[2]);
    assert(es.take(4).drop_last() =~= es.take(3));
    assert(es.take(4).last() == es[3]);
    assert(es.take(5).drop_last() =~= es.take(4));
    assert(es.take(5).last() == es[4]);
    assert(es.take(6) =~= es);
    assert(es.drop_last() =~= es.take(5));
    assert(decode_entries(es.take(1)) is Ok);
    assert(decode_entries(es.take(2)) is Ok);
    assert(decode_entries(es.take(3)) is Ok);
    assert(decode_entries(es.take(4)) is Ok);
    assert(decode_entries(es.take(5)) is Ok);
    assert(decode_entries(es) is Ok);
}

/// What a sequence of stored documents decodes to, in order, the first
/// failure aborting the whole decode.
pub open spec fn decode_all(docs: Seq<Seq<(u32, DocValueView)>>) -> Result<
    Seq<MessageView>,
    DeserializeError,
>
    decreases docs.len(),
{
    if docs.len() == 0 {
        Ok(Seq::empty())
    } else {
        match decode_document(docs[0]) {
            Ok(m) => match decode_all(docs.skip(1)) {
                Ok(ms) => Ok(seq![m] + ms),
                Err(e) => Err(e),
            },
            Err(e) => Err(e),
        }
    }
}

/// Decode the stored documents of the hits of a query, in the order the
/// engine returned them, and print each under the given printer as it
/// is decoded; the first document that cannot be reconstructed aborts
/// the search.
pub fn search(hits: &Vec<Document>, printer: &Printer) -> (r: Result<Vec<Message>, DeserializeError>)
    ensures
        match r {
            Ok(msgs) => decode_all(hits.deep_view()) == Ok::<Seq<MessageView>, DeserializeError>(
                msgs.deep_view(),
            ) && (forall|k: int| 0 <= k < msgs.len() ==> (#[trigger] msgs[k]).wf()),
            Err(e) => decode_all(hits.deep_view()) == Err::<Seq<MessageView>, DeserializeError>(e),
        },
{
    let ghost docs = hits.deep_view();
    let mut msgs: Vec<Message> = Vec::new();
    let mut i: usize = 0;
    proof {
        assert(docs.skip(0) =~= docs);
        match decode_all(docs) {
            Ok(ms) => {
                assert(Seq::<MessageView>::empty() + ms =~= ms);
            },
            Err(_) => {},
        }
    }
    while i < hits.len()
        invariant
            0 <= i <= hits.len(),
            docs == hits.deep_view(),
            docs.len() == hits.len(),
            forall|k: int| 0 <= k < msgs.len() ==> (#[trigger] msgs[k]).wf(),
            decode_all(docs) == (match decode_all(docs.skip(i as int)) {
                Ok(ms) => Ok::<Seq<MessageView>, DeserializeError>(msgs.deep_view() + ms),
                Err(e) => Err(e),
            }),
        decreases hits.len() - i,
    {
        proof {
            assert(docs.skip(i as int).len() > 0);
            assert(docs.skip(i as int)[0] == docs[i as int]);
            assert(docs.skip(i as int).skip(1) =~= docs.skip(i as int + 1));
            assert(docs[i as int] == hits@[i as int].deep_view());
        }
        let m = match Message::deserialize(&hits[i]) {
            Ok(m) => m,
            Err(e) => {
                return Err(e);
            },
        };
        printer.print_message(&m);
        let ghost old_msgs = msgs.deep_view();
        msgs.push(m);
        proof {
            assert(msgs.deep_view() =~= old_msgs.push(m@));
            match decode_all(docs.skip(i as int + 1)) {
                Ok(ms) => {
                    assert(old_msgs + (seq![m@] + ms) =~= old_msgs.push(m@) + ms);
                },
                Err(_) => {},
            }
        }
        i = i + 1;
    }
    proof {
        assert(docs.skip(i as int).len() == 0);
        assert(msgs.deep_view() + Seq::<MessageView>::empty() =~= msgs.deep_view());
    }
    Ok(msgs)
}

} // verus!

