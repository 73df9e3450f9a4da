use std::io::Write;

use tantivy::collector::TopDocs;
use tantivy::query::QueryParser;
use tantivy::schema::document::{ReferenceValue, ReferenceValueLeaf};
use tantivy::schema::{
    IndexRecordOption, Schema, TextFieldIndexing, TextOptions, Value, FAST, INDEXED, STORED,
    STRING,
};
use tantivy::{Index, Order, TantivyDocument};

use ttsearch::importing::{read_files, FileEntry};
use ttsearch::indexes::messages::{
    create_message_document, create_messages_schema, search, tokenizer_name, DocValue, Document,
    FieldKind,
};
use ttsearch::models::message::Message;
use ttsearch::printer::OutputMode;

/// Build the engine-native schema out of the library's field layout.
fn tantivy_schema() -> Schema {
    let mut builder = Schema::builder();
    for field in create_messages_schema() {
        match field.kind {
            FieldKind::U64 => {
                builder.add_u64_field(&field.name, INDEXED | STORED);
            },
            FieldKind::Text => match &field.tokenizer {
                None => {
                    builder.add_text_field(&field.name, STRING | STORED);
                },
                Some(tok) => {
                    let mut indexing = TextFieldIndexing::default().set_tokenizer(tok);
                    if field.with_freqs_and_positions {
                        indexing = indexing.set_index_option(IndexRecordOption::WithFreqsAndPositions);
                    }
                    builder.add_text_field(
                        &field.name,
                        TextOptions::default().set_indexing_options(indexing).set_stored(),
                    );
                },
            },
            FieldKind::Date => {
                builder.add_date_field(&field.name, INDEXED | STORED | FAST);
            },
        }
    }
    builder.build()
}

/// Turn a library document into an engine document.
fn to_tantivy_document(doc: &Document) -> TantivyDocument {
    let mut out = TantivyDocument::default();
    for (field_id, value) in &doc.entries {
        let field = tantivy::schema::Field::from_field_id(*field_id);
        match value {
            DocValue::U64(v) => out.add_u64(field, *v),
            DocValue::Str(s) => out.add_text(field, s),
            DocValue::Date(d) => {
                out.add_date(field, tantivy::DateTime::from_timestamp_secs(*d))
            },
        }
    }
    out
}

/// Turn a stored engine document back into a library document.
fn to_lib_document(doc: &TantivyDocument) -> Document {
    let mut entries: Vec<(u32, DocValue)> = Vec::new();
    for (field, value) in doc.field_values() {
        let field_id = field.field_id();
        match value.as_value() {
            ReferenceValue::Leaf(ReferenceValueLeaf::U64(v)) => {
                entries.push((field_id, DocValue::U64(v)));
            },
            ReferenceValue::Leaf(ReferenceValueLeaf::Str(s)) => {
                entries.push((field_id, DocValue::Str(s.to_owned())));
            },
            ReferenceValue::Leaf(ReferenceValueLeaf::Date(d)) => {
                entries.push((field_id, DocValue::Date(d.into_timestamp_secs())));
            },
            _ => panic!("unexpected stored value type"),
        }
    }
    Document { entries }
}

fn zip_with_entries(entries: &[(&str, &[u8])]) -> Vec<u8> {
    let cursor = std::io::Cursor::new(Vec::new());
    let mut writer = zip::ZipWriter::new(cursor);
    let options =
        zip::write::SimpleFileOptions::default().compression_method(zip::CompressionMethod::Stored);
    for (name, data) in entries {
        writer.start_file(*name, options).expect("start zip entry");
        writer.write_all(data).expect("write zip entry");
    }
    writer.finish().expect("finish zip").into_inner()
}

#[test]
fn traversal_finds_csv_and_zip_sources() {
    let csv_direct = b"topic_id,id,account_name,account_fullname,message,created_at\n\
1,10,alice,Alice,from dir,1970-01-01T00:00:01+00:00\n"
        .to_vec();
    let csv_in_zip: &[u8] = b"topic_id,id,account_name,account_fullname,message,created_at\n\
2,20,bob,Bob,from zip root,1970-01-01T00:00:02+00:00\n\
2,21,bob,Bob,second zip row,1970-01-01T00:00:03+00:00\n";
    let zip_bytes = zip_with_entries(&[
        ("messages.csv", csv_in_zip),
        ("other.txt", b"ignored"),
        ("nested/messages.csv", b"h1,h2,h3,h4,h5,h6\n3,30,carol,Carol,nested,1970-01-01T00:00:04+00:00\n"),
        ("sub/messages.csv.bak", b"junk"),
    ]);
    let files = vec![
        FileEntry { name: "messages.csv".to_owned(), data: csv_direct },
        FileEntry { name: "notes.txt".to_owned(), data: b"ignored".to_vec() },
        FileEntry { name: "Archive.ZIP".to_owned(), data: zip_bytes },
    ];
    let msgs = read_files("root", true, &files).expect("both sources must be read");
    let ids: Vec<u64> = msgs.iter().map(|m| m.id()).collect();
    assert_eq!(ids, vec![10, 20, 21, 30]);
    assert_eq!(msgs[1].message(), "from zip root");
    assert_eq!(msgs[3].message(), "nested");
}

#[test]
fn query_results_come_newest_first_capped_at_fifty() {
    let schema = tantivy_schema();
    let index = Index::create_in_ram(schema.clone());
    index
        .tokenizers()
        .register(tokenizer_name(), tantivy::tokenizer::SimpleTokenizer::default());
    let mut writer = index.writer(50_000_000).expect("writer");
    for i in 0..55u64 {
        let m = Message::new(
            1,
            i,
            "alice",
            "Alice",
            "apple orchard",
            1000 + i as i64,
        );
        let doc = create_message_document(&m);
        writer.add_document(to_tantivy_document(&doc)).expect("add");
    }
    writer.commit().expect("commit");

    let reader = index.reader().expect("reader");
    let searcher = reader.searcher();
    let message_field = schema.get_field("message").expect("message field");
    let parser = QueryParser::for_index(&index, vec![message_field]);
    let query = parser.parse_query("apple").expect("query");
    let collector =
        TopDocs::with_limit(50).order_by_fast_field::<tantivy::DateTime>("created_at", Order::Desc);
    let result = searcher.search(&query, &collector).expect("search");
    assert_eq!(result.len(), 50);

    let mut hits: Vec<Document> = Vec::new();
    for (_key, addr) in result {
        let stored: TantivyDocument = searcher.doc(addr).expect("stored doc");
        hits.push(to_lib_document(&stored));
    }
    let msgs = search(&hits, &OutputMode::JSON.to_printer()).expect("decode hits");
    assert_eq!(msgs.len(), 50);
    for w in msgs.windows(2) {
        assert!(w[0].created_at() > w[1].created_at());
    }
    assert_eq!(msgs[0].created_at(), 1054);
    assert_eq!(msgs[49].created_at(), 1005);
}

#[test]
fn malformed_query_fails() {
    let schema = tantivy_schema();
    let index = Index::create_in_ram(schema.clone());
    index
        .tokenizers()
        .register(tokenizer_name(), tantivy::tokenizer::SimpleTokenizer::default());
    let message_field = schema.get_field("message").expect("message field");
    let parser = QueryParser::for_index(&index, vec![message_field]);
    assert!(parser.parse_query("\"unbalanced").is_err());
}
