use std::io::Write;

use b_agent::client::{Client, filter_class_blobs};
use b_agent::error::Error;
use b_agent::injector::{ClassBlob, ClientTrait};
use zip::write::SimpleFileOptions;

fn build_jar(entries: &[(&str, &[u8])]) -> Vec<u8> {
    let cursor = std::io::Cursor::new(Vec::new());
    let mut writer = zip::ZipWriter::new(cursor);
    for (name, bytes) in entries {
        writer.start_file(*name, SimpleFileOptions::default()).unwrap();
        writer.write_all(bytes).unwrap();
    }
    writer.finish().unwrap().into_inner()
}

#[test]
fn jar_class_blobs_reads_class_entries() {
    let jar = build_jar(&[
        ("META-INF/MANIFEST.MF", b"Manifest-Version: 1.0\n"),
        ("com/example/A.class", &[0xCA, 0xFE, 0xBA, 0xBE, 1, 2, 3]),
        ("com/example/B.class", &[0xCA, 0xFE, 0xBA, 0xBE, 9]),
    ]);
    let client = Client::with_jar(jar);
    let blobs = client.jar_class_blobs().unwrap();
    assert_eq!(blobs.len(), 2);
    assert_eq!(blobs[0].name, "com/example/A.class");
    assert_eq!(blobs[0].bytes, vec![0xCA, 0xFE, 0xBA, 0xBE, 1, 2, 3]);
    assert_eq!(blobs[1].name, "com/example/B.class");
    assert_eq!(blobs[1].bytes, vec![0xCA, 0xFE, 0xBA, 0xBE, 9]);
}

#[test]
fn jar_class_blobs_of_empty_archive_is_empty() {
    let jar = build_jar(&[]);
    let client = Client::with_jar(jar);
    assert!(client.jar_class_blobs().unwrap().is_empty());
}

#[test]
fn garbage_bytes_are_an_io_failure() {
    let client = Client::with_jar(vec![0, 1, 2, 3, 4, 5]);
    assert!(matches!(client.jar_class_blobs(), Err(Error::IOFailure)));
}

#[test]
fn client_trait_reports_dispatcher_names() {
    let client: Client = ClientTrait::new();
    assert_eq!(client.retransformer_class_name(), "io.github.brqnko.retransformer.Retransformer");
    assert_eq!(client.retransform_method_name(), "retransform");
    assert_eq!(client.class_names_to_retransform().unwrap(), vec!["bew".to_string()]);
}

#[test]
fn filter_keeps_only_class_blobs() {
    let blobs = vec![
        ClassBlob { name: "a/A.class".to_string(), bytes: vec![1] },
        ClassBlob { name: "a/notes.txt".to_string(), bytes: vec![2] },
        ClassBlob { name: "B.class".to_string(), bytes: vec![3] },
    ];
    let kept = filter_class_blobs(&blobs);
    assert_eq!(kept.len(), 2);
    assert_eq!(kept[0].name, "a/A.class");
    assert_eq!(kept[1].name, "B.class");
}
