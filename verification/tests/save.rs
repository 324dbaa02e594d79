use config_store::save_config;
use std::collections::BTreeMap;
use std::io::ErrorKind;

fn append(file: &mut Vec<u8>, bytes: &[u8]) -> Result<(), std::io::Error> {
    file.extend_from_slice(bytes);
    Ok(())
}

#[test]
fn a_file_that_cannot_be_created_ends_the_save() {
    let mut encoded = false;
    let mut written = false;
    let failure = std::io::Error::new(ErrorKind::PermissionDenied, "read-only");
    let r = save_config(
        Err::<(), std::io::Error>(failure),
        &7u32,
        |_: &u32| {
            encoded = true;
            String::from("7")
        },
        |_: (), _: &[u8]| {
            written = true;
            Ok(())
        },
    );
    let e = r.unwrap_err();
    assert_eq!(e.kind(), ErrorKind::PermissionDenied);
    assert_eq!(e.to_string(), "read-only");
    assert!(!encoded);
    assert!(!written);
}

#[test]
fn the_bytes_written_are_the_utf8_bytes_of_the_text() {
    let mut file: Vec<u8> = Vec::new();
    let r = save_config(
        Ok(&mut file),
        &(),
        |_: &()| String::from("na\u{ef}ve \u{20ac} \u{1f600}"),
        append,
    );
    assert!(r.is_ok());
    assert_eq!(
        file,
        vec![0x6e, 0x61, 0xc3, 0xaf, 0x76, 0x65, 0x20, 0xe2, 0x82, 0xac, 0x20, 0xf0, 0x9f, 0x98, 0x80]
    );
}

#[test]
fn an_empty_text_writes_no_bytes() {
    let mut calls: Vec<Vec<u8>> = Vec::new();
    let r = save_config(Ok(()), &(), |_: &()| String::new(), |_: (), bytes: &[u8]| {
        calls.push(bytes.to_vec());
        Ok(())
    });
    assert!(r.is_ok());
    assert_eq!(calls, vec![Vec::<u8>::new()]);
}

#[test]
fn the_value_is_encoded_once_and_written_once() {
    let mut encodings = 0;
    let mut writes: Vec<Vec<u8>> = Vec::new();
    let r = save_config(
        Ok(()),
        &vec![1u32, 2, 3],
        |value: &Vec<u32>| {
            encodings += 1;
            serde_json::to_string(value).unwrap()
        },
        |_: (), bytes: &[u8]| {
            writes.push(bytes.to_vec());
            Ok(())
        },
    );
    assert!(r.is_ok());
    assert_eq!(encodings, 1);
    assert_eq!(writes, vec![b"[1,2,3]".to_vec()]);
}

#[test]
fn a_failed_write_is_the_result() {
    let r = save_config(
        Ok(()),
        &7u32,
        |value: &u32| serde_json::to_string_pretty(value).unwrap(),
        |_: (), _: &[u8]| Err(std::io::Error::new(ErrorKind::WriteZero, "disk full")),
    );
    let e = r.unwrap_err();
    assert_eq!(e.kind(), ErrorKind::WriteZero);
    assert_eq!(e.to_string(), "disk full");
}

#[test]
fn the_writer_gets_the_file_that_was_created() {
    let mut got = 0u32;
    let r = save_config(Ok(41u32), &(), |_: &()| String::from("x"), |file: u32, _: &[u8]| {
        got = file + 1;
        Ok(())
    });
    assert!(r.is_ok());
    assert_eq!(got, 42);
}

#[test]
fn json_is_written_pretty() {
    let mut value: BTreeMap<String, u32> = BTreeMap::new();
    value.insert(String::from("retries"), 3);
    value.insert(String::from("workers"), 8);
    let mut file: Vec<u8> = Vec::new();
    let r = save_config(
        Ok(&mut file),
        &value,
        |v: &BTreeMap<String, u32>| serde_json::to_string_pretty(v).unwrap(),
        append,
    );
    assert!(r.is_ok());
    assert_eq!(String::from_utf8(file).unwrap(), "{\n  \"retries\": 3,\n  \"workers\": 8\n}");
}

#[test]
fn toml_is_written_pretty() {
    let mut value: BTreeMap<String, i64> = BTreeMap::new();
    value.insert(String::from("retries"), 3);
    value.insert(String::from("workers"), 8);
    let mut file: Vec<u8> = Vec::new();
    let r = save_config(
        Ok(&mut file),
        &value,
        |v: &BTreeMap<String, i64>| toml::to_string_pretty(v).unwrap(),
        append,
    );
    assert!(r.is_ok());
    assert_eq!(String::from_utf8(file).unwrap(), "retries = 3\nworkers = 8\n");
}
