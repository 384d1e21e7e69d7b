use decky::fetch::{accept_download, binaries_to_fetch, check_download, IntegrityError, RemoteBinary};

const ABC_SHA256: &str = "ba7816bf8f01cfea414140de5dae2223b00361a396177a9cb410ff61f20015ad";

fn binary(hash: &str) -> RemoteBinary {
    RemoteBinary { url: "http://example.org/tool".to_string(), sha256hash: hash.to_string(), name: "tool".to_string() }
}

#[test]
fn fetch_gated_by_flag() {
    let declared = vec![binary(ABC_SHA256)];
    assert_eq!(binaries_to_fetch(Some(true), declared.clone()), declared);
    assert!(binaries_to_fetch(Some(false), declared.clone()).is_empty());
    assert!(binaries_to_fetch(None, declared).is_empty());
}

#[test]
fn matching_body_is_staged() {
    let f = check_download(&binary(ABC_SHA256), "/tmp/decky/x", b"abc".to_vec()).unwrap();
    assert_eq!(f.dir, "/tmp/decky/x/bin");
    assert_eq!(f.path, "/tmp/decky/x/bin/tool");
    assert_eq!(f.bytes, b"abc".to_vec());
}

#[test]
fn declared_digest_case_is_ignored() {
    let upper = ABC_SHA256.to_uppercase();
    assert!(check_download(&binary(&upper), "/s", b"abc".to_vec()).is_ok());
}

#[test]
fn mismatching_body_is_refused() {
    let r = check_download(&binary(ABC_SHA256), "/s", b"abd".to_vec());
    match r {
        Err(IntegrityError { url, expected, actual }) => {
            assert_eq!(url, "http://example.org/tool");
            assert_eq!(expected, ABC_SHA256);
            assert_ne!(actual, ABC_SHA256);
            assert_eq!(actual.len(), 64);
        }
        Ok(_) => panic!("a body with another digest was accepted"),
    }
}

#[test]
fn empty_body_digest() {
    let empty = "e3b0c44298fc1c149afbf4c8996fb92427ae41e4649b934ca495991b7852b855";
    assert!(check_download(&binary(empty), "/s", Vec::new()).is_ok());
}

#[test]
fn digest_judged_from_given_bytes() {
    let f = accept_download(&binary("00ff"), "/s", &[0x00, 0xff], vec![1, 2, 3]).unwrap();
    assert_eq!(f.bytes, vec![1, 2, 3]);
    let e = accept_download(&binary("00fe"), "/s", &[0x00, 0xff], vec![1]).unwrap_err();
    assert_eq!(e.actual, "00ff");
}
