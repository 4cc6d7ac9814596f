use cocoon::Cocoon;
use kpvault::cache::{is_framed, judge, unseal, Cache, StoreError, Unlock, LENGTH_AT, PREFIX_LEN};

fn sealed(code: &[u8], payload: &[u8]) -> Vec<u8> {
    let mut out = Vec::new();
    Cocoon::new(code).dump(payload.to_vec(), &mut out).unwrap();
    out
}

fn frame(declared: u64, payload_len: usize) -> Vec<u8> {
    let mut record = vec![0u8; PREFIX_LEN + payload_len];
    record[LENGTH_AT..LENGTH_AT + 8].copy_from_slice(&declared.to_be_bytes());
    record
}

#[test]
fn prefix_is_header_and_tag() {
    assert_eq!(PREFIX_LEN, 60);
    assert_eq!(LENGTH_AT, 36);
    assert_eq!(PREFIX_LEN, cocoon::PREFIX_SIZE);
}

#[test]
fn sealed_payload_length_stands_where_the_frame_reads_it() {
    let record = sealed(b"abc", &vec![7u8; 300]);
    assert_eq!(record.len(), PREFIX_LEN + 300);
    assert_eq!(&record[LENGTH_AT..LENGTH_AT + 8], &300u64.to_be_bytes());
    assert!(is_framed(&record));
    assert!(!is_framed(&record[..record.len() - 1]));
}

#[test]
fn frame_needs_a_whole_prefix() {
    assert!(!is_framed(&[]));
    assert!(!is_framed(&vec![0u8; 59]));
    assert!(is_framed(&vec![0u8; 60]));
}

#[test]
fn frame_needs_the_declared_payload() {
    assert!(is_framed(&frame(5, 5)));
    assert!(is_framed(&frame(5, 9)));
    assert!(!is_framed(&frame(6, 5)));
    assert!(!is_framed(&frame(u64::MAX, 5)));
    assert!(!is_framed(&frame(1 << 56, 300)));
    assert!(is_framed(&frame(256, 256)));
    assert!(!is_framed(&frame(257, 256)));
}

#[test]
fn store_then_unlock_recovers_the_passphrase() {
    let mut cache = Cache::absent();
    assert!(matches!(cache.store("correct-horse"), Ok(())));
    assert!(cache.is_present());
    match cache.try_unlock("rse") {
        Unlock::Recovered(passphrase) => assert_eq!(passphrase, "correct-horse"),
        _ => panic!("the code derived from the passphrase must open the cache"),
    }
    assert!(cache.is_present());
}

#[test]
fn stored_record_opens_under_the_derived_code_only() {
    let mut cache = Cache::absent();
    assert!(matches!(cache.store("pässwörd"), Ok(())));
    let record = cache.record.clone().unwrap();
    assert_ne!(record, "pässwörd".as_bytes());
    assert_eq!(record.len(), PREFIX_LEN + "pässwörd".len());
    assert!(is_framed(&record));
    let opened = Cocoon::new("örd".as_bytes()).parse(&mut &record[..]).unwrap();
    assert_eq!(opened, "pässwörd".as_bytes());
    assert!(Cocoon::new(b"pas").parse(&mut &record[..]).is_err());
}

#[test]
fn store_replaces_an_earlier_record() {
    let mut cache = Cache::holding(vec![1, 2, 3]);
    assert!(matches!(cache.store("another-secret"), Ok(())));
    assert!(matches!(cache.try_unlock("ret"), Unlock::Recovered(p) if p == "another-secret"));
}

#[test]
fn store_refuses_a_short_passphrase() {
    let mut cache = Cache::holding(vec![9, 9]);
    assert!(matches!(cache.store("ab"), Err(StoreError::TooShort)));
    assert_eq!(cache.record, Some(vec![9, 9]));
    let mut empty = Cache::absent();
    assert!(matches!(empty.store(""), Err(StoreError::TooShort)));
    assert!(!empty.is_present());
}

#[test]
fn wrong_code_destroys_the_cache() {
    let mut cache = Cache::absent();
    assert!(matches!(cache.store("correct-horse"), Ok(())));
    assert!(matches!(cache.try_unlock("xyz"), Unlock::WrongCode));
    assert!(!cache.is_present());
    assert_eq!(cache.record, None);
    // The cache is gone: the right code comes too late.
    assert!(matches!(cache.try_unlock("rse"), Unlock::NoCache));
    assert!(!cache.is_present());
}

#[test]
fn no_cache_is_no_error() {
    let mut cache = Cache::absent();
    assert!(matches!(cache.try_unlock("any"), Unlock::NoCache));
    assert!(!cache.is_present());
}

#[test]
fn record_that_is_no_container_counts_as_wrong_code() {
    let mut short = Cache::holding(vec![1, 2, 3]);
    assert!(matches!(short.try_unlock("abc"), Unlock::WrongCode));
    assert!(!short.is_present());
    let mut garbage = Cache::holding(vec![0u8; 200]);
    assert!(matches!(garbage.try_unlock("abc"), Unlock::WrongCode));
    assert!(!garbage.is_present());
}

#[test]
fn record_with_an_overlong_declared_length_is_not_opened() {
    let mut record = sealed(b"abc", b"payload");
    record[LENGTH_AT..LENGTH_AT + 8].copy_from_slice(&u64::MAX.to_be_bytes());
    assert!(unseal(b"abc", &record).is_none());
    let mut cache = Cache::holding(record);
    assert!(matches!(cache.try_unlock("abc"), Unlock::WrongCode));
}

#[test]
fn tampered_record_counts_as_wrong_code() {
    let mut record = sealed(b"abc", b"payload");
    let last = record.len() - 1;
    record[last] ^= 1;
    let mut cache = Cache::holding(record);
    assert!(matches!(cache.try_unlock("abc"), Unlock::WrongCode));
    assert!(!cache.is_present());
}

#[test]
fn payload_that_is_not_text_is_reported_and_kept() {
    let record = sealed(b"abc", &[0xff, 0xfe, 0x00]);
    let mut cache = Cache::holding(record.clone());
    assert!(matches!(cache.try_unlock("abc"), Unlock::NotText));
    assert_eq!(cache.record, Some(record));
}

#[test]
fn unseal_gives_the_payload_back() {
    let record = sealed("örd".as_bytes(), b"some payload");
    assert_eq!(unseal("örd".as_bytes(), &record), Some(b"some payload".to_vec()));
    assert_eq!(unseal(b"ord", &record), None);
}

#[test]
fn judge_decodes_or_refuses() {
    assert!(matches!(judge(None), Unlock::WrongCode));
    assert!(matches!(judge(Some("grüß".as_bytes().to_vec())), Unlock::Recovered(p) if p == "grüß"));
    assert!(matches!(judge(Some(vec![])), Unlock::Recovered(p) if p.is_empty()));
    assert!(matches!(judge(Some(vec![0xc3])), Unlock::NotText));
    assert!(matches!(judge(Some(vec![0xed, 0xa0, 0x80])), Unlock::NotText));
}

#[test]
fn put_takes_a_record_or_leaves_the_cache() {
    let mut cache = Cache::holding(vec![1]);
    assert_eq!(cache.put(None), Err(StoreError::SealFailed));
    assert_eq!(cache.record, Some(vec![1]));
    assert_eq!(cache.put(Some(vec![2, 3])), Ok(()));
    assert_eq!(cache.record, Some(vec![2, 3]));
}
