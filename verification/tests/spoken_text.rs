use utility::tts::Spoken;

#[test]
fn spoken_hands_its_bytes_back() {
    let spoken = Spoken::new(vec![b'R', b'I', b'F', b'F', 0, 1]);
    assert_eq!(spoken.as_bytes(), &[b'R', b'I', b'F', b'F', 0, 1]);
    assert_eq!(spoken.into_inner(), vec![b'R', b'I', b'F', b'F', 0, 1]);
}

#[test]
fn spoken_may_be_empty() {
    let spoken = Spoken::new(Vec::new());
    assert!(spoken.as_bytes().is_empty());
    assert!(spoken.into_inner().is_empty());
}
