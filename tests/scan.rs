use shuffle_player::scan::{extension, is_audio_extension, is_eligible, select_eligible, ScanEntry};

fn file(name: &str) -> ScanEntry {
    ScanEntry { is_file: true, file_name: name.to_string() }
}

fn dir(name: &str) -> ScanEntry {
    ScanEntry { is_file: false, file_name: name.to_string() }
}

#[test]
fn three_records() {
    let entries = vec![file("a.wav"), file("b.txt"), file("c.ogg")];
    assert_eq!(select_eligible(&entries), vec![0, 2]);
}

#[test]
fn every_eligible_file_selected_once() {
    let entries = vec![
        dir("audio"),
        file("x.mp3"),
        file("notes.md"),
        dir("sub.ogg"),
        file("y.ogg"),
        file("x.mp3"),
        file("z.wav"),
    ];
    assert_eq!(select_eligible(&entries), vec![1, 4, 5, 6]);
}

#[test]
fn empty_listing_selects_nothing() {
    assert_eq!(select_eligible(&Vec::new()), Vec::<usize>::new());
}

#[test]
fn listing_without_audio_selects_nothing() {
    let entries = vec![dir("audio"), file("readme"), file("song.flac"), file(".ogg")];
    assert_eq!(select_eligible(&entries), Vec::<usize>::new());
}

#[test]
fn extension_after_last_dot() {
    assert_eq!(extension("a.wav"), Some("wav".to_string()));
    assert_eq!(extension("archive.tar.gz"), Some("gz".to_string()));
    assert_eq!(extension("trailing."), Some(String::new()));
    assert_eq!(extension("x.y.mp3"), Some("mp3".to_string()));
}

#[test]
fn extension_absent() {
    assert_eq!(extension("noext"), None);
    assert_eq!(extension(""), None);
    assert_eq!(extension(".profile"), None);
    assert_eq!(extension(".."), None);
    assert_eq!(extension("."), None);
}

#[test]
fn extension_of_hidden_file_with_dot() {
    assert_eq!(extension(".hidden.ogg"), Some("ogg".to_string()));
    assert_eq!(extension("..ogg"), Some("ogg".to_string()));
}

#[test]
fn audio_extensions_are_exact() {
    assert!(is_audio_extension("ogg"));
    assert!(is_audio_extension("wav"));
    assert!(is_audio_extension("mp3"));
    assert!(!is_audio_extension("OGG"));
    assert!(!is_audio_extension("Wav"));
    assert!(!is_audio_extension("mp4"));
    assert!(!is_audio_extension("oggg"));
    assert!(!is_audio_extension(""));
}

#[test]
fn directories_are_never_eligible() {
    assert!(!is_eligible(&dir("music.ogg")));
    assert!(is_eligible(&file("music.ogg")));
    assert!(!is_eligible(&file("music.OGG")));
}
