use ample::library::SongData;

#[test]
fn song_data_splits_duration_into_minutes_and_seconds() {
    let song = SongData::new(3, String::from("Blue"), 125);
    assert_eq!(song.id(), 3);
    assert_eq!(song.title(), "Blue");
    assert_eq!(song.artist(), None);
    assert_eq!(song.duration(), (2, 5));
}

#[test]
fn song_data_short_and_exact_minutes() {
    assert_eq!(SongData::new(0, String::new(), 0).duration(), (0, 0));
    assert_eq!(SongData::new(0, String::new(), 59).duration(), (0, 59));
    assert_eq!(SongData::new(0, String::new(), 60).duration(), (1, 0));
    assert_eq!(SongData::new(0, String::new(), 3600).duration(), (60, 0));
}

#[test]
fn song_data_tags_replace_title_and_artist() {
    let mut song = SongData::new(1, String::from("track01.flac"), 200);
    song.set_title(String::from("Intro"));
    song.set_artist(String::from("Someone"));
    assert_eq!(song.title(), "Intro");
    assert_eq!(song.artist(), Some("Someone"));
    assert_eq!(song.duration(), (3, 20));
}
