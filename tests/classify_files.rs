use gd_metadata::classify::{get_all_ids, get_non_title_ids, ScannedFile};
use gd_metadata::tag::{TagRead, TagRecord};
use gd_metadata::track::make_io_err;

fn titled(title: &str) -> TagRead {
    let mut t = TagRecord::empty();
    t.title = Some(title.to_string());
    TagRead::Found(t)
}

fn file(name: &str, tag: TagRead) -> ScannedFile {
    ScannedFile { name: name.to_string(), tag }
}

#[test]
fn scenario_untagged_selected_titled_excluded() {
    let files = vec![file("123.mp3", TagRead::NoTag), file("456.mp3", titled("X"))];
    assert_eq!(get_non_title_ids(&files), vec!["123".to_string()]);
}

#[test]
fn unparsable_and_untitled_selected() {
    let files = vec![
        file("1.mp3", TagRead::Unparsable),
        file("2.mp3", TagRead::Found(TagRecord::empty())),
        file("3.mp3", TagRead::Other(make_io_err("permission denied"))),
        file("4.mp3", titled("Song")),
    ];
    assert_eq!(get_non_title_ids(&files), vec!["1".to_string(), "2".to_string()]);
}

#[test]
fn non_track_names_ignored() {
    let files = vec![file("notes.mp3", TagRead::NoTag), file("5.MP3", TagRead::NoTag)];
    assert!(get_non_title_ids(&files).is_empty());
}

#[test]
fn all_ids_ignore_tag_state() {
    let names = vec!["10.mp3".to_string(), "readme.txt".to_string(), "20.mp3".to_string()];
    assert_eq!(get_all_ids(&names), vec!["10".to_string(), "20".to_string()]);
    assert!(get_all_ids(&Vec::new()).is_empty());
}
