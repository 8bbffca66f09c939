use disktree_ui::model::{NodeKind, Rgb};
use disktree_ui::text::scan_target;
use disktree_ui::widgets::{
    dir_color, drive_title, empty_list_message, empty_map_message, row_label, section_title,
    type_label,
};

#[test]
fn folder_frames_lighten_with_depth() {
    assert_eq!(dir_color(0, false), Rgb { r: 34, g: 39, b: 50 });
    assert_eq!(dir_color(3, false), Rgb { r: 55, g: 60, b: 71 });
    assert_eq!(dir_color(8, false), Rgb { r: 90, g: 95, b: 106 });
    assert_eq!(dir_color(200, false), dir_color(8, false));
    assert_eq!(dir_color(u16::MAX, false), dir_color(8, false));
}

#[test]
fn unreadable_folders_are_dull_red() {
    assert_eq!(dir_color(0, true), Rgb { r: 78, g: 44, b: 44 });
    assert_eq!(dir_color(5, true), Rgb { r: 78, g: 44, b: 44 });
}

#[test]
fn section_titles_are_strong_white() {
    let t = section_title("Scan a drive");
    assert_eq!(t.text, "Scan a drive");
    assert_eq!((t.size, t.strong, t.space_after), (15, true, 4));
    assert_eq!(t.color, Rgb { r: 255, g: 255, b: 255 });
}

#[test]
fn type_labels() {
    assert_eq!(type_label("archive.zip", true, "Other"), ".zip file");
    assert_eq!(type_label("a.b.tar", true, "Other"), ".tar file");
    assert_eq!(type_label("Makefile", true, "Other"), "File");
    assert_eq!(type_label(".bashrc", true, "Other"), "File");
    assert_eq!(type_label("trailing.", true, "Other"), "File");
    assert_eq!(type_label("photo.jpg", false, "Images"), "Images");
    assert_eq!(type_label("naïve.données", true, "Other"), ".données file");
}

#[test]
fn row_labels() {
    let l = row_label("link", NodeKind::Link, true);
    assert_eq!((l.text.as_str(), l.dim), ("link  (link, not followed)", true));
    let u = row_label("secret", NodeKind::Dir, true);
    assert_eq!((u.text.as_str(), u.dim), ("secret  (access denied)", true));
    let f = row_label("a.txt", NodeKind::File, false);
    assert_eq!((f.text.as_str(), f.dim), ("a.txt", false));
}

#[test]
fn drive_titles() {
    assert_eq!(drive_title("C:\\", "System"), "C:\\  System");
    assert_eq!(drive_title("D:\\", ""), "D:\\");
}

#[test]
fn empty_messages() {
    assert_eq!(empty_map_message(true, true), "This folder could not be read (access denied).");
    assert_eq!(empty_map_message(false, false), "This folder is empty.");
    assert_eq!(empty_map_message(false, true), "Everything in this folder is 0 bytes.");
    assert_eq!(empty_list_message(true), "This folder could not be read (access denied).");
    assert_eq!(empty_list_message(false), "This folder is empty.");
}

#[test]
fn typed_folder_is_trimmed_and_unquoted() {
    assert_eq!(scan_target("  \"C:\\Program Files\"  ").as_deref(), Some("C:\\Program Files"));
    assert_eq!(scan_target("\t/home/you\n").as_deref(), Some("/home/you"));
    assert_eq!(scan_target("\u{3000}D:\\\u{a0}").as_deref(), Some("D:\\"));
    assert_eq!(scan_target("\"\"").as_deref(), Some(""));
    assert_eq!(scan_target("   "), None);
    assert_eq!(scan_target(""), None);
}
