use bili_merge::merge::merge_args;
use bili_merge::metadata::VideoInfo;
use bili_merge::naming::{final_file_name, sanitize_component, target_dir_name};

fn info(uname: &str, title: &str, group_title: &str, item_id: u64) -> VideoInfo {
    VideoInfo {
        uname: uname.to_string(),
        title: title.to_string(),
        group_title: group_title.to_string(),
        pubdate: 1700000000,
        update_time: 1700000100,
        total_size: 1048576,
        item_id,
        cover_path: "/tmp/cover.jpg".to_string(),
        group_cover_path: "/tmp/gcover.jpg".to_string(),
    }
}

#[test]
fn dir_name_with_group_title() {
    assert_eq!(target_dir_name(&info("Alice", "EP1", "Season1", 42)), "Alice - Season1 - EP1");
}

#[test]
fn dir_name_without_group_title() {
    assert_eq!(target_dir_name(&info("Alice", "EP1", "EP1", 42)), "Alice - EP1");
}

#[test]
fn dir_name_is_sanitized() {
    assert_eq!(target_dir_name(&info("A/B", "x\\y", "g\0h", 1)), "A_B - g_h - x_y");
    assert_eq!(sanitize_component("äb/ç"), "äb_ç");
    assert_eq!(sanitize_component(""), "");
}

#[test]
fn file_name_from_item_id() {
    assert_eq!(final_file_name(42), "42.mp4");
    assert_eq!(final_file_name(0), "0.mp4");
    assert_eq!(final_file_name(1000), "1000.mp4");
    assert_eq!(final_file_name(u64::MAX), "18446744073709551615.mp4");
}

#[test]
fn merge_command_line() {
    let inputs = vec!["/w/a.m4s".to_string(), "/w/b.m4s".to_string()];
    assert_eq!(
        merge_args(&inputs, "/out/42.mp4"),
        vec!["-i", "/w/a.m4s", "-i", "/w/b.m4s", "-c", "copy", "/out/42.mp4"]
    );
    assert_eq!(merge_args(&Vec::new(), "o.mp4"), vec!["-c", "copy", "o.mp4"]);
}
