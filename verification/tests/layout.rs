use god_converter::layout::FileLayout;
use god_converter::title::{ContentType, TitleExecutionInfo};

fn exe(title_id: u32, media_id: u32) -> TitleExecutionInfo {
    TitleExecutionInfo {
        media_id,
        version: 0,
        base_version: 0,
        title_id,
        platform: 0,
        executable_type: 0,
        disc_number: 1,
        disc_count: 1,
    }
}

#[test]
fn games_on_demand_layout() {
    let l = FileLayout::new(&exe(0x4d5307e6, 0x1a2b3c4d), ContentType::GamesOnDemand);
    assert_eq!(l.title_dir(), "4D5307E6");
    assert_eq!(l.content_type_dir(), "00007000");
    assert_eq!(l.header_file_name(), "1A2B3C4D");
    assert_eq!(l.data_dir_name(), "1A2B3C4D.data");
    assert_eq!(l.package_dir_path(), vec!["4D5307E6"]);
    assert_eq!(l.header_file_path(), vec!["4D5307E6", "00007000", "1A2B3C4D"]);
    assert_eq!(l.data_dir_path(), vec!["4D5307E6", "00007000", "1A2B3C4D.data"]);
    assert_eq!(
        l.part_file_path(3),
        vec!["4D5307E6", "00007000", "1A2B3C4D.data", "Data0003"]
    );
}

#[test]
fn xbox_original_layout_is_named_by_title() {
    let l = FileLayout::new(&exe(0x4d5307e6, 0x1a2b3c4d), ContentType::XboxOriginal);
    assert_eq!(l.content_type_dir(), "00005000");
    assert_eq!(l.header_file_name(), "4D5307E6");
    assert_eq!(l.data_dir_path(), vec!["4D5307E6", "00005000", "4D5307E6.data"]);
}

#[test]
fn part_file_names_are_numbered() {
    assert_eq!(FileLayout::part_file_name(0), "Data0000");
    assert_eq!(FileLayout::part_file_name(42), "Data0042");
    assert_eq!(FileLayout::part_file_name(9999), "Data9999");
    assert_eq!(FileLayout::part_file_name(10000), "Data10000");
}

#[test]
fn package_dir_is_two_levels_above_the_header() {
    let l = FileLayout::new(&exe(7, 9), ContentType::GamesOnDemand);
    let header = l.header_file_path();
    assert_eq!(l.package_dir_path(), header[..header.len() - 2].to_vec());
    let data = l.data_dir_path();
    assert_eq!(data[..2], header[..2]);
}

#[test]
fn different_titles_do_not_share_a_directory() {
    let a = FileLayout::new(&exe(1, 9), ContentType::GamesOnDemand);
    let b = FileLayout::new(&exe(2, 9), ContentType::GamesOnDemand);
    assert_ne!(a.data_dir_path(), b.data_dir_path());
    let c = FileLayout::new(&exe(1, 9), ContentType::XboxOriginal);
    assert_ne!(a.data_dir_path(), c.data_dir_path());
}
