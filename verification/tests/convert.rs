use god_converter::convert::{
    report, Action, Conversion, ConvertError, Event, Failure, Phase, Request, Stage,
};
use god_converter::geometry::{
    Geometry, ImageError, TrimMode, BLOCKS_PER_PART, BLOCK_SIZE, PART_FILE_BLOCKS,
};
use god_converter::hash_list::{FormatError, HashList};
use god_converter::title::{ContentType, MetadataError, TitleExecutionInfo, TitleInfo};

const A: [u8; 20] = [1, 2, 3, 4, 5, 6, 7, 8, 9, 10, 11, 12, 13, 14, 15, 16, 17, 18, 19, 20];
const B: [u8; 20] = [
    101, 102, 103, 104, 105, 106, 107, 108, 109, 110, 111, 112, 113, 114, 115, 116, 117, 118, 119,
    120,
];
const C: [u8; 20] = [0xaa; 20];
const D2: [u8; 20] =
    [73, 15, 75, 121, 193, 176, 70, 199, 255, 11, 174, 97, 110, 90, 218, 95, 107, 226, 181, 91];
const D1: [u8; 20] =
    [71, 204, 92, 31, 17, 10, 250, 101, 89, 162, 160, 127, 26, 17, 78, 66, 216, 208, 49, 105];
const ROOT: [u8; 20] =
    [134, 44, 213, 121, 180, 14, 234, 93, 206, 171, 11, 20, 184, 45, 64, 241, 153, 231, 136, 124];

fn title() -> TitleInfo {
    TitleInfo {
        execution_info: TitleExecutionInfo {
            media_id: 0x1a2b3c4d,
            version: 2,
            base_version: 1,
            title_id: 0x4d5307e6,
            platform: 2,
            executable_type: 1,
            disc_number: 1,
            disc_count: 1,
        },
        content_type: ContentType::GamesOnDemand,
    }
}

fn table(entries: &[[u8; 20]]) -> HashList {
    let mut h = HashList::new();
    for e in entries {
        h.add_hash(e).unwrap();
    }
    h
}

fn request(dry_run: bool, trim_mode: TrimMode, explicit_title: Option<&str>) -> Request {
    Request { explicit_title: explicit_title.map(|s| s.to_string()), trim_mode, dry_run, workers: 4 }
}

fn opened(catalog: Option<&str>) -> Event {
    Event::ImageOpened { title: title(), catalog_name: catalog.map(|s| s.to_string()) }
}

const REPORT: &str = "Title ID: 4D5307E6\n    Name: Halo 3\n    Type: Games on Demand\n";

#[test]
fn dry_run_reports_and_writes_nothing() {
    let c = Conversion::new(request(true, TrimMode::FromEnd, None));
    assert_eq!(c.phase(), Phase::Created);
    let (c, a) = c.step(Event::Start);
    assert!(matches!(a, Action::OpenImage));
    assert_eq!(c.phase(), Phase::Opening);
    let (c, a) = c.step(opened(Some("Halo 3")));
    assert!(c.is_finished());
    match a {
        Action::Finish { outcome: Ok(r) } => {
            assert_eq!(r.message, REPORT);
            assert_eq!(r.package_path, None);
            assert_eq!(r.game_name, "Halo 3");
            assert_eq!(r.title_id, "4D5307E6");
        }
        _ => panic!("a dry run ends with its report"),
    }
}

#[test]
fn dry_run_never_asks_for_a_write_whatever_is_reported() {
    let events: Vec<fn() -> Event> = vec![
        || Event::Start,
        || Event::DataDirCleared,
        || Event::PartsWritten,
        || Event::HashTablesRead { tables: vec![HashList::new()] },
        || Event::HashTablesWritten,
        || Event::LastPartMeasured { size: 1 },
        || Event::HeaderWritten,
        || Event::PayloadMeasured { file_len: 10, root_offset: 0, used_prefix_size: 10 },
    ];
    for first in &events {
        for second in &events {
            let c = Conversion::new(request(true, TrimMode::FromEnd, None));
            let (c, a1) = c.step(first());
            let (_, a2) = c.step(second());
            for a in [a1, a2] {
                assert!(!matches!(
                    a,
                    Action::ClearDataDir { .. }
                        | Action::WriteParts { .. }
                        | Action::WriteHashTables { .. }
                        | Action::WriteHeader { .. }
                ));
            }
        }
    }
}

#[test]
fn full_run_of_three_parts() {
    let payload = 2 * BLOCK_SIZE * BLOCKS_PER_PART + 5000;
    let root_offset = 0xfd90000u64;
    let c = Conversion::new(request(false, TrimMode::FromEnd, None));
    let (c, _) = c.step(Event::Start);
    let (c, a) = c.step(opened(Some("Halo 3")));
    assert!(matches!(a, Action::MeasurePayload { mode: TrimMode::FromEnd }));
    assert_eq!(c.phase(), Phase::Measuring);
    let (c, a) = c.step(Event::PayloadMeasured {
        file_len: root_offset + payload,
        root_offset,
        used_prefix_size: 0,
    });
    match a {
        Action::ClearDataDir { path } => {
            assert_eq!(path, vec!["4D5307E6", "00007000", "1A2B3C4D.data"]);
        }
        _ => panic!("the directory of part files is cleared first"),
    }
    let (c, a) = c.step(Event::DataDirCleared);
    match a {
        Action::WriteParts { geometry, root_offset: r, layout, workers } => {
            assert_eq!(workers, 4);
            assert_eq!(geometry, Geometry::for_payload(payload));
            assert_eq!(geometry.part_count, 3);
            assert_eq!(r, root_offset);
            assert_eq!(
                layout.part_file_path(2),
                vec!["4D5307E6", "00007000", "1A2B3C4D.data", "Data0002"]
            );
        }
        _ => panic!("the parts are written next"),
    }
    let (c, a) = c.step(Event::PartsWritten);
    assert!(matches!(a, Action::ReadHashTables { part_count: 3, .. }));
    let (c, a) =
        c.step(Event::HashTablesRead { tables: vec![table(&[A]), table(&[B]), table(&[C])] });
    match a {
        Action::WriteHashTables { tables, .. } => {
            assert_eq!(tables.len(), 2);
            assert_eq!(tables[0].len(), 2);
            assert_eq!(tables[0].entry(0), A);
            assert_eq!(tables[0].entry(1), D1);
            assert_eq!(tables[1].len(), 2);
            assert_eq!(tables[1].entry(0), B);
            assert_eq!(tables[1].entry(1), D2);
        }
        _ => panic!("the closed tables are written back"),
    }
    let (c, a) = c.step(Event::HashTablesWritten);
    match a {
        Action::MeasureLastPart { path } => {
            assert_eq!(path, vec!["4D5307E6", "00007000", "1A2B3C4D.data", "Data0002"]);
        }
        _ => panic!("the last part is measured"),
    }
    let (c, a) = c.step(Event::LastPartMeasured { size: 3 * 4096 });
    match a {
        Action::WriteHeader { header, path } => {
            assert_eq!(path, vec!["4D5307E6", "00007000", "1A2B3C4D"]);
            assert_eq!(header.execution_info, title().execution_info);
            assert_eq!(header.content_type, ContentType::GamesOnDemand);
            assert_eq!(header.block_count as u64, 2 * BLOCKS_PER_PART + 2);
            assert_eq!(header.unallocated_block_count, 0);
            assert_eq!(header.part_count, 3);
            assert_eq!(header.parts_total_size, 3 * 4096 + 2 * BLOCK_SIZE * PART_FILE_BLOCKS);
            assert_eq!(header.mht_hash, ROOT);
            assert_eq!(header.game_title, Some("Halo 3".to_string()));
        }
        _ => panic!("the header is written"),
    }
    assert_eq!(c.phase(), Phase::WritingHeader);
    let (c, a) = c.step(Event::HeaderWritten);
    assert!(c.is_finished());
    match a {
        Action::Finish { outcome: Ok(r) } => {
            assert_eq!(r.message, format!("{}Conversion successful!", REPORT));
            assert_eq!(r.package_path, Some(vec!["4D5307E6".to_string()]));
            assert_eq!(r.game_name, "Halo 3");
            assert_eq!(r.title_id, "4D5307E6");
        }
        _ => panic!("the conversion ends with its report"),
    }
}

fn run_to_header(req: Request, catalog: Option<&str>, measured: Event, tables: Vec<HashList>) -> Action {
    let c = Conversion::new(req);
    let (c, _) = c.step(Event::Start);
    let (c, _) = c.step(opened(catalog));
    let (c, _) = c.step(measured);
    let (c, _) = c.step(Event::DataDirCleared);
    let (c, _) = c.step(Event::PartsWritten);
    let (c, _) = c.step(Event::HashTablesRead { tables });
    let (c, _) = c.step(Event::HashTablesWritten);
    let (_, a) = c.step(Event::LastPartMeasured { size: 8192 });
    a
}

#[test]
fn single_part_header_digest_is_the_table_as_written() {
    let a = run_to_header(
        request(false, TrimMode::UsedData, Some("Mine")),
        Some("Halo 3"),
        Event::PayloadMeasured { file_len: 1 << 30, root_offset: 4096, used_prefix_size: 5000 },
        vec![table(&[A, B])],
    );
    match a {
        Action::WriteHeader { header, .. } => {
            assert_eq!(header.mht_hash, table(&[A, B]).digest());
            assert_eq!(header.block_count, 2);
            assert_eq!(header.part_count, 1);
            assert_eq!(header.parts_total_size, 8192);
            assert_eq!(header.game_title, Some("Mine".to_string()));
        }
        _ => panic!("the header is written"),
    }
}

#[test]
fn single_part_writes_no_table_back() {
    let c = Conversion::new(request(false, TrimMode::UsedData, None));
    let (c, _) = c.step(Event::Start);
    let (c, _) = c.step(opened(None));
    let (c, _) =
        c.step(Event::PayloadMeasured { file_len: 0, root_offset: 0, used_prefix_size: 1 });
    let (c, _) = c.step(Event::DataDirCleared);
    let (c, _) = c.step(Event::PartsWritten);
    let (_, a) = c.step(Event::HashTablesRead { tables: vec![table(&[A])] });
    match a {
        Action::WriteHashTables { tables, .. } => assert!(tables.is_empty()),
        _ => panic!("nothing but the tables is asked for"),
    }
}

#[test]
fn header_has_no_title_without_catalog_or_request() {
    let a = run_to_header(
        request(false, TrimMode::UsedData, None),
        None,
        Event::PayloadMeasured { file_len: 0, root_offset: 0, used_prefix_size: 5000 },
        vec![table(&[A])],
    );
    match a {
        Action::WriteHeader { header, .. } => assert_eq!(header.game_title, None),
        _ => panic!("the header is written"),
    }
}

#[test]
fn trim_modes_give_the_same_plan_when_everything_is_used() {
    let measured = || Event::PayloadMeasured {
        file_len: 10_000 + 4096,
        root_offset: 4096,
        used_prefix_size: 10_000,
    };
    let mut plans = Vec::new();
    for mode in [TrimMode::FromEnd, TrimMode::UsedData] {
        let c = Conversion::new(request(false, mode, None));
        let (c, _) = c.step(Event::Start);
        let (c, _) = c.step(opened(None));
        let (c, _) = c.step(measured());
        let (_, a) = c.step(Event::DataDirCleared);
        match a {
            Action::WriteParts { geometry, root_offset, layout, .. } => {
                plans.push((geometry, root_offset, layout))
            }
            _ => panic!("the parts are written next"),
        }
    }
    assert_eq!(plans[0], plans[1]);
    assert_eq!(plans[0].0.payload_size, 10_000);
}

#[test]
fn trim_modes_differ_when_the_image_has_padding() {
    let mut sizes = Vec::new();
    for mode in [TrimMode::FromEnd, TrimMode::UsedData] {
        let c = Conversion::new(request(false, mode, None));
        let (c, _) = c.step(Event::Start);
        let (c, _) = c.step(opened(None));
        let (c, _) = c.step(Event::PayloadMeasured {
            file_len: 1_000_000,
            root_offset: 1000,
            used_prefix_size: 5000,
        });
        let (_, a) = c.step(Event::DataDirCleared);
        match a {
            Action::WriteParts { geometry, .. } => sizes.push(geometry.payload_size),
            _ => panic!("the parts are written next"),
        }
    }
    assert_eq!(sizes, vec![999_000, 5000]);
}

fn fails_with(a: Action, stage: Stage, failure: Failure) {
    match a {
        Action::Finish { outcome: Err(e) } => assert_eq!(e, ConvertError { stage, failure }),
        _ => panic!("the conversion ends with a failure"),
    }
}

#[test]
fn empty_payload_ends_the_conversion() {
    let c = Conversion::new(request(false, TrimMode::FromEnd, None));
    let (c, _) = c.step(Event::Start);
    let (c, _) = c.step(opened(None));
    let (c, a) =
        c.step(Event::PayloadMeasured { file_len: 4096, root_offset: 4096, used_prefix_size: 9 });
    assert!(c.is_finished());
    fails_with(a, Stage::ReadImage, Failure::Image(ImageError::EmptyPayload));
}

#[test]
fn root_offset_beyond_the_file_ends_the_conversion() {
    let c = Conversion::new(request(false, TrimMode::FromEnd, None));
    let (c, _) = c.step(Event::Start);
    let (c, _) = c.step(opened(None));
    let (_, a) =
        c.step(Event::PayloadMeasured { file_len: 10, root_offset: 4096, used_prefix_size: 9 });
    fails_with(a, Stage::ReadImage, Failure::Image(ImageError::RootBeyondEnd));
}

#[test]
fn reported_failure_ends_the_conversion() {
    let c = Conversion::new(request(false, TrimMode::FromEnd, None));
    let (c, _) = c.step(Event::Start);
    let (c, a) = c.step(Event::Failed {
        stage: Stage::ReadExecutable,
        failure: Failure::Metadata(MetadataError::ExecutableNotFound),
    });
    assert!(c.is_finished());
    fails_with(a, Stage::ReadExecutable, Failure::Metadata(MetadataError::ExecutableNotFound));
    let (c, a) = c.step(Event::Start);
    assert!(c.is_finished());
    fails_with(a, Stage::WriteHeader, Failure::OutOfOrder);
}

#[test]
fn report_out_of_order_ends_the_conversion() {
    let c = Conversion::new(request(false, TrimMode::FromEnd, None));
    let (c, a) = c.step(Event::PartsWritten);
    assert!(c.is_finished());
    fails_with(a, Stage::OpenSource, Failure::OutOfOrder);
}

#[test]
fn wrong_number_of_tables_ends_the_conversion() {
    let c = Conversion::new(request(false, TrimMode::UsedData, None));
    let (c, _) = c.step(Event::Start);
    let (c, _) = c.step(opened(None));
    let (c, _) =
        c.step(Event::PayloadMeasured { file_len: 0, root_offset: 0, used_prefix_size: 1 });
    let (c, _) = c.step(Event::DataDirCleared);
    let (c, _) = c.step(Event::PartsWritten);
    let (_, a) = c.step(Event::HashTablesRead { tables: vec![table(&[A]), table(&[B])] });
    fails_with(a, Stage::ReadHashTable, Failure::OutOfOrder);
}

#[test]
fn full_table_ends_the_conversion() {
    let payload = BLOCK_SIZE * BLOCKS_PER_PART + 1;
    let c = Conversion::new(request(false, TrimMode::UsedData, None));
    let (c, _) = c.step(Event::Start);
    let (c, _) = c.step(opened(None));
    let (c, _) =
        c.step(Event::PayloadMeasured { file_len: 0, root_offset: 0, used_prefix_size: payload });
    let (c, _) = c.step(Event::DataDirCleared);
    let (c, _) = c.step(Event::PartsWritten);
    let (_, a) =
        c.step(Event::HashTablesRead { tables: vec![table(&vec![A; 204]), table(&[B])] });
    fails_with(a, Stage::ReadHashTable, Failure::Format(FormatError::Full));
}

#[test]
fn same_reports_give_the_same_actions() {
    let run = || {
        run_to_header(
            request(false, TrimMode::FromEnd, None),
            Some("Halo 3"),
            Event::PayloadMeasured {
                file_len: 3 * BLOCK_SIZE * BLOCKS_PER_PART,
                root_offset: 0,
                used_prefix_size: 0,
            },
            vec![table(&[A]), table(&[B]), table(&[C])],
        )
    };
    match (run(), run()) {
        (
            Action::WriteHeader { header: h1, path: p1 },
            Action::WriteHeader { header: h2, path: p2 },
        ) => {
            assert_eq!(p1, p2);
            assert_eq!(h1.mht_hash, h2.mht_hash);
            assert_eq!(h1.block_count, h2.block_count);
            assert_eq!(h1.part_count, h2.part_count);
            assert_eq!(h1.parts_total_size, h2.parts_total_size);
            assert_eq!(h1.game_title, h2.game_title);
        }
        _ => panic!("the header is written"),
    }
}

#[test]
fn stage_messages() {
    assert_eq!(Stage::OpenSource.message(), "error opening source ISO file");
    assert_eq!(Stage::SourceMetadata.message(), "error reading source ISO file metadata");
    assert_eq!(Stage::ReadImage.message(), "error reading source ISO");
    assert_eq!(Stage::ReadExecutable.message(), "error reading image executable");
    assert_eq!(Stage::ClearDataDir.message(), "error clearing data directory");
    assert_eq!(Stage::CreatePart.message(), "error creating part file");
    assert_eq!(Stage::WritePart.message(), "error writing part file");
    assert_eq!(Stage::ReadHashTable.message(), "error reading part file MHT");
    assert_eq!(Stage::WriteHashTable.message(), "error writing part file MHT");
    assert_eq!(Stage::MeasurePart.message(), "error reading part file");
    assert_eq!(Stage::OpenHeader.message(), "cannot open con header file");
    assert_eq!(Stage::WriteHeader.message(), "error writing con header file");
    let e = ConvertError { stage: Stage::ClearDataDir, failure: Failure::Layout };
    assert_eq!(e.message(), "error clearing data directory");
}

#[test]
fn report_of_a_dry_run_and_of_a_full_run_agree_on_the_title() {
    let dry = report(&title(), Some("Halo 3".to_string()), false);
    let full = report(&title(), Some("Halo 3".to_string()), true);
    assert_eq!(dry.title_id, full.title_id);
    assert_eq!(dry.game_name, full.game_name);
    assert_eq!(dry.package_path, None);
    assert_eq!(full.package_path, Some(vec!["4D5307E6".to_string()]));
    assert_eq!(full.message, format!("{}Conversion successful!", dry.message));
}

#[test]
fn number_of_workers_changes_nothing_else() {
    let mut plans = Vec::new();
    for workers in [1usize, 16] {
        let c = Conversion::new(Request {
            explicit_title: None,
            trim_mode: TrimMode::FromEnd,
            dry_run: false,
            workers,
        });
        let (c, _) = c.step(Event::Start);
        let (c, _) = c.step(opened(Some("Halo 3")));
        let (c, a) = c.step(Event::PayloadMeasured {
            file_len: 3 * BLOCK_SIZE * BLOCKS_PER_PART,
            root_offset: 0,
            used_prefix_size: 0,
        });
        let cleared = match a {
            Action::ClearDataDir { path } => path,
            _ => panic!("the directory of part files is cleared first"),
        };
        let (c, a) = c.step(Event::DataDirCleared);
        let (geometry, layout, asked) = match a {
            Action::WriteParts { geometry, layout, workers, .. } => (geometry, layout, workers),
            _ => panic!("the parts are written next"),
        };
        assert_eq!(asked, workers);
        let (c, _) = c.step(Event::PartsWritten);
        let (c, a) =
            c.step(Event::HashTablesRead { tables: vec![table(&[A]), table(&[B]), table(&[C])] });
        let blocks: Vec<Vec<u8>> = match a {
            Action::WriteHashTables { tables, .. } => tables.iter().map(|t| t.to_block()).collect(),
            _ => panic!("the closed tables are written back"),
        };
        let (c, _) = c.step(Event::HashTablesWritten);
        let (_, a) = c.step(Event::LastPartMeasured { size: 4096 });
        let header = match a {
            Action::WriteHeader { header, path } => (
                header.block_count,
                header.part_count,
                header.parts_total_size,
                header.mht_hash,
                header.game_title,
                path,
            ),
            _ => panic!("the header is written"),
        };
        plans.push((cleared, geometry, layout, blocks, header));
    }
    assert_eq!(plans[0], plans[1]);
}

#[test]
fn failures_of_outside_work_are_passed_on_as_reported() {
    let cases = [
        (Stage::OpenSource, Failure::Io),
        (Stage::SourceMetadata, Failure::Io),
        (Stage::ReadImage, Failure::Image(ImageError::InvalidVolumeDescriptor)),
        (Stage::ReadExecutable, Failure::Metadata(MetadataError::MalformedExecutable)),
        (Stage::ClearDataDir, Failure::Layout),
        (Stage::ReadHashTable, Failure::Format(FormatError::Undersized)),
        (Stage::ReadHashTable, Failure::Format(FormatError::Corrupt)),
    ];
    for (stage, failure) in cases {
        let c = Conversion::new(request(false, TrimMode::FromEnd, None));
        let (c, _) = c.step(Event::Start);
        let (c, a) = c.step(Event::Failed { stage, failure });
        assert!(c.is_finished());
        fails_with(a, stage, failure);
    }
}

#[test]
fn header_that_cannot_count_the_parts_ends_the_conversion() {
    let payload = BLOCK_SIZE * BLOCKS_PER_PART + 1;
    let c = Conversion::new(request(false, TrimMode::UsedData, None));
    let (c, _) = c.step(Event::Start);
    let (c, _) = c.step(opened(None));
    let (c, _) =
        c.step(Event::PayloadMeasured { file_len: 0, root_offset: 0, used_prefix_size: payload });
    let (c, _) = c.step(Event::DataDirCleared);
    let (c, _) = c.step(Event::PartsWritten);
    let (c, _) = c.step(Event::HashTablesRead { tables: vec![table(&[A]), table(&[B])] });
    let (c, _) = c.step(Event::HashTablesWritten);
    let (c, a) = c.step(Event::LastPartMeasured { size: u64::MAX });
    assert!(c.is_finished());
    fails_with(a, Stage::MeasurePart, Failure::Image(ImageError::PayloadTooLarge));
}
