use cvd2img::disk::{
    create_partitions, LaidOutPartition, PartitionKind, PartitionTableEntry, Source,
    FILE_SYSTEM_HINT, FIRST_SECTOR, PARTITION_TABLE_TYPE, SECTORS_EXHAUSTED, SECTOR_SIZE,
};
use cvd2img::error::Error;

fn part(name: &'static str, byte_size: u64) -> LaidOutPartition<'static> {
    LaidOutPartition { source: Source::Blank(byte_size), partition_name: name, byte_size }
}

#[test]
fn table_constants() {
    assert_eq!(SECTOR_SIZE, 512);
    assert_eq!(FIRST_SECTOR, 40);
    assert_eq!(PARTITION_TABLE_TYPE, "gpt");
    assert_eq!(FILE_SYSTEM_HINT, "ext2");
}

#[test]
fn empty_layout_has_an_empty_table() {
    assert_eq!(create_partitions(&Vec::new()), Ok(Vec::new()));
}

#[test]
fn first_partition_starts_at_sector_forty() {
    let table = create_partitions(&vec![part("misc", 1048576)]).unwrap();
    assert_eq!(
        table,
        vec![PartitionTableEntry {
            name: "misc",
            start_sector: 40,
            end_sector: 2087,
            kind: PartitionKind::Normal,
            file_system_hint: "ext2",
        }]
    );
}

#[test]
fn begun_sector_is_taken_whole() {
    let table = create_partitions(&vec![
        part("one", 1),
        part("full", 512),
        part("over", 513),
        part("under", 1023),
        part("last", 1024),
    ])
    .unwrap();
    let ranges: Vec<(i64, i64)> =
        table.iter().map(|entry| (entry.start_sector, entry.end_sector)).collect();
    assert_eq!(ranges, vec![(40, 40), (41, 41), (42, 43), (44, 45), (46, 47)]);
}

#[test]
fn empty_partition_covers_no_sector() {
    let table = create_partitions(&vec![part("none", 0), part("some", 512)]).unwrap();
    assert_eq!((table[0].start_sector, table[0].end_sector), (40, 39));
    assert_eq!((table[1].start_sector, table[1].end_sector), (40, 40));
}

#[test]
fn entries_are_contiguous_and_increasing() {
    let sizes: [u64; 9] = [1048576, 10485760, 1, 0, 511, 513, 73728, 65536, 1 << 40];
    let layout: Vec<LaidOutPartition> = sizes.iter().map(|size| part("p", *size)).collect();
    let table = create_partitions(&layout).unwrap();
    assert_eq!(table.len(), layout.len());
    assert_eq!(table[0].start_sector, 40);
    for i in 0..table.len() {
        let sectors = ((sizes[i] + 511) / 512) as i64;
        assert_eq!(table[i].end_sector, table[i].start_sector + sectors - 1);
        if i + 1 < table.len() {
            assert_eq!(table[i + 1].start_sector, table[i].end_sector + 1);
            assert!(table[i + 1].start_sector >= table[i].start_sector);
        }
    }
}

#[test]
fn entries_keep_names_and_order() {
    let table = create_partitions(&vec![part("uboot_env", 73728), part("vbmeta", 65536)]).unwrap();
    assert_eq!(table[0].name, "uboot_env");
    assert_eq!(table[1].name, "vbmeta");
    assert_eq!((table[0].start_sector, table[0].end_sector), (40, 183));
    assert_eq!((table[1].start_sector, table[1].end_sector), (184, 311));
}

#[test]
fn largest_partition_alone_fits() {
    let table = create_partitions(&vec![part("huge", u64::MAX)]).unwrap();
    assert_eq!(table[0].start_sector, 40);
    assert_eq!(table[0].end_sector, 40 + (1i64 << 55) - 1);
}

#[test]
fn partition_beyond_the_last_sector_is_reported() {
    let mut layout: Vec<LaidOutPartition> = Vec::new();
    for _ in 0..255 {
        layout.push(part("huge", u64::MAX));
    }
    assert!(create_partitions(&layout).is_ok());
    layout.push(part("last", u64::MAX));
    layout.push(part("never", 1));
    assert_eq!(
        create_partitions(&layout),
        Err(Error::Partition {
            index: 255,
            name: "last".to_string(),
            detail: SECTORS_EXHAUSTED.to_string(),
        })
    );
}

#[test]
fn table_may_reach_the_last_sector_but_one() {
    let mut layout: Vec<LaidOutPartition> = Vec::new();
    for _ in 0..255 {
        layout.push(part("huge", u64::MAX));
    }
    // 40 + 255 * 2^55 sectors lie before the next partition, and the sector
    // behind it may be i64::MAX at most.
    let left: u64 = (1u64 << 55) - 41;
    layout.push(part("rest", left * 512));
    let table = create_partitions(&layout).unwrap();
    assert_eq!(table[255].start_sector, 40 + 255 * (1i64 << 55));
    assert_eq!(table[255].end_sector, i64::MAX - 1);
    layout.push(part("none", 0));
    let table = create_partitions(&layout).unwrap();
    assert_eq!((table[256].start_sector, table[256].end_sector), (i64::MAX, i64::MAX - 1));
    layout.push(part("one", 1));
    assert!(matches!(create_partitions(&layout), Err(Error::Partition { index: 257, .. })));
}
