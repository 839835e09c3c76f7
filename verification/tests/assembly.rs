use cvd2img::disk::{
    create_disk_image, create_partitions, Assembly, ComponentSpec, LaidOutPartition, Observation,
    Request, Source, RESERVED_BYTES,
};
use cvd2img::pipeline::{properties_components, system_components};

/// Carries out an assembly in memory: every file has the length that
/// `length_of` gives. Returns the requests met and the layout.
fn assemble<'a>(
    components: Vec<ComponentSpec<'a>>,
    length_of: &dyn Fn(&str) -> u64,
) -> (Vec<Request<'a>>, Vec<LaidOutPartition<'a>>) {
    let mut assembly: Assembly<'a> = create_disk_image(components);
    let mut requests = Vec::new();
    loop {
        let request = assembly.pending();
        requests.push(request);
        let event = match request {
            Request::WriteZeros { .. } | Request::Copy { .. } => Observation::Completed,
            Request::Measure { image } => Observation::Measured(length_of(image)),
            Request::Finished => break,
        };
        assembly = assembly.advance(event);
    }
    assert!(assembly.is_finished());
    (requests, assembly.into_layout())
}

fn bytes_of(requests: &[Request]) -> u128 {
    requests
        .iter()
        .map(|request| match request {
            Request::WriteZeros { block_size, blocks } => *block_size as u128 * *blocks as u128,
            Request::Copy { block_size, blocks, .. } => *block_size as u128 * *blocks as u128,
            Request::Measure { .. } | Request::Finished => 0,
        })
        .sum()
}

#[test]
fn empty_image_is_two_reservations() {
    let (requests, layout) = assemble(Vec::new(), &|_| 0);
    assert_eq!(
        requests,
        vec![
            Request::WriteZeros { block_size: 20480, blocks: 1 },
            Request::WriteZeros { block_size: 20480, blocks: 1 },
            Request::Finished,
        ]
    );
    assert!(layout.is_empty());
    assert_eq!(bytes_of(&requests), 40960);
}

#[test]
fn blank_region_is_written_in_best_blocks() {
    let (requests, layout) = assemble(vec![ComponentSpec::blank(1048576, "misc")], &|_| 0);
    assert_eq!(
        requests,
        vec![
            Request::WriteZeros { block_size: 20480, blocks: 1 },
            Request::WriteZeros { block_size: 524288, blocks: 2 },
            Request::WriteZeros { block_size: 20480, blocks: 1 },
            Request::Finished,
        ]
    );
    assert_eq!(
        layout,
        vec![LaidOutPartition {
            source: Source::Blank(1048576),
            partition_name: "misc",
            byte_size: 1048576
        }]
    );
}

#[test]
fn file_is_measured_then_copied() {
    let (requests, layout) =
        assemble(vec![ComponentSpec::file("boot.img", "boot_a")], &|_| 10 * 1024 * 1024);
    assert_eq!(
        requests,
        vec![
            Request::WriteZeros { block_size: 20480, blocks: 1 },
            Request::Measure { image: "boot.img" },
            Request::Copy { image: "boot.img", block_size: 1048576, blocks: 10 },
            Request::WriteZeros { block_size: 20480, blocks: 1 },
            Request::Finished,
        ]
    );
    assert_eq!(
        layout,
        vec![LaidOutPartition {
            source: Source::File("boot.img"),
            partition_name: "boot_a",
            byte_size: 10485760
        }]
    );
}

#[test]
fn empty_sources_add_no_bytes() {
    let (requests, layout) = assemble(
        vec![ComponentSpec::blank(0, "nothing"), ComponentSpec::file("empty.img", "empty")],
        &|_| 0,
    );
    assert_eq!(
        requests,
        vec![
            Request::WriteZeros { block_size: 20480, blocks: 1 },
            Request::WriteZeros { block_size: 1, blocks: 0 },
            Request::Measure { image: "empty.img" },
            Request::Copy { image: "empty.img", block_size: 1, blocks: 0 },
            Request::WriteZeros { block_size: 20480, blocks: 1 },
            Request::Finished,
        ]
    );
    assert_eq!(layout.len(), 2);
    assert_eq!(bytes_of(&requests), 40960);
}

#[test]
fn odd_length_is_copied_byte_by_byte() {
    let (requests, layout) = assemble(vec![ComponentSpec::file("odd.img", "odd")], &|_| 12345);
    assert_eq!(requests[2], Request::Copy { image: "odd.img", block_size: 1, blocks: 12345 });
    assert_eq!(layout[0].byte_size, 12345);
}

#[test]
fn single_byte_is_one_block() {
    let (requests, _) = assemble(vec![ComponentSpec::blank(1, "one")], &|_| 0);
    assert_eq!(requests[1], Request::WriteZeros { block_size: 1, blocks: 1 });
}

#[test]
fn image_length_is_reservations_plus_partitions() {
    let lengths = |image: &str| -> u64 {
        match image {
            "a.img" => 4096,
            "b.img" => 73728,
            "c.img" => 1,
            "d.img" => 5 * 1048576 + 512,
            _ => 0,
        }
    };
    let components = vec![
        ComponentSpec::file("a.img", "a"),
        ComponentSpec::blank(3000, "gap"),
        ComponentSpec::file("b.img", "b"),
        ComponentSpec::file("c.img", "c"),
        ComponentSpec::blank(0, "none"),
        ComponentSpec::file("d.img", "d"),
    ];
    let (requests, layout) = assemble(components.clone(), &lengths);
    assert_eq!(layout.len(), components.len());
    let partitions: u128 = layout.iter().map(|part| part.byte_size as u128).sum();
    assert_eq!(partitions, 4096 + 3000 + 73728 + 1 + 5 * 1048576 + 512);
    assert_eq!(bytes_of(&requests), 2 * RESERVED_BYTES as u128 + partitions);
    for (part, component) in layout.iter().zip(components.iter()) {
        assert_eq!(part.source, component.source);
        assert_eq!(part.partition_name, component.partition_name);
    }
}

#[test]
fn unanswering_event_changes_nothing() {
    let assembly = create_disk_image(vec![ComponentSpec::file("boot.img", "boot_a")]);
    let header = assembly.pending();
    let assembly = assembly.advance(Observation::Measured(7));
    assert_eq!(assembly.pending(), header);
    let assembly = assembly.advance(Observation::Completed);
    assert_eq!(assembly.pending(), Request::Measure { image: "boot.img" });
    let assembly = assembly.advance(Observation::Completed);
    assert_eq!(assembly.pending(), Request::Measure { image: "boot.img" });
    assert!(!assembly.is_finished());
    assert!(assembly.into_layout().is_empty());
}

#[test]
fn finished_assembly_stays_finished() {
    let assembly = create_disk_image(Vec::new());
    let assembly = assembly.advance(Observation::Completed).advance(Observation::Completed);
    assert!(assembly.is_finished());
    let assembly = assembly.advance(Observation::Completed).advance(Observation::Measured(1));
    assert!(assembly.is_finished());
    assert_eq!(assembly.pending(), Request::Finished);
}

#[test]
fn system_image_of_known_lengths() {
    let lengths = |image: &str| -> u64 {
        match image {
            "boot.img" => 10 * 1024 * 1024,
            "init_boot.img" => 8 * 1024 * 1024,
            "vendor_boot.img" => 64 * 1024 * 1024,
            "vbmeta.img" => 8192,
            "vbmeta_system.img" => 4096,
            "vbmeta_vendor_dlkm.img" => 4096,
            "vbmeta_system_dlkm.img" => 4096,
            "super.img" => 1 << 30,
            "userdata.img" => 512 * 1024 * 1024,
            _ => panic!("unexpected image {image}"),
        }
    };
    let (requests, layout) = assemble(system_components(), &lengths);
    assert_eq!(layout.len(), 18);
    let files: u128 = 2 * (10 * 1024 * 1024 + 8 * 1024 * 1024 + 64 * 1024 * 1024)
        + 2 * (8192 + 4096 + 4096 + 4096)
        + (1 << 30)
        + 512 * 1024 * 1024;
    assert_eq!(bytes_of(&requests), 20480 * 2 + 1048576 + 67108864 + files);

    let table = create_partitions(&layout).unwrap();
    assert_eq!(table.len(), 18);
    assert_eq!(table[0].name, "misc");
    assert_eq!(table[0].start_sector, 40);
    assert_eq!(table[0].end_sector, 2087);
    assert_eq!(table[1].name, "boot_a");
    assert_eq!(table[1].start_sector, 2088);
    assert_eq!(table[1].end_sector, 2088 + 20480 - 1);
    assert_eq!(table[2].name, "boot_b");
    assert_eq!(table[17].name, "metadata");
}

#[test]
fn properties_image_of_generated_artifacts() {
    let lengths = |image: &str| -> u64 {
        match image {
            "uboot_env.img" | "bootconfig" => 73728,
            "vbmeta.img" => 65536,
            _ => panic!("unexpected image {image}"),
        }
    };
    let (requests, layout) = assemble(properties_components(), &lengths);
    assert_eq!(
        requests,
        vec![
            Request::WriteZeros { block_size: 20480, blocks: 1 },
            Request::Measure { image: "uboot_env.img" },
            Request::Copy { image: "uboot_env.img", block_size: 8192, blocks: 9 },
            Request::Measure { image: "vbmeta.img" },
            Request::Copy { image: "vbmeta.img", block_size: 32768, blocks: 2 },
            Request::WriteZeros { block_size: 524288, blocks: 2 },
            Request::Measure { image: "bootconfig" },
            Request::Copy { image: "bootconfig", block_size: 8192, blocks: 9 },
            Request::WriteZeros { block_size: 20480, blocks: 1 },
            Request::Finished,
        ]
    );
    let names: Vec<&str> = layout.iter().map(|part| part.partition_name).collect();
    assert_eq!(names, vec!["uboot_env", "vbmeta", "frp", "bootconfig"]);
    assert_eq!(bytes_of(&requests), 40960 + 73728 + 65536 + 1048576 + 73728);
}
