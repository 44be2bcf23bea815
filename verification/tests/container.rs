use favis::container::{encode, ContainerEncoder, ContainerEntry, MAX_CONTAINER_IMAGES};
use favis::error::ErrorKind;

fn entry_of(size: u32, seed: u8) -> ContainerEntry {
    let mut payload = Vec::new();
    for i in 0..(size * size) {
        payload.push(seed.wrapping_add(i as u8));
        payload.push(seed.wrapping_mul(3).wrapping_add((i / 7) as u8));
        payload.push((i % 251) as u8);
        payload.push(255);
    }
    ContainerEntry { size, payload }
}

#[test]
fn entry_fits_between_one_and_the_ceiling() {
    assert!(entry_of(1, 0).fits());
    assert!(entry_of(256, 0).fits());
    assert!(!entry_of(257, 0).fits());
    assert!(!ContainerEntry { size: 0, payload: Vec::new() }.fits());
    assert!(!ContainerEntry { size: 2, payload: vec![0; 15] }.fits());
    assert!(!ContainerEntry { size: 2, payload: vec![0; 17] }.fits());
    assert!(ContainerEntry { size: 2, payload: vec![0; 16] }.fits());
}

#[test]
fn encode_embeds_one_image_per_entry_in_the_order_supplied() {
    let entries = vec![entry_of(32, 5), entry_of(16, 9), entry_of(48, 1)];
    let blob = encode(&entries).unwrap();
    assert_eq!(&blob[..6], &[0, 0, 1, 0, 3, 0]);
    let dir = ico::IconDir::read(std::io::Cursor::new(&blob)).unwrap();
    assert_eq!(dir.resource_type(), ico::ResourceType::Icon);
    let sizes: Vec<u32> = dir.entries().iter().map(|e| e.width()).collect();
    assert_eq!(sizes, vec![32, 16, 48]);
    for (embedded, entry) in dir.entries().iter().zip(entries.iter()) {
        assert_eq!(embedded.height(), entry.size);
        let image = embedded.decode().unwrap();
        assert_eq!(image.rgba_data(), &entry.payload[..]);
    }
}

#[test]
fn encode_of_nothing_is_an_empty_directory() {
    let blob = encode(&Vec::new()).unwrap();
    assert_eq!(blob, vec![0, 0, 1, 0, 0, 0]);
}

#[test]
fn encode_takes_the_largest_size_of_the_format() {
    let blob = encode(&vec![entry_of(256, 3)]).unwrap();
    let dir = ico::IconDir::read(std::io::Cursor::new(&blob)).unwrap();
    assert_eq!(dir.entries().len(), 1);
    assert_eq!(dir.entries()[0].width(), 256);
}

#[test]
fn encode_refuses_a_size_above_the_ceiling() {
    let e = encode(&vec![entry_of(16, 0), entry_of(257, 0)]).unwrap_err();
    assert_eq!(e.kind, ErrorKind::ProcessingError);
    assert_eq!(
        e.context,
        "Processing hiccup: Cannot embed 257x257 icon in ICO: the format holds images of 1 to 256 pixels with 4 bytes per pixel"
    );
    assert_eq!(
        e.suggestion.as_deref(),
        Some("Check system resources and give it another shot!")
    );
    let e = encode(&vec![entry_of(512, 0)]).unwrap_err();
    assert_eq!(e.kind, ErrorKind::ProcessingError);
}

#[test]
fn encode_refuses_an_entry_without_area_or_with_the_wrong_payload() {
    let e = encode(&vec![ContainerEntry { size: 0, payload: Vec::new() }]).unwrap_err();
    assert_eq!(e.kind, ErrorKind::ProcessingError);
    assert!(e.context.starts_with("Processing hiccup: Cannot embed 0x0 icon in ICO"));
    let e = encode(&vec![ContainerEntry { size: 16, payload: vec![0; 100] }]).unwrap_err();
    assert_eq!(e.kind, ErrorKind::ProcessingError);
    assert!(e.context.starts_with("Processing hiccup: Cannot embed 16x16 icon in ICO"));
}

#[test]
fn encode_reports_the_first_entry_that_cannot_be_added() {
    let entries = vec![
        entry_of(16, 0),
        ContainerEntry { size: 300, payload: Vec::new() },
        ContainerEntry { size: 400, payload: Vec::new() },
    ];
    let e = encode(&entries).unwrap_err();
    assert!(e.context.starts_with("Processing hiccup: Cannot embed 300x300 icon in ICO"));
}

#[test]
fn a_container_is_full_after_its_limit() {
    assert_eq!(MAX_CONTAINER_IMAGES, 1024);
    let tiny = ContainerEntry { size: 1, payload: vec![1, 2, 3, 255] };
    let mut container = ContainerEncoder::new();
    for _ in 0..MAX_CONTAINER_IMAGES {
        container = container.add(&tiny).unwrap();
    }
    let blob = container.finish().unwrap();
    assert_eq!(&blob[..6], &[0, 0, 1, 0, 0, 4]);
    let e = match container.add(&tiny) {
        Ok(_) => panic!("a full container took one more image"),
        Err(e) => e,
    };
    assert_eq!(e.kind, ErrorKind::ProcessingError);
    assert_eq!(e.context, "Processing hiccup: Cannot embed more than 1024 icons in ICO");
}

#[test]
fn builder_and_encode_agree() {
    let entries = vec![entry_of(16, 1), entry_of(32, 2)];
    let mut container = ContainerEncoder::new();
    for entry in &entries {
        container = container.add(entry).unwrap();
    }
    assert_eq!(container.finish().unwrap(), encode(&entries).unwrap());
}
