use tabletop_net::{
    decode_sharable, encode_sharable, init_replicated_tokens, recieve_requested_asset,
    send_requested_asset, AssetStore, Image, MirroredAssets, RequestAssetMessage, SharableFormat,
    SharableImage, SharedAsset, SharedAssets, TextureFormat, UVec2,
};

fn sample_image(format: TextureFormat, bpp: usize) -> Image {
    let data: Vec<u8> = (0..(bpp * 2)).map(|i| i as u8).collect();
    Image { data, size: UVec2 { x: 2, y: 1 }, format }
}

#[test]
fn image_round_trip_r8() {
    round_trip(TextureFormat::R8Unorm, SharableFormat::R8Unorm, 1);
}

#[test]
fn image_round_trip_rg8() {
    round_trip(TextureFormat::Rg8Unorm, SharableFormat::Rg8Unorm, 2);
}

#[test]
fn image_round_trip_bgra8() {
    round_trip(TextureFormat::Bgra8Unorm, SharableFormat::Bgra8Unorm, 4);
}

#[test]
fn image_round_trip_rgba8_srgb() {
    round_trip(TextureFormat::Rgba8UnormSrgb, SharableFormat::Rgba8UnormSrgb, 4);
}

#[test]
fn image_round_trip_bgra8_srgb() {
    round_trip(TextureFormat::Bgra8UnormSrgb, SharableFormat::Bgra8UnormSrgb, 4);
}

fn round_trip(format: TextureFormat, wire: SharableFormat, bpp: usize) {
    let image = sample_image(format, bpp);
    let sharable = SharableImage::from_image(&image).unwrap();
    assert_eq!(sharable.format, wire);
    assert_eq!(sharable.data, image.data);
    assert_eq!(sharable.size, image.size);
    let back = sharable.to_image();
    assert_eq!(back.data, image.data);
    assert_eq!(back.size, image.size);
    assert_eq!(back.format, image.format);
}

#[test]
fn unsupported_formats_fail_cleanly() {
    for format in [
        TextureFormat::Rgba16Uint,
        TextureFormat::Depth24Plus,
        TextureFormat::Bc1RgbaUnorm,
    ] {
        let image = sample_image(format, 4);
        assert!(SharableImage::from_image(&image).is_none());
        assert!(image.to_sharable().is_none());
    }
}

#[test]
fn wire_bytes_exact_layout() {
    let s = SharableImage {
        data: vec![7, 8],
        size: UVec2 { x: 2, y: 1 },
        format: SharableFormat::R8Unorm,
    };
    let bytes = encode_sharable(&s);
    assert_eq!(bytes, vec![0, 2, 0, 0, 0, 1, 0, 0, 0, 7, 8]);
}

#[test]
fn wire_round_trip_all_formats() {
    for (format, bpp) in [
        (SharableFormat::R8Unorm, 1usize),
        (SharableFormat::Rg8Unorm, 2),
        (SharableFormat::Bgra8Unorm, 4),
        (SharableFormat::Rgba8UnormSrgb, 4),
        (SharableFormat::Bgra8UnormSrgb, 4),
    ] {
        let s = SharableImage {
            data: (0..(bpp * 6)).map(|i| (i * 3) as u8).collect(),
            size: UVec2 { x: 3, y: 2 },
            format,
        };
        let bytes = encode_sharable(&s);
        let back = decode_sharable(&bytes).unwrap();
        assert_eq!(back.data, s.data);
        assert_eq!(back.size, s.size);
        assert_eq!(back.format, s.format);
    }
}

#[test]
fn decode_rejects_short_stream() {
    assert!(decode_sharable(&[0, 1, 0, 0]).is_none());
    assert!(decode_sharable(&[]).is_none());
}

#[test]
fn decode_rejects_unknown_tag() {
    assert!(decode_sharable(&[9, 1, 0, 0, 0, 1, 0, 0, 0, 7]).is_none());
}

#[test]
fn decode_rejects_byte_count_mismatch() {
    // Descriptor claims a 2x1 single-byte-per-pixel image but carries 3 bytes.
    assert!(decode_sharable(&[0, 2, 0, 0, 0, 1, 0, 0, 0, 7, 8, 9]).is_none());
}

#[test]
fn registry_records_both_directions() {
    let mut registry = SharedAssets::default();
    let id = registry.load_shared(11);
    assert_eq!(registry.handle_of(id), Some(11));
    assert_eq!(registry.id_of(11), Some(id));
    assert_eq!(registry.handle_of(id.wrapping_add(1)), None);
}

#[test]
fn registry_stays_mutually_inverse_on_overwrite() {
    let mut registry = SharedAssets::default();
    registry.insert_pair(100, 1);
    registry.insert_pair(100, 2);
    assert_eq!(registry.handle_of(100), Some(2));
    assert_eq!(registry.id_of(2), Some(100));
    assert_eq!(registry.id_of(1), None);
    registry.insert_pair(200, 2);
    assert_eq!(registry.id_of(2), Some(200));
    assert_eq!(registry.handle_of(100), None);
}

#[test]
fn request_answered_only_for_shared_loaded_supported() {
    let mut registry = SharedAssets::default();
    let mut store = AssetStore::new();
    store.insert(11, sample_image(TextureFormat::R8Unorm, 1));
    let id = registry.load_shared(11);

    // Unknown content id: silence, not an error.
    let miss = RequestAssetMessage::new(id.wrapping_add(1));
    assert!(send_requested_asset(&registry, &store, &miss).is_none());

    // Shared but not loaded locally.
    let id_unloaded = registry.load_shared(12);
    let unloaded = RequestAssetMessage::new(id_unloaded);
    assert!(send_requested_asset(&registry, &store, &unloaded).is_none());

    // Shared, loaded, but not encodable.
    store.insert(13, sample_image(TextureFormat::Depth24Plus, 4));
    let id_bad = registry.load_shared(13);
    let bad = RequestAssetMessage::new(id_bad);
    assert!(send_requested_asset(&registry, &store, &bad).is_none());

    // Shared, loaded, supported: answered with the exact content.
    let hit = RequestAssetMessage::new(id);
    let msg = send_requested_asset(&registry, &store, &hit).unwrap();
    assert_eq!(msg.id, id);
    assert_eq!(msg.data.data, vec![0, 1]);
    assert_eq!(msg.data.size, UVec2 { x: 2, y: 1 });
    assert_eq!(msg.data.format, SharableFormat::R8Unorm);
}

#[test]
fn payload_application_is_idempotent() {
    let make_payload = || tabletop_net::SendAssetMessage {
        id: 42,
        data: SharableImage {
            data: vec![1, 2, 3, 4],
            size: UVec2 { x: 2, y: 2 },
            format: SharableFormat::R8Unorm,
        },
    };

    let mut once = MirroredAssets::new();
    recieve_requested_asset(&mut once, make_payload());

    let mut twice = MirroredAssets::new();
    recieve_requested_asset(&mut twice, make_payload());
    recieve_requested_asset(&mut twice, make_payload());

    assert_eq!(once.0.len(), twice.0.len());
    let a = once.0.get(&42).unwrap();
    let b = twice.0.get(&42).unwrap();
    assert_eq!(a.data, b.data);
    assert_eq!(a.size, b.size);
    assert_eq!(a.format, b.format);
    assert_eq!(a.data, vec![1, 2, 3, 4]);
    assert_eq!(a.format, TextureFormat::R8Unorm);
}

#[test]
fn missing_references_emit_exactly_one_request_each() {
    let mut assets = MirroredAssets::new();
    recieve_requested_asset(
        &mut assets,
        tabletop_net::SendAssetMessage {
            id: 1,
            data: SharableImage {
                data: vec![5],
                size: UVec2 { x: 1, y: 1 },
                format: SharableFormat::R8Unorm,
            },
        },
    );
    let refs = vec![SharedAsset::new(1), SharedAsset::new(2), SharedAsset::new(1)];
    let requests = init_replicated_tokens(&assets, &refs);
    assert_eq!(requests, vec![RequestAssetMessage::new(2)]);
}
