use nmsr_core::blockbench::{
    png_data_url, project_face_uvs, str_to_uuid, uuid_from_hash, ProjectMeta, RawProjectTexture,
};
use nmsr_core::uv::{CubeFaceUvs, FaceUv, UvPoint};

#[test]
fn the_header_of_a_project() {
    let meta = ProjectMeta::default();
    assert_eq!(meta.format_version, "4.5");
    assert_eq!(meta.model_format, "free");
    assert!(!meta.box_uv);
}

#[test]
fn an_identifier_is_the_hash_with_the_version_set() {
    assert_eq!(
        uuid_from_hash(0x0011_2233_4455_6677_8899_aabb_ccdd_eeff),
        [
            0x00, 0x11, 0x22, 0x33, 0x44, 0x55, 0x46, 0x77, 0x88, 0x99, 0xaa, 0xbb, 0xcc, 0xdd,
            0xee, 0xff
        ]
    );
    assert_eq!(uuid_from_hash(0), [0, 0, 0, 0, 0, 0, 0x40, 0, 0, 0, 0, 0, 0, 0, 0, 0]);
    assert_eq!(
        uuid_from_hash(u128::MAX),
        [
            0xff, 0xff, 0xff, 0xff, 0xff, 0xff, 0x4f, 0xff, 0xff, 0xff, 0xff, 0xff, 0xff, 0xff,
            0xff, 0xff
        ]
    );
    assert_eq!(uuid_from_hash(1)[15], 1);
    assert_eq!(uuid_from_hash(1 << 120)[0], 1);
}

#[test]
fn the_identifier_of_a_name_is_its_hash() {
    for name in ["", "Head", "Left Arm Layer", "grüße"] {
        let expected = uuid_from_hash(xxhash_rust::xxh3::xxh3_128(name.as_bytes()));
        assert_eq!(str_to_uuid(name), expected);
        assert_eq!(str_to_uuid(name)[6] >> 4, 4);
        assert_eq!(
            uuid::Uuid::from_bytes(str_to_uuid(name)).get_version_num(),
            4
        );
    }
    assert_ne!(str_to_uuid("Head"), str_to_uuid("Body"));
    assert_ne!(str_to_uuid("Head"), [0, 0, 0, 0, 0, 0, 0x40, 0, 0, 0, 0, 0, 0, 0, 0, 0]);
    assert_eq!(str_to_uuid("Head"), str_to_uuid("Head"));
}

#[test]
fn the_identifier_of_the_empty_name() {
    // XXH3-128 of the empty input with seed zero is 99aa06d3014798d86001c324468d497f.
    assert_eq!(
        str_to_uuid(""),
        [
            0x99, 0xaa, 0x06, 0xd3, 0x01, 0x47, 0x48, 0xd8, 0x60, 0x01, 0xc3, 0x24, 0x46, 0x8d,
            0x49, 0x7f
        ]
    );
}

#[test]
fn a_texture_embeds_its_image() {
    let texture = RawProjectTexture::new(String::from("skin"), 3, b"hello");
    assert_eq!(texture.name, "skin");
    assert_eq!(texture.id, 3);
    assert_eq!(texture.path, "");
    assert_eq!(texture.mode, "bitmap");
    assert!(texture.visible);
    assert!(!texture.saved);
    assert_eq!(texture.uuid, str_to_uuid("skin"));
    assert_eq!(texture.source, "data:image/png;base64,aGVsbG8=");
    let empty = RawProjectTexture::new(String::from("none"), 0, b"");
    assert_eq!(empty.source, "data:image/png;base64,");
    let bytes = RawProjectTexture::new(String::from("bytes"), 1, &[0xfb, 0xff, 0xfe]);
    assert_eq!(bytes.source, "data:image/png;base64,+//+");
    assert!(RawProjectTexture::can_embed(b"hello"));
}

#[test]
fn a_data_url_starts_with_the_kind_of_the_image() {
    assert_eq!(png_data_url("QUJD"), "data:image/png;base64,QUJD");
    assert_eq!(png_data_url(""), "data:image/png;base64,");
}

#[test]
fn a_project_shows_the_top_and_bottom_faces_flipped() {
    let faces = CubeFaceUvs {
        north: FaceUv::from_rectangle(8, 8, 16, 16),
        south: FaceUv::from_rectangle(24, 8, 32, 16),
        east: FaceUv::from_rectangle(0, 8, 8, 16),
        west: FaceUv::from_rectangle(16, 8, 24, 16),
        up: FaceUv::from_rectangle(8, 0, 16, 8),
        down: FaceUv::from_rectangle(16, 0, 24, 8),
    };
    let shown = project_face_uvs(faces);
    assert_eq!(shown.north, faces.north);
    assert_eq!(shown.south, faces.south);
    assert_eq!(shown.east, faces.east);
    assert_eq!(shown.west, faces.west);
    assert_eq!(shown.up.top_left, UvPoint { x: 16, y: 8 });
    assert_eq!(shown.up.top_right, UvPoint { x: 8, y: 8 });
    assert_eq!(shown.up.bottom_left, UvPoint { x: 16, y: 0 });
    assert_eq!(shown.up.bottom_right, UvPoint { x: 8, y: 0 });
    assert_eq!(shown.down.top_left, UvPoint { x: 24, y: 0 });
    assert_eq!(shown.down.top_right, UvPoint { x: 16, y: 0 });
    assert_eq!(shown.down.bottom_left, UvPoint { x: 24, y: 8 });
    assert_eq!(shown.down.bottom_right, UvPoint { x: 16, y: 8 });
}
