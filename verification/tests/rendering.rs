use metadata_cleaner::snapshot::GpsInfo;
use metadata_cleaner::snapshot::MediaType;
use metadata_cleaner::snapshot::MetadataInfo;
use metadata_cleaner::snapshot::Orientation;

fn empty_snapshot() -> MetadataInfo {
    MetadataInfo {
        media_type: None,
        pixel_width: None,
        pixel_height: None,
        exposure_time: None,
        fnumber: None,
        focal_length: None,
        iso_speed: None,
        gps_info: None,
        orientation: None,
        exif_tags: Vec::new(),
        iptc_tags: Vec::new(),
        xmp_tags: Vec::new(),
    }
}

fn pair(tag: &str, value: &str) -> (String, String) {
    (tag.to_string(), value.to_string())
}

#[test]
fn field_order_is_fixed() {
    let view = empty_snapshot().render();
    let labels: Vec<&str> = view.fields.iter().map(|p| p.0.as_str()).collect();
    assert_eq!(
        labels,
        vec![
            "Media Type",
            "Dimensions",
            "Exposure Time",
            "F-Number",
            "Focal Length",
            "ISO Speed",
            "Orientation",
            "GPS Info",
        ]
    );
}

#[test]
fn missing_scalars_render_as_sentinel() {
    let view = empty_snapshot().render();
    assert_eq!(view.fields[0].1, "N/A".to_string());
    assert_eq!(view.fields[2].1, "N/A".to_string());
    assert_eq!(view.fields[3].1, "N/A".to_string());
    assert_eq!(view.fields[4].1, "N/A".to_string());
    assert_eq!(view.fields[5].1, "N/A".to_string());
    assert_eq!(view.fields[6].1, "N/A".to_string());
    assert_eq!(view.fields[7].1, "N/A".to_string());
}

#[test]
fn missing_width_renders_as_zero() {
    let mut snapshot = empty_snapshot();
    snapshot.pixel_width = None;
    snapshot.pixel_height = Some(600);
    let view = snapshot.render();
    assert_eq!(view.fields[1], pair("Dimensions", "0 x 600"));
}

#[test]
fn full_dimensions_render() {
    let mut snapshot = empty_snapshot();
    snapshot.pixel_width = Some(1920);
    snapshot.pixel_height = Some(1080);
    let view = snapshot.render();
    assert_eq!(view.fields[1], pair("Dimensions", "1920 x 1080"));
}

#[test]
fn scalar_values_render_verbatim() {
    let mut snapshot = empty_snapshot();
    snapshot.media_type = Some(MediaType::Png);
    snapshot.exposure_time = Some("0.008".to_string());
    snapshot.fnumber = Some("2.8".to_string());
    snapshot.focal_length = Some("23".to_string());
    snapshot.iso_speed = Some(400);
    snapshot.orientation = Some(Orientation::Rotate90);
    snapshot.gps_info = Some(GpsInfo {
        latitude: "12.5".to_string(),
        longitude: "7.25".to_string(),
        altitude: "100".to_string(),
    });
    let view = snapshot.render();
    assert_eq!(view.fields[0], pair("Media Type", "Png"));
    assert_eq!(view.fields[2], pair("Exposure Time", "0.008"));
    assert_eq!(view.fields[3], pair("F-Number", "2.8"));
    assert_eq!(view.fields[4], pair("Focal Length", "23"));
    assert_eq!(view.fields[5], pair("ISO Speed", "400"));
    assert_eq!(view.fields[6], pair("Orientation", "Rotate90"));
    assert_eq!(
        view.fields[7],
        pair("GPS Info", "GpsInfo { latitude: 12.5, longitude: 7.25, altitude: 100 }")
    );
}

#[test]
fn other_media_type_renders_with_its_name() {
    let mut snapshot = empty_snapshot();
    snapshot.media_type = Some(MediaType::Other("video/mp4".to_string()));
    let view = snapshot.render();
    assert_eq!(view.fields[0].1, "Other(\"video/mp4\")".to_string());
}

#[test]
fn rendering_is_pure() {
    let mut snapshot = empty_snapshot();
    snapshot.media_type = Some(MediaType::Jpeg);
    snapshot.pixel_width = Some(640);
    snapshot.pixel_height = Some(480);
    snapshot.iso_speed = Some(200);
    snapshot.exif_tags = vec![pair("Exif.Image.Model", "X100")];
    let first = snapshot.render();
    let second = snapshot.render();
    assert_eq!(first, second);
}

#[test]
fn jpeg_with_three_exif_tags_scenario() {
    let mut snapshot = empty_snapshot();
    snapshot.media_type = Some(MediaType::Jpeg);
    snapshot.exif_tags = vec![
        pair("Exif.Image.Make", "Fujifilm"),
        pair("Exif.Image.Model", "X100"),
        pair("Exif.Image.DateTime", "2019:05:01 10:00:00"),
    ];
    let view = snapshot.render();
    assert_eq!(view.exif.heading(), "EXIF Tags (3)".to_string());
    assert!(view.exif.expanded());
    assert_eq!(view.exif.flat_summary(), "EXIF Tags (3)".to_string());
    assert_eq!(view.exif.entries.len(), 3);
    assert!(!view.iptc.expanded());
    assert!(!view.xmp.expanded());
    assert_eq!(view.iptc.flat_summary(), "N/A".to_string());
    assert_eq!(view.xmp.flat_summary(), "N/A".to_string());
}

#[test]
fn flat_lines_cover_fields_then_groups() {
    let mut snapshot = empty_snapshot();
    snapshot.media_type = Some(MediaType::Jpeg);
    snapshot.pixel_height = Some(600);
    snapshot.exif_tags = vec![
        pair("Exif.Image.Make", "Fujifilm"),
        pair("Exif.Image.Model", "X100"),
    ];
    let lines = snapshot.render().flat_lines();
    assert_eq!(
        lines,
        vec![
            "Media Type: Jpeg".to_string(),
            "Dimensions: 0 x 600".to_string(),
            "Exposure Time: N/A".to_string(),
            "F-Number: N/A".to_string(),
            "Focal Length: N/A".to_string(),
            "ISO Speed: N/A".to_string(),
            "Orientation: N/A".to_string(),
            "GPS Info: N/A".to_string(),
            "EXIF Tags (2)".to_string(),
            "  Exif.Image.Make = Fujifilm".to_string(),
            "  Exif.Image.Model = X100".to_string(),
            "IPTC Tags: N/A".to_string(),
            "XMP Tags: N/A".to_string(),
        ]
    );
}

#[test]
fn tag_groups_keep_entries_and_titles() {
    let mut snapshot = empty_snapshot();
    snapshot.iptc_tags = vec![pair("Iptc.Application2.City", "Lisbon")];
    snapshot.xmp_tags = vec![pair("Xmp.dc.creator", "N/A")];
    let view = snapshot.render();
    assert_eq!(view.exif.title, "EXIF Tags".to_string());
    assert_eq!(view.iptc.title, "IPTC Tags".to_string());
    assert_eq!(view.xmp.title, "XMP Tags".to_string());
    assert_eq!(view.iptc.entries, vec![pair("Iptc.Application2.City", "Lisbon")]);
    assert_eq!(view.xmp.entries, vec![pair("Xmp.dc.creator", "N/A")]);
    assert_eq!(view.iptc.heading(), "IPTC Tags (1)".to_string());
}
