use metadata_cleaner::snapshot::MediaType;
use metadata_cleaner::snapshot::MetadataInfo;
use metadata_cleaner::snapshot::Orientation;
use metadata_cleaner::snapshot::SourceFault;
use metadata_cleaner::snapshot::SourceReads;
use metadata_cleaner::snapshot::TagReading;

fn fault(detail: &str) -> SourceFault {
    SourceFault { detail: detail.to_string() }
}

fn reading_ok(tag: &str, value: &str) -> TagReading {
    TagReading { tag: tag.to_string(), interpreted: Ok(value.to_string()) }
}

fn reading_err(tag: &str) -> TagReading {
    TagReading { tag: tag.to_string(), interpreted: Err(fault("no interpretation")) }
}

fn blank_reads() -> SourceReads {
    SourceReads {
        media_type: Err(fault("unclassified")),
        pixel_width: 0,
        pixel_height: 0,
        exposure_time: None,
        fnumber: None,
        focal_length: None,
        iso_speed: None,
        gps_info: None,
        orientation: Orientation::Unspecified,
        exif_tags: Ok(Vec::new()),
        iptc_tags: Ok(Vec::new()),
        xmp_tags: Ok(Vec::new()),
    }
}

#[test]
fn accessor_failures_stay_local() {
    let reads = SourceReads {
        media_type: Err(fault("cannot classify")),
        pixel_width: 800,
        pixel_height: 600,
        exposure_time: None,
        fnumber: Some("2.8".to_string()),
        focal_length: None,
        iso_speed: Some(400),
        gps_info: None,
        orientation: Orientation::Normal,
        exif_tags: Ok(vec![reading_ok("Exif.Image.Model", "X100")]),
        iptc_tags: Err(fault("no IPTC segment")),
        xmp_tags: Ok(Vec::new()),
    };
    let info = MetadataInfo::from(reads);
    assert_eq!(info.media_type, None);
    assert_eq!(info.pixel_width, Some(800));
    assert_eq!(info.pixel_height, Some(600));
    assert_eq!(info.exposure_time, None);
    assert_eq!(info.fnumber, Some("2.8".to_string()));
    assert_eq!(info.focal_length, None);
    assert_eq!(info.iso_speed, Some(400));
    assert_eq!(info.gps_info, None);
    assert_eq!(info.orientation, Some(Orientation::Normal));
    assert_eq!(
        info.exif_tags,
        vec![("Exif.Image.Model".to_string(), "X100".to_string())]
    );
    assert_eq!(info.iptc_tags, Vec::new());
    assert_eq!(info.xmp_tags, Vec::new());
}

#[test]
fn every_tag_maps_to_exactly_one_pair() {
    let readings = vec![
        reading_ok("Exif.Image.Make", "Fujifilm"),
        reading_err("Exif.Image.Artist"),
        reading_ok("Exif.Image.Model", "X100"),
    ];
    let pairs = MetadataInfo::format_tags(&readings);
    assert_eq!(pairs.len(), readings.len());
    assert_eq!(pairs[0], ("Exif.Image.Make".to_string(), "Fujifilm".to_string()));
    assert_eq!(pairs[1], ("Exif.Image.Artist".to_string(), "N/A".to_string()));
    assert_eq!(pairs[2], ("Exif.Image.Model".to_string(), "X100".to_string()));
}

#[test]
fn interpretation_failure_never_aborts_collection() {
    let readings = vec![
        reading_err("Exif.Image.A"),
        reading_err("Exif.Image.B"),
        reading_ok("Exif.Image.C", "kept"),
    ];
    let pairs = MetadataInfo::format_tags(&readings);
    assert_eq!(pairs.len(), 3);
    assert_eq!(pairs[2].1, "kept".to_string());
}

#[test]
fn blank_reads_extract_to_cleared_snapshot() {
    let info = MetadataInfo::from(blank_reads());
    assert_eq!(info.media_type, None);
    assert_eq!(info.pixel_width, Some(0));
    assert_eq!(info.pixel_height, Some(0));
    assert_eq!(info.exposure_time, None);
    assert_eq!(info.fnumber, None);
    assert_eq!(info.focal_length, None);
    assert_eq!(info.iso_speed, None);
    assert_eq!(info.gps_info, None);
    assert_eq!(info.orientation, Some(Orientation::Unspecified));
    assert!(info.exif_tags.is_empty());
    assert!(info.iptc_tags.is_empty());
    assert!(info.xmp_tags.is_empty());
}

#[test]
fn failed_enumeration_yields_empty_group() {
    let mut reads = blank_reads();
    reads.exif_tags = Err(fault("enumeration failed"));
    let info = MetadataInfo::from(reads);
    assert!(info.exif_tags.is_empty());
}

#[test]
fn media_type_success_is_kept() {
    let mut reads = blank_reads();
    reads.media_type = Ok(MediaType::Jpeg);
    let info = MetadataInfo::from(reads);
    assert_eq!(info.media_type, Some(MediaType::Jpeg));
}
