//! The owned metadata snapshot and its extraction from the source's
//! readings.
//!
//! The metadata source is an outside library bound to one opened image
//! file.  A front end queries every accessor of one handle and records the
//! outcomes as plain values in a [`SourceReads`]; extraction turns those
//! readings into an immutable [`MetadataInfo`] snapshot.  Extraction is
//! total: a fault reported by one accessor leaves only its own field empty
//! and never stops the remaining fields from being collected.

use vstd::prelude::*;

verus! {

/// A fault reported by the metadata source for one accessor, carrying the
/// source's own description of it.
#[derive(Clone, Debug, PartialEq, Eq)]
pub struct SourceFault {
    pub detail: String,
}

impl View for SourceFault {
    type V = Seq<char>;

    open spec fn view(&self) -> Seq<char> {
        self.detail@
    }
}

/// Classification of the file, as the source reports it.
#[derive(Clone, Debug, PartialEq, Eq)]
pub enum MediaType {
    Bmp,
    CanonCr2,
    CanonCrw,
    Eps,
    FujiRaf,
    Gif,
    Jp2,
    Jpeg,
    MinoltaMrw,
    OlympusOrf,
    Png,
    Psd,
    PanasonicRw2,
    Tga,
    Tiff,
    /// Some other media type, carried as its Internet Media Type string.
    Other(String),
}

/// Mathematical model of a [`MediaType`].
#[verifier::ext_equal]
pub enum MediaTypeModel {
    Bmp,
    CanonCr2,
    CanonCrw,
    Eps,
    FujiRaf,
    Gif,
    Jp2,
    Jpeg,
    MinoltaMrw,
    OlympusOrf,
    Png,
    Psd,
    PanasonicRw2,
    Tga,
    Tiff,
    Other(Seq<char>),
}

impl View for MediaType {
    type V = MediaTypeModel;

    open spec fn view(&self) -> MediaTypeModel {
        match self {
            MediaType::Bmp => MediaTypeModel::Bmp,
            MediaType::CanonCr2 => MediaTypeModel::CanonCr2,
            MediaType::CanonCrw => MediaTypeModel::CanonCrw,
            MediaType::Eps => MediaTypeModel::Eps,
            MediaType::FujiRaf => MediaTypeModel::FujiRaf,
            MediaType::Gif => MediaTypeModel::Gif,
            MediaType::Jp2 => MediaTypeModel::Jp2,
            MediaType::Jpeg => MediaTypeModel::Jpeg,
            MediaType::MinoltaMrw => MediaTypeModel::MinoltaMrw,
            MediaType::OlympusOrf => MediaTypeModel::OlympusOrf,
            MediaType::Png => MediaTypeModel::Png,
            MediaType::Psd => MediaTypeModel::Psd,
            MediaType::PanasonicRw2 => MediaTypeModel::PanasonicRw2,
            MediaType::Tga => MediaTypeModel::Tga,
            MediaType::Tiff => MediaTypeModel::Tiff,
            MediaType::Other(s) => MediaTypeModel::Other(s@),
        }
    }
}

/// Rotation or flip stored with the image, as the source reports it.
#[derive(Clone, Copy, Debug, PartialEq, Eq, Structural)]
pub enum Orientation {
    Unspecified,
    Normal,
    HorizontalFlip,
    Rotate180,
    VerticalFlip,
    Rotate90HorizontalFlip,
    Rotate90,
    Rotate90VerticalFlip,
    Rotate270,
}

/// GPS coordinates, each held as the decimal text the front end rendered
/// from the source's reading.
#[derive(Clone, Debug, PartialEq, Eq)]
pub struct GpsInfo {
    pub latitude: String,
    pub longitude: String,
    pub altitude: String,
}

/// Mathematical model of a [`GpsInfo`].
#[verifier::ext_equal]
pub struct GpsInfoModel {
    pub latitude: Seq<char>,
    pub longitude: Seq<char>,
    pub altitude: Seq<char>,
}

impl View for GpsInfo {
    type V = GpsInfoModel;

    open spec fn view(&self) -> GpsInfoModel {
        GpsInfoModel {
            latitude: self.latitude@,
            longitude: self.longitude@,
            altitude: self.altitude@,
        }
    }
}

/// One enumerated tag identifier, with the outcome of asking the source
/// for the tag's interpreted string value.
#[derive(Debug, PartialEq, Eq)]
pub struct TagReading {
    pub tag: String,
    pub interpreted: Result<String, SourceFault>,
}

/// Mathematical model of a [`TagReading`].
#[verifier::ext_equal]
pub struct TagReadingModel {
    pub tag: Seq<char>,
    pub interpreted: Result<Seq<char>, Seq<char>>,
}

impl View for TagReading {
    type V = TagReadingModel;

    open spec fn view(&self) -> TagReadingModel {
        TagReadingModel {
            tag: self.tag@,
            interpreted: match &self.interpreted {
                Ok(v) => Ok(v@),
                Err(f) => Err(f@),
            },
        }
    }
}

impl DeepView for TagReading {
    type V = TagReadingModel;

    open spec fn deep_view(&self) -> TagReadingModel {
        self.view()
    }
}

/// Everything a front end read from one opened source handle; each field
/// holds exactly the outcome of one accessor.
///
/// The exposure time, F-number and focal length are floating-point values
/// at the source; the front end hands them over as the decimal text of the
/// converted value, `None` where the source reported none (or, for the
/// exposure time, where the stored ratio had no finite conversion).
#[derive(Debug, PartialEq, Eq)]
pub struct SourceReads {
    pub media_type: Result<MediaType, SourceFault>,
    pub pixel_width: i32,
    pub pixel_height: i32,
    pub exposure_time: Option<String>,
    pub fnumber: Option<String>,
    pub focal_length: Option<String>,
    pub iso_speed: Option<i32>,
    pub gps_info: Option<GpsInfo>,
    pub orientation: Orientation,
    pub exif_tags: Result<Vec<TagReading>, SourceFault>,
    pub iptc_tags: Result<Vec<TagReading>, SourceFault>,
    pub xmp_tags: Result<Vec<TagReading>, SourceFault>,
}

/// Mathematical model of a [`SourceReads`].
#[verifier::ext_equal]
pub struct ReadsModel {
    pub media_type: Result<MediaTypeModel, Seq<char>>,
    pub pixel_width: i32,
    pub pixel_height: i32,
    pub exposure_time: Option<Seq<char>>,
    pub fnumber: Option<Seq<char>>,
    pub focal_length: Option<Seq<char>>,
    pub iso_speed: Option<i32>,
    pub gps_info: Option<GpsInfoModel>,
    pub orientation: Orientation,
    pub exif_tags: Result<Seq<TagReadingModel>, Seq<char>>,
    pub iptc_tags: Result<Seq<TagReadingModel>, Seq<char>>,
    pub xmp_tags: Result<Seq<TagReadingModel>, Seq<char>>,
}

/// Lifts an optional string to its model.
pub open spec fn opt_string_view(o: Option<String>) -> Option<Seq<char>> {
    match o {
        Some(s) => Some(s@),
        None => None,
    }
}

/// Lifts optional GPS coordinates to their model.
pub open spec fn opt_gps_view(o: Option<GpsInfo>) -> Option<GpsInfoModel> {
    match o {
        Some(g) => Some(g@),
        None => None,
    }
}

/// Lifts an optional media type to its model.
pub open spec fn opt_media_view(o: Option<MediaType>) -> Option<MediaTypeModel> {
    match o {
        Some(m) => Some(m@),
        None => None,
    }
}

/// Lifts a media-type accessor outcome to its model.
pub open spec fn media_result_view(r: Result<MediaType, SourceFault>) -> Result<
    MediaTypeModel,
    Seq<char>,
> {
    match r {
        Ok(m) => Ok(m@),
        Err(f) => Err(f@),
    }
}

/// Lifts a tag-enumeration outcome to its model.
pub open spec fn tags_result_view(r: Result<Vec<TagReading>, SourceFault>) -> Result<
    Seq<TagReadingModel>,
    Seq<char>,
> {
    match r {
        Ok(v) => Ok(v.deep_view()),
        Err(f) => Err(f@),
    }
}

impl View for SourceReads {
    type V = ReadsModel;

    open spec fn view(&self) -> ReadsModel {
        ReadsModel {
            media_type: media_result_view(self.media_type),
            pixel_width: self.pixel_width,
            pixel_height: self.pixel_height,
            exposure_time: opt_string_view(self.exposure_time),
            fnumber: opt_string_view(self.fnumber),
            focal_length: opt_string_view(self.focal_length),
            iso_speed: self.iso_speed,
            gps_info: opt_gps_view(self.gps_info),
            orientation: self.orientation,
            exif_tags: tags_result_view(self.exif_tags),
            iptc_tags: tags_result_view(self.iptc_tags),
            xmp_tags: tags_result_view(self.xmp_tags),
        }
    }
}

/// An immutable, owned snapshot of every metadata field read from one
/// source handle.  It holds no reference to the file or the handle.
#[derive(Clone, Debug, PartialEq, Eq)]
pub struct MetadataInfo {
    pub media_type: Option<MediaType>,
    pub pixel_width: Option<i32>,
    pub pixel_height: Option<i32>,
    pub exposure_time: Option<String>,
    pub fnumber: Option<String>,
    pub focal_length: Option<String>,
    pub iso_speed: Option<i32>,
    pub gps_info: Option<GpsInfo>,
    pub orientation: Option<Orientation>,
    pub exif_tags: Vec<(String, String)>,
    pub iptc_tags: Vec<(String, String)>,
    pub xmp_tags: Vec<(String, String)>,
}

/// Mathematical model of a [`MetadataInfo`].
#[verifier::ext_equal]
pub struct SnapshotModel {
    pub media_type: Option<MediaTypeModel>,
    pub pixel_width: Option<i32>,
    pub pixel_height: Option<i32>,
    pub exposure_time: Option<Seq<char>>,
    pub fnumber: Option<Seq<char>>,
    pub focal_length: Option<Seq<char>>,
    pub iso_speed: Option<i32>,
    pub gps_info: Option<GpsInfoModel>,
    pub orientation: Option<Orientation>,
    pub exif_tags: Seq<(Seq<char>, Seq<char>)>,
    pub iptc_tags: Seq<(Seq<char>, Seq<char>)>,
    pub xmp_tags: Seq<(Seq<char>, Seq<char>)>,
}

impl View for MetadataInfo {
    type V = SnapshotModel;

    open spec fn view(&self) -> SnapshotModel {
        SnapshotModel {
            media_type: opt_media_view(self.media_type),
            pixel_width: self.pixel_width,
            pixel_height: self.pixel_height,
            exposure_time: opt_string_view(self.exposure_time),
            fnumber: opt_string_view(self.fnumber),
            focal_length: opt_string_view(self.focal_length),
            iso_speed: self.iso_speed,
            gps_info: opt_gps_view(self.gps_info),
            orientation: self.orientation,
            exif_tags: self.exif_tags.deep_view(),
            iptc_tags: self.iptc_tags.deep_view(),
            xmp_tags: self.xmp_tags.deep_view(),
        }
    }
}

/// The sentinel recorded for a value the source could not supply.
pub open spec fn na_text() -> Seq<char> {
    "N/A"@
}

/// The snapshot pair for one tag reading: the identifier together with its
/// interpreted value, the sentinel standing in where interpretation failed.
pub open spec fn tag_pair(t: TagReadingModel) -> (Seq<char>, Seq<char>) {
    (
        t.tag,
        match t.interpreted {
            Ok(v) => v,
            Err(_) => na_text(),
        },
    )
}

/// The tag pairs recorded for a whole namespace: every enumerated
/// identifier exactly once, in enumeration order.
pub open spec fn rendered_tags(ts: Seq<TagReadingModel>) -> Seq<(Seq<char>, Seq<char>)> {
    ts.map_values(|t: TagReadingModel| tag_pair(t))
}

/// The tag pairs a namespace contributes to the snapshot: a failed
/// enumeration contributes none.
pub open spec fn namespace_tags(r: Result<Seq<TagReadingModel>, Seq<char>>) -> Seq<
    (Seq<char>, Seq<char>),
> {
    match r {
        Ok(ts) => rendered_tags(ts),
        Err(_) => Seq::empty(),
    }
}

/// The media-type field the snapshot owes: present exactly when the
/// accessor succeeded.
pub open spec fn media_type_field(r: Result<MediaTypeModel, Seq<char>>) -> Option<
    MediaTypeModel,
> {
    match r {
        Ok(m) => Some(m),
        Err(_) => None,
    }
}

/// The snapshot that extraction owes for given source readings.
pub open spec fn extracted(r: ReadsModel) -> SnapshotModel {
    SnapshotModel {
        media_type: media_type_field(r.media_type),
        pixel_width: Some(r.pixel_width),
        pixel_height: Some(r.pixel_height),
        exposure_time: r.exposure_time,
        fnumber: r.fnumber,
        focal_length: r.focal_length,
        iso_speed: r.iso_speed,
        gps_info: r.gps_info,
        orientation: Some(r.orientation),
        exif_tags: namespace_tags(r.exif_tags),
        iptc_tags: namespace_tags(r.iptc_tags),
        xmp_tags: namespace_tags(r.xmp_tags),
    }
}

/// Law: no accessor fault is contagious.  Each field of the extracted
/// snapshot is fixed by its own source reading alone, so however one
/// accessor fails, every other snapshot field is what it would have been.
pub proof fn lemma_accessor_faults_are_local(a: ReadsModel, b: ReadsModel)
    ensures
        a.media_type == b.media_type ==> extracted(a).media_type == extracted(b).media_type,
        a.pixel_width == b.pixel_width ==> extracted(a).pixel_width == extracted(b).pixel_width,
        a.pixel_height == b.pixel_height ==> extracted(a).pixel_height == extracted(
            b,
        ).pixel_height,
        a.exposure_time == b.exposure_time ==> extracted(a).exposure_time == extracted(
            b,
        ).exposure_time,
        a.fnumber == b.fnumber ==> extracted(a).fnumber == extracted(b).fnumber,
        a.focal_length == b.focal_length ==> extracted(a).focal_length == extracted(
            b,
        ).focal_length,
        a.iso_speed == b.iso_speed ==> extracted(a).iso_speed == extracted(b).iso_speed,
        a.gps_info == b.gps_info ==> extracted(a).gps_info == extracted(b).gps_info,
        a.orientation == b.orientation ==> extracted(a).orientation == extracted(b).orientation,
        a.exif_tags == b.exif_tags ==> extracted(a).exif_tags == extracted(b).exif_tags,
        a.iptc_tags == b.iptc_tags ==> extracted(a).iptc_tags == extracted(b).iptc_tags,
        a.xmp_tags == b.xmp_tags ==> extracted(a).xmp_tags == extracted(b).xmp_tags,
{
}

/// Law: a namespace's rendered tag pairs carry exactly one pair per
/// enumerated identifier, in enumeration order, and a pair's value is the
/// sentinel exactly when the source failed to interpret that tag.  (The
/// equivalence is stated away from tags whose interpreted value is itself
/// the sentinel text.)
pub proof fn lemma_tags_map_one_to_one(ts: Seq<TagReadingModel>)
    requires
        forall|j: int|
            0 <= j < ts.len() ==> ((#[trigger] ts[j]).interpreted matches Ok(v) ==> v
                != na_text()),
    ensures
        rendered_tags(ts).len() == ts.len(),
        forall|j: int| 0 <= j < ts.len() ==> (#[trigger] rendered_tags(ts)[j]).0 == ts[j].tag,
        forall|j: int|
            0 <= j < ts.len() ==> ((#[trigger] rendered_tags(ts)[j]).1 == na_text()
                <==> ts[j].interpreted is Err),
{
}

/// Readings of a handle that reports no metadata at all: every fallible
/// accessor reports absence or a fault, the infallible ones their
/// defaults.
pub open spec fn blank_reads(r: ReadsModel) -> bool {
    &&& r.media_type is Err
    &&& r.pixel_width == 0
    &&& r.pixel_height == 0
    &&& r.exposure_time is None
    &&& r.fnumber is None
    &&& r.focal_length is None
    &&& r.iso_speed is None
    &&& r.gps_info is None
    &&& r.orientation == Orientation::Unspecified
    &&& (r.exif_tags matches Ok(ts) ==> ts.len() == 0)
    &&& (r.iptc_tags matches Ok(ts) ==> ts.len() == 0)
    &&& (r.xmp_tags matches Ok(ts) ==> ts.len() == 0)
}

/// A snapshot with nothing in it: every tag sequence empty, every optional
/// scalar absent, the infallible scalars at their defaults.
pub open spec fn cleared_snapshot(s: SnapshotModel) -> bool {
    &&& s.media_type is None
    &&& s.pixel_width == Some(0i32)
    &&& s.pixel_height == Some(0i32)
    &&& s.exposure_time is None
    &&& s.fnumber is None
    &&& s.focal_length is None
    &&& s.iso_speed is None
    &&& s.gps_info is None
    &&& s.orientation == Some(Orientation::Unspecified)
    &&& s.exif_tags.len() == 0
    &&& s.iptc_tags.len() == 0
    &&& s.xmp_tags.len() == 0
}

/// Law: extracting the readings of a handle that reports no metadata
/// yields the cleared snapshot.  A file whose metadata was stripped, read
/// back through a source that accordingly reports nothing, thus snapshots
/// as cleared.
pub proof fn lemma_blank_reads_extract_cleared(r: ReadsModel)
    requires
        blank_reads(r),
    ensures
        cleared_snapshot(extracted(r)),
{
}

impl MetadataInfo {
    /// Pairs each enumerated tag with its interpreted value, writing the
    /// sentinel where the source failed to interpret one.  A failure on one
    /// tag never stops the remaining tags from being collected.
    pub fn format_tags(readings: &Vec<TagReading>) -> (pairs: Vec<(String, String)>)
        ensures
            pairs.deep_view() == rendered_tags(readings.deep_view()),
    {
        let mut pairs: Vec<(String, String)> = Vec::new();
        let mut i: usize = 0;
        while i < readings.len()
            invariant
                i <= readings.len(),
                pairs@.len() == i,
                forall|j: int|
                    0 <= j < i ==> (#[trigger] pairs@[j]).deep_view() == tag_pair(
                        readings@[j].deep_view(),
                    ),
            decreases readings.len() - i,
        {
            let reading = &readings[i];
            let value = match &reading.interpreted {
                Ok(v) => v.clone(),
                Err(_) => String::from_str("N/A"),
            };
            pairs.push((reading.tag.clone(), value));
            proof {
                assert(pairs@[i as int].deep_view() == tag_pair(readings@[i as int].deep_view()));
            }
            i = i + 1;
        }
        proof {
            assert(pairs.deep_view() =~= rendered_tags(readings.deep_view()));
        }
        pairs
    }

    /// Builds the snapshot from one handle's readings.  Extraction is
    /// total: every accessor fault degrades to an absent field or an empty
    /// tag sequence, never to an error.
    pub fn from(reads: SourceReads) -> (info: MetadataInfo)
        ensures
            info@ == extracted(reads@),
    {
        let ghost model = reads@;
        let SourceReads {
            media_type,
            pixel_width,
            pixel_height,
            exposure_time,
            fnumber,
            focal_length,
            iso_speed,
            gps_info,
            orientation,
            exif_tags,
            iptc_tags,
            xmp_tags,
        } = reads;
        let media_type = match media_type {
            Ok(m) => Some(m),
            Err(_) => None,
        };
        let exif_tags = match &exif_tags {
            Ok(v) => Self::format_tags(v),
            Err(_) => Vec::new(),
        };
        let iptc_tags = match &iptc_tags {
            Ok(v) => Self::format_tags(v),
            Err(_) => Vec::new(),
        };
        let xmp_tags = match &xmp_tags {
            Ok(v) => Self::format_tags(v),
            Err(_) => Vec::new(),
        };
        let info = MetadataInfo {
            media_type,
            pixel_width: Some(pixel_width),
            pixel_height: Some(pixel_height),
            exposure_time,
            fnumber,
            focal_length,
            iso_speed,
            gps_info,
            orientation: Some(orientation),
            exif_tags,
            iptc_tags,
            xmp_tags,
        };
        proof {
            assert(info@ =~= extracted(model));
        }
        info
    }
}

} // verus!
