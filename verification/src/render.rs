//! Rendering a snapshot as display-ready text.
//!
//! A rendered view is an ordered list of labelled text values followed by
//! the three tag groups, independent of any display technology.  Rendering
//! is deterministic and total: every absent scalar renders as the
//! sentinel, and the dimensions always render with zero standing in for a
//! missing side.

use crate::snapshot::GpsInfoModel;
use crate::snapshot::MediaType;
use crate::snapshot::MediaTypeModel;
use crate::snapshot::MetadataInfo;
use crate::snapshot::Orientation;
use crate::snapshot::SnapshotModel;
use crate::snapshot::na_text;
use crate::text::dec_text;
use crate::text::i32_text;
use crate::text::int_text;
use crate::text::usize_text;
use vstd::prelude::*;

verus! {

/// One named group of tag pairs in a rendered view.
#[derive(Debug, PartialEq, Eq)]
pub struct TagGroup {
    pub title: String,
    pub entries: Vec<(String, String)>,
}

/// Mathematical model of a [`TagGroup`].
#[verifier::ext_equal]
pub struct TagGroupModel {
    pub title: Seq<char>,
    pub entries: Seq<(Seq<char>, Seq<char>)>,
}

impl View for TagGroup {
    type V = TagGroupModel;

    open spec fn view(&self) -> TagGroupModel {
        TagGroupModel { title: self.title@, entries: self.entries.deep_view() }
    }
}

/// The ordered, human-readable projection of one snapshot: the labelled
/// scalar fields in their fixed order, then the three tag groups.
#[derive(Debug, PartialEq, Eq)]
pub struct RenderedView {
    pub fields: Vec<(String, String)>,
    pub exif: TagGroup,
    pub iptc: TagGroup,
    pub xmp: TagGroup,
}

/// Mathematical model of a [`RenderedView`].
#[verifier::ext_equal]
pub struct RenderedModel {
    pub fields: Seq<(Seq<char>, Seq<char>)>,
    pub exif: TagGroupModel,
    pub iptc: TagGroupModel,
    pub xmp: TagGroupModel,
}

impl View for RenderedView {
    type V = RenderedModel;

    open spec fn view(&self) -> RenderedModel {
        RenderedModel {
            fields: self.fields.deep_view(),
            exif: self.exif@,
            iptc: self.iptc@,
            xmp: self.xmp@,
        }
    }
}

/// Structural text of a media type.
pub open spec fn media_type_text(m: MediaTypeModel) -> Seq<char> {
    match m {
        MediaTypeModel::Bmp => "Bmp"@,
        MediaTypeModel::CanonCr2 => "CanonCr2"@,
        MediaTypeModel::CanonCrw => "CanonCrw"@,
        MediaTypeModel::Eps => "Eps"@,
        MediaTypeModel::FujiRaf => "FujiRaf"@,
        MediaTypeModel::Gif => "Gif"@,
        MediaTypeModel::Jp2 => "Jp2"@,
        MediaTypeModel::Jpeg => "Jpeg"@,
        MediaTypeModel::MinoltaMrw => "MinoltaMrw"@,
        MediaTypeModel::OlympusOrf => "OlympusOrf"@,
        MediaTypeModel::Png => "Png"@,
        MediaTypeModel::Psd => "Psd"@,
        MediaTypeModel::PanasonicRw2 => "PanasonicRw2"@,
        MediaTypeModel::Tga => "Tga"@,
        MediaTypeModel::Tiff => "Tiff"@,
        MediaTypeModel::Other(s) => "Other(\""@ + s + "\")"@,
    }
}

/// Structural text of an orientation.
pub open spec fn orientation_text(o: Orientation) -> Seq<char> {
    match o {
        Orientation::Unspecified => "Unspecified"@,
        Orientation::Normal => "Normal"@,
        Orientation::HorizontalFlip => "HorizontalFlip"@,
        Orientation::Rotate180 => "Rotate180"@,
        Orientation::VerticalFlip => "VerticalFlip"@,
        Orientation::Rotate90HorizontalFlip => "Rotate90HorizontalFlip"@,
        Orientation::Rotate90 => "Rotate90"@,
        Orientation::Rotate90VerticalFlip => "Rotate90VerticalFlip"@,
        Orientation::Rotate270 => "Rotate270"@,
    }
}

/// Structural text of GPS coordinates.
pub open spec fn gps_text(g: GpsInfoModel) -> Seq<char> {
    "GpsInfo { latitude: "@ + g.latitude + ", longitude: "@ + g.longitude + ", altitude: "@
        + g.altitude + " }"@
}

/// The rendered text of an optional text value: its own, or the sentinel.
pub open spec fn opt_field_text(o: Option<Seq<char>>) -> Seq<char> {
    match o {
        Some(t) => t,
        None => na_text(),
    }
}

/// The value a missing dimension renders as.
pub open spec fn dim_or_zero(d: Option<i32>) -> int {
    match d {
        Some(v) => v as int,
        None => 0,
    }
}

/// Dimensions text: width and height joined by `x`, zero standing in for
/// a missing side.
pub open spec fn dimensions_text(w: Option<i32>, h: Option<i32>) -> Seq<char> {
    int_text(dim_or_zero(w)) + " x "@ + int_text(dim_or_zero(h))
}

/// The rendered media-type field.
pub open spec fn media_field_text(o: Option<MediaTypeModel>) -> Seq<char> {
    match o {
        Some(m) => media_type_text(m),
        None => na_text(),
    }
}

/// The rendered ISO-speed field.
pub open spec fn iso_field_text(o: Option<i32>) -> Seq<char> {
    match o {
        Some(v) => int_text(v as int),
        None => na_text(),
    }
}

/// The rendered orientation field.
pub open spec fn orientation_field_text(o: Option<Orientation>) -> Seq<char> {
    match o {
        Some(v) => orientation_text(v),
        None => na_text(),
    }
}

/// The rendered GPS field.
pub open spec fn gps_field_text(o: Option<GpsInfoModel>) -> Seq<char> {
    match o {
        Some(g) => gps_text(g),
        None => na_text(),
    }
}

/// The rendered view a snapshot owes: the eight labelled fields in their
/// fixed order, then the three tag groups in namespace order.
pub open spec fn spec_render(s: SnapshotModel) -> RenderedModel {
    RenderedModel {
        fields: seq![
            ("Media Type"@, media_field_text(s.media_type)),
            ("Dimensions"@, dimensions_text(s.pixel_width, s.pixel_height)),
            ("Exposure Time"@, opt_field_text(s.exposure_time)),
            ("F-Number"@, opt_field_text(s.fnumber)),
            ("Focal Length"@, opt_field_text(s.focal_length)),
            ("ISO Speed"@, iso_field_text(s.iso_speed)),
            ("Orientation"@, orientation_field_text(s.orientation)),
            ("GPS Info"@, gps_field_text(s.gps_info)),
        ],
        exif: (TagGroupModel { title: "EXIF Tags"@, entries: s.exif_tags }),
        iptc: (TagGroupModel { title: "IPTC Tags"@, entries: s.iptc_tags }),
        xmp: (TagGroupModel { title: "XMP Tags"@, entries: s.xmp_tags }),
    }
}

/// The heading of a group in an expandable rendering: its title with the
/// entry count alongside.
pub open spec fn heading_text(g: TagGroupModel) -> Seq<char> {
    g.title + " ("@ + dec_text(g.entries.len()) + ")"@
}

/// A group's one-line summary in a flat rendering: the heading with the
/// count, or the sentinel for a group with no entries.
pub open spec fn flat_summary_text(g: TagGroupModel) -> Seq<char> {
    if g.entries.len() == 0 {
        na_text()
    } else {
        heading_text(g)
    }
}

/// One line of the flat rendering of a labelled field.
pub open spec fn field_line(p: (Seq<char>, Seq<char>)) -> Seq<char> {
    p.0 + ": "@ + p.1
}

/// The line that opens a tag group in the flat rendering: the heading
/// with the entry count, or the title with the sentinel for a group with
/// no entries.
pub open spec fn group_line(g: TagGroupModel) -> Seq<char> {
    if g.entries.len() == 0 {
        g.title + ": "@ + na_text()
    } else {
        heading_text(g)
    }
}

/// One indented entry line of a shown tag group.
pub open spec fn entry_line(p: (Seq<char>, Seq<char>)) -> Seq<char> {
    "  "@ + p.0 + " = "@ + p.1
}

/// The lines one tag group contributes to the flat rendering: its group
/// line, then one line per entry (none for a group with no entries).
pub open spec fn group_lines(g: TagGroupModel) -> Seq<Seq<char>> {
    seq![group_line(g)] + g.entries.map_values(|p: (Seq<char>, Seq<char>)| entry_line(p))
}

/// The whole flat text rendering: one line per labelled field, then the
/// three tag groups in namespace order.
pub open spec fn flat_lines_text(v: RenderedModel) -> Seq<Seq<char>> {
    v.fields.map_values(|p: (Seq<char>, Seq<char>)| field_line(p)) + group_lines(v.exif)
        + group_lines(v.iptc) + group_lines(v.xmp)
}

/// Law: an enumerated value always renders as non-empty text (and, being
/// a function of the value alone, as stable text).
pub proof fn lemma_enumerated_texts_nonempty(m: MediaTypeModel, o: Orientation, g: GpsInfoModel)
    ensures
        media_type_text(m).len() > 0,
        orientation_text(o).len() > 0,
        gps_text(g).len() > 0,
{
    reveal_strlit("Bmp");
    reveal_strlit("CanonCr2");
    reveal_strlit("CanonCrw");
    reveal_strlit("Eps");
    reveal_strlit("FujiRaf");
    reveal_strlit("Gif");
    reveal_strlit("Jp2");
    reveal_strlit("Jpeg");
    reveal_strlit("MinoltaMrw");
    reveal_strlit("OlympusOrf");
    reveal_strlit("Png");
    reveal_strlit("Psd");
    reveal_strlit("PanasonicRw2");
    reveal_strlit("Tga");
    reveal_strlit("Tiff");
    reveal_strlit("Other(\"");
    reveal_strlit("Unspecified");
    reveal_strlit("Normal");
    reveal_strlit("HorizontalFlip");
    reveal_strlit("Rotate180");
    reveal_strlit("VerticalFlip");
    reveal_strlit("Rotate90HorizontalFlip");
    reveal_strlit("Rotate90");
    reveal_strlit("Rotate90VerticalFlip");
    reveal_strlit("Rotate270");
    reveal_strlit("GpsInfo { latitude: ");
}

/// Law: rendering is a pure function of the snapshot.  Two renderings of
/// equal snapshots are identical, however often rendering is repeated.
pub proof fn lemma_render_is_pure(a: MetadataInfo, b: MetadataInfo)
    requires
        a@ == b@,
    ensures
        spec_render(a@) == spec_render(b@),
{
}

fn media_type_string(m: &MediaType) -> (r: String)
    ensures
        r@ == media_type_text(m@),
{
    match m {
        MediaType::Bmp => String::from_str("Bmp"),
        MediaType::CanonCr2 => String::from_str("CanonCr2"),
        MediaType::CanonCrw => String::from_str("CanonCrw"),
        MediaType::Eps => String::from_str("Eps"),
        MediaType::FujiRaf => String::from_str("FujiRaf"),
        MediaType::Gif => String::from_str("Gif"),
        MediaType::Jp2 => String::from_str("Jp2"),
        MediaType::Jpeg => String::from_str("Jpeg"),
        MediaType::MinoltaMrw => String::from_str("MinoltaMrw"),
        MediaType::OlympusOrf => String::from_str("OlympusOrf"),
        MediaType::Png => String::from_str("Png"),
        MediaType::Psd => String::from_str("Psd"),
        MediaType::PanasonicRw2 => String::from_str("PanasonicRw2"),
        MediaType::Tga => String::from_str("Tga"),
        MediaType::Tiff => String::from_str("Tiff"),
        MediaType::Other(s) => {
            let mut r = String::from_str("Other(\"");
            r.append(s.as_str());
            r.append("\")");
            r
        },
    }
}

fn orientation_string(o: Orientation) -> (r: String)
    ensures
        r@ == orientation_text(o),
{
    match o {
        Orientation::Unspecified => String::from_str("Unspecified"),
        Orientation::Normal => String::from_str("Normal"),
        Orientation::HorizontalFlip => String::from_str("HorizontalFlip"),
        Orientation::Rotate180 => String::from_str("Rotate180"),
        Orientation::VerticalFlip => String::from_str("VerticalFlip"),
        Orientation::Rotate90HorizontalFlip => String::from_str("Rotate90HorizontalFlip"),
        Orientation::Rotate90 => String::from_str("Rotate90"),
        Orientation::Rotate90VerticalFlip => String::from_str("Rotate90VerticalFlip"),
        Orientation::Rotate270 => String::from_str("Rotate270"),
    }
}

fn sentinel_string() -> (r: String)
    ensures
        r@ == na_text(),
{
    String::from_str("N/A")
}

fn opt_value_string(o: &Option<String>) -> (r: String)
    ensures
        r@ == opt_field_text(crate::snapshot::opt_string_view(*o)),
{
    match o {
        Some(s) => s.clone(),
        None => sentinel_string(),
    }
}

fn clone_pairs(v: &Vec<(String, String)>) -> (r: Vec<(String, String)>)
    ensures
        r.deep_view() == v.deep_view(),
{
    let mut r: Vec<(String, String)> = Vec::new();
    let mut i: usize = 0;
    while i < v.len()
        invariant
            i <= v.len(),
            r@.len() == i,
            forall|j: int| 0 <= j < i ==> (#[trigger] r@[j]).deep_view() == v@[j].deep_view(),
        decreases v.len() - i,
    {
        let pair = &v[i];
        r.push((pair.0.clone(), pair.1.clone()));
        proof {
            assert(r@[i as int].deep_view() == v@[i as int].deep_view());
        }
        i = i + 1;
    }
    proof {
        assert(r.deep_view() =~= v.deep_view());
    }
    r
}

fn field_line_string(p: &(String, String)) -> (r: String)
    ensures
        r@ == field_line(p.deep_view()),
{
    let mut r = p.0.clone();
    r.append(": ");
    r.append(p.1.as_str());
    r
}

fn entry_line_string(p: &(String, String)) -> (r: String)
    ensures
        r@ == entry_line(p.deep_view()),
{
    let mut r = String::from_str("  ");
    r.append(p.0.as_str());
    r.append(" = ");
    r.append(p.1.as_str());
    r
}

fn group_lines_vec(g: &TagGroup) -> (lines: Vec<String>)
    ensures
        lines.deep_view() == group_lines(g@),
{
    let mut lines: Vec<String> = Vec::new();
    let line = if g.entries.len() == 0 {
        let mut line = g.title.clone();
        line.append(": ");
        line.append("N/A");
        line
    } else {
        g.heading()
    };
    lines.push(line);
    let mut i: usize = 0;
    while i < g.entries.len()
        invariant
            i <= g.entries.len(),
            lines@.len() == 1 + i,
            lines@[0]@ == group_line(g@),
            forall|j: int|
                1 <= j < lines@.len() ==> (#[trigger] lines@[j])@ == entry_line(
                    g.entries@[j - 1].deep_view(),
                ),
        decreases g.entries.len() - i,
    {
        let entry = &g.entries[i];
        lines.push(entry_line_string(entry));
        i = i + 1;
    }
    proof {
        assert(lines.deep_view() =~= group_lines(g@));
    }
    lines
}

impl RenderedView {
    /// The flat text rendering of the view: one line per labelled field,
    /// then each tag group's summary line followed by its entry lines.
    pub fn flat_lines(&self) -> (lines: Vec<String>)
        ensures
            lines.deep_view() == flat_lines_text(self@),
    {
        let mut lines: Vec<String> = Vec::new();
        let mut i: usize = 0;
        while i < self.fields.len()
            invariant
                i <= self.fields.len(),
                lines@.len() == i,
                forall|j: int|
                    0 <= j < i ==> (#[trigger] lines@[j])@ == field_line(
                        self.fields@[j].deep_view(),
                    ),
            decreases self.fields.len() - i,
        {
            let field = &self.fields[i];
            lines.push(field_line_string(field));
            i = i + 1;
        }
        let mut exif_lines = group_lines_vec(&self.exif);
        let mut iptc_lines = group_lines_vec(&self.iptc);
        let mut xmp_lines = group_lines_vec(&self.xmp);
        lines.append(&mut exif_lines);
        lines.append(&mut iptc_lines);
        lines.append(&mut xmp_lines);
        proof {
            assert(lines.deep_view() =~= flat_lines_text(self@));
        }
        lines
    }
}

impl TagGroup {
    /// The group's heading in an expandable rendering: its title with the
    /// entry count alongside.
    pub fn heading(&self) -> (r: String)
        ensures
            r@ == heading_text(self@),
    {
        let mut r = self.title.clone();
        r.append(" (");
        let count = usize_text(self.entries.len());
        r.append(count.as_str());
        r.append(")");
        r
    }

    /// Whether an expandable rendering shows the group at all: a group
    /// with no entries is omitted.
    pub fn expanded(&self) -> (shown: bool)
        ensures
            shown == (self@.entries.len() > 0),
    {
        self.entries.len() > 0
    }

    /// The group's one-line summary in a flat rendering.
    pub fn flat_summary(&self) -> (r: String)
        ensures
            r@ == flat_summary_text(self@),
    {
        if self.entries.len() == 0 {
            sentinel_string()
        } else {
            self.heading()
        }
    }
}

impl MetadataInfo {
    /// Renders the snapshot.  Rendering is deterministic and total: the
    /// result is a function of the snapshot alone.
    pub fn render(&self) -> (view: RenderedView)
        ensures
            view@ == spec_render(self@),
    {
        let media_value = match &self.media_type {
            Some(m) => media_type_string(m),
            None => sentinel_string(),
        };
        let width = match self.pixel_width {
            Some(v) => v,
            None => 0,
        };
        let height = match self.pixel_height {
            Some(v) => v,
            None => 0,
        };
        let mut dims = i32_text(width);
        dims.append(" x ");
        let height_text = i32_text(height);
        dims.append(height_text.as_str());
        let iso_value = match self.iso_speed {
            Some(v) => i32_text(v),
            None => sentinel_string(),
        };
        let orientation_value = match self.orientation {
            Some(o) => orientation_string(o),
            None => sentinel_string(),
        };
        let gps_value = match &self.gps_info {
            Some(g) => {
                let mut r = String::from_str("GpsInfo { latitude: ");
                r.append(g.latitude.as_str());
                r.append(", longitude: ");
                r.append(g.longitude.as_str());
                r.append(", altitude: ");
                r.append(g.altitude.as_str());
                r.append(" }");
                r
            },
            None => sentinel_string(),
        };
        let mut fields: Vec<(String, String)> = Vec::new();
        fields.push((String::from_str("Media Type"), media_value));
        fields.push((String::from_str("Dimensions"), dims));
        fields.push((String::from_str("Exposure Time"), opt_value_string(&self.exposure_time)));
        fields.push((String::from_str("F-Number"), opt_value_string(&self.fnumber)));
        fields.push((String::from_str("Focal Length"), opt_value_string(&self.focal_length)));
        fields.push((String::from_str("ISO Speed"), iso_value));
        fields.push((String::from_str("Orientation"), orientation_value));
        fields.push((String::from_str("GPS Info"), gps_value));
        let view = RenderedView {
            fields,
            exif: (TagGroup {
                title: String::from_str("EXIF Tags"),
                entries: clone_pairs(&self.exif_tags),
            }),
            iptc: (TagGroup {
                title: String::from_str("IPTC Tags"),
                entries: clone_pairs(&self.iptc_tags),
            }),
            xmp: (TagGroup {
                title: String::from_str("XMP Tags"),
                entries: clone_pairs(&self.xmp_tags),
            }),
        };
        proof {
            assert(view@.fields =~= spec_render(self@).fields);
            assert(view@ =~= spec_render(self@));
        }
        view
    }
}

} // verus!
