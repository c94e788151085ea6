//! Selectors for the text fields of a track's tag, so that a rule can visit
//! fields uniformly and a fix can target exactly one of them.
use vstd::prelude::*;
use crate::track::{opt_text, FieldsView, Track, TrackView};

verus! {

/// Free-text tag fields. Used by rules that emit per-field violations, so
/// that each fix targets one specific field.
#[derive(Clone, Copy, PartialEq, Eq, Debug, Structural)]
pub enum TextField {
    Artist,
    Title,
    Album,
    Remixer,
    Publisher,
}

/// Every string-valued field of a tag.
#[derive(Clone, Copy, PartialEq, Eq, Debug, Structural)]
pub enum TagField {
    Artist,
    Title,
    Album,
    Remixer,
    Publisher,
    CatalogId,
    Year,
    Genre,
    Key,
    Bpm,
}

/// The value of field `f` in `t`.
pub open spec fn field_value(f: TagField, t: TrackView) -> Option<Seq<char>> {
    match f {
        TagField::Artist => t.fields.artist,
        TagField::Title => t.fields.title,
        TagField::Album => t.fields.album,
        TagField::Remixer => t.fields.remixer,
        TagField::Publisher => t.fields.publisher,
        TagField::CatalogId => t.fields.catalog_id,
        TagField::Year => t.fields.year,
        TagField::Genre => t.fields.genre,
        TagField::Key => t.fields.key,
        TagField::Bpm => t.fields.bpm,
    }
}

/// `t` with field `f` set to `v`, all else as it was.
pub open spec fn with_field(f: TagField, t: TrackView, v: Option<Seq<char>>) -> TrackView {
    let fs = t.fields;
    let nf = match f {
        TagField::Artist => FieldsView { artist: v, ..fs },
        TagField::Title => FieldsView { title: v, ..fs },
        TagField::Album => FieldsView { album: v, ..fs },
        TagField::Remixer => FieldsView { remixer: v, ..fs },
        TagField::Publisher => FieldsView { publisher: v, ..fs },
        TagField::CatalogId => FieldsView { catalog_id: v, ..fs },
        TagField::Year => FieldsView { year: v, ..fs },
        TagField::Genre => FieldsView { genre: v, ..fs },
        TagField::Key => FieldsView { key: v, ..fs },
        TagField::Bpm => FieldsView { bpm: v, ..fs },
    };
    TrackView { fields: nf, ..t }
}

/// `t` with the value of field `f`, where there is one, replaced by `g` of it.
pub open spec fn map_field(f: TagField, t: TrackView, g: spec_fn(Seq<char>) -> Seq<char>) -> TrackView {
    match field_value(f, t) {
        Some(v) => with_field(f, t, Some(g(v))),
        None => t,
    }
}

impl TextField {
    /// The tag field this selector stands for.
    pub open spec fn tag_field(self) -> TagField {
        match self {
            TextField::Artist => TagField::Artist,
            TextField::Title => TagField::Title,
            TextField::Album => TagField::Album,
            TextField::Remixer => TagField::Remixer,
            TextField::Publisher => TagField::Publisher,
        }
    }

    /// The five free-text fields, in the order in which rules visit them.
    pub open spec fn all_spec() -> Seq<TextField> {
        seq![
            TextField::Artist,
            TextField::Title,
            TextField::Album,
            TextField::Remixer,
            TextField::Publisher,
        ]
    }

    pub open spec fn name_spec(self) -> Seq<char> {
        match self {
            TextField::Artist => "artist"@,
            TextField::Title => "title"@,
            TextField::Album => "album"@,
            TextField::Remixer => "remixer"@,
            TextField::Publisher => "publisher"@,
        }
    }

    /// The five free-text fields, in the order in which rules visit them.
    pub fn all() -> (r: [TextField; 5])
        ensures
            r@ == Self::all_spec(),
    {
        let r = [
            TextField::Artist,
            TextField::Title,
            TextField::Album,
            TextField::Remixer,
            TextField::Publisher,
        ];
        assert(r@ =~= Self::all_spec());
        r
    }

    pub fn name(self) -> (r: &'static str)
        ensures
            r@ == self.name_spec(),
    {
        match self {
            TextField::Artist => "artist",
            TextField::Title => "title",
            TextField::Album => "album",
            TextField::Remixer => "remixer",
            TextField::Publisher => "publisher",
        }
    }

    pub fn get(self, track: &Track) -> (r: Option<&str>)
        ensures
            match r {
                Some(s) => field_value(self.tag_field(), track@) == Some(s@),
                None => field_value(self.tag_field(), track@) is None,
            },
    {
        self.tag_field_exec().get(track)
    }

    pub fn set(self, track: &mut Track, value: String)
        ensures
            final(track)@ == with_field(self.tag_field(), old(track)@, Some(value@)),
    {
        self.tag_field_exec().set(track, value)
    }

    pub fn tag_field_exec(self) -> (r: TagField)
        ensures
            r == self.tag_field(),
    {
        match self {
            TextField::Artist => TagField::Artist,
            TextField::Title => TagField::Title,
            TextField::Album => TagField::Album,
            TextField::Remixer => TagField::Remixer,
            TextField::Publisher => TagField::Publisher,
        }
    }
}

fn opt_str(o: &Option<String>) -> (r: Option<&str>)
    ensures
        match r {
            Some(s) => opt_text(*o) == Some(s@),
            None => o is None,
        },
{
    match o {
        Some(s) => Some(s.as_str()),
        None => None,
    }
}

impl TagField {
    /// The ten string-valued fields, in tag order.
    pub open spec fn all_spec() -> Seq<TagField> {
        seq![
            TagField::Artist,
            TagField::Title,
            TagField::Album,
            TagField::Remixer,
            TagField::Publisher,
            TagField::CatalogId,
            TagField::Year,
            TagField::Genre,
            TagField::Key,
            TagField::Bpm,
        ]
    }

    pub open spec fn name_spec(self) -> Seq<char> {
        match self {
            TagField::Artist => "artist"@,
            TagField::Title => "title"@,
            TagField::Album => "album"@,
            TagField::Remixer => "remixer"@,
            TagField::Publisher => "publisher"@,
            TagField::CatalogId => "catalog_id"@,
            TagField::Year => "year"@,
            TagField::Genre => "genre"@,
            TagField::Key => "key"@,
            TagField::Bpm => "bpm"@,
        }
    }

    /// The ten string-valued fields, in tag order.
    pub fn all() -> (r: [TagField; 10])
        ensures
            r@ == Self::all_spec(),
    {
        let r = [
            TagField::Artist,
            TagField::Title,
            TagField::Album,
            TagField::Remixer,
            TagField::Publisher,
            TagField::CatalogId,
            TagField::Year,
            TagField::Genre,
            TagField::Key,
            TagField::Bpm,
        ];
        assert(r@ =~= Self::all_spec());
        r
    }

    pub fn name(self) -> (r: &'static str)
        ensures
            r@ == self.name_spec(),
    {
        match self {
            TagField::Artist => "artist",
            TagField::Title => "title",
            TagField::Album => "album",
            TagField::Remixer => "remixer",
            TagField::Publisher => "publisher",
            TagField::CatalogId => "catalog_id",
            TagField::Year => "year",
            TagField::Genre => "genre",
            TagField::Key => "key",
            TagField::Bpm => "bpm",
        }
    }

    pub fn get(self, track: &Track) -> (r: Option<&str>)
        ensures
            match r {
                Some(s) => field_value(self, track@) == Some(s@),
                None => field_value(self, track@) is None,
            },
    {
        let f = &track.fields;
        match self {
            TagField::Artist => opt_str(&f.artist),
            TagField::Title => opt_str(&f.title),
            TagField::Album => opt_str(&f.album),
            TagField::Remixer => opt_str(&f.remixer),
            TagField::Publisher => opt_str(&f.publisher),
            TagField::CatalogId => opt_str(&f.catalog_id),
            TagField::Year => opt_str(&f.year),
            TagField::Genre => opt_str(&f.genre),
            TagField::Key => opt_str(&f.key),
            TagField::Bpm => opt_str(&f.bpm),
        }
    }

    pub fn set(self, track: &mut Track, value: String)
        ensures
            final(track)@ == with_field(self, old(track)@, Some(value@)),
    {
        match self {
            TagField::Artist => track.fields.artist = Some(value),
            TagField::Title => track.fields.title = Some(value),
            TagField::Album => track.fields.album = Some(value),
            TagField::Remixer => track.fields.remixer = Some(value),
            TagField::Publisher => track.fields.publisher = Some(value),
            TagField::CatalogId => track.fields.catalog_id = Some(value),
            TagField::Year => track.fields.year = Some(value),
            TagField::Genre => track.fields.genre = Some(value),
            TagField::Key => track.fields.key = Some(value),
            TagField::Bpm => track.fields.bpm = Some(value),
        }
    }
}

} // verus!
