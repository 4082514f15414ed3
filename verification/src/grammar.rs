//! The vocabulary of the document: which elements a release may hold, and
//! what the converter does with each.
use vstd::prelude::*;

use crate::token::{attribute_views, is_name, name_bytes, Attribute, AttributeView};
use crate::writer::{ArtistField, LabelField};

verus! {

/// The two lists of plain strings that a release holds.
#[derive(Debug, Clone, Copy, PartialEq, Eq, Structural)]
pub enum ListKind {
    Genres,
    Styles,
}

/// The children of a release that are read past and not stored.
#[derive(Debug, Clone, Copy, PartialEq, Eq, Structural)]
pub enum Ignored {
    ExtraArtists,
    Formats,
    Country,
    DataQuality,
    MasterId,
    Tracklist,
    Videos,
    Released,
    Companies,
    Notes,
    Identifiers,
}

/// The children of an artist that must be empty and are not stored.
#[derive(Debug, Clone, Copy, PartialEq, Eq, Structural)]
pub enum Note {
    Role,
    Tracks,
}

/// The children of a release that the converter knows.
#[derive(Debug, Clone, Copy, PartialEq, Eq, Structural)]
pub enum Child {
    Title,
    Genres,
    Styles,
    Images,
    Artists,
    Labels,
    Ignored(Ignored),
}

/// The children of an artist that the converter knows.
#[derive(Debug, Clone, Copy, PartialEq, Eq, Structural)]
pub enum ArtistChild {
    Member(ArtistField),
    Note(Note),
}

impl ListKind {
    /// The name of the element that holds the list.
    pub open spec fn list_tag(self) -> &'static str {
        match self {
            ListKind::Genres => "genres",
            ListKind::Styles => "styles",
        }
    }

    /// The name of the element that holds one item.
    pub open spec fn item_tag(self) -> &'static str {
        match self {
            ListKind::Genres => "genre",
            ListKind::Styles => "style",
        }
    }

    /// The name of the element that holds the list.
    pub fn list_name(self) -> (name: &'static str)
        ensures
            name == self.list_tag(),
    {
        match self {
            ListKind::Genres => "genres",
            ListKind::Styles => "styles",
        }
    }

    /// The name of the element that holds one item.
    pub fn item_name(self) -> (name: &'static str)
        ensures
            name == self.item_tag(),
    {
        match self {
            ListKind::Genres => "genre",
            ListKind::Styles => "style",
        }
    }
}

impl Ignored {
    /// The name of the element.
    pub open spec fn tag(self) -> &'static str {
        match self {
            Ignored::ExtraArtists => "extraartists",
            Ignored::Formats => "formats",
            Ignored::Country => "country",
            Ignored::DataQuality => "data_quality",
            Ignored::MasterId => "master_id",
            Ignored::Tracklist => "tracklist",
            Ignored::Videos => "videos",
            Ignored::Released => "released",
            Ignored::Companies => "companies",
            Ignored::Notes => "notes",
            Ignored::Identifiers => "identifiers",
        }
    }

    /// The name of the element.
    pub fn name(self) -> (name: &'static str)
        ensures
            name == self.tag(),
    {
        match self {
            Ignored::ExtraArtists => "extraartists",
            Ignored::Formats => "formats",
            Ignored::Country => "country",
            Ignored::DataQuality => "data_quality",
            Ignored::MasterId => "master_id",
            Ignored::Tracklist => "tracklist",
            Ignored::Videos => "videos",
            Ignored::Released => "released",
            Ignored::Companies => "companies",
            Ignored::Notes => "notes",
            Ignored::Identifiers => "identifiers",
        }
    }
}

impl Note {
    /// The name of the element.
    pub open spec fn tag(self) -> &'static str {
        match self {
            Note::Role => "role",
            Note::Tracks => "tracks",
        }
    }

    /// The name of the element.
    pub fn name(self) -> (name: &'static str)
        ensures
            name == self.tag(),
    {
        match self {
            Note::Role => "role",
            Note::Tracks => "tracks",
        }
    }
}

/// The name of the element that holds a member of an artist.
pub open spec fn artist_tag(field: ArtistField) -> &'static str {
    match field {
        ArtistField::Id => "id",
        ArtistField::Name => "name",
        ArtistField::Anv => "anv",
        ArtistField::Join => "join",
    }
}

/// The name of the element that holds a member of an artist.
pub fn artist_name(field: ArtistField) -> (name: &'static str)
    ensures
        name == artist_tag(field),
{
    match field {
        ArtistField::Id => "id",
        ArtistField::Name => "name",
        ArtistField::Anv => "anv",
        ArtistField::Join => "join",
    }
}

/// The name of the attribute that holds a member of a label.
pub open spec fn label_key(field: LabelField) -> &'static str {
    match field {
        LabelField::Id => "id",
        LabelField::CatNo => "catno",
        LabelField::Name => "name",
    }
}

/// The name of the attribute that holds a member of a label.
pub fn label_attribute(field: LabelField) -> (name: &'static str)
    ensures
        name == label_key(field),
{
    match field {
        LabelField::Id => "id",
        LabelField::CatNo => "catno",
        LabelField::Name => "name",
    }
}

/// The child of a release that `name` names, if the converter knows it.
pub open spec fn child_of(name: Seq<u8>) -> Option<Child> {
    if name == name_bytes("title") {
        Some(Child::Title)
    } else if name == name_bytes("genres") {
        Some(Child::Genres)
    } else if name == name_bytes("styles") {
        Some(Child::Styles)
    } else if name == name_bytes("images") {
        Some(Child::Images)
    } else if name == name_bytes("artists") {
        Some(Child::Artists)
    } else if name == name_bytes("extraartists") {
        Some(Child::Ignored(Ignored::ExtraArtists))
    } else if name == name_bytes("labels") {
        Some(Child::Labels)
    } else if name == name_bytes("formats") {
        Some(Child::Ignored(Ignored::Formats))
    } else if name == name_bytes("country") {
        Some(Child::Ignored(Ignored::Country))
    } else if name == name_bytes("data_quality") {
        Some(Child::Ignored(Ignored::DataQuality))
    } else if name == name_bytes("master_id") {
        Some(Child::Ignored(Ignored::MasterId))
    } else if name == name_bytes("tracklist") {
        Some(Child::Ignored(Ignored::Tracklist))
    } else if name == name_bytes("videos") {
        Some(Child::Ignored(Ignored::Videos))
    } else if name == name_bytes("released") {
        Some(Child::Ignored(Ignored::Released))
    } else if name == name_bytes("companies") {
        Some(Child::Ignored(Ignored::Companies))
    } else if name == name_bytes("notes") {
        Some(Child::Ignored(Ignored::Notes))
    } else if name == name_bytes("identifiers") {
        Some(Child::Ignored(Ignored::Identifiers))
    } else {
        None
    }
}

/// Reads the name of a child of a release.
pub fn read_child(name: &Vec<u8>) -> (child: Option<Child>)
    ensures
        child == child_of(name@),
{
    if is_name(name, "title") {
        Some(Child::Title)
    } else if is_name(name, "genres") {
        Some(Child::Genres)
    } else if is_name(name, "styles") {
        Some(Child::Styles)
    } else if is_name(name, "images") {
        Some(Child::Images)
    } else if is_name(name, "artists") {
        Some(Child::Artists)
    } else if is_name(name, "extraartists") {
        Some(Child::Ignored(Ignored::ExtraArtists))
    } else if is_name(name, "labels") {
        Some(Child::Labels)
    } else if is_name(name, "formats") {
        Some(Child::Ignored(Ignored::Formats))
    } else if is_name(name, "country") {
        Some(Child::Ignored(Ignored::Country))
    } else if is_name(name, "data_quality") {
        Some(Child::Ignored(Ignored::DataQuality))
    } else if is_name(name, "master_id") {
        Some(Child::Ignored(Ignored::MasterId))
    } else if is_name(name, "tracklist") {
        Some(Child::Ignored(Ignored::Tracklist))
    } else if is_name(name, "videos") {
        Some(Child::Ignored(Ignored::Videos))
    } else if is_name(name, "released") {
        Some(Child::Ignored(Ignored::Released))
    } else if is_name(name, "companies") {
        Some(Child::Ignored(Ignored::Companies))
    } else if is_name(name, "notes") {
        Some(Child::Ignored(Ignored::Notes))
    } else if is_name(name, "identifiers") {
        Some(Child::Ignored(Ignored::Identifiers))
    } else {
        None
    }
}

/// The child of an artist that `name` names, if the converter knows it.
pub open spec fn artist_child_of(name: Seq<u8>) -> Option<ArtistChild> {
    if name == name_bytes("id") {
        Some(ArtistChild::Member(ArtistField::Id))
    } else if name == name_bytes("name") {
        Some(ArtistChild::Member(ArtistField::Name))
    } else if name == name_bytes("anv") {
        Some(ArtistChild::Member(ArtistField::Anv))
    } else if name == name_bytes("join") {
        Some(ArtistChild::Member(ArtistField::Join))
    } else if name == name_bytes("role") {
        Some(ArtistChild::Note(Note::Role))
    } else if name == name_bytes("tracks") {
        Some(ArtistChild::Note(Note::Tracks))
    } else {
        None
    }
}

/// Reads the name of a child of an artist.
pub fn read_artist_child(name: &Vec<u8>) -> (child: Option<ArtistChild>)
    ensures
        child == artist_child_of(name@),
{
    if is_name(name, "id") {
        Some(ArtistChild::Member(ArtistField::Id))
    } else if is_name(name, "name") {
        Some(ArtistChild::Member(ArtistField::Name))
    } else if is_name(name, "anv") {
        Some(ArtistChild::Member(ArtistField::Anv))
    } else if is_name(name, "join") {
        Some(ArtistChild::Member(ArtistField::Join))
    } else if is_name(name, "role") {
        Some(ArtistChild::Note(Note::Role))
    } else if is_name(name, "tracks") {
        Some(ArtistChild::Note(Note::Tracks))
    } else {
        None
    }
}

/// Whether the attribute at `at` is the only one with the key `key`.
pub open spec fn is_only(attributes: Seq<AttributeView>, key: Seq<u8>, at: int) -> bool {
    &&& 0 <= at < attributes.len()
    &&& attributes[at].key == key
    &&& forall|other: int|
        0 <= other < attributes.len() && other != at ==> (#[trigger] attributes[other]).key != key
}

/// The value of the attribute with the key `key`, where exactly one
/// attribute has that key.
pub open spec fn only_value(attributes: Seq<AttributeView>, key: Seq<u8>) -> Option<Seq<u8>> {
    if exists|at: int| is_only(attributes, key, at) {
        Some(attributes[choose|at: int| is_only(attributes, key, at)].value)
    } else {
        None
    }
}

/// Looks up the attribute named `key`; `None` unless exactly one attribute
/// has that name.
pub fn find_only<'a>(attributes: &'a Vec<Attribute>, key: &str) -> (found: Option<&'a Vec<u8>>)
    ensures
        match only_value(attribute_views(attributes@), name_bytes(key)) {
            Some(value) => found matches Some(v) && v@ == value,
            None => found is None,
        },
{
    let ghost views = attribute_views(attributes@);
    let ghost wanted = name_bytes(key);
    let mut first: Option<usize> = None;
    let mut at: usize = 0;
    while at < attributes.len()
        invariant
            at <= attributes@.len(),
            views == attribute_views(attributes@),
            wanted == name_bytes(key),
            match first {
                Some(seen) => seen < at && views[seen as int].key == wanted && forall|other: int|
                    0 <= other < at && other != seen ==> (#[trigger] views[other]).key != wanted,
                None => forall|other: int| 0 <= other < at ==> (#[trigger] views[other]).key != wanted,
            },
        decreases attributes@.len() - at,
    {
        if is_name(&attributes[at].key, key) {
            assert(views[at as int].key == wanted);
            match first {
                Some(seen) => {
                    proof {
                        assert forall|only: int| !is_only(views, wanted, only) by {
                            if is_only(views, wanted, only) {
                                if only == seen as int {
                                    assert(views[at as int].key != wanted);
                                } else {
                                    assert(views[seen as int].key != wanted);
                                }
                            }
                        }
                    }
                    return None;
                },
                None => {
                    first = Some(at);
                },
            }
        } else {
            assert(views[at as int].key != wanted);
        }
        at += 1;
    }
    match first {
        Some(seen) => {
            proof {
                assert(is_only(views, wanted, seen as int));
                let chosen = choose|only: int| is_only(views, wanted, only);
                assert(chosen == seen as int) by {
                    if chosen != seen as int {
                        assert(views[seen as int].key != wanted);
                    }
                }
            }
            Some(&attributes[seen].value)
        },
        None => {
            proof {
                assert forall|only: int| !is_only(views, wanted, only) by {
                    if is_only(views, wanted, only) {
                        assert(views[only].key != wanted);
                    }
                }
            }
            None
        },
    }
}

} // verus!
