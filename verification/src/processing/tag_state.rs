//! What the pipeline keeps inside a track's tag: its processing state and
//! its history of revisions, each as the data of an encapsulated object
//! (GEOB) frame under a file name of its own, and the media hash, as the
//! identifier of a unique file identifier (UFID) frame under the pipeline's
//! owner name. The data is read and written here as bytes; what the bytes
//! hold is for the caller to encode and decode.
use vstd::prelude::*;
use id3::frame::EncapsulatedObject;
use id3::{Tag, TagLike};
use crate::text::{chars_are, chars_of};

verus! {

/// The file name of the object that holds the processing state.
pub const GEOB_STAGE_FILENAME: &'static str = "tune-manager-processing-state.json";

/// The file name of the object that holds the revision history.
pub const GEOB_REVISIONS_FILENAME: &'static str = "tune-manager-track-revisions.json";

/// The owner of the UFID frame that holds the media hash.
pub const MEDIA_HASH_OWNER: &'static str = "tune-manager-rs";

/// An encapsulated object of a tag: the id of the frame that holds it, its
/// description, its file name and its data.
pub type ObjectView = (Seq<char>, Seq<char>, Seq<char>, Seq<u8>);

/// The encapsulated objects of a tag, one for each frame whose content is
/// an encapsulated object, in the order of the tag's frames.
pub uninterp spec fn tag_objects(tag: Tag) -> Seq<ObjectView>;

/// The unique file identifiers of a tag, as owner and identifier, one for
/// each frame whose content is a unique file identifier, in frame order.
pub uninterp spec fn tag_ufids(tag: Tag) -> Seq<(Seq<char>, Seq<u8>)>;

/// The frame id of encapsulated objects.
pub open spec fn geob_id() -> Seq<char> {
    seq!['G', 'E', 'O', 'B']
}

/// Goes through `Tag::frames` and, for each frame whose content is an
/// encapsulated object (`Content::encapsulated_object`), takes the frame's
/// `id` and the object's description, file name and data: these are the
/// tag's objects as `tag_objects` names them.
#[verifier::external_body]
fn encapsulated_objects(tag: &Tag) -> (r: Vec<(String, String, String, Vec<u8>)>)
    ensures
        r@.len() == tag_objects(*tag).len(),
        forall|i: int|
            0 <= i < r@.len() ==> {
                &&& (#[trigger] r@[i]).0@ == tag_objects(*tag)[i].0
                &&& r@[i].1@ == tag_objects(*tag)[i].1
                &&& r@[i].2@ == tag_objects(*tag)[i].2
                &&& r@[i].3@ == tag_objects(*tag)[i].3
            },
{
    tag.frames().filter_map(
        |f| f.content().encapsulated_object().map(
            |o| (f.id().to_string(), o.description.clone(), o.filename.clone(), o.data.clone()),
        ),
    ).collect()
}

/// Calls `TagLike::remove_encapsulated_object` with only a file name: it
/// keeps every frame whose id is not `GEOB`, and drops every `GEOB` frame
/// whose object has that file name (or whose content is no object at all).
#[verifier::external_body]
fn remove_objects_named(tag: &mut Tag, filename: &str)
    ensures
        tag_objects(*final(tag)) == tag_objects(*old(tag)).filter(
            |o: ObjectView| !(o.0 == geob_id() && o.2 == filename@),
        ),
{
    tag.remove_encapsulated_object(None, None, Some(filename), None)
}

/// Calls `TagLike::add_frame` with a `GEOB` frame holding the object. The
/// frame is appended; before that, the first frame that conflicts with it
/// is dropped: for `GEOB` that is a frame with a valid `GEOB` id whose
/// content has the same description, so at most one object, one with a
/// `GEOB` id and this description, goes.
#[verifier::external_body]
fn add_object(tag: &mut Tag, mime_type: String, filename: String, description: String, data: Vec<u8>)
    ensures
        ({
            let before = tag_objects(*old(tag));
            let added = (geob_id(), description@, filename@, data@);
            ||| tag_objects(*final(tag)) == before.push(added)
            ||| exists|k: int|
                0 <= k < before.len() && before[k].0 == geob_id() && before[k].1 == description@
                    && tag_objects(*final(tag)) == before.remove(k).push(added)
        }),
{
    tag.add_frame(EncapsulatedObject { mime_type, filename, description, data });
}

/// Goes through `Tag::unique_file_identifiers` and takes each one's owner
/// and identifier: these are the tag's identifiers as `tag_ufids` names
/// them.
#[verifier::external_body]
fn unique_file_identifiers(tag: &Tag) -> (r: Vec<(String, Vec<u8>)>)
    ensures
        r@.len() == tag_ufids(*tag).len(),
        forall|i: int|
            0 <= i < r@.len() ==> (#[trigger] r@[i]).0@ == tag_ufids(*tag)[i].0 && r@[i].1@
                == tag_ufids(*tag)[i].1,
{
    tag.unique_file_identifiers().map(|u| (u.owner_identifier.clone(), u.identifier.clone())).collect()
}

/// The position of the first object among `objs` from `i` on whose file
/// name is `filename`, or `objs.len()` when there is none.
pub open spec fn first_named_from(objs: Seq<ObjectView>, filename: Seq<char>, i: int) -> int
    decreases objs.len() - i,
{
    if i < 0 || i >= objs.len() {
        objs.len() as int
    } else if objs[i].2 == filename {
        i
    } else {
        first_named_from(objs, filename, i + 1)
    }
}

/// The data of the first object of `tag` under `filename`, if there is one.
pub open spec fn stored_data(tag: Tag, filename: Seq<char>) -> Option<Seq<u8>> {
    let objs = tag_objects(tag);
    let k = first_named_from(objs, filename, 0);
    if k < objs.len() {
        Some(objs[k].3)
    } else {
        None
    }
}

/// Every object of `tag` under `filename` sits in a `GEOB` frame; that is
/// how the tag of a file read from disk always is.
pub open spec fn objects_in_geob_frames(tag: Tag, filename: Seq<char>) -> bool {
    forall|i: int|
        0 <= i < tag_objects(tag).len() && (#[trigger] tag_objects(tag)[i]).2 == filename
            ==> tag_objects(tag)[i].0 == geob_id()
}

proof fn lemma_first_named_from(objs: Seq<ObjectView>, filename: Seq<char>, i: int)
    requires
        0 <= i <= objs.len(),
    ensures
        i <= first_named_from(objs, filename, i) <= objs.len(),
        first_named_from(objs, filename, i) < objs.len() ==> objs[first_named_from(
            objs,
            filename,
            i,
        )].2 == filename,
        forall|j: int| i <= j < first_named_from(objs, filename, i) ==> objs[j].2 != filename,
    decreases objs.len() - i,
{
    if i < objs.len() && objs[i].2 != filename {
        lemma_first_named_from(objs, filename, i + 1);
    }
}

/// The data of the first object of `tag` whose file name is `filename`.
pub fn object_data(tag: &Tag, filename: &str) -> (r: Option<Vec<u8>>)
    ensures
        match r {
            Some(d) => stored_data(*tag, filename@) == Some(d@),
            None => stored_data(*tag, filename@) is None,
        },
{
    let objs = encapsulated_objects(tag);
    let ghost spec_objs = tag_objects(*tag);
    let name = chars_of(filename);
    let mut i: usize = 0;
    proof {
        lemma_first_named_from(spec_objs, filename@, 0);
    }
    while i < objs.len()
        invariant
            i <= objs@.len(),
            objs@.len() == spec_objs.len(),
            spec_objs == tag_objects(*tag),
            name@ == filename@,
            forall|j: int|
                0 <= j < objs@.len() ==> (#[trigger] objs@[j]).2@ == spec_objs[j].2 && objs@[j].3@
                    == spec_objs[j].3,
            forall|j: int| 0 <= j < i ==> spec_objs[j].2 != filename@,
            first_named_from(spec_objs, filename@, 0) == first_named_from(
                spec_objs,
                filename@,
                i as int,
            ),
        decreases objs@.len() - i,
    {
        let o = &objs[i];
        if chars_are(&name, o.2.as_str()) {
            let data = o.3.clone();
            proof {
                assert(data@ =~= objs@[i as int].3@);
            }
            return Some(data);
        }
        i = i + 1;
    }
    None
}

/// Drops every `GEOB` object under `filename` and adds one holding `data`,
/// with the given description, as JSON. Reading `filename` back then gives
/// `data`, wherever no object under that name sat in another kind of frame.
pub fn replace_object(tag: &mut Tag, filename: &str, description: &str, data: Vec<u8>)
    ensures
        objects_in_geob_frames(*old(tag), filename@) ==> stored_data(*final(tag), filename@) == Some(
            data@,
        ),
{
    remove_objects_named(tag, filename);
    let ghost kept = tag_objects(*tag);
    proof {
        let pred = |o: ObjectView| !(o.0 == geob_id() && o.2 == filename@);
        assert forall|i: int| 0 <= i < kept.len() && objects_in_geob_frames(*old(tag), filename@)
            implies kept[i].2 != filename@ by {
            let before = tag_objects(*old(tag));
            before.lemma_filter_pred(pred, i);
            assert(before.filter(pred).contains(kept[i]));
            before.lemma_filter_contains_rev(pred, kept[i]);
        }
    }
    add_object(
        tag,
        crate::text::string_from("application/json"),
        crate::text::string_from(filename),
        crate::text::string_from(description),
        data,
    );
    proof {
        let after = tag_objects(*tag);
        let added = (geob_id(), description@, filename@, data@);
        if objects_in_geob_frames(*old(tag), filename@) {
            let rest = if after == kept.push(added) {
                kept
            } else {
                let k = choose|k: int|
                    0 <= k < kept.len() && kept[k].0 == geob_id() && kept[k].1 == description@
                        && after == kept.remove(k).push(added);
                kept.remove(k)
            };
            assert(after == rest.push(added));
            assert forall|j: int| 0 <= j < rest.len() implies rest[j].2 != filename@ by {
                if after != kept.push(added) {
                    let k = choose|k: int|
                        0 <= k < kept.len() && kept[k].0 == geob_id() && kept[k].1
                            == description@ && after == kept.remove(k).push(added);
                    if j < k {
                        assert(rest[j] == kept[j]);
                    } else {
                        assert(rest[j] == kept[j + 1]);
                    }
                }
            }
            lemma_first_named_from(after, filename@, 0);
            let f = first_named_from(after, filename@, 0);
            if f < rest.len() {
                assert(after[f] == rest[f]);
                assert(rest[f].2 != filename@);
            }
            if f > rest.len() {
                assert(after[rest.len() as int] == added);
                assert(after[rest.len() as int].2 != filename@);
            }
            assert(f == rest.len());
        }
    }
}

/// The bytes of the processing state kept in `tag`, if there are any.
pub fn processing_state_data(tag: &Tag) -> (r: Option<Vec<u8>>)
    ensures
        match r {
            Some(d) => stored_data(*tag, GEOB_STAGE_FILENAME@) == Some(d@),
            None => stored_data(*tag, GEOB_STAGE_FILENAME@) is None,
        },
{
    object_data(tag, GEOB_STAGE_FILENAME)
}

/// Keeps `data` in `tag` as its processing state, in place of any earlier.
pub fn set_processing_state_data(tag: &mut Tag, data: Vec<u8>)
    ensures
        objects_in_geob_frames(*old(tag), GEOB_STAGE_FILENAME@) ==> stored_data(
            *final(tag),
            GEOB_STAGE_FILENAME@,
        ) == Some(data@),
{
    replace_object(tag, GEOB_STAGE_FILENAME, "Processing state for tune-manager", data)
}

/// The bytes of the revision history kept in `tag`, if there are any.
pub fn revisions_data(tag: &Tag) -> (r: Option<Vec<u8>>)
    ensures
        match r {
            Some(d) => stored_data(*tag, GEOB_REVISIONS_FILENAME@) == Some(d@),
            None => stored_data(*tag, GEOB_REVISIONS_FILENAME@) is None,
        },
{
    object_data(tag, GEOB_REVISIONS_FILENAME)
}

/// Keeps `data` in `tag` as its revision history, in place of any earlier.
pub fn set_revisions_data(tag: &mut Tag, data: Vec<u8>)
    ensures
        objects_in_geob_frames(*old(tag), GEOB_REVISIONS_FILENAME@) ==> stored_data(
            *final(tag),
            GEOB_REVISIONS_FILENAME@,
        ) == Some(data@),
{
    replace_object(tag, GEOB_REVISIONS_FILENAME, "Track revisions history for tune-manager", data)
}

/// The media hash a tag already holds: the identifier of its one unique
/// file identifier, when it has exactly one and the pipeline owns it.
/// Otherwise the hash is to be computed and written anew.
pub fn existing_media_hash(tag: &Tag) -> (r: Option<Vec<u8>>)
    ensures
        match r {
            Some(h) => tag_ufids(*tag).len() == 1 && tag_ufids(*tag)[0].0 == MEDIA_HASH_OWNER@
                && h@ == tag_ufids(*tag)[0].1,
            None => !(tag_ufids(*tag).len() == 1 && tag_ufids(*tag)[0].0 == MEDIA_HASH_OWNER@),
        },
{
    let ids = unique_file_identifiers(tag);
    if ids.len() == 1 {
        let owner = chars_of(ids[0].0.as_str());
        if chars_are(&owner, MEDIA_HASH_OWNER) {
            return Some(ids[0].1.clone());
        }
    }
    None
}

} // verus!
