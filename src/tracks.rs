use vstd::prelude::*;

use crate::state::{AppModel, AppState};
use crate::text::same_text;

verus! {

/// The extension that `std::path::Path::extension` finds in a path.
pub uninterp spec fn extension_of(path: Seq<char>) -> Option<Seq<char>>;

/// The view of an optional string.
pub open spec fn opt_text(s: Option<String>) -> Option<Seq<char>> {
    match s {
        Some(t) => Some(t@),
        None => None,
    }
}

/// Relies on `std::path::Path::extension`: the text after the last `.` of
/// the path's final component, if there is one.
#[verifier::external_body]
fn path_extension(path: &str) -> (r: Option<String>)
    ensures
        opt_text(r) == extension_of(path@),
{
    std::path::Path::new(path).extension().and_then(|e| e.to_str()).map(|e| e.to_string())
}

/// File extensions of the audio formats the decoder reads.
pub open spec fn is_supported_extension(ext: Seq<char>) -> bool {
    ||| ext == "mp3"@
    ||| ext == "wav"@
    ||| ext == "flac"@
    ||| ext == "ogg"@
}

/// Whether the path names a playable track, judged by its extension.
pub open spec fn is_track_path(path: Seq<char>) -> bool {
    match extension_of(path) {
        Some(ext) => is_supported_extension(ext),
        None => false,
    }
}

/// The playable tracks among `paths`, in their order.
pub open spec fn tracks_in(paths: Seq<String>) -> Seq<String> {
    paths.filter(|p: String| is_track_path(p@))
}

/// Whether `ext` is the extension of a supported audio format.
pub fn is_track_extension(ext: &str) -> (r: bool)
    ensures
        r == is_supported_extension(ext@),
{
    same_text(ext, "mp3") || same_text(ext, "wav") || same_text(ext, "flac") || same_text(ext, "ogg")
}

/// Whether the file at `path` is a track the player accepts.
pub fn is_file_type_correct(path: &str) -> (r: bool)
    ensures
        r == is_track_path(path@),
{
    match path_extension(path) {
        Some(ext) => is_track_extension(ext.as_str()),
        None => false,
    }
}

/// Appends to the playlist, in order, those of `paths` that name tracks; the
/// other paths are skipped.
pub fn add_tracks(state: &mut AppState, paths: &Vec<String>)
    ensures
        final(state)@ == (AppModel { playlist: old(state)@.playlist + tracks_in(paths@), ..old(state)@ }),
{
    let ghost start = state@;
    let mut i: usize = 0;
    while i < paths.len()
        invariant
            i <= paths@.len(),
            state@ == (AppModel { playlist: start.playlist + tracks_in(paths@.subrange(0, i as int)), ..start }),
        decreases paths@.len() - i,
    {
        let path = &paths[i];
        let keep = is_file_type_correct(path.as_str());
        proof {
            let done = paths@.subrange(0, i as int);
            let next = paths@.subrange(0, i + 1);
            assert(next.drop_last() == done);
            assert(next.last() == paths@[i as int]);
            reveal(Seq::filter);
        }
        if keep {
            state.add_track(path.clone());
        }
        i = i + 1;
    }
    assert(paths@.subrange(0, paths@.len() as int) == paths@);
}

} // verus!
