//! The playlist document as JSON: which members it has, under which names
//! and in which order.

use crate::json::{distinct_keys, json_array, json_members, json_model, json_models, json_object, json_string, Json};
use crate::queue_generator::playlist_data::{
    difficulty_views, song_views, Difficulty, DifficultyView, Playlist, PlaylistView, Song,
    SongView,
};
use vstd::prelude::*;

verus! {

/// A difficulty as JSON: an object with its characteristic and its name.
pub open spec fn difficulty_json(difficulty: DifficultyView) -> Json {
    Json::Record(
        seq![
            ("characteristic"@, Json::Text(difficulty.characteristic)),
            ("name"@, Json::Text(difficulty.name)),
        ],
    )
}

/// A list of difficulties as JSON documents, in order.
pub open spec fn difficulties_json(difficulties: Seq<DifficultyView>) -> Seq<Json> {
    difficulties.map_values(|d: DifficultyView| difficulty_json(d))
}

/// The members that every song has as JSON: its name, its author and its
/// hash.
pub open spec fn song_members(song: SongView) -> Seq<(Seq<char>, Json)> {
    seq![
        ("songName"@, Json::Text(song.song_name)),
        ("levelAuthorName"@, Json::Text(song.level_author)),
        ("hash"@, Json::Text(song.song_hash)),
    ]
}

/// A song as JSON: an object with its name, its author and its hash, and
/// with its difficulties unless it has none.
pub open spec fn song_json(song: SongView) -> Json {
    if song.difficulties.len() == 0 {
        Json::Record(song_members(song))
    } else {
        Json::Record(
            song_members(song).push(
                ("difficulties"@, Json::List(difficulties_json(song.difficulties))),
            ),
        )
    }
}

/// A list of songs as JSON documents, in order.
pub open spec fn songs_json(songs: Seq<SongView>) -> Seq<Json> {
    songs.map_values(|s: SongView| song_json(s))
}

/// A playlist as JSON: an object with its title, its author, its
/// description, its image and its songs.
pub open spec fn playlist_json(playlist: PlaylistView) -> Json {
    Json::Record(
        seq![
            ("playlistTitle"@, Json::Text(playlist.name)),
            ("playlistAuthor"@, Json::Text(playlist.author)),
            ("playlistDescription"@, Json::Text(playlist.description)),
            ("image"@, Json::Text(playlist.image)),
            ("songs"@, Json::List(songs_json(playlist.songs))),
        ],
    )
}

/// Whether a document is an object with a member of the given name.
pub open spec fn has_member(doc: Json, name: Seq<char>) -> bool {
    doc is Record && exists|i: int|
        0 <= i < doc->Record_0.len() && (#[trigger] doc->Record_0[i]).0 == name
}

/// A song's JSON always has the members `songName`, `levelAuthorName` and
/// `hash`, and it has a member `difficulties` exactly if the song has a
/// difficulty.
pub proof fn lemma_song_json_members(song: SongView)
    ensures
        has_member(song_json(song), "songName"@),
        has_member(song_json(song), "levelAuthorName"@),
        has_member(song_json(song), "hash"@),
        has_member(song_json(song), "difficulties"@) <==> song.difficulties.len() > 0,
{
    reveal_strlit("songName");
    reveal_strlit("levelAuthorName");
    reveal_strlit("hash");
    reveal_strlit("difficulties");
    let doc = song_json(song);
    assert(doc is Record);
    assert(doc->Record_0.len() >= 3);
    assert(doc->Record_0[0].0 == "songName"@);
    assert(doc->Record_0[1].0 == "levelAuthorName"@);
    assert(doc->Record_0[2].0 == "hash"@);
    if song.difficulties.len() > 0 {
        assert(doc->Record_0[3].0 == "difficulties"@);
    } else {
        assert forall|i: int| 0 <= i < doc->Record_0.len() implies (#[trigger] doc->Record_0[i]).0
            != "difficulties"@ by {
            assert(doc->Record_0[i].0.len() != "difficulties"@.len());
        }
    }
}

pub(crate) fn difficulty_value(difficulty: &Difficulty) -> (value: serde_json::Value)
    ensures
        json_model(value) == difficulty_json(difficulty@),
{
    let mut entries: Vec<(String, serde_json::Value)> = Vec::new();
    entries.push(("characteristic".to_owned(), json_string(difficulty.characteristic.as_str())));
    entries.push(("name".to_owned(), json_string(difficulty.name.as_str())));
    proof {
        reveal_strlit("characteristic");
        reveal_strlit("name");
        let members = json_members(entries@);
        assert(members =~= seq![
            ("characteristic"@, Json::Text(difficulty@.characteristic)),
            ("name"@, Json::Text(difficulty@.name)),
        ]);
        assert forall|i: int, j: int| 0 <= i < j < members.len() implies (#[trigger] members[i]).0
            != (#[trigger] members[j]).0 by {
            assert(members[i].0.len() != members[j].0.len());
        }
    }
    json_object(entries)
}

pub(crate) fn difficulties_value(difficulties: &Vec<Difficulty>) -> (value: serde_json::Value)
    ensures
        json_model(value) == Json::List(difficulties_json(difficulty_views(difficulties@))),
{
    let mut items: Vec<serde_json::Value> = Vec::new();
    let mut i: usize = 0;
    while i < difficulties.len()
        invariant
            i <= difficulties@.len(),
            items@.len() == i,
            forall|k: int|
                0 <= k < i ==> json_model(#[trigger] items@[k]) == difficulty_json(
                    difficulties@[k]@,
                ),
        decreases difficulties@.len() - i,
    {
        items.push(difficulty_value(&difficulties[i]));
        i += 1;
    }
    assert(json_models(items@) =~= difficulties_json(difficulty_views(difficulties@)));
    json_array(items)
}

pub(crate) fn song_value(song: &Song) -> (value: serde_json::Value)
    ensures
        json_model(value) == song_json(song@),
{
    let mut entries: Vec<(String, serde_json::Value)> = Vec::new();
    entries.push(("songName".to_owned(), json_string(song.song_name.as_str())));
    entries.push(("levelAuthorName".to_owned(), json_string(song.level_author.as_str())));
    entries.push(("hash".to_owned(), json_string(song.song_hash.as_str())));
    proof {
        assert(json_members(entries@) =~= song_members(song@));
    }
    if !song.difficulties.is_empty() {
        entries.push(("difficulties".to_owned(), difficulties_value(&song.difficulties)));
        proof {
            assert(json_members(entries@) =~= song_members(song@).push(
                ("difficulties"@, Json::List(difficulties_json(song@.difficulties))),
            ));
        }
    }
    proof {
        reveal_strlit("songName");
        reveal_strlit("levelAuthorName");
        reveal_strlit("hash");
        reveal_strlit("difficulties");
        let members = json_members(entries@);
        assert forall|i: int, j: int| 0 <= i < j < members.len() implies (#[trigger] members[i]).0
            != (#[trigger] members[j]).0 by {
            assert(members[i].0.len() != members[j].0.len());
        }
    }
    json_object(entries)
}

pub(crate) fn songs_value(songs: &Vec<Song>) -> (value: serde_json::Value)
    ensures
        json_model(value) == Json::List(songs_json(song_views(songs@))),
{
    let mut items: Vec<serde_json::Value> = Vec::new();
    let mut i: usize = 0;
    while i < songs.len()
        invariant
            i <= songs@.len(),
            items@.len() == i,
            forall|k: int| 0 <= k < i ==> json_model(#[trigger] items@[k]) == song_json(songs@[k]@),
        decreases songs@.len() - i,
    {
        items.push(song_value(&songs[i]));
        i += 1;
    }
    assert(json_models(items@) =~= songs_json(song_views(songs@)));
    json_array(items)
}

pub(crate) fn playlist_value(playlist: &Playlist) -> (value: serde_json::Value)
    ensures
        json_model(value) == playlist_json(playlist@),
{
    let mut entries: Vec<(String, serde_json::Value)> = Vec::new();
    entries.push(("playlistTitle".to_owned(), json_string(playlist.name.as_str())));
    entries.push(("playlistAuthor".to_owned(), json_string(playlist.author.as_str())));
    entries.push(("playlistDescription".to_owned(), json_string(playlist.description.as_str())));
    entries.push(("image".to_owned(), json_string(playlist.image.as_str())));
    entries.push(("songs".to_owned(), songs_value(&playlist.songs)));
    proof {
        reveal_strlit("playlistTitle");
        reveal_strlit("playlistAuthor");
        reveal_strlit("playlistDescription");
        reveal_strlit("image");
        reveal_strlit("songs");
        let members = json_members(entries@);
        assert(members =~= seq![
            ("playlistTitle"@, Json::Text(playlist@.name)),
            ("playlistAuthor"@, Json::Text(playlist@.author)),
            ("playlistDescription"@, Json::Text(playlist@.description)),
            ("image"@, Json::Text(playlist@.image)),
            ("songs"@, Json::List(songs_json(playlist@.songs))),
        ]);
        assert forall|i: int, j: int| 0 <= i < j < members.len() implies (#[trigger] members[i]).0
            != (#[trigger] members[j]).0 by {
            assert(members[i].0.len() != members[j].0.len() || members[i].0[0] != members[j].0[0]);
        }
    }
    json_object(entries)
}

} // verus!
