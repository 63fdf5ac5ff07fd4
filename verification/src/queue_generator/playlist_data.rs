//! The playlist document and its parts.

use vstd::prelude::*;

verus! {

/// The finished playlist.
#[derive(Debug, Clone, PartialEq, Eq)]
pub struct Playlist {
    pub name: String,
    pub author: String,
    pub description: String,
    pub image: String,
    pub songs: Vec<Song>,
}

/// One song of a playlist.
#[derive(Debug, Clone, PartialEq, Eq)]
pub struct Song {
    pub song_name: String,
    pub level_author: String,
    pub song_hash: String,
    pub difficulties: Vec<Difficulty>,
}

/// One difficulty of a song: its characteristic and its tier's name.
#[derive(Debug, Clone, PartialEq, Eq)]
pub struct Difficulty {
    pub characteristic: String,
    pub name: String,
}

/// A `Difficulty` as plain text.
pub struct DifficultyView {
    pub characteristic: Seq<char>,
    pub name: Seq<char>,
}

/// A `Song` as plain values.
pub struct SongView {
    pub song_name: Seq<char>,
    pub level_author: Seq<char>,
    pub song_hash: Seq<char>,
    pub difficulties: Seq<DifficultyView>,
}

/// A `Playlist` as plain values.
pub struct PlaylistView {
    pub name: Seq<char>,
    pub author: Seq<char>,
    pub description: Seq<char>,
    pub image: Seq<char>,
    pub songs: Seq<SongView>,
}

impl View for Difficulty {
    type V = DifficultyView;

    open spec fn view(&self) -> DifficultyView {
        DifficultyView { characteristic: self.characteristic@, name: self.name@ }
    }
}

/// The views of a list of difficulties, in order.
pub open spec fn difficulty_views(difficulties: Seq<Difficulty>) -> Seq<DifficultyView> {
    difficulties.map_values(|d: Difficulty| d@)
}

impl View for Song {
    type V = SongView;

    open spec fn view(&self) -> SongView {
        SongView {
            song_name: self.song_name@,
            level_author: self.level_author@,
            song_hash: self.song_hash@,
            difficulties: difficulty_views(self.difficulties@),
        }
    }
}

/// The views of a list of songs, in order.
pub open spec fn song_views(songs: Seq<Song>) -> Seq<SongView> {
    songs.map_values(|s: Song| s@)
}

impl View for Playlist {
    type V = PlaylistView;

    open spec fn view(&self) -> PlaylistView {
        PlaylistView {
            name: self.name@,
            author: self.author@,
            description: self.description@,
            image: self.image@,
            songs: song_views(self.songs@),
        }
    }
}

impl PlaylistView {
    /// The playlist with no text, no image and no songs.
    pub open spec fn empty() -> PlaylistView {
        PlaylistView {
            name: Seq::empty(),
            author: Seq::empty(),
            description: Seq::empty(),
            image: Seq::empty(),
            songs: Seq::empty(),
        }
    }
}

impl Default for Playlist {
    /// The empty playlist.
    fn default() -> (playlist: Playlist)
        ensures
            playlist@ == PlaylistView::empty(),
    {
        let playlist = Playlist {
            name: String::new(),
            author: String::new(),
            description: String::new(),
            image: String::new(),
            songs: Vec::new(),
        };
        assert(song_views(playlist.songs@) =~= Seq::empty());
        playlist
    }
}

} // verus!
