//! Makes the playlist of the maps in the ranking queue from what the ranking
//! service answered.

use crate::app_data::{AppData, GenerationProgress};
pub use crate::embedded_image::{encode_base64, encode_base64_file};
use crate::embedded_image::{contents_view, playlist_image, resolve_image};
use crate::json::{json_pretty, json_pretty_text};
use crate::queue_generator::api_data::{ranks_of, Difficulties, QueueData, QueueDataView};
use crate::queue_generator::document::{playlist_json, playlist_value};
use crate::queue_generator::playlist_data::{
    difficulty_views, song_views, Difficulty, DifficultyView, Playlist, PlaylistView, Song,
    SongView,
};
use crate::text::{append_decimal, decimal};
use vstd::prelude::*;
use vstd::string::*;

verus! {

/// Where the ranking service lists the parts of its queue.
pub const SS_URL: &'static str = "https://scoresaber.com/api/ranking/requests/";

/// Where the ranking service describes one request of its queue.
pub const SS_MAP_URL: &'static str = "https://scoresaber.com/api/ranking/request/";

/// The name of the tier of a rank: 1, 3, 5, 7 and 9 are Easy, Normal, Hard,
/// Expert and ExpertPlus; every other rank counts as ExpertPlus.
pub open spec fn difficulty_name(rank: int) -> Seq<char> {
    if rank == 1 {
        "Easy"@
    } else if rank == 3 {
        "Normal"@
    } else if rank == 5 {
        "Hard"@
    } else if rank == 7 {
        "Expert"@
    } else {
        "ExpertPlus"@
    }
}

/// The name of the tier of a rank.
pub fn get_diff(x: &i32) -> (name: &'static str)
    ensures
        name@ == difficulty_name(*x as int),
{
    match *x {
        1 => "Easy",
        3 => "Normal",
        5 => "Hard",
        7 => "Expert",
        _ => "ExpertPlus",
    }
}

/// The difficulty of a song for a rank: of the standard characteristic, in
/// the tier of the rank.
pub open spec fn tier_of(rank: i32) -> DifficultyView {
    DifficultyView { characteristic: "Standard"@, name: difficulty_name(rank as int) }
}

/// The difficulties of a song for a list of ranks, in order.
pub open spec fn tiers_of(ranks: Seq<i32>) -> Seq<DifficultyView> {
    ranks.map_values(|rank: i32| tier_of(rank))
}

/// The ranks that the ranking service answered for one request, if it
/// answered.
pub open spec fn answered_ranks(detail: Option<Vec<Difficulties>>) -> Option<Seq<i32>> {
    match detail {
        Some(difficulties) => Some(ranks_of(difficulties@)),
        None => None,
    }
}

/// The song of a queue entry: name, author and hash as the entry gives
/// them; the difficulties are the tiers of the ranks answered for the
/// entry's request, in their order, and none where there was no answer.
pub open spec fn enriched(entry: QueueDataView, detail: Option<Seq<i32>>) -> SongView {
    SongView {
        song_name: entry.leaderbaord_info.song_name,
        level_author: entry.leaderbaord_info.level_author,
        song_hash: entry.leaderbaord_info.song_hash,
        difficulties: match detail {
            Some(ranks) => tiers_of(ranks),
            None => Seq::empty(),
        },
    }
}

/// The songs of a list of queue entries, each with the difficulties
/// answered for its request, in order.
pub open spec fn enriched_all(fetched: Seq<(QueueData, Option<Vec<Difficulties>>)>) -> Seq<
    SongView,
> {
    fetched.map_values(
        |pair: (QueueData, Option<Vec<Difficulties>>)| enriched(pair.0@, answered_ranks(pair.1)),
    )
}

/// The entries of one part of the queue; a part that could not be fetched
/// has none.
pub open spec fn entries_of(part: Option<Vec<QueueData>>) -> Seq<QueueData> {
    match part {
        Some(entries) => entries@,
        None => Seq::empty(),
    }
}

/// The entries of the parts of the queue, one part after the other.
pub open spec fn flatten_partitions(partitions: Seq<Option<Vec<QueueData>>>) -> Seq<QueueData>
    decreases partitions.len(),
{
    if partitions.len() == 0 {
        Seq::empty()
    } else {
        flatten_partitions(partitions.drop_last()) + entries_of(partitions.last())
    }
}

/// The queue of two parts holds the entries of the first and then those of
/// the second; where neither could be fetched it is empty.
pub proof fn lemma_queue_of_two_parts(
    top: Option<Vec<QueueData>>,
    below_top: Option<Vec<QueueData>>,
)
    ensures
        flatten_partitions(seq![top, below_top]) == entries_of(top) + entries_of(below_top),
        top is None && below_top is None ==> flatten_partitions(seq![top, below_top]).len() == 0,
{
    let both = seq![top, below_top];
    assert(both.drop_last() =~= seq![top]);
    assert(seq![top].drop_last() =~= Seq::<Option<Vec<QueueData>>>::empty());
    assert(flatten_partitions(seq![top]) =~= entries_of(top)) by {
        reveal_with_fuel(flatten_partitions, 2);
    }
}

/// The address of the part of the queue with the given name.
pub open spec fn queue_url(part: Seq<char>) -> Seq<char> {
    SS_URL@ + part
}

/// The address of the request with the given number.
pub open spec fn map_url(request_id: int) -> Seq<char> {
    SS_MAP_URL@ + decimal(request_id)
}

/// The document a playlist is written as: the JSON text of the playlist,
/// or an empty JSON object where that text cannot be had.
pub open spec fn serialised(playlist: PlaylistView) -> Seq<char> {
    match json_pretty_text(playlist_json(playlist)) {
        Some(text) => text,
        None => "{}"@,
    }
}

/// The text of a rendered document, or an empty JSON object where the
/// rendering failed.
pub fn text_or_empty_object(rendered: Option<String>) -> (text: String)
    ensures
        text@ == match rendered {
            Some(t) => t@,
            None => "{}"@,
        },
{
    match rendered {
        Some(text) => text,
        None => "{}".to_owned(),
    }
}

/// Makes a playlist for the data a run was configured with.
pub struct PlaylistMaker {
    pub data: AppData,
    pub playlist: Playlist,
}

impl PlaylistMaker {
    /// A maker with the given data and an empty playlist.
    pub fn new(data: AppData) -> (maker: PlaylistMaker)
        ensures
            maker.data == data,
            maker.playlist@ == PlaylistView::empty(),
    {
        PlaylistMaker { data, playlist: Playlist::default() }
    }

    /// The addresses of the two parts of the queue: the top and what is
    /// below it.
    pub fn queue_urls() -> (urls: Vec<String>)
        ensures
            urls@.len() == 2,
            urls@[0]@ == queue_url("top"@),
            urls@[1]@ == queue_url("belowTop"@),
    {
        let mut top = SS_URL.to_owned();
        top.append("top");
        let mut below_top = SS_URL.to_owned();
        below_top.append("belowTop");
        let mut urls: Vec<String> = Vec::new();
        urls.push(top);
        urls.push(below_top);
        urls
    }

    /// The address that describes the request of a queue entry.
    pub fn map_request_url(request_id: i32) -> (url: String)
        ensures
            url@ == map_url(request_id as int),
    {
        let mut url = SS_MAP_URL.to_owned();
        append_decimal(&mut url, request_id);
        url
    }

    /// The difficulty of a song for a difficulty of the queue.
    pub fn make_difficulty(diff: &Difficulties) -> (difficulty: Difficulty)
        ensures
            difficulty@ == tier_of(diff.difficulty),
    {
        Difficulty {
            characteristic: "Standard".to_owned(),
            name: get_diff(&diff.difficulty).to_owned(),
        }
    }

    /// A song of the given name, hash, author and difficulties.
    pub fn make_song(
        song_name: String,
        song_hash: String,
        level_author: String,
        difficulties: Vec<Difficulty>,
    ) -> (song: Song)
        ensures
            song.song_name == song_name,
            song.song_hash == song_hash,
            song.level_author == level_author,
            song.difficulties == difficulties,
    {
        Song { song_name, song_hash, level_author, difficulties }
    }

    /// The song of a queue entry, from the difficulties answered for its
    /// request; `None` where there was no answer. One more song is then
    /// done, which adds its share to the progress once, answer or none.
    pub fn create_song_data(
        progress: &mut GenerationProgress,
        queue_data: QueueData,
        detail: Option<Vec<Difficulties>>,
    ) -> (song: Song)
        ensures
            song@ == enriched(queue_data@, answered_ranks(detail)),
            final(progress)@ == old(progress)@.after_songs(1),
            old(progress)@.completed < usize::MAX ==> final(progress)@.gain_numerator() == old(
                progress,
            )@.gain_numerator() + 99,
    {
        let map_info = queue_data.leaderbaord_info;
        let mut song = Self::make_song(
            map_info.song_name,
            map_info.song_hash,
            map_info.level_author,
            Vec::new(),
        );
        match detail {
            None => {
                assert(difficulty_views(song.difficulties@) =~= Seq::empty());
            },
            Some(answered) => {
                let mut i: usize = 0;
                while i < answered.len()
                    invariant
                        i <= answered@.len(),
                        song.song_name == map_info.song_name,
                        song.song_hash == map_info.song_hash,
                        song.level_author == map_info.level_author,
                        difficulty_views(song.difficulties@) == tiers_of(
                            ranks_of(answered@.take(i as int)),
                        ),
                    decreases answered@.len() - i,
                {
                    let ghost before = song.difficulties@;
                    let ghost ranked = answered@.take(i as int);
                    let difficulty = Self::make_difficulty(&answered[i]);
                    song.difficulties.push(difficulty);
                    proof {
                        let rank = answered@[i as int];
                        assert(answered@.take(i + 1) =~= ranked.push(rank));
                        assert(ranks_of(ranked.push(rank)) =~= ranks_of(ranked).push(
                            rank.difficulty,
                        ));
                        assert(tiers_of(ranks_of(ranked).push(rank.difficulty)) =~= tiers_of(
                            ranks_of(ranked),
                        ).push(tier_of(rank.difficulty)));
                        assert(difficulty_views(before.push(difficulty)) =~= difficulty_views(
                            before,
                        ).push(difficulty@));
                    }
                    i += 1;
                }
                assert(answered@.take(i as int) =~= answered@);
            },
        }
        progress.song_done();
        song
    }

    /// The songs of the queue entries, each from the difficulties answered
    /// for its request, in order. As many more songs are then done.
    pub fn make_song_list(
        progress: &mut GenerationProgress,
        fetched: Vec<(QueueData, Option<Vec<Difficulties>>)>,
    ) -> (songs: Vec<Song>)
        ensures
            songs@.len() == fetched@.len(),
            song_views(songs@) == enriched_all(fetched@),
            final(progress)@ == old(progress)@.after_songs(fetched@.len()),
    {
        let mut songs: Vec<Song> = Vec::new();
        assert(song_views(songs@) =~= enriched_all(fetched@.take(0)));
        for pair in it: fetched
            invariant
                it.seq() == fetched@,
                songs@.len() == it.index(),
                song_views(songs@) == enriched_all(fetched@.take(it.index())),
                progress@ == old(progress)@.after_songs(it.index() as nat),
        {
            let ghost before = songs@;
            let ghost paired = fetched@.take(it.index());
            let (entry, detail) = pair;
            let song = Self::create_song_data(progress, entry, detail);
            songs.push(song);
            proof {
                assert(fetched@.take(it.index() + 1) =~= paired.push(pair));
                assert(enriched_all(paired.push(pair)) =~= enriched_all(paired).push(
                    enriched(pair.0@, answered_ranks(pair.1)),
                ));
                assert(song_views(before.push(song)) =~= song_views(before).push(song@));
            }
        }
        assert(fetched@.take(fetched@.len() as int) =~= fetched@);
        songs
    }

    /// The entries of the queue from its parts, one part after the other;
    /// `None` for a part that could not be fetched.
    pub fn make_queue_list(partitions: Vec<Option<Vec<QueueData>>>) -> (queue: Vec<QueueData>)
        ensures
            queue@ == flatten_partitions(partitions@),
    {
        let mut queue: Vec<QueueData> = Vec::new();
        for partition in it: partitions
            invariant
                it.seq() == partitions@,
                queue@ == flatten_partitions(partitions@.take(it.index())),
        {
            proof {
                let taken = partitions@.take(it.index() + 1);
                assert(taken.drop_last() =~= partitions@.take(it.index()));
                assert(taken.last() == partition);
            }
            match partition {
                Some(entries) => {
                    let mut entries = entries;
                    queue.append(&mut entries);
                },
                None => {
                    assert(queue@ + Seq::<QueueData>::empty() =~= queue@);
                },
            }
        }
        assert(partitions@.take(partitions@.len() as int) =~= partitions@);
        queue
    }

    /// Assembles the playlist: title, author and description as the data
    /// gives them, the image resolved from the data's image path, and the
    /// given songs in their order.
    pub fn make_playlist(
        self,
        songs: Vec<Song>,
        bundled_image: Vec<u8>,
        image_file: Option<Vec<u8>>,
    ) -> (maker: PlaylistMaker)
        ensures
            maker.data == self.data,
            maker.playlist@ == (PlaylistView {
                name: self.data.title@,
                author: self.data.author@,
                description: self.data.description@,
                image: playlist_image(
                    self.data.image_path@,
                    bundled_image@,
                    contents_view(image_file),
                ),
                songs: song_views(songs@),
            }),
    {
        let image = resolve_image(self.data.image_path.as_str(), bundled_image, image_file);
        let playlist = Playlist {
            name: self.data.title.clone(),
            author: self.data.author.clone(),
            description: self.data.description.clone(),
            image,
            songs,
        };
        PlaylistMaker { data: self.data, playlist }
    }

    /// The playlist made so far as a JSON text, indented by four spaces.
    pub fn serialise(&self) -> (text: String)
        ensures
            text@ == serialised(self.playlist@),
    {
        let value = playlist_value(&self.playlist);
        text_or_empty_object(json_pretty(&value))
    }
}

} // verus!
