//! What the ranking service answers: the entries of its queue.

use vstd::prelude::*;

verus! {

/// One map that is waiting in the ranking queue.
#[derive(Debug, Clone, PartialEq, Eq)]
pub struct QueueData {
    pub request_id: i32,
    pub leaderbaord_info: MapData,
    pub difficulties: Vec<Difficulties>,
}

/// The song a queue entry is about.
#[derive(Debug, Clone, PartialEq, Eq)]
pub struct MapData {
    pub song_name: String,
    pub song_hash: String,
    pub level_author: String,
}

/// One difficulty of a map, by its rank.
#[derive(Debug, Clone, Copy, PartialEq, Eq)]
pub struct Difficulties {
    pub difficulty: i32,
}

/// A `MapData` as plain text.
pub struct MapDataView {
    pub song_name: Seq<char>,
    pub song_hash: Seq<char>,
    pub level_author: Seq<char>,
}

/// A `QueueData` as plain values; `difficulties` holds the ranks.
pub struct QueueDataView {
    pub request_id: i32,
    pub leaderbaord_info: MapDataView,
    pub difficulties: Seq<i32>,
}

impl View for MapData {
    type V = MapDataView;

    open spec fn view(&self) -> MapDataView {
        MapDataView {
            song_name: self.song_name@,
            song_hash: self.song_hash@,
            level_author: self.level_author@,
        }
    }
}

/// The ranks of a list of difficulties, in order.
pub open spec fn ranks_of(difficulties: Seq<Difficulties>) -> Seq<i32> {
    difficulties.map_values(|d: Difficulties| d.difficulty)
}

impl View for QueueData {
    type V = QueueDataView;

    open spec fn view(&self) -> QueueDataView {
        QueueDataView {
            request_id: self.request_id,
            leaderbaord_info: self.leaderbaord_info@,
            difficulties: ranks_of(self.difficulties@),
        }
    }
}

} // verus!
