use queue_playlist_maker::queue_generator::api_data::Difficulties;
use queue_playlist_maker::queue_generator::ranked_queue_playlist_generator::{
    get_diff, PlaylistMaker,
};

#[test]
fn known_ranks_have_their_names() {
    assert_eq!(get_diff(&1), "Easy");
    assert_eq!(get_diff(&3), "Normal");
    assert_eq!(get_diff(&5), "Hard");
    assert_eq!(get_diff(&7), "Expert");
    assert_eq!(get_diff(&9), "ExpertPlus");
}

#[test]
fn other_ranks_are_expert_plus() {
    for rank in [0, 2, 4, 6, 8, 10, 11, -1, -5, 100, i32::MIN, i32::MAX] {
        assert_eq!(get_diff(&rank), "ExpertPlus", "rank {}", rank);
    }
}

#[test]
fn every_rank_outside_the_known_five_is_expert_plus() {
    for rank in -1000..1000 {
        let expected = match rank {
            1 => "Easy",
            3 => "Normal",
            5 => "Hard",
            7 => "Expert",
            _ => "ExpertPlus",
        };
        assert_eq!(get_diff(&rank), expected);
    }
}

#[test]
fn make_difficulty_is_standard_with_the_ranks_name() {
    let d = PlaylistMaker::make_difficulty(&Difficulties { difficulty: 5 });
    assert_eq!(d.characteristic, "Standard");
    assert_eq!(d.name, "Hard");
    let d = PlaylistMaker::make_difficulty(&Difficulties { difficulty: 4 });
    assert_eq!(d.characteristic, "Standard");
    assert_eq!(d.name, "ExpertPlus");
}
