use graph_of_humanity::selection::{
    contains_index, copy_indices, draw_candidates, drawn_number_at, pick_fresh_indices, select_indices,
};

fn counting_value() -> [u8; 32] {
    let mut random = [0u8; 32];
    for (i, byte) in random.iter_mut().enumerate() {
        *byte = (i + 1) as u8;
    }
    random
}

#[test]
fn drawn_numbers_are_big_endian_six_byte_groups() {
    let random = counting_value();
    assert_eq!(drawn_number_at(&random, 0), 1108152157446);
    assert_eq!(drawn_number_at(&random, 1), 7731092785932);
    assert_eq!(drawn_number_at(&random, 4), 27599914671390);
}

#[test]
fn candidates_are_hashed_draws_modulo_population() {
    let random = counting_value();
    assert_eq!(draw_candidates(&random, 10, 5), vec![3, 7, 8, 0, 5]);
    assert_eq!(draw_candidates(&random, 7, 5), vec![3, 1, 3, 2, 6]);
    assert_eq!(draw_candidates(&random, 7, 0), Vec::<u64>::new());
}

#[test]
fn pick_fresh_skips_repeats_and_stops_at_limit() {
    assert_eq!(pick_fresh_indices(vec![], &vec![3, 1, 3, 2, 6], 5), vec![3, 1, 2, 6]);
    assert_eq!(pick_fresh_indices(vec![], &vec![3, 1, 3, 2, 6], 2), vec![3, 1]);
    // Entries already in the list do not count as taken.
    assert_eq!(pick_fresh_indices(vec![3], &vec![3, 4], 5), vec![3, 3, 4]);
    // A list that already holds `limit` entries is left alone.
    assert_eq!(pick_fresh_indices(vec![1, 2], &vec![3], 2), vec![1, 2]);
}

#[test]
fn selection_without_value_keeps_list() {
    assert_eq!(select_indices(vec![4, 2], None, 10, 5), vec![4, 2]);
}

#[test]
fn selection_of_small_population_takes_everyone() {
    let random = counting_value();
    assert_eq!(select_indices(vec![7, 7], Some(random), 3, 5), vec![0, 1, 2]);
    assert_eq!(select_indices(vec![], Some(random), 0, 5), Vec::<u64>::new());
}

#[test]
fn selection_draws_distinct_indices() {
    let random = counting_value();
    assert_eq!(select_indices(vec![], Some(random), 5, 5), vec![3, 2, 0]);
    assert_eq!(select_indices(vec![], Some(random), 7, 5), vec![3, 1, 2, 6]);
    assert_eq!(select_indices(vec![], Some(random), 10, 5), vec![3, 7, 8, 0, 5]);
    assert_eq!(select_indices(vec![], Some(random), 1000, 5), vec![753, 77, 18, 700, 865]);
    assert_eq!(select_indices(vec![], Some([0u8; 32]), 10, 5), vec![9]);
}

#[test]
fn selection_appends_to_existing() {
    let random = counting_value();
    assert_eq!(select_indices(vec![9, 9], Some(random), 7, 5), vec![9, 9, 3, 1, 2]);
    assert_eq!(select_indices(vec![1, 2, 3, 4, 5, 6], Some(random), 10, 5), vec![1, 2, 3, 4, 5, 6, 3, 7, 8, 0, 5]);
}

#[test]
fn law_fresh_draw_is_distinct_and_in_range() {
    for seed in 0u8..40 {
        let mut random = counting_value();
        random[0] = seed;
        random[31] = seed.wrapping_mul(7);
        for population in [1u64, 5, 6, 11, 97] {
            let drawn = select_indices(vec![], Some(random), population, 5);
            assert!(!drawn.is_empty());
            assert!(drawn.len() <= 5);
            for (i, a) in drawn.iter().enumerate() {
                assert!(*a < population);
                for b in drawn.iter().skip(i + 1) {
                    assert_ne!(a, b);
                }
            }
        }
    }
}

#[test]
fn helpers_on_index_lists() {
    assert!(contains_index(&vec![1, 5, 9], 5));
    assert!(!contains_index(&vec![1, 5, 9], 4));
    assert!(!contains_index(&vec![], 0));
    assert_eq!(copy_indices(&vec![3, 1, 4]), vec![3, 1, 4]);
}
