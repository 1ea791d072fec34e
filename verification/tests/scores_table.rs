use simon_game::{ScoreItem, ScoreList, ScoreState};

fn item(name: &str, score: u8) -> ScoreItem {
    ScoreItem::new(name.to_string(), score)
}

fn table(st: &ScoreState) -> Vec<(String, u8)> {
    st.score_list.scores.iter().map(|s| (s.name.clone(), s.score)).collect()
}

#[test]
fn score_item_new_keeps_fields() {
    let s = ScoreItem::new("ann".to_string(), 12);
    assert_eq!(s.name, "ann");
    assert_eq!(s.score, 12);
}

#[test]
fn new_table_sorts_highest_first_and_keeps_ties_in_order() {
    let st = ScoreState::new(vec![item("a", 5), item("b", 7), item("c", 5), item("d", 9), item("e", 0)]);
    assert_eq!(
        table(&st),
        vec![
            ("d".to_string(), 9),
            ("b".to_string(), 7),
            ("a".to_string(), 5),
            ("c".to_string(), 5),
            ("e".to_string(), 0)
        ]
    );
    assert_eq!(st.max_name_length, 8);
    assert!(st.new_score_name.is_empty());
    assert_eq!(st.score_list.state.selected, None);
}

#[test]
fn empty_table_stays_empty() {
    let st = ScoreState::new(Vec::new());
    assert!(st.score_list.scores.is_empty());
}

#[test]
fn save_score_goes_after_equal_scores() {
    let mut st = ScoreState::new(vec![item("a", 5), item("b", 7)]);
    st.save_score("z".to_string(), 5);
    st.save_score("top".to_string(), 200);
    st.save_score("low".to_string(), 1);
    assert_eq!(
        table(&st),
        vec![
            ("top".to_string(), 200),
            ("b".to_string(), 7),
            ("a".to_string(), 5),
            ("z".to_string(), 5),
            ("low".to_string(), 1)
        ]
    );
}

#[test]
fn sorting_twice_changes_nothing() {
    let mut st = ScoreState::new(vec![item("x", 3), item("y", 3), item("w", 4)]);
    let once = table(&st);
    st.sort_scores();
    assert_eq!(table(&st), once);
}

#[test]
fn name_is_new_until_saved() {
    let mut st = ScoreState::new(vec![item("ann", 3)]);
    assert!(!st.is_name_new(&"ann".to_string()));
    assert!(st.is_name_new(&"bob".to_string()));
    st.save_score("bob".to_string(), 1);
    assert!(!st.is_name_new(&"bob".to_string()));
    assert!(st.is_name_new(&"Bob".to_string()));
}

#[test]
fn padded_name_fills_eight_bytes() {
    let mut st = ScoreState::new(Vec::new());
    assert_eq!(st.padded_new_score_name(), "________");
    st.new_score_name = "ab".to_string();
    assert_eq!(st.padded_new_score_name(), "ab______");
    st.new_score_name = "abcdefgh".to_string();
    assert_eq!(st.padded_new_score_name(), "abcdefgh");
    st.new_score_name = "é".to_string();
    assert_eq!(st.padded_new_score_name(), "é______");
}

#[test]
fn score_list_from_entries_keeps_order() {
    let list = ScoreList::from_iter(vec![("p".to_string(), 1), ("q".to_string(), 9)]);
    assert_eq!(list.scores.len(), 2);
    assert_eq!(list.scores[0].name, "p");
    assert_eq!(list.scores[1].score, 9);
    assert_eq!(list.state.selected, None);
}
