use learn_ui::selection::{CancelNew, CardSelection, CardsLoaded};

fn strings(v: &[&str]) -> Vec<String> {
    v.iter().map(|s| s.to_string()).collect()
}

#[test]
fn picking_a_card_opens_it() {
    let mut sel: CardSelection<&str> = CardSelection::new();
    sel.card_tags = strings(&["x"]);
    sel.select_card(7, "card 7");
    assert_eq!(sel.selected_card_id, Some(7));
    assert_eq!(sel.last_selected, Some((7, "card 7")));
    assert!(!sel.is_create_mode);
    assert!(sel.card_tags.is_empty());
}

#[test]
fn giving_up_a_new_card_goes_back() {
    let mut sel: CardSelection<&str> = CardSelection::new();
    sel.select_card(7, "card 7");
    sel.card_tags = strings(&["rust"]);
    sel.card_saved(7, "card 7 saved");
    sel.start_new_card();
    assert_eq!(sel.selected_card_id, None);
    assert!(sel.is_create_mode);
    assert!(sel.card_tags.is_empty());
    assert_eq!(sel.cancel_new(), CancelNew::RestoreLastCard);
    assert_eq!(sel.selected_card_id, Some(7));
    assert!(!sel.is_create_mode);
    assert_eq!(sel.card_tags, strings(&["rust"]));
    assert_eq!(sel.cancel_new(), CancelNew::NotCreating);
}

#[test]
fn giving_up_without_earlier_card_clears() {
    let mut sel: CardSelection<&str> = CardSelection::new();
    sel.start_new_card();
    sel.card_tags = strings(&["a"]);
    assert_eq!(sel.cancel_new(), CancelNew::ClearForm);
    assert!(sel.is_create_mode);
    assert!(sel.card_tags.is_empty());
}

#[test]
fn loading_the_list() {
    let mut sel: CardSelection<&str> = CardSelection::new();
    assert_eq!(sel.cards_loaded(3), CardsLoaded::SelectFirst);
    sel.select_card(1, "one");
    assert_eq!(sel.cards_loaded(3), CardsLoaded::Nothing);
    assert_eq!(sel.cards_loaded(0), CardsLoaded::StartNew);
    assert!(sel.is_create_mode);
    assert_eq!(sel.last_selected, None);
    assert_eq!(sel.cards_loaded(0), CardsLoaded::Nothing);
}

#[test]
fn clearing_forgets_everything() {
    let mut sel: CardSelection<&str> = CardSelection::new();
    sel.select_card(2, "two");
    sel.clear();
    assert_eq!(sel.selected_card_id, None);
    assert_eq!(sel.last_selected, None);
    assert!(!sel.is_create_mode);
}
