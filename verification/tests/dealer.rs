use telegram_bot_deck_of_cards::dealer::{contains_id, deal, deal_chosen, undrawn_cards};
use telegram_bot_deck_of_cards::process::{Card, DescriptionsFormat, Language};

fn card(id: i32, cached_en: Option<&str>) -> Card {
    Card {
        id,
        filename: format!("card{}.jpg", id),
        name_en: format!("Name {}", id),
        description_en: format!("Description {}", id),
        name_ru: format!("Имя {}", id),
        description_ru: format!("Описание {}", id),
        telegram_file_id_en: cached_en.map(|s| s.to_string()),
        telegram_file_id_ru: None,
    }
}

#[test]
fn undrawn_cards_lists_positions_in_catalog_order() {
    let cards = vec![card(10, None), card(20, None), card(30, None), card(40, None)];
    assert_eq!(undrawn_cards(&cards, &vec![20, 40]), vec![0, 2]);
    assert_eq!(undrawn_cards(&cards, &vec![]), vec![0, 1, 2, 3]);
    assert_eq!(undrawn_cards(&cards, &vec![40, 30, 20, 10]), Vec::<usize>::new());
}

#[test]
fn contains_id_finds_only_what_is_there() {
    assert!(contains_id(&vec![3, 1, 2], 1));
    assert!(!contains_id(&vec![3, 1, 2], 4));
    assert!(!contains_id(&vec![], 0));
}

#[test]
fn deal_chosen_deals_the_chosen_card_in_full() {
    let cards = vec![card(1, None), card(2, Some("file-2"))];
    let dealt = deal_chosen(&cards, &vec![1], Some(1), Language::En, DescriptionsFormat::Full)
        .expect("the second card is not drawn");
    assert_eq!(dealt.card_id, 2);
    assert_eq!(dealt.card_data.filename, "card2.jpg");
    assert_eq!(dealt.card_data.message_text, "Name 2\nDescription 2");
    assert_eq!(dealt.card_data.file_id, Some("file-2".to_string()));
}

#[test]
fn deal_chosen_refuses_a_drawn_card_and_a_position_outside_the_catalog() {
    let cards = vec![card(1, None), card(2, None)];
    assert!(deal_chosen(&cards, &vec![1], Some(0), Language::En, DescriptionsFormat::Full).is_none());
    assert!(deal_chosen(&cards, &vec![], Some(2), Language::En, DescriptionsFormat::Full).is_none());
    assert!(deal_chosen(&cards, &vec![], None, Language::En, DescriptionsFormat::Full).is_none());
}

#[test]
fn deal_never_repeats_a_card_until_the_deck_is_empty() {
    let cards: Vec<Card> = (1..=12).map(|id| card(id, None)).collect();
    let mut drawn: Vec<i32> = Vec::new();
    for _ in 0..12 {
        let dealt = deal(&cards, &drawn, Language::Ru, DescriptionsFormat::NamesOnly)
            .expect("cards are left");
        assert!(!drawn.contains(&dealt.card_id));
        assert_eq!(dealt.card_data.message_text, format!("Имя {}", dealt.card_id));
        drawn.push(dealt.card_id);
    }
    let mut sorted = drawn.clone();
    sorted.sort();
    assert_eq!(sorted, (1..=12).collect::<Vec<i32>>());
    assert!(deal(&cards, &drawn, Language::Ru, DescriptionsFormat::NamesOnly).is_none());
}

#[test]
fn deal_reaches_more_than_one_card() {
    let cards: Vec<Card> = (1..=4).map(|id| card(id, None)).collect();
    let mut seen: Vec<i32> = Vec::new();
    for _ in 0..400 {
        let dealt = deal(&cards, &vec![1], Language::En, DescriptionsFormat::NoDescriptions)
            .expect("three cards are left");
        assert_ne!(dealt.card_id, 1);
        assert_eq!(dealt.card_data.message_text, "");
        if !seen.contains(&dealt.card_id) {
            seen.push(dealt.card_id);
        }
    }
    seen.sort();
    assert_eq!(seen, vec![2, 3, 4]);
}
