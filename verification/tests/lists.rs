use relay_nav::list::{filter_items, ListContext};

fn countries() -> Vec<String> {
    vec!["Sweden (se)".to_string(), "Germany (de)".to_string(), "France (fr)".to_string()]
}

fn shown(list: &ListContext) -> Vec<String> {
    list.items().clone()
}

#[test]
fn new_list_shows_everything_from_the_top() {
    let list = ListContext::new(countries());
    assert_eq!(shown(&list), countries());
    assert_eq!(list.source(), &countries());
    assert_eq!(list.index(), 0);
    assert_eq!(list.len(), 3);
    assert_eq!(list.query(), "");
    assert_eq!(list.selected(), Some(&"Sweden (se)".to_string()));
    assert_eq!(list.highlight(), Some(0));
}

#[test]
fn moves_stay_in_range() {
    let mut list = ListContext::new(countries());
    let moves = [true, true, true, true, false, true, false, false, false, false, true];
    let expected = [1, 2, 2, 2, 1, 2, 1, 0, 0, 0, 1];
    for (down, want) in moves.iter().zip(expected.iter()) {
        if *down {
            list.increment();
        } else {
            list.decrement();
        }
        assert_eq!(list.index(), *want);
        assert!(list.index() < list.len());
    }
}

#[test]
fn moves_on_empty_list_do_nothing() {
    let mut list = ListContext::new(Vec::new());
    list.increment();
    assert_eq!(list.index(), 0);
    list.decrement();
    assert_eq!(list.index(), 0);
    list.jump_to_last();
    assert_eq!(list.index(), 0);
    list.jump_to_first();
    assert_eq!(list.index(), 0);
    assert_eq!(list.selected(), None);
    assert_eq!(list.highlight(), None);
    assert_eq!(list.len(), 0);
}

#[test]
fn jump_to_last_lands_on_last_item() {
    let mut list = ListContext::new(countries());
    list.jump_to_last();
    assert_eq!(list.index(), 2);
    assert_eq!(list.selected(), Some(&"France (fr)".to_string()));
    list.jump_to_first();
    assert_eq!(list.index(), 0);
    let mut one = ListContext::new(vec!["Sweden (se)".to_string()]);
    one.jump_to_last();
    assert_eq!(one.index(), 0);
}

#[test]
fn select_clamps_to_last_item() {
    let mut list = ListContext::new(countries());
    list.select(1);
    assert_eq!(list.index(), 1);
    list.select(7);
    assert_eq!(list.index(), 2);
    let mut none = ListContext::new(Vec::new());
    none.select(3);
    assert_eq!(none.index(), 0);
}

#[test]
fn empty_query_returns_source_unchanged() {
    assert_eq!(filter_items(&countries(), ""), countries());
    assert_eq!(filter_items(&Vec::new(), ""), Vec::<String>::new());
}

#[test]
fn filter_ignores_case_of_items_and_query() {
    assert_eq!(filter_items(&countries(), "SWE"), vec!["Sweden (se)".to_string()]);
    assert_eq!(filter_items(&countries(), "swe"), vec!["Sweden (se)".to_string()]);
    assert_eq!(filter_items(&countries(), "(FR"), vec!["France (fr)".to_string()]);
    assert_eq!(filter_items(&countries(), "zz"), Vec::<String>::new());
}

#[test]
fn typing_e_keeps_every_country_with_an_e() {
    let mut list = ListContext::new(countries());
    list.increment();
    list.push_query('e');
    assert_eq!(shown(&list), countries());
    assert_eq!(list.index(), 0);
    assert_eq!(list.query(), "e");
}

#[test]
fn typing_de_narrows_to_sweden_and_germany() {
    let mut list = ListContext::new(countries());
    list.jump_to_last();
    list.push_query('d');
    list.push_query('e');
    assert_eq!(shown(&list), vec!["Sweden (se)".to_string(), "Germany (de)".to_string()]);
    assert_eq!(list.index(), 0);
    assert_eq!(list.source(), &countries());
}

#[test]
fn typing_more_filters_the_source() {
    let items = vec![
        "Denmark (dk)".to_string(),
        "Sweden (se)".to_string(),
        "Germany (de)".to_string(),
        "Netherlands (nl)".to_string(),
    ];
    let mut list = ListContext::new(items.clone());
    list.push_query('d');
    assert_eq!(list.len(), 4);
    list.push_query('e');
    assert_eq!(shown(&list), filter_items(&items, "de"));
    assert_eq!(
        shown(&list),
        vec!["Denmark (dk)".to_string(), "Sweden (se)".to_string(), "Germany (de)".to_string()]
    );
    list.push_query('n');
    assert_eq!(shown(&list), filter_items(&items, "den"));
    assert_eq!(shown(&list), vec!["Denmark (dk)".to_string(), "Sweden (se)".to_string()]);
}

#[test]
fn backspace_restores_hidden_items() {
    let items = vec![
        "Sweden (se)".to_string(),
        "Germany (de)".to_string(),
        "Poland (pl)".to_string(),
        "France (fr)".to_string(),
    ];
    let mut list = ListContext::new(items.clone());
    list.search("de".to_string());
    assert_eq!(shown(&list), vec!["Sweden (se)".to_string(), "Germany (de)".to_string()]);
    list.increment();
    list.pop_query();
    assert_eq!(list.query(), "d");
    assert_eq!(
        shown(&list),
        vec!["Sweden (se)".to_string(), "Germany (de)".to_string(), "Poland (pl)".to_string()]
    );
    assert_eq!(list.index(), 0);
    list.pop_query();
    assert_eq!(shown(&list), items);
    list.pop_query();
    assert_eq!(list.query(), "");
    assert_eq!(shown(&list), items);
}

#[test]
fn clear_query_shows_everything_again() {
    let mut list = ListContext::new(countries());
    list.search("fr".to_string());
    assert_eq!(list.len(), 1);
    list.clear_query();
    assert_eq!(shown(&list), countries());
    assert_eq!(list.query(), "");
    assert_eq!(list.index(), 0);
}

#[test]
fn query_without_match_leaves_no_selection() {
    let mut list = ListContext::new(countries());
    list.jump_to_last();
    list.search("zz".to_string());
    assert_eq!(list.len(), 0);
    assert_eq!(list.index(), 0);
    assert_eq!(list.selected(), None);
    list.jump_to_last();
    assert_eq!(list.index(), 0);
}
