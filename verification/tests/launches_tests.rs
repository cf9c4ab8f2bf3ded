use rust_in_space::cell::{FetchCell, FetchError, Phase};
use rust_in_space::launch_types::{Launch, LaunchListDto};
use rust_in_space::launches::{
    launch_card, launch_cards, launch_labels, launch_list_url, resolve_launch_cards,
    resolve_launch_names, start_launch_fetch, LaunchCard,
};

fn named(name: &str) -> Launch {
    let mut l = Launch::default();
    l.name = Some(name.to_string());
    l
}

fn dto(results: Vec<Launch>) -> LaunchListDto {
    LaunchListDto { count: None, previous: None, next: None, results }
}

#[test]
fn one_label_per_launch_in_order() {
    let launches = vec![named("Apollo 11"), named("Luna 2"), named("Vostok 1")];
    let labels = launch_labels(&launches);
    assert_eq!(
        labels,
        vec!["Apollo 11".to_string(), "Luna 2".to_string(), "Vostok 1".to_string()]
    );
}

#[test]
fn missing_name_falls_back_to_empty() {
    let launches = vec![named("Apollo 11"), Launch::default()];
    let labels = launch_labels(&launches);
    assert_eq!(labels, vec!["Apollo 11".to_string(), "empty".to_string()]);
}

#[test]
fn missing_mission_falls_back_to_not_known() {
    let card = launch_card(&named("Apollo 11"));
    assert_eq!(card.title, "Apollo 11".to_string());
    assert_eq!(card.mission, "not known".to_string());
}

#[test]
fn card_carries_present_fields() {
    let mut l = named("Apollo 11");
    l.mission = Some("moon-landing".to_string());
    l.image = Some("https://img.example/a11.png".to_string());
    let card = launch_card(&l);
    assert_eq!(
        card,
        LaunchCard {
            title: "Apollo 11".to_string(),
            mission: "moon-landing".to_string(),
            image: Some("https://img.example/a11.png".to_string()),
        }
    );
}

#[test]
fn missing_image_is_omitted_not_fatal() {
    let card = launch_card(&Launch::default());
    assert_eq!(card.title, "empty".to_string());
    assert_eq!(card.mission, "not known".to_string());
    assert_eq!(card.image, None);
}

#[test]
fn one_card_per_launch_in_order() {
    let launches = vec![named("A"), named("B")];
    let cards = launch_cards(&launches);
    assert_eq!(cards.len(), 2);
    assert_eq!(cards[0].title, "A".to_string());
    assert_eq!(cards[1].title, "B".to_string());
}

#[test]
fn launch_list_url_is_fixed() {
    assert_eq!(launch_list_url(), "https://lldev.thespacedevs.com/2.2.0/launch?mode=list");
}

#[test]
fn launch_fetch_renders_one_label_per_result() {
    let mut cell: FetchCell<String> = FetchCell::new();
    let req = start_launch_fetch(&mut cell);
    assert_eq!(req.url, "https://lldev.thespacedevs.com/2.2.0/launch?mode=list");
    assert_eq!(cell.phase(), Phase::Pending);
    let response = dto(vec![named("Apollo 11"), Launch::default()]);
    resolve_launch_names(&mut cell, req.token, Ok(response));
    assert_eq!(cell.phase(), Phase::Ready);
    assert_eq!(cell.data, Some(vec!["Apollo 11".to_string(), "empty".to_string()]));
}

#[test]
fn launch_fetch_failure_is_one_error_entry() {
    let mut cell: FetchCell<String> = FetchCell::new();
    let req = start_launch_fetch(&mut cell);
    resolve_launch_names(
        &mut cell,
        req.token,
        Err(FetchError::Transport("http status 500".to_string())),
    );
    assert_eq!(cell.phase(), Phase::Failed);
    assert_eq!(cell.errors, vec!["http status 500".to_string()]);
    assert_eq!(cell.data, None);
}

#[test]
fn card_fetch_renders_one_card_per_result() {
    let mut cell: FetchCell<LaunchCard> = FetchCell::new();
    let req = start_launch_fetch(&mut cell);
    let mut with_image = named("Sputnik");
    with_image.image = Some("https://img.example/s.png".to_string());
    let response = dto(vec![with_image, Launch::default()]);
    resolve_launch_cards(&mut cell, req.token, Ok(response));
    assert_eq!(cell.phase(), Phase::Ready);
    let cards = cell.data.expect("resolved data");
    assert_eq!(cards.len(), 2);
    assert_eq!(cards[0].title, "Sputnik".to_string());
    assert_eq!(cards[0].image, Some("https://img.example/s.png".to_string()));
    assert_eq!(cards[1].title, "empty".to_string());
    assert_eq!(cards[1].image, None);
}

#[test]
fn pagination_fields_are_carried_but_unused() {
    let mut cell: FetchCell<String> = FetchCell::new();
    let req = start_launch_fetch(&mut cell);
    let response = LaunchListDto {
        count: Some(1000),
        previous: Some("p".to_string()),
        next: Some("n".to_string()),
        results: vec![named("Only")],
    };
    resolve_launch_names(&mut cell, req.token, Ok(response));
    // the rendered list reflects `results` alone
    assert_eq!(cell.data, Some(vec!["Only".to_string()]));
}
