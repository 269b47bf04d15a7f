use musicbrainz_browser::{
    catalog_query, App, Artist, Command, CoverartOutcome, EnrichedEntity, Message, Release, ReleaseGroup, SearchResultState,
    SearchSelection,
};

fn group(id: &str, title: &str) -> ReleaseGroup {
    ReleaseGroup::new(id.to_string(), title.to_string(), None)
}

fn release(id: &str, title: &str) -> Release {
    Release::new(id.to_string(), title.to_string(), Some(String::new()))
}

fn start_search(app: &mut App, kind: SearchSelection, query: &str) -> u64 {
    app.update(Message::InputChanged(query.to_string()));
    app.update(Message::Selection(kind));
    match app.update(Message::Search) {
        Command::Search { generation, kind: k, query: q } => {
            assert_eq!(k, kind);
            assert_eq!(q, catalog_query(kind, &query.to_string()));
            generation
        }
        other => panic!("expected a catalog query, got {:?}", other),
    }
}

#[test]
fn happy_path_release_group() {
    let mut app = App::new();
    let generation = start_search(&mut app, SearchSelection::ReleaseGroup, "Echoes");
    let cmd = app.update(Message::SearchCompleted {
        generation,
        results: SearchResultState::ReleaseGroupResult(vec![group("A", "Echoes")]),
    });
    assert_eq!(
        app.results(),
        &Some(SearchResultState::ReleaseGroupResult(vec![group("A", "Echoes")]))
    );
    let tasks = match cmd {
        Command::FetchCoverart { generation: g, entities } => {
            assert_eq!(g, generation);
            entities
        }
        other => panic!("expected cover-art fetches, got {:?}", other),
    };
    assert_eq!(tasks, vec![EnrichedEntity::ReleaseGroup(group("A", "Echoes"))]);
    let bytes = vec![0x89u8, 0x50, 0x4e, 0x47];
    let cmd = app.update(Message::CoverartFetched {
        generation,
        entity: tasks[0].clone(),
        outcome: CoverartOutcome::Image(bytes.clone()),
    });
    assert_eq!(cmd, Command::Nothing);
    let mut enriched = group("A", "Echoes");
    enriched.coverart = Some(bytes);
    assert_eq!(app.results(), &Some(SearchResultState::ReleaseGroupResult(vec![enriched])));
}

#[test]
fn failed_search_empties_results_and_keeps_intent() {
    let mut app = App::new();
    let first = start_search(&mut app, SearchSelection::Release, "Echoes");
    app.update(Message::SearchCompleted {
        generation: first,
        results: SearchResultState::ReleaseResult(vec![release("A", "Echoes")]),
    });
    let second = app.update(Message::Search);
    let generation = match second {
        Command::Search { generation, .. } => generation,
        other => panic!("expected a catalog query, got {:?}", other),
    };
    let cmd = app.update(Message::SearchFailed { generation, error: "connection refused".to_string() });
    assert_eq!(cmd, Command::Nothing);
    assert_eq!(app.results(), &None);
    assert_eq!(app.notice(), &Some("connection refused".to_string()));
    assert_eq!(app.input_value(), "Echoes");
    assert_eq!(app.search_kind(), SearchSelection::Release);
}

#[test]
fn notice_cleared_by_next_search() {
    let mut app = App::new();
    let generation = start_search(&mut app, SearchSelection::Artist, "x");
    app.update(Message::SearchFailed { generation, error: "timeout".to_string() });
    assert!(app.notice().is_some());
    app.update(Message::Search);
    assert_eq!(app.notice(), &None);
}

#[test]
fn superseded_search_keeps_new_results() {
    let mut app = App::new();
    let first = start_search(&mut app, SearchSelection::Release, "one");
    let cmd = app.update(Message::SearchCompleted {
        generation: first,
        results: SearchResultState::ReleaseResult(vec![release("A", "a"), release("B", "b")]),
    });
    let tasks = match cmd {
        Command::FetchCoverart { entities, .. } => entities,
        other => panic!("expected cover-art fetches, got {:?}", other),
    };
    assert_eq!(tasks.len(), 2);
    let second = start_search(&mut app, SearchSelection::ReleaseGroup, "two");
    assert_ne!(first, second);
    app.update(Message::SearchCompleted {
        generation: second,
        results: SearchResultState::ReleaseGroupResult(vec![group("C", "c")]),
    });
    for task in tasks {
        let cmd = app.update(Message::CoverartFetched {
            generation: first,
            entity: task,
            outcome: CoverartOutcome::Image(vec![1, 2, 3]),
        });
        assert_eq!(cmd, Command::Nothing);
    }
    assert_eq!(app.results(), &Some(SearchResultState::ReleaseGroupResult(vec![group("C", "c")])));
}

#[test]
fn late_answer_to_superseded_search_is_dropped() {
    let mut app = App::new();
    let first = start_search(&mut app, SearchSelection::Release, "one");
    let _second = start_search(&mut app, SearchSelection::Release, "two");
    let cmd = app.update(Message::SearchCompleted {
        generation: first,
        results: SearchResultState::ReleaseResult(vec![release("A", "a")]),
    });
    assert_eq!(cmd, Command::Nothing);
    assert_eq!(app.results(), &None);
    app.update(Message::SearchFailed { generation: first, error: "late".to_string() });
    assert_eq!(app.notice(), &None);
}

#[test]
fn artist_search_has_no_enrichment() {
    let mut app = App::new();
    let generation = start_search(&mut app, SearchSelection::Artist, "Pink Floyd");
    let artists = vec![
        Artist::new("P".to_string(), "Pink Floyd".to_string()),
        Artist::new("Q".to_string(), "Pink Floyd Tribute".to_string()),
    ];
    let cmd = app.update(Message::SearchCompleted {
        generation,
        results: SearchResultState::ArtistResult(artists.clone()),
    });
    assert_eq!(cmd, Command::Nothing);
    app.update(Message::CoverartFetched {
        generation,
        entity: EnrichedEntity::Release(release("P", "x")),
        outcome: CoverartOutcome::Image(vec![9]),
    });
    app.update(Message::CoverartFetched {
        generation,
        entity: EnrichedEntity::ReleaseGroup(group("Q", "y")),
        outcome: CoverartOutcome::NoImage,
    });
    assert_eq!(app.results(), &Some(SearchResultState::ArtistResult(artists)));
}

#[test]
fn no_image_keeps_entity_without_image() {
    let mut app = App::new();
    let generation = start_search(&mut app, SearchSelection::Release, "q");
    app.update(Message::SearchCompleted {
        generation,
        results: SearchResultState::ReleaseResult(vec![release("A", "a"), release("B", "b")]),
    });
    app.update(Message::CoverartFetched {
        generation,
        entity: EnrichedEntity::Release(release("A", "a")),
        outcome: CoverartOutcome::NoImage,
    });
    assert_eq!(
        app.results(),
        &Some(SearchResultState::ReleaseResult(vec![release("A", "a"), release("B", "b")]))
    );
}

#[test]
fn failed_fetch_leaves_entity_unenriched() {
    let mut app = App::new();
    let generation = start_search(&mut app, SearchSelection::Release, "q");
    app.update(Message::SearchCompleted {
        generation,
        results: SearchResultState::ReleaseResult(vec![release("A", "a"), release("B", "b")]),
    });
    app.update(Message::CoverartFetched {
        generation,
        entity: EnrichedEntity::Release(release("A", "a")),
        outcome: CoverartOutcome::Failed,
    });
    let mut b = release("B", "b");
    b.coverart = Some(vec![7]);
    app.update(Message::CoverartFetched {
        generation,
        entity: EnrichedEntity::Release(release("B", "b")),
        outcome: CoverartOutcome::Image(vec![7]),
    });
    assert_eq!(app.results(), &Some(SearchResultState::ReleaseResult(vec![release("A", "a"), b])));
}

#[test]
fn same_answer_twice_is_same_as_once() {
    let mut app = App::new();
    let generation = start_search(&mut app, SearchSelection::ReleaseGroup, "q");
    app.update(Message::SearchCompleted {
        generation,
        results: SearchResultState::ReleaseGroupResult(vec![group("A", "a"), group("B", "b")]),
    });
    let answer = || Message::CoverartFetched {
        generation,
        entity: EnrichedEntity::ReleaseGroup(group("B", "b")),
        outcome: CoverartOutcome::Image(vec![5, 6]),
    };
    app.update(answer());
    let mut b = group("B", "b");
    b.coverart = Some(vec![5, 6]);
    let once = Some(SearchResultState::ReleaseGroupResult(vec![group("A", "a"), b]));
    assert_eq!(app.results(), &once);
    app.update(answer());
    assert_eq!(app.results(), &once);
}

#[test]
fn answers_in_either_order_give_same_results() {
    let run = |order: &[usize]| {
        let mut app = App::new();
        let generation = start_search(&mut app, SearchSelection::Release, "q");
        app.update(Message::SearchCompleted {
            generation,
            results: SearchResultState::ReleaseResult(vec![release("A", "a"), release("B", "b"), release("C", "c")]),
        });
        let answers = [
            (release("A", "a"), CoverartOutcome::Image(vec![1])),
            (release("B", "b"), CoverartOutcome::NoImage),
            (release("C", "c"), CoverartOutcome::Image(vec![3])),
        ];
        for &i in order {
            let (r, o) = answers[i].clone();
            app.update(Message::CoverartFetched { generation, entity: EnrichedEntity::Release(r), outcome: o });
        }
        format!("{:?}", app.results())
    };
    let first = run(&[0, 1, 2]);
    assert_eq!(first, run(&[2, 1, 0]));
    assert_eq!(first, run(&[1, 2, 0]));
    assert!(first.contains("Some([1])"));
    assert!(first.contains("Some([3])"));
}

#[test]
fn duplicate_ids_keep_first_occurrence() {
    let mut app = App::new();
    let generation = start_search(&mut app, SearchSelection::Release, "q");
    let cmd = app.update(Message::SearchCompleted {
        generation,
        results: SearchResultState::ReleaseResult(vec![
            release("A", "first"),
            release("B", "b"),
            release("A", "second"),
        ]),
    });
    assert_eq!(
        app.results(),
        &Some(SearchResultState::ReleaseResult(vec![release("A", "first"), release("B", "b")]))
    );
    match cmd {
        Command::FetchCoverart { entities, .. } => assert_eq!(entities.len(), 2),
        other => panic!("expected cover-art fetches, got {:?}", other),
    }
}

#[test]
fn kind_change_does_not_search() {
    let mut app = App::new();
    assert_eq!(app.search_kind(), SearchSelection::Artist);
    assert_eq!(app.update(Message::Selection(SearchSelection::Release)), Command::Nothing);
    assert_eq!(app.update(Message::InputChanged("abc".to_string())), Command::Nothing);
    assert_eq!(app.search_kind(), SearchSelection::Release);
    assert_eq!(app.input_value(), "abc");
    assert_eq!(app.generation(), 0);
    assert_eq!(app.results(), &None);
}

#[test]
fn search_bumps_generation() {
    let mut app = App::new();
    assert_eq!(app.generation(), 0);
    assert_eq!(
        app.update(Message::Search),
        Command::Search { generation: 1, kind: SearchSelection::Artist, query: "query=artist:".to_string() }
    );
    assert_eq!(app.generation(), 1);
}

#[test]
fn title_text() {
    assert_eq!(App::new().title(), "Musicbrainz Browser");
}

#[test]
fn search_command_carries_catalog_query() {
    let mut app = App::new();
    app.update(Message::InputChanged("Echoes".to_string()));
    app.update(Message::Selection(SearchSelection::ReleaseGroup));
    assert_eq!(
        app.update(Message::Search),
        Command::Search {
            generation: 1,
            kind: SearchSelection::ReleaseGroup,
            query: "query=release:Echoes".to_string()
        }
    );
}
