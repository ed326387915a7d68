use pixiv_exporter::config::TargetConfig;
use pixiv_exporter::scraper::{ScrapeAction, ScrapeEvent, Scraper, WaitKind};
use pixiv_exporter::upkeep::should_report_upkeep;

fn step(s: &mut Scraper, e: ScrapeEvent) -> ScrapeAction {
    assert!(s.can_step(&e), "event {:?} not expected", e);
    s.step(e)
}

#[test]
fn full_round_dedups_and_skips_seen_works() {
    let target = TargetConfig { users: vec![1, 2], works: vec![10, 30, 20] };
    let (mut s, first) = Scraper::new(&target);
    assert_eq!(first, ScrapeAction::BeginRound { round: 0 });
    assert_eq!(step(&mut s, ScrapeEvent::Proceed), ScrapeAction::FetchUserIllusts { user: 1 });
    // user 1 has illustrations 10 and 11
    assert_eq!(step(&mut s, ScrapeEvent::Fetched { id: 10 }), ScrapeAction::Export { id: 10 });
    assert_eq!(step(&mut s, ScrapeEvent::Proceed), ScrapeAction::Wait { kind: WaitKind::UserItem });
    assert_eq!(step(&mut s, ScrapeEvent::Proceed), ScrapeAction::FetchNextUserIllust { user: 1 });
    assert_eq!(step(&mut s, ScrapeEvent::Fetched { id: 11 }), ScrapeAction::Export { id: 11 });
    assert_eq!(step(&mut s, ScrapeEvent::Proceed), ScrapeAction::Wait { kind: WaitKind::UserItem });
    assert_eq!(step(&mut s, ScrapeEvent::Proceed), ScrapeAction::FetchNextUserIllust { user: 1 });
    assert_eq!(step(&mut s, ScrapeEvent::Exhausted), ScrapeAction::FetchUserIllusts { user: 2 });
    // user 2 lists illustration 10 again: not exported, but still waited after
    assert_eq!(step(&mut s, ScrapeEvent::Fetched { id: 10 }), ScrapeAction::Wait { kind: WaitKind::UserItem });
    assert_eq!(step(&mut s, ScrapeEvent::Proceed), ScrapeAction::FetchNextUserIllust { user: 2 });
    // a failing listing moves on to the works; work 10 was seen and is skipped
    assert_eq!(step(&mut s, ScrapeEvent::FetchFailed), ScrapeAction::FetchWork { work: 30 });
    assert_eq!(step(&mut s, ScrapeEvent::Fetched { id: 30 }), ScrapeAction::Export { id: 30 });
    assert_eq!(step(&mut s, ScrapeEvent::Proceed), ScrapeAction::Wait { kind: WaitKind::IndependentItem });
    assert_eq!(step(&mut s, ScrapeEvent::Proceed), ScrapeAction::FetchWork { work: 20 });
    // a failed work detail is not waited after
    assert_eq!(step(&mut s, ScrapeEvent::FetchFailed), ScrapeAction::EndRound { round: 0, items: 4 });
    assert_eq!(step(&mut s, ScrapeEvent::Proceed), ScrapeAction::BeginRound { round: 1 });
    assert_eq!(s.round(), 1);
    // the next round starts afresh: illustration 10 is exported again
    assert_eq!(step(&mut s, ScrapeEvent::Proceed), ScrapeAction::FetchUserIllusts { user: 1 });
    assert_eq!(step(&mut s, ScrapeEvent::Fetched { id: 10 }), ScrapeAction::Export { id: 10 });
}

#[test]
fn shutdown_during_wait_stops() {
    let target = TargetConfig { users: vec![5], works: vec![] };
    let (mut s, _) = Scraper::new(&target);
    step(&mut s, ScrapeEvent::Proceed);
    step(&mut s, ScrapeEvent::Fetched { id: 7 });
    assert_eq!(step(&mut s, ScrapeEvent::Proceed), ScrapeAction::Wait { kind: WaitKind::UserItem });
    assert_eq!(step(&mut s, ScrapeEvent::Shutdown), ScrapeAction::Stop);
    assert!(!s.can_step(&ScrapeEvent::Proceed));
    assert!(!s.can_step(&ScrapeEvent::Shutdown));
}

#[test]
fn shutdown_between_rounds_stops() {
    let target = TargetConfig { users: vec![], works: vec![] };
    let (mut s, _) = Scraper::new(&target);
    assert_eq!(step(&mut s, ScrapeEvent::Proceed), ScrapeAction::EndRound { round: 0, items: 0 });
    assert_eq!(step(&mut s, ScrapeEvent::Shutdown), ScrapeAction::Stop);
}

#[test]
fn duplicate_works_are_fetched_once_per_round() {
    let target = TargetConfig { users: vec![], works: vec![3, 3, 4] };
    let (mut s, _) = Scraper::new(&target);
    assert_eq!(step(&mut s, ScrapeEvent::Proceed), ScrapeAction::FetchWork { work: 3 });
    assert_eq!(step(&mut s, ScrapeEvent::Fetched { id: 3 }), ScrapeAction::Export { id: 3 });
    assert_eq!(step(&mut s, ScrapeEvent::Proceed), ScrapeAction::Wait { kind: WaitKind::IndependentItem });
    assert_eq!(step(&mut s, ScrapeEvent::Proceed), ScrapeAction::FetchWork { work: 4 });
    assert_eq!(step(&mut s, ScrapeEvent::FetchFailed), ScrapeAction::EndRound { round: 0, items: 2 });
}

#[test]
fn unexpected_events_are_refused() {
    let target = TargetConfig { users: vec![1], works: vec![] };
    let (mut s, _) = Scraper::new(&target);
    assert!(!s.can_step(&ScrapeEvent::Shutdown));
    assert!(!s.can_step(&ScrapeEvent::Fetched { id: 1 }));
    step(&mut s, ScrapeEvent::Proceed);
    assert!(!s.can_step(&ScrapeEvent::Proceed));
    assert!(!s.can_step(&ScrapeEvent::Shutdown));
}

#[test]
fn upkeep_reports_every_two_hundred_ticks() {
    assert!(!should_report_upkeep(1));
    assert!(!should_report_upkeep(199));
    assert!(should_report_upkeep(200));
    assert!(!should_report_upkeep(201));
    assert!(should_report_upkeep(400));
}

#[test]
fn round_acts_on_each_id_once_and_covers_users_and_works() {
    let target = TargetConfig { users: vec![7, 8], works: vec![100, 5, 100, 6] };
    let (mut s, _) = Scraper::new(&target);
    // user 7 lists 5 and 9; user 8 lists 9 and 6
    let listings: Vec<Vec<u64>> = vec![vec![5, 9], vec![9, 6]];
    let mut action = step(&mut s, ScrapeEvent::Proceed);
    let mut started_users = Vec::new();
    let mut acted = Vec::new();
    let mut pos = 0usize;
    let mut user_no = 0usize;
    let mut in_user = false;
    loop {
        let event = match action {
            ScrapeAction::FetchUserIllusts { user } => {
                started_users.push(user);
                user_no = started_users.len() - 1;
                pos = 0;
                in_user = true;
                match listings[user_no].get(pos) {
                    Some(&id) => ScrapeEvent::Fetched { id },
                    None => ScrapeEvent::Exhausted,
                }
            }
            ScrapeAction::FetchNextUserIllust { .. } => {
                pos += 1;
                match listings[user_no].get(pos) {
                    Some(&id) => ScrapeEvent::Fetched { id },
                    None => ScrapeEvent::Exhausted,
                }
            }
            ScrapeAction::FetchWork { work } => {
                in_user = false;
                acted.push(work);
                ScrapeEvent::Fetched { id: work }
            }
            ScrapeAction::Export { id } => {
                if in_user {
                    acted.push(id);
                }
                ScrapeEvent::Proceed
            }
            ScrapeAction::Wait { .. } => ScrapeEvent::Proceed,
            ScrapeAction::EndRound { round, items } => {
                assert_eq!(round, 0);
                assert_eq!(items, 4);
                break;
            }
            other => panic!("unexpected action {:?}", other),
        };
        action = step(&mut s, event);
    }
    assert_eq!(started_users, vec![7, 8]);
    assert_eq!(acted, vec![5, 9, 6, 100]);
}
