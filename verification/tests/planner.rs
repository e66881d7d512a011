//! The ad-rotation planner: round-robin selection, lifecycle tracking,
//! and construction errors.

use restreamer::ads_planner::{ActiveItem, AdId, AdsPlanner, ContentItem, PlanError};

fn listing(ids: &[u128]) -> Vec<ContentItem> {
    ids.iter()
        .map(|&id| ContentItem { id: AdId { id }, label: format!("ad {id}") })
        .collect()
}

#[test]
fn test_rotation_covers_plan_in_order() {
    let mut planner = AdsPlanner::new(7, listing(&[10, 20, 30])).unwrap();

    // each ad exactly once, in listing order, before any repeats
    let mut seen = vec![];
    for _ in 0..3 {
        let (id, anomaly) = planner.next(0);
        assert!(!anomaly || !seen.is_empty());
        seen.push(id);
        planner.finished();
    }
    assert_eq!(seen, vec![AdId { id: 10 }, AdId { id: 20 }, AdId { id: 30 }]);

    // the fourth selection wraps to the first ad
    let (id, _) = planner.next(0);
    assert_eq!(id, AdId { id: 10 });
}

#[test]
fn test_next_twice_without_finished() {
    let mut planner = AdsPlanner::new(7, listing(&[1, 2])).unwrap();

    let (first, anomaly_first) = planner.next(100);
    assert_eq!(first, AdId { id: 1 });
    assert!(!anomaly_first);

    // the first selection was never marked finished: the second still
    // advances normally and only flags the anomaly
    let (second, anomaly_second) = planner.next(200);
    assert_eq!(second, AdId { id: 2 });
    assert!(anomaly_second);

    let (third, _) = planner.next(300);
    assert_eq!(third, AdId { id: 1 });
}

#[test]
fn test_finished_reports_recorded_start() {
    let mut planner = AdsPlanner::new(7, listing(&[5])).unwrap();

    assert_eq!(planner.finished(), None);

    let (id, _) = planner.next(1234);
    assert_eq!(planner.finished(), Some(ActiveItem { id, started: 1234 }));
    assert_eq!(planner.finished(), None);
}

#[test]
fn test_empty_listing_is_refused() {
    match AdsPlanner::new(7, vec![]) {
        Err(PlanError::EmptyPlan) => {},
        _ => panic!("an empty listing must be refused"),
    }
}
