use hn_api::pipeline::{author_requests, gather_authors, gather_items, make_pairs};
use hn_api::types::{Comment, Item, Job, Story, User};
use hn_api::HnClientError;

fn story(id: u32, by: &str) -> Item {
    Item::Story(Story {
        id,
        descendants: 0,
        by: by.to_string(),
        kids: None,
        score: 1,
        title: format!("story {}", id),
        url: None,
        text: None,
        time: 1_175_714_200,
    })
}

fn job(id: u32) -> Item {
    Item::Job(Job {
        id,
        score: 1,
        text: None,
        time: 1_210_981_217,
        title: format!("job {}", id),
        url: None,
    })
}

fn comment(id: u32, by: &str) -> Item {
    Item::Comment(Comment {
        id,
        by: by.to_string(),
        kids: None,
        parent: 1,
        text: "t".to_string(),
        time: 1_314_211_127,
    })
}

fn user(name: &str) -> User {
    User {
        id: name.to_string(),
        created: 1_160_000_000,
        karma: 10,
        about: None,
        submitted: None,
    }
}

/// A successful batch fetch keeps the input's length and order.
#[test]
fn batch_gather_keeps_length_and_order() {
    let outs: Vec<Result<Option<Item>, String>> = vec![
        Ok(Some(story(1, "alice"))),
        Ok(None),
        Ok(Some(comment(2, "bob"))),
        Ok(Some(job(3))),
    ];
    let items = gather_items(outs).unwrap();
    assert_eq!(items.len(), 4);
    assert_eq!(items[0], Some(story(1, "alice")));
    assert_eq!(items[1], None);
    assert_eq!(items[2], Some(comment(2, "bob")));
    assert_eq!(items[3], Some(job(3)));
}

/// One failed leaf fails the whole batch and exposes no partial results.
#[test]
fn batch_gather_fails_as_a_unit() {
    let outs: Vec<Result<Option<Item>, String>> = vec![
        Ok(Some(story(1, "alice"))),
        Err("connection reset".to_string()),
        Ok(Some(story(3, "carol"))),
        Err("timed out".to_string()),
    ];
    match gather_items(outs) {
        Err(HnClientError::BackendError(m)) => assert_eq!(m, "connection reset"),
        other => panic!("expected a backend error, got {:?}", other),
    }
}

/// Author resolution keeps the item sequence's length and order, and skips
/// absent items and jobs without a lookup slot.
#[test]
fn author_resolution_skips_and_aligns() {
    let items: Vec<Option<Item>> = vec![
        Some(story(1, "alice")),
        None,
        Some(job(2)),
        Some(comment(3, "bob")),
    ];
    let plan = author_requests(&items);
    assert_eq!(plan.len(), 4);
    assert_eq!(plan[0].as_deref(), Some("alice"));
    assert_eq!(plan[1], None);
    assert_eq!(plan[2], None);
    assert_eq!(plan[3].as_deref(), Some("bob"));
    let lookups = plan.iter().filter(|r| r.is_some()).count();
    assert_eq!(lookups, 2);

    let fetched: Vec<Result<Option<User>, String>> =
        vec![Ok(Some(user("alice"))), Ok(None)];
    let users = gather_authors(&plan, fetched).unwrap();
    assert_eq!(users.len(), 4);
    assert_eq!(users[0], Some(user("alice")));
    assert_eq!(users[1], None);
    assert_eq!(users[2], None);
    assert_eq!(users[3], None);
}

/// One failed author lookup fails the whole resolution.
#[test]
fn author_resolution_fails_as_a_unit() {
    let items: Vec<Option<Item>> = vec![Some(story(1, "alice")), Some(story(2, "bob"))];
    let plan = author_requests(&items);
    let fetched: Vec<Result<Option<User>, String>> =
        vec![Ok(Some(user("alice"))), Err("dns failure".to_string())];
    match gather_authors(&plan, fetched) {
        Err(HnClientError::BackendError(m)) => assert_eq!(m, "dns failure"),
        other => panic!("expected a backend error, got {:?}", other),
    }
}

/// Two stories and one nonexistent id: the pairs carry both stories with
/// their authors, the missing position is doubly absent, and exactly two
/// author lookups are planned.
#[test]
fn join_two_stories_one_missing() {
    let outs: Vec<Result<Option<Item>, String>> = vec![
        Ok(Some(story(8863, "dhouston"))),
        Ok(Some(story(121003, "tel"))),
        Ok(None),
    ];
    let items = gather_items(outs).unwrap();
    let plan = author_requests(&items);
    let lookups = plan.iter().filter(|r| r.is_some()).count();
    assert_eq!(lookups, 2);
    let fetched: Vec<Result<Option<User>, String>> =
        vec![Ok(Some(user("dhouston"))), Ok(Some(user("tel")))];
    let users = gather_authors(&plan, fetched).unwrap();
    let pairs = make_pairs(items, users);
    assert_eq!(pairs.len(), 3);
    assert_eq!(pairs[0], (Some(story(8863, "dhouston")), Some(user("dhouston"))));
    assert_eq!(pairs[1], (Some(story(121003, "tel")), Some(user("tel"))));
    assert_eq!(pairs[2], (None, None));
}

/// A single job: its pair holds the job with an absent author, and no
/// author lookup is planned at all.
#[test]
fn join_single_job_without_lookup() {
    let outs: Vec<Result<Option<Item>, String>> = vec![Ok(Some(job(192327)))];
    let items = gather_items(outs).unwrap();
    let plan = author_requests(&items);
    assert!(plan.iter().all(|r| r.is_none()));
    let users = gather_authors(&plan, Vec::new()).unwrap();
    let pairs = make_pairs(items, users);
    assert_eq!(pairs.len(), 1);
    assert_eq!(pairs[0], (Some(job(192327)), None));
}

/// The `author` accessor: jobs carry no author, the other variants do.
#[test]
fn author_accessor_by_variant() {
    assert_eq!(story(1, "alice").author().as_deref(), Some("alice"));
    assert_eq!(comment(2, "bob").author().as_deref(), Some("bob"));
    assert_eq!(job(3).author(), None);
    assert_eq!(story(1, "alice").id(), 1);
    assert_eq!(job(3).id(), 3);
}

/// An empty batch gathers to an empty result.
#[test]
fn empty_batch() {
    let items = gather_items(Vec::new()).unwrap();
    assert!(items.is_empty());
    let plan = author_requests(&items);
    assert!(plan.is_empty());
    let users = gather_authors(&plan, Vec::new()).unwrap();
    let pairs = make_pairs(items, users);
    assert!(pairs.is_empty());
}
