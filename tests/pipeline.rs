use yadokari::blocks::{bukkens_to_blocks, Block, MAX_BLOCKS};
use yadokari::freshness::{filter_fresh, is_persisted, snapshot_keys};
use yadokari::listing::{Bukken, BukkenKey};
use yadokari::webhook::{dispatch, AppState, Event, EventRequest, Reply};
use yadokari::workflow::{Action, Outcome, Stage, Workflow};

fn bukken(id: &str, rent: &str, rowspan: i32) -> Bukken {
    Bukken {
        bukken_id: id.to_string(),
        bukken_name: format!("Danchi {}", id),
        bukken_link: format!("/chintai/kanto/{}.html", id),
        image: format!("https://img.example/{}.jpg", id),
        rent_normal: rent.to_string(),
        rent_waribiki: "90,000円".to_string(),
        commonfee_normal: "(3,000円)".to_string(),
        commonfee_waribiki: "(2,500円)".to_string(),
        span: "1".to_string(),
        room_type: "2DK".to_string(),
        floorspace: "50&#13217;".to_string(),
        floor: "3".to_string(),
        floor_max: "5".to_string(),
        access: "Line A<br>10 min walk".to_string(),
        tokubetsu_kbn_text: "Family".to_string(),
        tokubetsu_kbn: "1".to_string(),
        rowspan,
        shikutyoson_name: "Town".to_string(),
    }
}

fn key(id: &str, rent: &str, rowspan: i32) -> BukkenKey {
    BukkenKey { bukken_id: id.to_string(), rent_normal: rent.to_string(), rowspan }
}

fn state() -> AppState {
    AppState {
        verification_token: "secret".to_string(),
        bot_user_oauth_token: "xoxb-token".to_string(),
        bot_user: "UBOT".to_string(),
        tdfk: "13".to_string(),
    }
}

fn event(user: &str) -> Event {
    Event { channel: "C1".to_string(), user: user.to_string(), text: "hi".to_string() }
}

fn ids(fresh: &[&Bukken]) -> Vec<String> {
    fresh.iter().map(|b| b.bukken_id.clone()).collect()
}

#[test]
fn wrong_token_is_refused_and_starts_nothing() {
    let req = EventRequest {
        token: "wrong".to_string(),
        challenge: Some("c".to_string()),
        event: Some(event("U1")),
    };
    let d = dispatch(req, &state());
    assert_eq!(d.reply.status, 400);
    assert!(!d.reply.ok);
    assert!(d.reply.challenge.is_none());
    assert!(d.task.is_none());
}

#[test]
fn wrong_token_is_an_error_of_from_request() {
    let req = EventRequest { token: "wrong".to_string(), challenge: None, event: None };
    match Event::from_request(req, &state()) {
        Err(reply) => {
            assert_eq!(reply.status, 400);
            assert!(!reply.ok);
        }
        Ok(_) => panic!("a wrong token must be refused"),
    }
}

#[test]
fn handshake_echoes_challenge() {
    let req = EventRequest {
        token: "secret".to_string(),
        challenge: Some("challenge-value-42".to_string()),
        event: None,
    };
    let d = dispatch(req, &state());
    assert_eq!(d.reply.status, 200);
    assert!(d.reply.ok);
    assert_eq!(
        d.reply.challenge.as_deref(),
        Some("challenge-value-42")
    );
    assert!(d.task.is_none());
}

#[test]
fn handshake_without_challenge_echoes_none() {
    let req = EventRequest { token: "secret".to_string(), challenge: None, event: None };
    let d = dispatch(req, &state());
    assert_eq!(d.reply.status, 200);
    assert!(d.reply.ok);
    assert!(d.reply.challenge.is_none());
    assert!(d.task.is_none());
}

#[test]
fn message_event_is_acknowledged_and_handed_on() {
    let req = EventRequest { token: "secret".to_string(), challenge: None, event: Some(event("U1")) };
    let d = dispatch(req, &state());
    assert_eq!(d.reply.status, 200);
    assert!(d.reply.ok);
    assert!(d.reply.challenge.is_none());
    let task = d.task.expect("the event is handed on");
    assert_eq!(task.user, "U1");
    assert_eq!(task.channel, "C1");
}

#[test]
fn ack_reply_is_ok() {
    let r: Reply = Reply::ack();
    assert_eq!(r.status, 200);
    assert!(r.ok);
    assert!(r.challenge.is_none());
}

#[test]
fn own_message_starts_no_outside_work() {
    let (wf, action) = Workflow::start(&event("UBOT"), &state());
    assert!(matches!(action, Action::Finish));
    assert!(matches!(wf.stage, Stage::Done));
}

#[test]
fn other_user_fetches_listings_of_region() {
    let (wf, action) = Workflow::start(&event("U1"), &state());
    assert!(matches!(wf.stage, Stage::AwaitingListings));
    match action {
        Action::FetchListings { form } => {
            assert_eq!(
                form,
                vec![
                    ("tdfk".to_string(), "13".to_string()),
                    ("is_sp".to_string(), "false".to_string())
                ]
            );
        }
        _ => panic!("expected a fetch"),
    }
}

#[test]
fn rerun_on_unchanged_snapshot_finds_nothing() {
    let snapshot = vec![bukken("A", "100", 1), bukken("B", "200", 2)];
    let first = filter_fresh(&Vec::new(), &snapshot);
    assert_eq!(ids(&first), vec!["A", "B"]);
    let committed = snapshot_keys(&snapshot);
    let second = filter_fresh(&committed, &snapshot);
    assert!(second.is_empty());
}

#[test]
fn diff_reports_only_the_new_listing() {
    let persisted = vec![key("A", "100", 1)];
    let snapshot = vec![bukken("A", "100", 1), bukken("B", "200", 1)];
    let fresh = filter_fresh(&persisted, &snapshot);
    assert_eq!(ids(&fresh), vec!["B"]);
    let committed = snapshot_keys(&snapshot);
    assert_eq!(committed.len(), 2);
    assert_eq!(committed[0].bukken_id, "A");
    assert_eq!(committed[0].rent_normal, "100");
    assert_eq!(committed[0].rowspan, 1);
    assert_eq!(committed[1].bukken_id, "B");
    assert_eq!(committed[1].rent_normal, "200");
    assert_eq!(committed[1].rowspan, 1);
}

#[test]
fn price_change_counts_as_fresh() {
    let persisted = vec![key("A", "100", 1)];
    let snapshot = vec![bukken("A", "150", 1)];
    let fresh = filter_fresh(&persisted, &snapshot);
    assert_eq!(ids(&fresh), vec!["A"]);
}

#[test]
fn regrouping_counts_as_fresh() {
    let persisted = vec![key("A", "100", 1)];
    let snapshot = vec![bukken("A", "100", 2)];
    assert!(!is_persisted(&persisted, &snapshot[0]));
    assert_eq!(ids(&filter_fresh(&persisted, &snapshot)), vec!["A"]);
}

#[test]
fn commit_replaces_rather_than_merges() {
    let snapshot = vec![bukken("B", "200", 1)];
    let committed = snapshot_keys(&snapshot);
    assert_eq!(committed.len(), 1);
    assert!(is_persisted(&committed, &snapshot[0]));
    assert!(!is_persisted(&committed, &bukken("A", "100", 1)));
}

#[test]
fn empty_snapshot_commits_nothing() {
    let snapshot: Vec<Bukken> = Vec::new();
    assert!(snapshot_keys(&snapshot).is_empty());
    assert!(filter_fresh(&vec![key("A", "100", 1)], &snapshot).is_empty());
}

#[test]
fn fifteen_fresh_listings_show_ten() {
    let snapshot: Vec<Bukken> = (0..15).map(|i| bukken(&format!("L{}", i), "100", 1)).collect();
    let refs: Vec<&Bukken> = snapshot.iter().collect();
    let blocks = bukkens_to_blocks(refs).expect("listings to show");
    assert_eq!(blocks.len(), 41);
    assert!(blocks.len() <= MAX_BLOCKS);
    let titles = blocks.iter().filter(|b| matches!(b, Block::Title { .. })).count();
    assert_eq!(titles, 10);
    match &blocks[38] {
        Block::Title { alt_text, .. } => assert_eq!(alt_text, "Danchi L9"),
        _ => panic!("expected the tenth title"),
    }
}

#[test]
fn zero_fresh_listings_render_nothing() {
    assert!(bukkens_to_blocks(Vec::new()).is_none());
}

#[test]
fn one_listing_renders_exact_blocks() {
    let b = bukken("A", "100,000円", 1);
    let blocks = bukkens_to_blocks(vec![&b]).expect("one listing");
    assert_eq!(blocks.len(), 5);
    match &blocks[0] {
        Block::Announcement { text } => assert_eq!(text, "新しい特別募集住宅を見つけたカリ:eyes:"),
        _ => panic!("the message opens with the announcement"),
    }
    assert!(matches!(blocks[1], Block::Divider));
    match &blocks[2] {
        Block::Title { text, image_url, alt_text } => {
            assert_eq!(
                text,
                "*<https://www.ur-net.go.jp/chintai/kanto/A.html|Danchi A>*\nLine A\n10 min walk"
            );
            assert_eq!(image_url, "https://img.example/A.jpg");
            assert_eq!(alt_text, "Danchi A");
        }
        _ => panic!("expected the title"),
    }
    match &blocks[3] {
        Block::Fields { fields } => {
            assert_eq!(
                fields,
                &vec![
                    "*通常家賃(共益費):*\n100,000円(3,000円)".to_string(),
                    "*割引後家賃(共益費):*\n90,000円(2,500円)".to_string(),
                    "*間取り/床面積:*\n2DK / 50㎡".to_string(),
                    "*住宅種類:*\nFamily".to_string(),
                ]
            );
        }
        _ => panic!("expected the fields"),
    }
    assert!(matches!(blocks[4], Block::Divider));
}

#[test]
fn line_breaks_replaced_everywhere() {
    let mut b = bukken("A", "100", 1);
    b.access = "<br>x<br><br>y<br".to_string();
    let blocks = bukkens_to_blocks(vec![&b]).expect("one listing");
    match &blocks[2] {
        Block::Title { text, .. } => {
            assert!(text.ends_with(">*\n\nx\n\ny<br"));
        }
        _ => panic!("expected the title"),
    }
}

fn run_until_replace(persisted: Vec<BukkenKey>, snapshot: Vec<Bukken>) -> (Workflow, Vec<BukkenKey>) {
    let (wf, _) = Workflow::start(&event("U1"), &state());
    let (wf, action) = wf.step(Outcome::Listings(snapshot));
    assert!(matches!(action, Action::ReadPersisted));
    let (wf, action) = wf.step(Outcome::Persisted(persisted));
    match action {
        Action::ReplacePersisted { records } => (wf, records),
        _ => panic!("expected the replacement"),
    }
}

#[test]
fn workflow_posts_fresh_after_replacing() {
    let (wf, records) =
        run_until_replace(vec![key("A", "100", 1)], vec![bukken("A", "100", 1), bukken("B", "200", 1)]);
    assert_eq!(records.len(), 2);
    let (wf, action) = wf.step(Outcome::Replaced);
    assert!(matches!(wf.stage, Stage::AwaitingPost));
    match action {
        Action::PostMessage { token, request } => {
            assert_eq!(token, "xoxb-token");
            assert_eq!(request.channel, "C1");
            assert_eq!(request.blocks.len(), 5);
            match &request.blocks[2] {
                Block::Title { alt_text, .. } => assert_eq!(alt_text, "Danchi B"),
                _ => panic!("expected the title of B"),
            }
        }
        _ => panic!("expected a post"),
    }
    let (wf, action) = wf.step(Outcome::Posted);
    assert!(matches!(action, Action::Finish));
    assert!(matches!(wf.stage, Stage::Done));
}

#[test]
fn workflow_without_fresh_listings_never_posts() {
    let (wf, records) = run_until_replace(vec![key("A", "100", 1)], vec![bukken("A", "100", 1)]);
    assert_eq!(records.len(), 1);
    let (wf, action) = wf.step(Outcome::Replaced);
    assert!(matches!(action, Action::Finish));
    assert!(matches!(wf.stage, Stage::Done));
}

#[test]
fn failed_fetch_ends_the_run() {
    let (wf, _) = Workflow::start(&event("U1"), &state());
    let (wf, action) = wf.step(Outcome::Failed);
    assert!(matches!(action, Action::Finish));
    assert!(matches!(wf.stage, Stage::Done));
}

#[test]
fn failed_replace_posts_nothing() {
    let (wf, _) = run_until_replace(Vec::new(), vec![bukken("A", "100", 1)]);
    let (wf, action) = wf.step(Outcome::Failed);
    assert!(matches!(action, Action::Finish));
    assert!(matches!(wf.stage, Stage::Done));
}
