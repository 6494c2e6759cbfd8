use rsrpc::cmd::{Activity, ActivityCmd, ActivityCmdArgs, Button, ButtonValue, Metadata, TimeoutValue, Timestamps};

fn activity() -> Activity {
    Activity {
        id: None,
        name: Some("g".to_string()),
        buttons: None,
        activity_type: 0,
        url: None,
        created_at: None,
        session_id: None,
        platform: None,
        supported_platforms: None,
        timestamps: None,
        application_id: None,
        details: None,
        state: None,
        sync_id: None,
        instance: None,
        flags: None,
        emoji: None,
        party: None,
        assets: None,
        secrets: None,
        metadata: None,
    }
}

fn cmd_with(a: Activity) -> ActivityCmd {
    ActivityCmd {
        application_id: None,
        cmd: "SET_ACTIVITY".to_string(),
        args: Some(ActivityCmdArgs { pid: Some(4321), activity: Some(a), code: None }),
        data: None,
        evt: None,
        nonce: "\"n\"".to_string(),
    }
}

fn times(c: &ActivityCmd) -> Timestamps {
    c.args.as_ref().unwrap().activity.as_ref().unwrap().timestamps.unwrap()
}

const NOW: i64 = 1_700_000_000;

#[test]
fn seconds_become_milliseconds() {
    let mut a = activity();
    a.timestamps = Some(Timestamps { start: Some(TimeoutValue(1_700_000_000)), end: None });
    let mut c = cmd_with(a);
    c.fix_timestamps(NOW);
    assert_eq!(times(&c), Timestamps { start: Some(TimeoutValue(1_700_000_000_000)), end: None });
}

#[test]
fn milliseconds_are_kept() {
    let mut a = activity();
    a.timestamps = Some(Timestamps { start: Some(TimeoutValue(1_700_000_000_000)), end: Some(TimeoutValue(1_800_000_000_000)) });
    let mut c = cmd_with(a);
    c.fix_timestamps(NOW);
    assert_eq!(times(&c), Timestamps { start: Some(TimeoutValue(1_700_000_000_000)), end: Some(TimeoutValue(1_800_000_000_000)) });
}

#[test]
fn cutoff_is_a_hundred_years_ahead() {
    let mut a = activity();
    let cutoff = NOW + 3_153_600_000;
    a.timestamps = Some(Timestamps { start: Some(TimeoutValue(cutoff)), end: Some(TimeoutValue(cutoff + 1)) });
    let mut c = cmd_with(a);
    c.fix_timestamps(NOW);
    assert_eq!(times(&c), Timestamps { start: Some(TimeoutValue(cutoff * 1000)), end: Some(TimeoutValue(cutoff + 1)) });
}

#[test]
fn huge_negative_time_saturates() {
    let mut a = activity();
    a.timestamps = Some(Timestamps { start: Some(TimeoutValue(i64::MIN / 10)), end: None });
    let mut c = cmd_with(a);
    c.fix_timestamps(NOW);
    assert_eq!(times(&c).start, Some(TimeoutValue(i64::MIN)));
}

#[test]
fn fixing_times_twice_is_fixing_once() {
    let mut a = activity();
    a.timestamps = Some(Timestamps { start: Some(TimeoutValue(1_700_000_000)), end: Some(TimeoutValue(0)) });
    let mut c = cmd_with(a);
    c.fix_timestamps(NOW);
    let once = times(&c);
    c.fix_timestamps(NOW);
    assert_eq!(times(&c), once);
}

#[test]
fn fix_timestamps_without_activity_changes_nothing() {
    let mut c = ActivityCmd::empty();
    c.fix_timestamps(NOW);
    assert!(c.args.is_none());
    assert_eq!(c.cmd, "");
}

#[test]
fn buttons_split_into_labels_and_urls() {
    let mut a = activity();
    a.buttons = Some(vec![
        ButtonValue::Link(Button { label: "Play".to_string(), url: "https://a".to_string() }),
        ButtonValue::Link(Button { label: "Watch".to_string(), url: "https://b".to_string() }),
    ]);
    a.metadata = Some(Metadata { button_urls: None, artist_ids: None, album_id: Some("x".to_string()), context_uri: None });
    let mut c = cmd_with(a);
    c.fix_buttons();
    let a = c.args.unwrap().activity.unwrap();
    let labels: Vec<String> = a.buttons.unwrap().into_iter().map(|b| match b {
        ButtonValue::Label(l) => l,
        _ => panic!("not a label"),
    }).collect();
    assert_eq!(labels, vec!["Play".to_string(), "Watch".to_string()]);
    let m = a.metadata.unwrap();
    assert_eq!(m.button_urls, Some(vec!["https://a".to_string(), "https://b".to_string()]));
    assert_eq!(m.album_id, Some("x".to_string()));
}

#[test]
fn unknown_button_shapes_pass_through() {
    let mut a = activity();
    a.buttons = Some(vec![
        ButtonValue::Link(Button { label: "Play".to_string(), url: "https://a".to_string() }),
        ButtonValue::Other("42".to_string()),
    ]);
    let mut c = cmd_with(a);
    c.fix_buttons();
    let a = c.args.unwrap().activity.unwrap();
    assert!(a.metadata.is_none());
    let bs = a.buttons.unwrap();
    assert_eq!(bs.len(), 2);
    assert!(matches!(&bs[0], ButtonValue::Link(b) if b.label == "Play"));
}

#[test]
fn empty_button_list_gives_empty_urls() {
    let mut a = activity();
    a.buttons = Some(vec![]);
    let mut c = cmd_with(a);
    c.fix_buttons();
    let a = c.args.unwrap().activity.unwrap();
    assert_eq!(a.metadata.unwrap().button_urls, Some(vec![]));
}

#[test]
fn instanced_activity_gets_flag_one() {
    let mut a = activity();
    a.instance = Some(true);
    let mut c = cmd_with(a);
    c.fix_flags();
    assert_eq!(c.args.unwrap().activity.unwrap().flags, Some(1));
}

#[test]
fn existing_flags_are_kept() {
    let mut a = activity();
    a.instance = Some(true);
    a.flags = Some(8);
    let mut c = cmd_with(a);
    c.fix(NOW);
    assert_eq!(c.args.unwrap().activity.unwrap().flags, Some(8));
    let mut b = activity();
    b.instance = Some(false);
    let mut d = cmd_with(b);
    d.fix_flags();
    assert_eq!(d.args.unwrap().activity.unwrap().flags, None);
}

#[test]
fn fix_applies_all_three() {
    let mut a = activity();
    a.instance = Some(true);
    a.timestamps = Some(Timestamps { start: Some(TimeoutValue(1_000)), end: None });
    a.buttons = Some(vec![ButtonValue::Link(Button { label: "L".to_string(), url: "U".to_string() })]);
    let mut c = cmd_with(a);
    c.fix(NOW);
    let a = c.args.unwrap().activity.unwrap();
    assert_eq!(a.timestamps.unwrap().start, Some(TimeoutValue(1_000_000)));
    assert_eq!(a.flags, Some(1));
    assert_eq!(a.metadata.unwrap().button_urls, Some(vec!["U".to_string()]));
}
