use vsv::commands::{build_views, render_all, status_header};
use vsv::runit::{get_services, RawDirEntry, RunitService};
use vsv::service::{FieldStyle, Service, ServiceSnapshot, ServiceState};

fn row_fields(line: &str) -> Vec<String> {
    let widths = [1usize, 20, 7, 9, 8, 17];
    let chars: Vec<char> = line.chars().collect();
    let mut fields: Vec<String> = Vec::new();
    let mut pos = 0usize;
    for w in widths {
        assert_eq!(chars[pos], ' ', "separator space expected");
        pos += 1;
        let field: String = chars[pos..pos + w].iter().collect();
        fields.push(field.trim_end().to_string());
        pos += w;
    }
    assert_eq!(chars[pos], ' ', "separator space expected");
    pos += 1;
    fields.push(chars[pos..].iter().collect());
    fields
}

fn plain_snap(pid: Option<&str>, cmdline: Option<&str>) -> ServiceSnapshot {
    ServiceSnapshot {
        down_exists: false,
        stat_content: Some("run\n".to_string()),
        pid_content: pid.map(|s| s.to_string()),
        cmdline_content: cmdline.map(|s| s.to_string()),
        elapsed_secs: Some(60),
        pstree_output: None,
    }
}

#[test]
fn header_columns() {
    let fields = row_fields(&status_header());
    assert_eq!(fields, vec!["", "SERVICE", "STATE", "ENABLED", "PID", "COMMAND", "TIME"]);
}

#[test]
fn three_services_render_in_name_order() {
    // services foo (pid 123), bar (pid 234) and baz (no pid), all running:
    // three rows in the order bar, baz, foo, with baz's pid and command
    // columns degraded to the placeholder
    let entries = vec![
        RawDirEntry { name: Some("foo".to_string()), is_dir: true },
        RawDirEntry { name: Some("bar".to_string()), is_dir: true },
        RawDirEntry { name: Some("baz".to_string()), is_dir: true },
    ];
    let services = get_services("/svc", &entries, false, &None).unwrap();
    let snaps = vec![
        plain_snap(Some("234\n"), Some("bar-cmd\0arg\0")),
        plain_snap(None, None),
        plain_snap(Some("123\n"), Some("foo-cmd\0arg\0")),
    ];
    let (views, diags) = build_views(&services, false, snaps);
    let rows = render_all(&views);
    assert_eq!(rows.len(), 3);
    assert_eq!(
        row_fields(&rows[0]),
        vec!["✔", "bar", "run", "true", "234", "bar-cmd", "1 minute"]
    );
    assert_eq!(row_fields(&rows[1]), vec!["✔", "baz", "run", "true", "---", "---", "1 minute"]);
    assert_eq!(
        row_fields(&rows[2]),
        vec!["✔", "foo", "run", "true", "123", "foo-cmd", "1 minute"]
    );
    assert!(diags[0].is_empty());
    assert_eq!(diags[1].len(), 1, "the missing pid leaves one diagnostic");
    assert!(diags[2].is_empty());
}

#[test]
fn long_name_truncated_to_column_width() {
    let name = "some-really-long-service-name";
    let entries = vec![RawDirEntry { name: Some(name.to_string()), is_dir: true }];
    let services = get_services("/svc", &entries, false, &None).unwrap();
    let (views, _) = build_views(&services, false, vec![plain_snap(Some("1"), Some("cmd\0"))]);
    let rows = render_all(&views);
    let fields = row_fields(&rows[0]);
    assert_eq!(fields[1], "some-really-long-...");
    assert_eq!(fields[1].chars().count(), 20);
}

#[test]
fn unparsable_pid_renders_like_missing_pid() {
    let rec = RunitService::new("bat", "/svc/bat");
    let bad = plain_snap(Some("uh oh this one won't parse"), None);
    let missing = plain_snap(None, None);
    let (v1, d1) = Service::from_runit_service(&rec, false, bad);
    let (v2, d2) = Service::from_runit_service(&rec, false, missing);
    assert_eq!(v1.render(), v2.render());
    assert_eq!(d1, d2);
    assert_eq!(row_fields(&v1.render())[4], "---");
    assert_eq!(row_fields(&v1.render())[5], "---");
}

#[test]
fn pid_without_command_keeps_pid_and_reports() {
    let rec = RunitService::new("foo", "/svc/foo");
    let (view, diags) = Service::from_runit_service(&rec, false, plain_snap(Some("123"), None));
    assert_eq!(view.pid, Some(123));
    assert_eq!(view.command, None);
    assert_eq!(diags, vec!["/svc/foo: failed to get command for pid 123".to_string()]);
}

#[test]
fn missing_pid_reports_diagnostic() {
    let rec = RunitService::new("foo", "/svc/foo");
    let (view, diags) = Service::from_runit_service(&rec, false, plain_snap(None, None));
    assert_eq!(view.pid, None);
    assert_eq!(diags, vec!["/svc/foo: failed to get pid".to_string()]);
}

#[test]
fn state_maps_to_glyph_label_and_style() {
    assert_eq!(ServiceState::Run.get_char(), "✔");
    assert_eq!(ServiceState::Down.get_char(), "X");
    assert_eq!(ServiceState::Finish.get_char(), "X");
    assert_eq!(ServiceState::Unknown.get_char(), "?");
    assert_eq!(ServiceState::Run.label(), "run");
    assert_eq!(ServiceState::Down.label(), "down");
    assert_eq!(ServiceState::Finish.label(), "finish");
    assert_eq!(ServiceState::Unknown.label(), "n/a");
    assert_eq!(ServiceState::Run.get_style(), FieldStyle::Green);
    assert_eq!(ServiceState::Down.get_style(), FieldStyle::Red);
    assert_eq!(ServiceState::Finish.get_style(), FieldStyle::Yellow);
    assert_eq!(ServiceState::Unknown.get_style(), FieldStyle::Yellow);
}

#[test]
fn down_and_unknown_states_render() {
    let rec = RunitService::new("bar", "/svc/bar");
    let mut down = plain_snap(None, None);
    down.stat_content = Some("down\n".to_string());
    let (view, _) = Service::from_runit_service(&rec, false, down);
    let fields = row_fields(&view.render());
    assert_eq!(fields[0], "X");
    assert_eq!(fields[2], "down");

    let mut unknown = plain_snap(None, None);
    unknown.stat_content = Some("something-bad\n".to_string());
    let (view, _) = Service::from_runit_service(&rec, false, unknown);
    let fields = row_fields(&view.render());
    assert_eq!(fields[0], "?");
    assert_eq!(fields[2], "n/a");
}

#[test]
fn disabled_service_renders_false() {
    let rec = RunitService::new("bar", "/svc/bar");
    let mut snap = plain_snap(Some("234"), Some("bar-cmd\0"));
    snap.down_exists = true;
    let (view, _) = Service::from_runit_service(&rec, false, snap);
    let fields = row_fields(&view.render());
    assert_eq!(fields[3], "false");
    let (text, style) = view.format_enabled();
    assert_eq!(text, "false");
    assert_eq!(style, FieldStyle::Red);
}

#[test]
fn time_column_styles_by_age() {
    let rec = RunitService::new("foo", "/svc/foo");
    let mut snap = plain_snap(None, None);
    snap.elapsed_secs = Some(3);
    let (view, _) = Service::from_runit_service(&rec, false, snap);
    assert_eq!(view.format_time(), ("3 seconds".to_string(), FieldStyle::Red));

    let mut snap = plain_snap(None, None);
    snap.elapsed_secs = Some(10);
    let (view, _) = Service::from_runit_service(&rec, false, snap);
    assert_eq!(view.format_time(), ("10 seconds".to_string(), FieldStyle::Yellow));

    let mut snap = plain_snap(None, None);
    snap.elapsed_secs = Some(3600);
    let (view, _) = Service::from_runit_service(&rec, false, snap);
    assert_eq!(view.format_time(), ("1 hour".to_string(), FieldStyle::Dimmed));

    let mut snap = plain_snap(None, None);
    snap.elapsed_secs = None;
    let (view, _) = Service::from_runit_service(&rec, false, snap);
    assert_eq!(view.format_time(), ("---".to_string(), FieldStyle::Red));
}

#[test]
fn pstree_only_when_requested_and_pid_known() {
    let rec = RunitService::new("foo", "/svc/foo");

    let mut snap = plain_snap(Some("123"), Some("cmd\0"));
    snap.pstree_output = Some(Ok("tree-output\n".to_string()));
    let (view, _) = Service::from_runit_service(&rec, true, snap);
    assert_eq!(view.format_pstree(), ("\ntree-output\n".to_string(), FieldStyle::Dimmed));

    let mut snap = plain_snap(Some("123"), Some("cmd\0"));
    snap.pstree_output = Some(Err("boom".to_string()));
    let (view, _) = Service::from_runit_service(&rec, true, snap);
    assert_eq!(
        view.format_pstree(),
        ("\npstree call failed: boom\n".to_string(), FieldStyle::Red)
    );

    // not requested: dropped even when an output slipped in
    let mut snap = plain_snap(Some("123"), Some("cmd\0"));
    snap.pstree_output = Some(Ok("tree-output\n".to_string()));
    let (view, _) = Service::from_runit_service(&rec, false, snap);
    assert_eq!(view.format_pstree(), ("".to_string(), FieldStyle::Plain));

    // no pid: nothing to inspect
    let (view, _) = Service::from_runit_service(&rec, true, plain_snap(None, None));
    assert_eq!(view.format_pstree(), ("".to_string(), FieldStyle::Plain));
}
