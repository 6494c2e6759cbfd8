use rsrpc::detection::{DetectableActivity, Executable};
use rsrpc::process::{gate_passes, name_no_ext, Exec, ProcessServer};
use rsrpc::{RPCConfig, RPCServer};

fn exe(name: &str, args: Option<&str>) -> Executable {
    Executable { is_launcher: false, name: name.to_string(), os: "linux".to_string(), arguments: args.map(|a| a.to_string()) }
}

fn app(id: &str, name: &str, exes: Vec<Executable>) -> DetectableActivity {
    let mut a = DetectableActivity::sentinel();
    a.id = id.to_string();
    a.name = name.to_string();
    a.executables = Some(exes);
    a
}

fn minecraft() -> DetectableActivity {
    app("mc", "Minecraft", vec![exe(">java", Some("net.minecraft.client.main.Main"))])
}

fn proc_(pid: u64, path: &str, args: Option<&str>) -> Exec {
    Exec { pid, path: path.to_string(), arguments: args.map(|a| a.to_string()) }
}

#[test]
fn gated_match_with_arguments() {
    let s = ProcessServer::new(vec![minecraft()]).unwrap();
    let ps = vec![proc_(55, "/usr/bin/java", Some("-cp x.jar net.minecraft.client.main.Main --demo"))];
    let (found, state) = s.scan_for_processes(&ps, 1234);
    assert_eq!(found.len(), 1);
    assert_eq!(found[0].id, "mc");
    assert_eq!(found[0].name, "Minecraft");
    assert_eq!(found[0].pid, Some(55));
    assert_eq!(found[0].timestamp, Some("1234".to_string()));
    assert!(!state.obs_open);
}

#[test]
fn gated_match_without_arguments_is_dropped() {
    let s = ProcessServer::new(vec![minecraft()]).unwrap();
    let ps = vec![proc_(55, "/usr/bin/java", Some("-jar other.jar")), proc_(56, "/usr/bin/java", None)];
    let (found, _) = s.scan_for_processes(&ps, 1);
    assert!(found.is_empty());
}

#[test]
fn ungated_arguments_are_not_checked() {
    let s = ProcessServer::new(vec![app("l4d", "L4D2", vec![exe("left 4 dead 2/left4dead2.exe", Some("-game left4dead2"))])]).unwrap();
    let ps = vec![proc_(9, "C:\\Games\\Left 4 Dead 2\\left4dead2.exe", None)];
    let (found, _) = s.scan_for_processes(&ps, 1);
    assert_eq!(found.len(), 1);
    assert_eq!(found[0].id, "l4d");
}

#[test]
fn gate_check_directly() {
    let e = exe(">java", Some("Main"));
    assert!(gate_passes(&e, &Some("a Main b".to_string())));
    assert!(!gate_passes(&e, &Some("a main b".to_string())));
    assert!(!gate_passes(&e, &None));
    assert!(gate_passes(&exe("java", Some("Main")), &None));
}

#[test]
fn streaming_apps_are_noticed() {
    let s = ProcessServer::new(vec![]).unwrap();
    let (_, state) = s.scan_for_processes(&vec![proc_(1, "C:\\Program Files\\OBS\\bin\\OBS64.exe", None)], 1);
    assert!(state.obs_open);
    let (_, state) = s.scan_for_processes(&vec![proc_(1, "/opt/Streamlabs/app", None)], 1);
    assert!(state.obs_open);
    let (_, state) = s.scan_for_processes(&vec![proc_(1, "/usr/bin/bash", None)], 1);
    assert!(!state.obs_open);
}

#[test]
fn detections_keep_snapshot_order() {
    let s = ProcessServer::new(vec![app("a", "A", vec![exe("a.exe", None)]), app("b", "B", vec![exe("b.exe", None)])]).unwrap();
    let ps = vec![proc_(2, "/x/b.exe", None), proc_(3, "/y/none", None), proc_(1, "/x/a.exe", None)];
    let (found, _) = s.scan_for_processes(&ps, 1);
    let ids: Vec<&str> = found.iter().map(|d| d.id.as_str()).collect();
    assert_eq!(ids, vec!["b", "a"]);
    assert_eq!(found[0].pid, Some(2));
}

#[test]
fn custom_catalog_is_searched_after_builtin() {
    let mut s = ProcessServer::new(vec![app("a", "A", vec![exe("game.exe", None)])]).unwrap();
    assert!(s.append_detectables(vec![app("c", "Custom", vec![exe("game.exe", None), exe("mine.exe", None)])]));
    let (found, _) = s.scan_for_processes(&vec![proc_(1, "/g/game.exe", None), proc_(2, "/g/mine.exe", None)], 1);
    let ids: Vec<&str> = found.iter().map(|d| d.id.as_str()).collect();
    assert_eq!(ids, vec!["a", "c"]);
    assert!(s.remove_detectable_by_name("Custom".to_string()));
    let (found, _) = s.scan_for_processes(&vec![proc_(2, "/g/mine.exe", None)], 1);
    assert!(found.is_empty());
}

#[test]
fn report_sends_head_or_sentinel() {
    let mut s = ProcessServer::new(vec![]).unwrap();
    let ev = s.report(vec![]);
    assert_eq!(ev.activity.id, "null");
    assert_eq!(ev.activity.name, "");
    let mut d = app("a", "A", vec![]);
    d.pid = Some(3);
    let ev = s.report(vec![d.clone(), app("b", "B", vec![])]);
    assert_eq!(ev.activity.id, "a");
    assert_eq!(ev.activity.pid, Some(3));
    let ev = s.report(vec![d]);
    assert_eq!(ev.activity.id, "a");
}

#[test]
fn name_without_extension() {
    assert_eq!(name_no_ext(&"game.tar.gz".to_string()), "game");
    assert_eq!(name_no_ext(&"game".to_string()), "game");
    assert_eq!(name_no_ext(&".hidden".to_string()), "");
}

#[test]
fn facade_ignores_catalog_changes_before_start() {
    let mut srv = RPCServer::new(vec![minecraft()], RPCConfig::default());
    assert!(!srv.is_started());
    assert!(srv.on_process_scan_complete());
    assert!(!srv.append_detectables(vec![app("x", "X", vec![exe("x.exe", None)])]));
    assert!(!srv.remove_detectable_by_name("X".to_string()));
    assert!(srv.scan_for_processes(&vec![], 1).is_none());
    assert!(srv.start());
    assert!(srv.is_started());
    assert!(!srv.on_process_scan_complete());
    assert!(srv.append_detectables(vec![app("x", "X", vec![exe("x.exe", None)])]));
    let (found, _) = srv.scan_for_processes(&vec![proc_(4, "/bin/x.exe", None)], 1).unwrap();
    assert_eq!(found[0].id, "x");
    let ev = srv.report(found).unwrap();
    assert_eq!(ev.activity.id, "x");
}

#[test]
fn default_config_enables_everything() {
    let c = RPCConfig::default();
    assert!(c.enable_process_scanner && c.enable_ipc_connector && c.enable_websocket_connector && c.enable_secondary_events);
}

#[test]
fn cmdline_is_split_at_nul() {
    let e = rsrpc::process::parse_cmdline(7, "/usr/bin/java\0-cp\0x.jar\0").unwrap();
    assert_eq!(e.pid, 7);
    assert_eq!(e.path, "/usr/bin/java");
    assert_eq!(e.arguments, Some("-cp x.jar ".to_string()));
    let lone = rsrpc::process::parse_cmdline(8, "/bin/sh").unwrap();
    assert_eq!(lone.arguments, None);
    assert!(rsrpc::process::parse_cmdline(9, "").is_none());
}

#[test]
fn detection_copies_the_whole_catalog_entry() {
    let mut entry = minecraft();
    entry.description = Some("blocks".to_string());
    entry.aliases = Some(vec!["mc".to_string()]);
    let s = ProcessServer::new(vec![entry]).unwrap();
    let ps = vec![proc_(55, "/usr/bin/java", Some("net.minecraft.client.main.Main"))];
    let (found, _) = s.scan_for_processes(&ps, 9);
    assert_eq!(found[0].description, Some("blocks".to_string()));
    assert_eq!(found[0].aliases, Some(vec!["mc".to_string()]));
    assert_eq!(found[0].executables.as_ref().unwrap()[0].name, ">java");
}

#[test]
fn sentinel_report_is_blank() {
    let mut s = ProcessServer::new(vec![]).unwrap();
    let ev = s.report(vec![]);
    assert!(ev.activity.executables.is_none() && ev.activity.description.is_none());
    assert!(ev.activity.pid.is_none() && ev.activity.timestamp.is_none() && !ev.activity.hook);
}
