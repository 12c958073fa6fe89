use jormungandr::show::{
    do_for_all_alias, show_logs_for, ActiveVotePlans, LogLine, Node, Show, ShowBlockHeight,
    ShowError, ShowFragmentCount, ShowFragments, ShowLogs, ShowNodeStats, ShowPeerStats,
    ShowStatus, Subject, UserInteractionController,
};

fn line(text: &str, is_error: bool) -> LogLine {
    LogLine { text: text.to_string(), is_error }
}

fn node(alias: &str, count: usize) -> Node {
    Node {
        alias: alias.to_string(),
        logs: vec![
            line("starting", false),
            line("cannot reach peer", true),
            line("block 1 applied", false),
            line("peer timed out", true),
            line("block 2 applied", false),
        ],
        fragment_count: count,
        fragments: format!("[fragments of {}]", alias),
        block_height: format!("Some(\"{}\")", count * 10),
        stats: format!("stats of {}", alias),
        vote_plans: "[]".to_string(),
    }
}

fn controller() -> UserInteractionController {
    UserInteractionController {
        nodes: vec![node("leader1", 3), node("passive", 12)],
        legacy_nodes: vec![node("legacy", 7)],
        vit_stations: vec!["vit".to_string()],
        proxies: vec!["proxy1".to_string(), "proxy2".to_string()],
    }
}

fn alias(a: &str) -> Option<String> {
    Some(a.to_string())
}

fn not_found(r: Result<Vec<String>, ShowError>) -> String {
    match r {
        Err(ShowError::NodeNotFound(a)) => a,
        Ok(lines) => panic!("{:?}", lines),
    }
}

#[test]
fn status_lists_nodes_stations_and_proxies() {
    let c = controller();
    assert_eq!(
        ShowStatus { alias: None }.exec(&c).unwrap(),
        vec![
            "leader1 is up",
            "passive is up",
            "legacy is up",
            "vit is up",
            "proxy1 is up",
            "proxy2 is up"
        ]
    );
    assert_eq!(
        ShowStatus { alias: alias("legacy") }.exec(&c).unwrap(),
        vec!["legacy is up", "vit is up", "proxy1 is up", "proxy2 is up"]
    );
    assert_eq!(not_found(ShowStatus { alias: alias("nobody") }.exec(&c)), "nobody");
}

#[test]
fn peer_stats_list_nodes_only() {
    let c = controller();
    assert_eq!(
        ShowPeerStats { alias: None }.exec(&c).unwrap(),
        vec!["leader1 is up", "passive is up", "legacy is up"]
    );
    assert_eq!(ShowPeerStats { alias: alias("passive") }.exec(&c).unwrap(), vec!["passive is up"]);
}

#[test]
fn fragment_counts() {
    let c = controller();
    assert_eq!(
        ShowFragmentCount { alias: None }.exec(&c).unwrap(),
        vec!["leader1: 3", "passive: 12", "legacy: 7"]
    );
    assert_eq!(ShowFragmentCount { alias: alias("legacy") }.exec(&c).unwrap(), vec!["legacy: 7"]);
    assert_eq!(not_found(ShowFragmentCount { alias: alias("") }.exec(&c)), "");
}

#[test]
fn fragments_of_legacy_nodes_are_counted() {
    let c = controller();
    assert_eq!(
        ShowFragments { alias: None }.exec(&c).unwrap(),
        vec!["leader1: [fragments of leader1]", "passive: [fragments of passive]", "legacy: 7"]
    );
}

#[test]
fn block_height_stats_and_vote_plans() {
    let c = controller();
    assert_eq!(
        ShowBlockHeight { alias: alias("leader1") }.exec(&c).unwrap(),
        vec!["leader1: Some(\"30\")"]
    );
    assert_eq!(
        ShowNodeStats { alias: None }.exec(&c).unwrap(),
        vec!["leader1: stats of leader1", "passive: stats of passive", "legacy: stats of legacy"]
    );
    assert_eq!(
        ActiveVotePlans { alias: alias("passive") }.exec(&c).unwrap(),
        vec!["passive: []"]
    );
    assert_eq!(not_found(ActiveVotePlans { alias: alias("x") }.exec(&c)), "x");
}

#[test]
fn first_node_of_an_alias_is_taken() {
    let mut c = controller();
    c.nodes.push(node("legacy", 99));
    c.nodes.push(node("legacy", 100));
    // a node goes before a legacy node of the same alias, and the first of two nodes
    assert_eq!(
        ShowFragmentCount { alias: alias("legacy") }.exec(&c).unwrap(),
        vec!["legacy: 99"]
    );
}

#[test]
fn all_logs() {
    let c = controller();
    let show = ShowLogs { alias: alias("leader1"), only_errors: false, contains: None, tail: None };
    assert_eq!(
        show.exec(&c).unwrap(),
        vec![
            "leader1:",
            "\tstarting",
            "\tcannot reach peer",
            "\tblock 1 applied",
            "\tpeer timed out",
            "\tblock 2 applied"
        ]
    );
}

#[test]
fn logs_of_all_nodes() {
    let c = controller();
    let show = ShowLogs { alias: None, only_errors: true, contains: None, tail: None };
    assert_eq!(
        show.exec(&c).unwrap(),
        vec![
            "leader1:",
            "\tcannot reach peer",
            "\tpeer timed out",
            "passive:",
            "\tcannot reach peer",
            "\tpeer timed out",
            "legacy:",
            "\tcannot reach peer",
            "\tpeer timed out"
        ]
    );
}

#[test]
fn only_errors_goes_before_the_other_options() {
    let c = controller();
    let show = ShowLogs {
        alias: alias("passive"),
        only_errors: true,
        contains: Some("block".to_string()),
        tail: Some(1),
    };
    assert_eq!(show.exec(&c).unwrap(), vec!["passive:", "\tcannot reach peer", "\tpeer timed out"]);
}

#[test]
fn logs_that_contain_a_text() {
    let c = controller();
    let show = ShowLogs {
        alias: alias("leader1"),
        only_errors: false,
        contains: Some("block".to_string()),
        tail: Some(1),
    };
    assert_eq!(show.exec(&c).unwrap(), vec!["leader1:", "\tblock 1 applied", "\tblock 2 applied"]);
    let none = ShowLogs {
        alias: alias("leader1"),
        only_errors: false,
        contains: Some("blocks".to_string()),
        tail: None,
    };
    assert_eq!(none.exec(&c).unwrap(), vec!["leader1:"]);
    let every = ShowLogs {
        alias: alias("leader1"),
        only_errors: false,
        contains: Some(String::new()),
        tail: None,
    };
    assert_eq!(every.exec(&c).unwrap().len(), 6);
    // the pattern must be inside the line, not the other way round
    let longer = ShowLogs {
        alias: alias("leader1"),
        only_errors: false,
        contains: Some("starting now".to_string()),
        tail: None,
    };
    assert_eq!(longer.exec(&c).unwrap(), vec!["leader1:"]);
    let part = ShowLogs {
        alias: alias("leader1"),
        only_errors: false,
        contains: Some("tart".to_string()),
        tail: None,
    };
    assert_eq!(part.exec(&c).unwrap(), vec!["leader1:", "\tstarting"]);
}

#[test]
fn newest_logs_come_first() {
    let c = controller();
    let show =
        ShowLogs { alias: alias("leader1"), only_errors: false, contains: None, tail: Some(2) };
    assert_eq!(show.exec(&c).unwrap(), vec!["leader1:", "\tblock 2 applied", "\tpeer timed out"]);
    let none =
        ShowLogs { alias: alias("leader1"), only_errors: false, contains: None, tail: Some(0) };
    assert_eq!(none.exec(&c).unwrap(), vec!["leader1:"]);
    let more =
        ShowLogs { alias: alias("leader1"), only_errors: false, contains: None, tail: Some(50) };
    assert_eq!(
        more.exec(&c).unwrap(),
        vec![
            "leader1:",
            "\tblock 2 applied",
            "\tpeer timed out",
            "\tblock 1 applied",
            "\tcannot reach peer",
            "\tstarting"
        ]
    );
}

#[test]
fn show_logs_for_one_log() {
    let logs = vec![line("a", false), line("b", true), line("ab", false)];
    assert_eq!(show_logs_for(false, &None, "n", None, &logs), vec!["n:", "\ta", "\tb", "\tab"]);
    assert_eq!(show_logs_for(true, &None, "n", None, &logs), vec!["n:", "\tb"]);
    assert_eq!(
        show_logs_for(false, &Some("a".to_string()), "n", None, &logs),
        vec!["n:", "\ta", "\tab"]
    );
    assert_eq!(show_logs_for(false, &None, "n", Some(1), &logs), vec!["n:", "\tab"]);
    assert_eq!(show_logs_for(false, &None, "n", None, &Vec::new()), vec!["n:"]);
}

#[test]
fn show_dispatches_to_its_command() {
    let c = controller();
    let one = alias("passive");
    assert_eq!(
        Show::Status(ShowStatus { alias: one.clone() }).exec(&c).unwrap(),
        ShowStatus { alias: one.clone() }.exec(&c).unwrap()
    );
    assert_eq!(
        Show::FragmentCount(ShowFragmentCount { alias: one.clone() }).exec(&c).unwrap(),
        vec!["passive: 12"]
    );
    assert_eq!(
        Show::Fragments(ShowFragments { alias: one.clone() }).exec(&c).unwrap(),
        vec!["passive: [fragments of passive]"]
    );
    assert_eq!(
        Show::BlockHeight(ShowBlockHeight { alias: one.clone() }).exec(&c).unwrap(),
        vec!["passive: Some(\"120\")"]
    );
    assert_eq!(
        Show::PeerStats(ShowPeerStats { alias: one.clone() }).exec(&c).unwrap(),
        vec!["passive is up"]
    );
    assert_eq!(
        Show::Stats(ShowNodeStats { alias: one.clone() }).exec(&c).unwrap(),
        vec!["passive: stats of passive"]
    );
    assert_eq!(
        Show::VotePlans(ActiveVotePlans { alias: one.clone() }).exec(&c).unwrap(),
        vec!["passive: []"]
    );
    assert_eq!(
        Show::Logs(ShowLogs { alias: one, only_errors: true, contains: None, tail: None })
            .exec(&c)
            .unwrap(),
        vec!["passive:", "\tcannot reach peer", "\tpeer timed out"]
    );
    assert_eq!(
        not_found(Show::Stats(ShowNodeStats { alias: alias("gone") }).exec(&c)),
        "gone"
    );
}

#[test]
fn do_for_all_alias_over_no_nodes() {
    let empty: Vec<Node> = Vec::new();
    let r = do_for_all_alias(Subject::Stats, false, &None, None, &None, &empty, &empty);
    assert_eq!(r.unwrap(), Vec::<String>::new());
    let r = do_for_all_alias(Subject::Stats, false, &None, None, &alias("a"), &empty, &empty);
    assert_eq!(not_found(r), "a");
}
